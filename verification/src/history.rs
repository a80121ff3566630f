//! What holds over whole histories of the service.

use crate::model::{ChunkOutcome, ManifestView, ServiceView, UpdateView, WriteView};
use crate::types::{ConnectEvent, Config, FlashOp, InboundPublish, OpProgress, Route, StatusCode};
use vstd::prelude::*;

verus! {

/// One operation on the service.
pub enum Event {
    /// `begin_startup`.
    Startup(ConnectEvent),
    /// `abort`.
    Abort,
    /// `complete_flash`.
    FlashCompleted(bool),
    /// `handle`, for a trigger.
    Trigger(Option<ManifestView>),
    /// `handle`, for a chunk: its resource identifier, offset and payload.
    Chunk(Seq<u8>, u32, Seq<u8>),
    /// `step`.
    Step(OpProgress),
    /// `step_started`.
    StepStarted(bool),
    /// `subscription`.
    Subscription(usize),
}

/// Whether an event can happen: the resource identifier of a manifest fits its storage.
pub open spec fn possible(event: Event) -> bool {
    event matches Event::Trigger(Some(manifest)) ==> manifest.resource_id.len()
        <= crate::storage::MAX_RESOURCE_ID_BYTES
}

/// The service after one operation.
pub open spec fn after(service: ServiceView, event: Event) -> ServiceView {
    match event {
        Event::Startup(event) => service.startup(event),
        Event::Abort => service.aborted(),
        Event::FlashCompleted(success) => service.flash_completed(success),
        Event::Trigger(manifest) => service.triggered(manifest),
        Event::Chunk(resource_id, offset, payload) => service.chunk_handled(
            resource_id,
            offset,
            payload,
        ),
        Event::Step(progress) => service.settled(progress),
        Event::StepStarted(in_flight) => service.started(in_flight),
        Event::Subscription(max_rx_packet_size) => service.with_rx_limit(max_rx_packet_size),
    }
}

/// The service after a sequence of operations.
pub open spec fn reached(service: ServiceView, events: Seq<Event>) -> ServiceView
    decreases events.len(),
{
    if events.len() == 0 {
        service
    } else {
        after(reached(service, events.drop_last()), events.last())
    }
}

/// The flash write that an operation asks for, if it asks for one.
pub open spec fn write_request(service: ServiceView, event: Event) -> Option<WriteView> {
    match event {
        Event::Chunk(resource_id, offset, payload) => service.chunk_write(
            resource_id,
            offset,
            payload,
        ),
        _ => None,
    }
}

/// The flash writes that a sequence of operations asks for, in order.
pub open spec fn write_requests(service: ServiceView, events: Seq<Event>) -> Seq<WriteView>
    decreases events.len(),
{
    if events.len() == 0 {
        Seq::empty()
    } else {
        let earlier = write_requests(service, events.drop_last());
        match write_request(reached(service, events.drop_last()), events.last()) {
            Some(write) => earlier.push(write),
            None => earlier,
        }
    }
}

/// Every publish that `handle` takes amounts to a trigger, a chunk, or no event at all, and asks
/// for the flash write that this event asks for.
pub proof fn publish_is_an_event(
    service: ServiceView,
    publish: InboundPublish<'_, '_>,
) -> (event: Option<Event>)
    ensures
        match event {
            Some(event) => {
                &&& event is Trigger || event is Chunk
                &&& possible(event)
                &&& service.handled(publish) == after(service, event)
                &&& crate::model::requested_write(service.reply(publish)) == write_request(
                    service,
                    event,
                )
            },
            None => {
                &&& service.handled(publish) == service
                &&& crate::model::requested_write(service.reply(publish)) is None
            },
        },
{
    let list = crate::properties::property_list(publish.properties);
    match service.route(publish.topic@) {
        Route::Other => None,
        Route::Trigger => Some(Event::Trigger(crate::model::payload_manifest(publish.trigger))),
        Route::Chunk => match crate::properties::chunk_request(list) {
            Some((resource_id, offset)) => Some(
                Event::Chunk(resource_id, offset, publish.payload@),
            ),
            None => None,
        },
    }
}

/// Every operation keeps what holds of every service.
pub proof fn every_operation_keeps_wf(service: ServiceView, event: Event)
    requires
        service.wf(),
        possible(event),
    ensures
        after(service, event).wf(),
{
    match event {
        Event::Trigger(Some(manifest)) => {
            assert(UpdateView::start(manifest).id == crate::text::decimal(
                manifest.sequence as nat,
            ));
        },
        Event::Chunk(resource_id, offset, payload) => {
            if service.chunk_outcome(resource_id, offset, payload) is Written {
                crate::laws::writes_stay_aligned(service, resource_id, offset, payload);
            }
        },
        _ => {},
    }
}

/// The operations before the last one of a history are possible where all are.
proof fn lemma_possible_before(events: Seq<Event>)
    requires
        events.len() > 0,
        forall|i: int| 0 <= i < events.len() ==> possible(#[trigger] events[i]),
    ensures
        possible(events.last()),
        forall|i: int|
            0 <= i < events.drop_last().len() ==> possible(#[trigger] events.drop_last()[i]),
{
    assert(possible(events[events.len() - 1]));
    assert forall|i: int| 0 <= i < events.drop_last().len() implies possible(
        #[trigger] events.drop_last()[i],
    ) by {
        assert(events.drop_last()[i] == events[i]);
    }
}

/// In every state that a service can reach, the phase, the transfer and the outstanding flash
/// operation agree: an idle service has no transfer, a flash operation is outstanding exactly while
/// the phase says so, an active transfer has an aligned progress below its image size, which lies
/// within the capacity, and a complete one has all of its image.
pub proof fn reached_states_are_consistent(prefix: Seq<char>, config: Config, events: Seq<Event>)
    requires
        crate::model::topics_fit(prefix),
        crate::model::chunk_sizes_valid(config),
        forall|i: int| 0 <= i < events.len() ==> possible(#[trigger] events[i]),
    ensures
        ({
            let service = reached(ServiceView::initial(prefix, config), events);
            &&& service.wf()
            &&& service.prefix == prefix
            &&& service.config() == config
            &&& service.state is Idle <==> service.update is None
            &&& service.state is Preparing <==> service.flash == Some(FlashOp::Prepare)
            &&& service.state is Writing <==> (service.flash is Some && service.flash->0 is Write)
            &&& crate::model::is_active(service.state) ==> {
                &&& service.update->0.next_offset < service.update->0.size <= config.capacity
                &&& service.update->0.next_offset as nat % (config.write_size as nat) == 0
            }
            &&& service.state is Complete ==> service.update->0.next_offset
                == service.update->0.size
        }),
    decreases events.len(),
{
    let initial = ServiceView::initial(prefix, config);
    if events.len() > 0 {
        lemma_possible_before(events);
        reached_states_are_consistent(prefix, config, events.drop_last());
        every_operation_keeps_wf(reached(initial, events.drop_last()), events.last());
        setup_never_changes(reached(initial, events.drop_last()), events.last());
    }
    assert(reached(initial, events).config().write_size == config.write_size);
}

/// No operation changes the topic root or the limits of a service.
pub proof fn setup_never_changes(service: ServiceView, event: Event)
    ensures
        after(service, event).prefix == service.prefix,
        after(service, event).config() == service.config(),
{
}

/// A transfer once started stays the transfer of the service: no operation replaces it or changes
/// what its manifest declared, and its progress never goes back.
pub proof fn transfer_only_progresses(service: ServiceView, event: Event)
    requires
        service.wf(),
        service.update is Some,
    ensures
        ({
            let update = service.update->0;
            let later = after(service, event).update;
            &&& later is Some
            &&& later->0.next_offset >= update.next_offset
            &&& later->0 == UpdateView { next_offset: later->0.next_offset, ..update }
        }),
{
}

/// Whether the operation at `i` in a history is a trigger that declares `manifest` and starts the
/// transfer.
pub open spec fn accepted_at(
    service: ServiceView,
    events: Seq<Event>,
    i: int,
    manifest: ManifestView,
) -> bool {
    &&& 0 <= i < events.len()
    &&& events[i] == Event::Trigger(Some(manifest))
    &&& reached(service, events.take(i)).trigger_outcome(Some(manifest)) is Accepted
}

/// From the accepted trigger on, over the rest of the history, the transfer is the one that this
/// trigger declared: the status shows its sequence number and image size, and chunks are asked for
/// under its resource identifier.
pub proof fn status_names_accepted_trigger(
    prefix: Seq<char>,
    config: Config,
    events: Seq<Event>,
    i: int,
    manifest: ManifestView,
    code: StatusCode,
)
    requires
        crate::model::topics_fit(prefix),
        crate::model::chunk_sizes_valid(config),
        forall|k: int| 0 <= k < events.len() ==> possible(#[trigger] events[k]),
        accepted_at(ServiceView::initial(prefix, config), events, i, manifest),
    ensures
        ({
            let service = reached(ServiceView::initial(prefix, config), events);
            &&& service.update is Some
            &&& service.update->0.describes(manifest)
            &&& service.status(code).id == crate::text::decimal(manifest.sequence as nat)
            &&& service.status(code).size == manifest.size
            &&& service.correlation() == manifest.resource_id
        }),
    decreases events.len(),
{
    let initial = ServiceView::initial(prefix, config);
    let before = events.drop_last();
    lemma_possible_before(events);
    if i == events.len() - 1 {
        assert(events.take(i) =~= before);
    } else {
        assert(before.take(i) =~= events.take(i));
        assert(before[i] == events[i]);
        status_names_accepted_trigger(prefix, config, before, i, manifest, code);
        reached_states_are_consistent(prefix, config, before);
        transfer_only_progresses(reached(initial, before), events.last());
    }
}

/// A service that is not idle has accepted a trigger, and its transfer is the one that this
/// trigger declared.
proof fn lemma_transfer_was_accepted(prefix: Seq<char>, config: Config, events: Seq<Event>) -> (r: (
    int,
    ManifestView,
))
    requires
        crate::model::topics_fit(prefix),
        crate::model::chunk_sizes_valid(config),
        forall|k: int| 0 <= k < events.len() ==> possible(#[trigger] events[k]),
        !(reached(ServiceView::initial(prefix, config), events).state is Idle),
    ensures
        accepted_at(ServiceView::initial(prefix, config), events, r.0, r.1),
    decreases events.len(),
{
    let initial = ServiceView::initial(prefix, config);
    let before = events.drop_last();
    assert(events.len() > 0);
    lemma_possible_before(events);
    reached_states_are_consistent(prefix, config, before);
    if reached(initial, before).state is Idle {
        let last = events.len() - 1;
        assert(events.take(last) =~= before);
        (last, events.last()->Trigger_0->0)
    } else {
        let (i, manifest) = lemma_transfer_was_accepted(prefix, config, before);
        assert(before.take(i) =~= events.take(i));
        (i, manifest)
    }
}

/// What a status shows, in every state that a service can reach: the code it was asked for, the
/// phase and the limits of the service; while idle no identifier, offset or size; and otherwise
/// the sequence number and image size of the trigger that was accepted, with a progress within the
/// image.
pub proof fn status_shows_transfer(
    prefix: Seq<char>,
    config: Config,
    events: Seq<Event>,
    code: StatusCode,
)
    requires
        crate::model::topics_fit(prefix),
        crate::model::chunk_sizes_valid(config),
        forall|k: int| 0 <= k < events.len() ==> possible(#[trigger] events[k]),
    ensures
        ({
            let initial = ServiceView::initial(prefix, config);
            let service = reached(initial, events);
            let status = service.status(code);
            &&& status.code == code
            &&& status.state == service.state
            &&& status.mtu == config.max_chunk_size
            &&& status.write_size == config.write_size
            &&& status.id.len() == 0 <==> service.state is Idle
            &&& service.state is Idle ==> status.next_offset == 0 && status.size == 0
            &&& status.next_offset <= status.size
            &&& !(service.state is Idle) ==> exists|i: int, manifest: ManifestView|
                #[trigger] accepted_at(initial, events, i, manifest) && status.id
                    == crate::text::decimal(manifest.sequence as nat) && status.size
                    == manifest.size && service.correlation() == manifest.resource_id
        }),
{
    let service = reached(ServiceView::initial(prefix, config), events);
    reached_states_are_consistent(prefix, config, events);
    crate::laws::status_is_consistent(service, code);
    assert(service.config().max_chunk_size == config.max_chunk_size);
    assert(service.config().write_size == config.write_size);
    if !(service.state is Idle) {
        let (i, manifest) = lemma_transfer_was_accepted(prefix, config, events);
        status_names_accepted_trigger(prefix, config, events, i, manifest, code);
    }
}

/// What happens to the connection and the MQTT queue leaves the transfer alone.
pub proof fn connection_leaves_transfer_alone(service: ServiceView, event: Event)
    requires
        event is Startup || event is Step || event is StepStarted || event is Subscription,
    ensures
        after(service, event).state == service.state,
        after(service, event).update == service.update,
        after(service, event).flash == service.flash,
{
}

/// A staged or failed transfer stays staged or failed, with the progress it had.
pub proof fn terminal_states_are_final(service: ServiceView, event: Event)
    requires
        service.wf(),
        service.state is Complete || service.state is Error,
    ensures
        after(service, event).state == service.state,
        after(service, event).update == service.update,
        after(service, event).flash is None,
{
}

/// Whether a flash write keeps to the limits: an aligned offset within the image, an aligned length
/// within the chunk limit, an end within the capacity, and the digest exactly if it reaches the
/// end of the image.
pub open spec fn write_within(write: WriteView, config: Config) -> bool {
    &&& write.offset as nat % (config.write_size as nat) == 0
    &&& write.offset < write.image_size
    &&& 0 < write.payload.len() <= config.max_chunk_size
    &&& write.payload.len() % (config.write_size as nat) == 0
    &&& write.offset + write.payload.len() <= config.capacity
    &&& write.fnv1a64 is Some <==> write.offset + write.payload.len() >= write.image_size
}

/// Whether flash writes come in order: the first one starts at the first byte of the image, each
/// further one where the one before it ended, all keep to the limits, and only the last one may
/// carry the digest.
pub open spec fn in_order(writes: Seq<WriteView>, config: Config) -> bool {
    &&& writes.len() > 0 ==> writes[0].offset == 0
    &&& forall|i: int, j: int|
        #![trigger writes[i], writes[j]]
        0 <= i && j == i + 1 && j < writes.len() ==> writes[j].offset == writes[i].offset
            + writes[i].payload.len()
    &&& forall|i: int| 0 <= i < writes.len() ==> write_within(#[trigger] writes[i], config)
    &&& forall|i: int| 0 <= i < writes.len() - 1 ==> (#[trigger] writes[i]).fnv1a64 is None
}

/// Whether flash writes are those of the transfer: all name its image size, and a digest is its
/// digest.
pub open spec fn belong_to(writes: Seq<WriteView>, update: UpdateView) -> bool {
    forall|i: int|
        0 <= i < writes.len() ==> {
            &&& (#[trigger] writes[i]).image_size == update.size
            &&& writes[i].fnv1a64 is Some ==> writes[i].fnv1a64 == Some(update.fnv1a64)
        }
}

/// Whether a service has got to where the flash writes it asked for have led.
spec fn accounts_for(service: ServiceView, writes: Seq<WriteView>) -> bool {
    &&& service.wf()
    &&& in_order(writes, service.config())
    &&& writes.len() == 0 ==> {
        &&& !(service.state is Writing)
        &&& !(service.state is Complete)
        &&& service.update is Some ==> service.update->0.next_offset == 0
    }
    &&& writes.len() > 0 ==> {
        let last = writes.last();
        let end = last.offset + last.payload.len();
        &&& service.update is Some
        &&& belong_to(writes, service.update->0)
        &&& !(service.state is Preparing)
        &&& service.state is Receiving ==> {
            &&& last.fnv1a64 is None
            &&& service.update->0.next_offset == end
        }
        &&& service.state is Writing ==> {
            &&& service.flash matches Some(FlashOp::Write { offset, next_offset, final_chunk })
            &&& offset == last.offset
            &&& final_chunk == (last.fnv1a64 is Some)
            &&& final_chunk || next_offset == end
        }
        &&& service.state is Complete ==> last.fnv1a64 is Some
    }
}

/// The write that one operation asks for follows the writes before it.
proof fn lemma_accounts_step(service: ServiceView, writes: Seq<WriteView>, event: Event)
    requires
        accounts_for(service, writes),
        possible(event),
    ensures
        accounts_for(
            after(service, event),
            match write_request(service, event) {
                Some(write) => writes.push(write),
                None => writes,
            },
        ),
{
    every_operation_keeps_wf(service, event);
    setup_never_changes(service, event);
    match (event, write_request(service, event)) {
        (Event::Chunk(resource_id, offset, payload), Some(write)) => {
            crate::laws::writes_are_sequential(service, resource_id, offset, payload);
            crate::laws::writes_stay_aligned(service, resource_id, offset, payload);
            assert(write_within(write, service.config()));
            let longer = writes.push(write);
            assert forall|i: int| 0 <= i < longer.len() implies write_within(
                #[trigger] longer[i],
                service.config(),
            ) by {
                if i < writes.len() {
                    assert(longer[i] == writes[i]);
                }
            }
        },
        _ => {},
    }
}

/// A history that starts without a transfer accounts for its writes.
proof fn lemma_accounts_for_history(initial: ServiceView, events: Seq<Event>)
    requires
        initial.wf(),
        initial.state is Idle,
        forall|i: int| 0 <= i < events.len() ==> possible(#[trigger] events[i]),
    ensures
        accounts_for(reached(initial, events), write_requests(initial, events)),
    decreases events.len(),
{
    if events.len() > 0 {
        lemma_possible_before(events);
        lemma_accounts_for_history(initial, events.drop_last());
        lemma_accounts_step(
            reached(initial, events.drop_last()),
            write_requests(initial, events.drop_last()),
            events.last(),
        );
    }
}

/// Over every history the flash writes come in order: the first one starts at the first byte, each
/// further one where the one before it ended, every offset and length is aligned, every write stays
/// within the capacity and names the accepted image size, and the digest comes with the last write
/// only, after which there is none. A complete transfer has had that write.
pub proof fn writes_come_in_order(prefix: Seq<char>, config: Config, events: Seq<Event>)
    requires
        crate::model::topics_fit(prefix),
        crate::model::chunk_sizes_valid(config),
        forall|i: int| 0 <= i < events.len() ==> possible(#[trigger] events[i]),
    ensures
        ({
            let initial = ServiceView::initial(prefix, config);
            let service = reached(initial, events);
            let writes = write_requests(initial, events);
            &&& in_order(writes, config)
            &&& writes.len() > 0 ==> service.update is Some && belong_to(
                writes,
                service.update->0,
            )
            &&& service.state is Complete ==> writes.len() > 0 && writes.last().fnv1a64 == Some(
                service.update->0.fnv1a64,
            )
        }),
{
    let initial = ServiceView::initial(prefix, config);
    lemma_accounts_for_history(initial, events);
    reached_states_are_consistent(prefix, config, events);
    let writes = write_requests(initial, events);
    if writes.len() > 0 {
        assert(writes[writes.len() - 1] == writes.last());
    }
}

/// A service together with the image bytes that its flash writes have staged.
pub struct Staging {
    /// The service.
    pub service: ServiceView,
    /// Image bytes staged so far, in the order of the writes.
    pub image: Seq<u8>,
    /// Image bytes of the write that is outstanding.
    pub writing: Seq<u8>,
}

impl Staging {
    /// A new service, with nothing staged.
    pub open spec fn initial(prefix: Seq<char>, config: Config) -> Staging {
        Staging {
            service: ServiceView::initial(prefix, config),
            image: Seq::empty(),
            writing: Seq::empty(),
        }
    }

    /// After one operation: a chunk that is written is staged once its write has succeeded, up to
    /// the end of the image.
    pub open spec fn after(self, event: Event) -> Staging {
        let service = after(self.service, event);
        match event {
            Event::Chunk(resource_id, offset, payload) => match self.service.chunk_outcome(
                resource_id,
                offset,
                payload,
            ) {
                ChunkOutcome::Written(next_offset) => Staging {
                    service,
                    image: self.image,
                    writing: payload.take(next_offset - offset),
                },
                _ => Staging { service, ..self },
            },
            Event::FlashCompleted(success) => match self.service.flash {
                Some(FlashOp::Write { .. }) if success => Staging {
                    service,
                    image: self.image + self.writing,
                    writing: Seq::empty(),
                },
                _ => Staging { service, ..self },
            },
            _ => Staging { service, ..self },
        }
    }

    /// After a sequence of operations.
    pub open spec fn run(self, events: Seq<Event>) -> Staging
        decreases events.len(),
    {
        if events.len() == 0 {
            self
        } else {
            self.run(events.drop_last()).after(events.last())
        }
    }

    /// Whether the staged bytes are the ones that the progress counts.
    pub open spec fn accounted(self) -> bool {
        &&& self.service.wf()
        &&& self.service.update is None ==> self.image.len() == 0
        &&& self.service.update matches Some(update) ==> {
            &&& self.image.len() == update.next_offset
            &&& self.service.flash matches Some(FlashOp::Write { offset, next_offset, .. })
                ==> self.writing.len() == next_offset - offset
        }
    }
}

/// One operation keeps the account of staged bytes.
proof fn lemma_accounted_step(staging: Staging, event: Event)
    requires
        staging.accounted(),
        possible(event),
    ensures
        staging.after(event).accounted(),
{
    every_operation_keeps_wf(staging.service, event);
    match event {
        Event::Chunk(resource_id, offset, payload) => {
            if let ChunkOutcome::Written(next_offset) = staging.service.chunk_outcome(
                resource_id,
                offset,
                payload,
            ) {
                assert(next_offset - offset <= payload.len());
            }
        },
        _ => {},
    }
}

/// Over every history the image is staged in order and without gaps: the bytes staged are always
/// the first ones of the image, as many as the status reports, and all of them once the service
/// is complete.
pub proof fn staged_bytes_match_progress(prefix: Seq<char>, config: Config, events: Seq<Event>)
    requires
        crate::model::topics_fit(prefix),
        crate::model::chunk_sizes_valid(config),
        forall|i: int| 0 <= i < events.len() ==> possible(#[trigger] events[i]),
    ensures
        ({
            let staging = Staging::initial(prefix, config).run(events);
            &&& staging.accounted()
            &&& staging.service.update is Some ==> staging.image.len()
                == staging.service.update->0.next_offset
            &&& staging.service.state is Complete ==> staging.image.len()
                == staging.service.update->0.size
            &&& forall|code: StatusCode|
                #[trigger] staging.service.status(code).next_offset == staging.image.len()
        }),
    decreases events.len(),
{
    if events.len() > 0 {
        lemma_possible_before(events);
        staged_bytes_match_progress(prefix, config, events.drop_last());
        lemma_accounted_step(
            Staging::initial(prefix, config).run(events.drop_last()),
            events.last(),
        );
    }
}

/// Pieces of an image, joined.
pub open spec fn joined(pieces: Seq<Seq<u8>>) -> Seq<u8>
    decreases pieces.len(),
{
    if pieces.len() == 0 {
        Seq::empty()
    } else {
        pieces[0] + joined(pieces.drop_first())
    }
}

/// The host answers every request of the service: the pieces go out one by one as the chunk that
/// the status asks for, and every write succeeds.
pub open spec fn delivered(staging: Staging, pieces: Seq<Seq<u8>>) -> Staging
    decreases pieces.len(),
{
    if pieces.len() == 0 {
        staging
    } else {
        let requested = staging.service.status(StatusCode::Accepted).next_offset;
        let sent = staging.after(
            Event::Chunk(staging.service.correlation(), requested, pieces[0]),
        );
        delivered(sent.after(Event::FlashCompleted(true)), pieces.drop_first())
    }
}

/// Whether `piece` has a size that the service accepts in one chunk.
pub open spec fn is_chunk(service: ServiceView, piece: Seq<u8>) -> bool {
    &&& 0 < piece.len() <= service.max_chunk_size
    &&& piece.len() % (service.write_size as nat) == 0
}

/// Whether `pieces` make up the rest of the image: they reach its end with the last piece, stay
/// within the capacity, and hold erased bytes behind the image.
pub open spec fn make_up_rest(service: ServiceView, pieces: Seq<Seq<u8>>) -> bool {
    let update = service.update->0;
    let rest = update.size - update.next_offset;
    &&& pieces.len() > 0
    &&& forall|i: int| 0 <= i < pieces.len() ==> is_chunk(service, #[trigger] pieces[i])
    &&& joined(pieces.drop_last()).len() < rest <= joined(pieces).len()
    &&& update.next_offset + joined(pieces).len() <= service.capacity
    &&& crate::chunk::is_erased(joined(pieces).skip(rest))
}

/// Sending one piece and completing its write stages the piece up to the end of the image.
proof fn lemma_piece_is_staged(staging: Staging, piece: Seq<u8>)
    requires
        staging.accounted(),
        staging.service.state is Receiving,
        is_chunk(staging.service, piece),
        staging.service.update->0.next_offset + piece.len() <= staging.service.capacity,
        staging.service.update->0.size < staging.service.update->0.next_offset + piece.len()
            ==> crate::chunk::is_erased(
            piece.skip(staging.service.update->0.size - staging.service.update->0.next_offset),
        ),
    ensures
        ({
            let update = staging.service.update->0;
            let rest = update.size - update.next_offset;
            let next = staging.after(
                Event::Chunk(update.resource_id, update.next_offset, piece),
            ).after(Event::FlashCompleted(true));
            &&& next.accounted()
            &&& next.service.config() == staging.service.config()
            &&& piece.len() < rest ==> {
                &&& next.service.state is Receiving
                &&& next.service.update == Some(
                    UpdateView {
                        next_offset: (update.next_offset + piece.len()) as u32,
                        ..update
                    },
                )
                &&& next.image == staging.image + piece
            }
            &&& piece.len() >= rest ==> {
                &&& next.service.state is Complete
                &&& next.service.update == Some(UpdateView { next_offset: update.size, ..update })
                &&& next.image == staging.image + piece.take(rest)
            }
        }),
{
    let update = staging.service.update->0;
    let rest = update.size - update.next_offset;
    let event = Event::Chunk(update.resource_id, update.next_offset, piece);
    let sent = staging.after(event);
    lemma_accounted_step(staging, event);
    lemma_accounted_step(sent, Event::FlashCompleted(true));
    if piece.len() < rest {
        assert(sent.writing =~= piece);
    } else {
        assert(sent.writing =~= piece.take(rest));
    }
}

/// The induction step of `delivered_image_is_staged`: what staging the first piece leaves to be
/// made up by the others.
proof fn lemma_rest_after_piece(
    service: ServiceView,
    next: ServiceView,
    pieces: Seq<Seq<u8>>,
)
    requires
        service.update is Some,
        service.update->0.next_offset < service.update->0.size,
        make_up_rest(service, pieces),
        pieces.len() > 1,
        next.config() == service.config(),
        next.update == Some(
            UpdateView {
                next_offset: (service.update->0.next_offset + pieces[0].len()) as u32,
                ..service.update->0
            },
        ),
    ensures
        pieces[0].len() < service.update->0.size - service.update->0.next_offset,
        make_up_rest(next, pieces.drop_first()),
        joined(pieces) == pieces[0] + joined(pieces.drop_first()),
{
    let update = service.update->0;
    let rest = update.size - update.next_offset;
    let piece = pieces[0];
    let others = pieces.drop_first();
    assert(pieces.drop_last()[0] == piece);
    assert(pieces.drop_last().drop_first() =~= others.drop_last());
    assert(joined(pieces.drop_last()) == piece + joined(others.drop_last()));
    assert forall|i: int| 0 <= i < others.len() implies is_chunk(next, #[trigger] others[i]) by {
        assert(others[i] == pieces[i + 1]);
        assert(is_chunk(service, pieces[i + 1]));
        assert(next.config().write_size == service.config().write_size);
    }
    assert(joined(others).skip(rest - piece.len()) =~= joined(pieces).skip(rest));
    assert(next.config().capacity == service.config().capacity);
}

/// Ordered chunks that make up an image complete the transfer, and what is staged is what was
/// sent, without the padding behind the image.
pub proof fn delivered_image_is_staged(staging: Staging, pieces: Seq<Seq<u8>>)
    requires
        staging.accounted(),
        staging.service.state is Receiving,
        make_up_rest(staging.service, pieces),
    ensures
        ({
            let update = staging.service.update->0;
            let end = delivered(staging, pieces);
            &&& end.service.state is Complete
            &&& end.service.update == Some(UpdateView { next_offset: update.size, ..update })
            &&& end.image == staging.image + joined(pieces).take(update.size - update.next_offset)
        }),
    decreases pieces.len(),
{
    let update = staging.service.update->0;
    let rest = update.size - update.next_offset;
    let piece = pieces[0];
    let others = pieces.drop_first();
    let next = staging.after(
        Event::Chunk(update.resource_id, update.next_offset, piece),
    ).after(Event::FlashCompleted(true));
    assert(is_chunk(staging.service, pieces[0]));
    assert(delivered(staging, pieces) == delivered(next, others));
    if pieces.len() == 1 {
        assert(joined(others).len() == 0);
        assert(joined(pieces) =~= piece);
        lemma_piece_is_staged(staging, piece);
        assert(delivered(next, others) == next);
    } else {
        assert(piece.len() < rest) by {
            assert(pieces.drop_last()[0] == piece);
        }
        lemma_piece_is_staged(staging, piece);
        lemma_rest_after_piece(staging.service, next.service, pieces);
        delivered_image_is_staged(next, others);
        assert(staging.image + joined(pieces).take(rest) =~= next.image + joined(others).take(
            rest - piece.len(),
        ));
    }
}

/// From trigger to completion: where an idle service accepts a manifest, the staging area is
/// prepared, and the host sends pieces that make up the image, the transfer completes with
/// exactly the image staged.
pub proof fn accepted_image_is_staged(
    service: ServiceView,
    manifest: ManifestView,
    pieces: Seq<Seq<u8>>,
)
    requires
        service.wf(),
        service.state is Idle,
        possible(Event::Trigger(Some(manifest))),
        service.trigger_outcome(Some(manifest)) is Accepted,
        ({
            let prepared = service.triggered(Some(manifest)).flash_completed(true);
            make_up_rest(prepared, pieces)
        }),
    ensures
        ({
            let idle = Staging { service, image: Seq::empty(), writing: Seq::empty() };
            let prepared = idle.after(Event::Trigger(Some(manifest))).after(
                Event::FlashCompleted(true),
            );
            let end = delivered(prepared, pieces);
            &&& end.service.state is Complete
            &&& end.service.update->0.describes(manifest)
            &&& end.image == joined(pieces).take(manifest.size as int)
        }),
{
    let idle = Staging { service, image: Seq::empty(), writing: Seq::empty() };
    let triggered = idle.after(Event::Trigger(Some(manifest)));
    let prepared = triggered.after(Event::FlashCompleted(true));
    lemma_accounted_step(idle, Event::Trigger(Some(manifest)));
    lemma_accounted_step(triggered, Event::FlashCompleted(true));
    assert(prepared.image =~= Seq::<u8>::empty());
    delivered_image_is_staged(prepared, pieces);
    assert(prepared.image + joined(pieces).take(manifest.size as int) =~= joined(pieces).take(
        manifest.size as int,
    ));
}

} // verus!
