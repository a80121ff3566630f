//! What the operations of the service promise, each stated over its model.

use crate::model::{
    ChunkOutcome, ManifestView, ServiceView, TriggerOutcome, CHUNK_SUFFIX, STATUS_SUFFIX,
    TRIGGER_SUFFIX,
};
use crate::properties::{PropertyView, OFFSET_KEY};
use crate::types::{
    Action, ConnectEvent, FlashOp, FlashRequest, Handle, InboundPublish, OpProgress, StatusCode,
    Step, StepAction,
};
use vstd::prelude::*;

verus! {

/// The derived topics fit exactly if the topic root has at most 120 bytes.
pub proof fn topics_fit_short_prefixes(prefix: Seq<char>)
    ensures
        crate::model::topics_fit(prefix) <==> crate::text::utf8_len(prefix) <= 120,
{
    reveal_strlit("/trigger");
    reveal_strlit("/status");
    reveal_strlit("/chunk");
    vstd::utf8::is_ascii_chars_encode_utf8(TRIGGER_SUFFIX@);
    vstd::utf8::is_ascii_chars_encode_utf8(STATUS_SUFFIX@);
    vstd::utf8::is_ascii_chars_encode_utf8(CHUNK_SUFFIX@);
    crate::text::lemma_utf8_concat(prefix, TRIGGER_SUFFIX@);
    crate::text::lemma_utf8_concat(prefix, STATUS_SUFFIX@);
    crate::text::lemma_utf8_concat(prefix, CHUNK_SUFFIX@);
}

/// The trigger, status and chunk topics of a service are told apart: each topic has one route,
/// and its own status publications are not OTA requests.
pub proof fn routes_are_distinct(service: ServiceView)
    ensures
        service.route(service.prefix + TRIGGER_SUFFIX@) is Trigger,
        service.route(service.prefix + CHUNK_SUFFIX@) is Chunk,
        service.route(service.prefix + STATUS_SUFFIX@) is Other,
{
    reveal_strlit("/trigger");
    reveal_strlit("/status");
    reveal_strlit("/chunk");
    let p = service.prefix.len();
    let trigger = service.prefix + TRIGGER_SUFFIX@;
    let status = service.prefix + STATUS_SUFFIX@;
    let chunk = service.prefix + CHUNK_SUFFIX@;
    assert(trigger.len() == p + 8 && status.len() == p + 7 && chunk.len() == p + 6);
}

/// Where the first correlation data property holds `data`, `data` is the correlation data.
proof fn lemma_first_correlation(list: Seq<PropertyView>, i: int, data: Seq<u8>)
    requires
        0 <= i < list.len(),
        list[i] == PropertyView::CorrelationData(data),
        forall|k: int| 0 <= k < i ==> !(#[trigger] list[k] is CorrelationData),
    ensures
        crate::properties::first_correlation(list) == Some(data),
    decreases i,
{
    if i > 0 {
        assert(!(list[0] is CorrelationData));
        assert forall|k: int| 0 <= k < i - 1 implies !(
        #[trigger] list.drop_first()[k] is CorrelationData) by {
            assert(list.drop_first()[k] == list[k + 1]);
        }
        lemma_first_correlation(list.drop_first(), i - 1, data);
    }
}

/// Whether a property is an `offset` user property.
pub open spec fn is_offset_property(property: PropertyView) -> bool {
    property matches PropertyView::UserProperty(key, _) && key == OFFSET_KEY@
}

/// Where the last `offset` property holds `value`, `value` is the offset.
proof fn lemma_last_offset(list: Seq<PropertyView>, j: int, value: Seq<char>)
    requires
        0 <= j < list.len(),
        list[j] == PropertyView::UserProperty(OFFSET_KEY@, value),
        forall|k: int| j < k < list.len() ==> !is_offset_property(#[trigger] list[k]),
    ensures
        crate::properties::last_offset(list) == crate::text::parsed_u32(value),
    decreases list.len(),
{
    if j < list.len() - 1 {
        assert(!is_offset_property(list[list.len() - 1]));
        lemma_last_offset(list.drop_last(), j, value);
    }
}

/// A chunk publish that mirrors the correlation data and the offset of a status publication is
/// read as a chunk of that transfer at that offset, whatever other properties it has.
pub proof fn mirrored_request_is_understood(
    service: ServiceView,
    code: StatusCode,
    list: Seq<PropertyView>,
    i: int,
    j: int,
)
    requires
        0 <= i < list.len(),
        list[i] == PropertyView::CorrelationData(service.correlation()),
        forall|k: int| 0 <= k < i ==> !(#[trigger] list[k] is CorrelationData),
        0 <= j < list.len(),
        list[j] == PropertyView::UserProperty(
            OFFSET_KEY@,
            crate::text::decimal(service.status(code).next_offset as nat),
        ),
        forall|k: int| j < k < list.len() ==> !is_offset_property(#[trigger] list[k]),
    ensures
        crate::properties::chunk_request(list) == Some(
            (service.correlation(), service.status(code).next_offset),
        ),
{
    let n = service.status(code).next_offset;
    lemma_first_correlation(list, i, service.correlation());
    lemma_last_offset(list, j, crate::text::decimal(n as nat));
    crate::text::decimal_round_trip(n);
}

/// A publish on the response topic of a status publication that mirrors its correlation data and
/// offset reaches the transfer as the requested chunk.
pub proof fn mirrored_publish_reaches_transfer(
    service: ServiceView,
    code: StatusCode,
    publish: InboundPublish<'_, '_>,
    i: int,
    j: int,
)
    requires
        publish.topic@ == service.prefix + CHUNK_SUFFIX@,
        ({
            let list = crate::properties::property_list(publish.properties);
            &&& 0 <= i < list.len()
            &&& list[i] == PropertyView::CorrelationData(service.correlation())
            &&& forall|k: int| 0 <= k < i ==> !(#[trigger] list[k] is CorrelationData)
            &&& 0 <= j < list.len()
            &&& list[j] == PropertyView::UserProperty(
                OFFSET_KEY@,
                crate::text::decimal(service.status(code).next_offset as nat),
            )
            &&& forall|k: int| j < k < list.len() ==> !is_offset_property(#[trigger] list[k])
        }),
    ensures
        service.handled(publish) == service.chunk_handled(
            service.correlation(),
            service.status(code).next_offset,
            publish.payload@,
        ),
        service.reply(publish) == service.chunk_reply(
            service.correlation(),
            service.status(code).next_offset,
            publish.payload,
        ),
{
    let list = crate::properties::property_list(publish.properties);
    mirrored_request_is_understood(service, code, list, i, j);
    routes_are_distinct(service);
}

/// A publish that mirrors a status publication of a receiving service, with a piece of the image of
/// a whole number of flash writes, is written where the transfer has got to.
pub proof fn mirrored_chunk_is_written(
    service: ServiceView,
    code: StatusCode,
    publish: InboundPublish<'_, '_>,
    i: int,
    j: int,
)
    requires
        service.wf(),
        service.state is Receiving,
        publish.topic@ == service.prefix + CHUNK_SUFFIX@,
        ({
            let list = crate::properties::property_list(publish.properties);
            &&& 0 <= i < list.len()
            &&& list[i] == PropertyView::CorrelationData(service.correlation())
            &&& forall|k: int| 0 <= k < i ==> !(#[trigger] list[k] is CorrelationData)
            &&& 0 <= j < list.len()
            &&& list[j] == PropertyView::UserProperty(
                OFFSET_KEY@,
                crate::text::decimal(service.status(code).next_offset as nat),
            )
            &&& forall|k: int| j < k < list.len() ==> !is_offset_property(#[trigger] list[k])
        }),
        0 < publish.payload@.len() <= service.max_chunk_size,
        publish.payload@.len() % (service.write_size as nat) == 0,
        service.update->0.next_offset + publish.payload@.len() <= service.update->0.size,
    ensures
        ({
            let update = service.update->0;
            let after = service.handled(publish);
            &&& service.reply(publish) matches Handle::Flash(FlashRequest::Write(write))
            &&& write.offset == update.next_offset
            &&& write.payload == publish.payload
            &&& write.image_size == update.size
            &&& after.state is Writing
            &&& after.flash_completed(true).update->0.next_offset == update.next_offset
                + publish.payload@.len()
            &&& after.flash_completed(true).status(code).next_offset == update.next_offset
                + publish.payload@.len()
        }),
{
    mirrored_publish_reaches_transfer(service, code, publish, i, j);
    requested_chunk_is_written(service, publish.payload@);
}

/// A receiving service writes the chunk it asked for: one with the requested resource identifier
/// and offset, of an aligned size within the limit, that stays within the image.
pub proof fn requested_chunk_is_written(service: ServiceView, payload: Seq<u8>)
    requires
        service.wf(),
        service.state is Receiving,
        0 < payload.len() <= service.max_chunk_size,
        payload.len() % (service.write_size as nat) == 0,
        service.update->0.next_offset + payload.len() <= service.update->0.size,
    ensures
        ({
            let offset = service.update->0.next_offset;
            service.chunk_outcome(service.correlation(), offset, payload) == ChunkOutcome::Written(
                (offset + payload.len()) as u32,
            )
        }),
{
}

/// What is written: a chunk is written only while the service receives, at the first byte not
/// yet written, with an aligned length within the chunk limit, up to an offset within the image,
/// and with nothing but erased bytes behind the image.
pub proof fn writes_are_sequential(
    service: ServiceView,
    resource_id: Seq<u8>,
    offset: u32,
    payload: Seq<u8>,
)
    requires
        service.wf(),
        service.chunk_outcome(resource_id, offset, payload) is Written,
    ensures
        service.state is Receiving,
        resource_id == service.correlation(),
        offset == service.update->0.next_offset,
        0 < payload.len() <= service.max_chunk_size,
        payload.len() % (service.write_size as nat) == 0,
        ({
            let size = service.update->0.size;
            let next = service.chunk_outcome(resource_id, offset, payload)->Written_0;
            &&& offset < next <= size
            &&& next == if offset + payload.len() <= size {
                offset + payload.len()
            } else {
                size as int
            }
            &&& offset + payload.len() <= service.capacity
            &&& forall|i: int|
                size - offset <= i < payload.len() ==> #[trigger] payload[i] == crate::chunk::ERASED
        }),
{
    let size = service.update->0.size;
    if offset + payload.len() > size {
        let padding = payload.skip(size - offset);
        assert forall|i: int| size - offset <= i < payload.len() implies #[trigger] payload[i]
            == crate::chunk::ERASED by {
            assert(padding[i - (size - offset)] == payload[i]);
        }
    }
}

/// Writes stay aligned: every write starts and ends after a whole number of flash writes, but for
/// the last one, which counts up to the end of the image.
pub proof fn writes_stay_aligned(
    service: ServiceView,
    resource_id: Seq<u8>,
    offset: u32,
    payload: Seq<u8>,
)
    requires
        service.wf(),
        service.chunk_outcome(resource_id, offset, payload) is Written,
    ensures
        service.aligned(offset),
        payload.len() % (service.write_size as nat) == 0,
        ({
            let next = service.chunk_outcome(resource_id, offset, payload)->Written_0;
            next == service.update->0.size || service.aligned(next)
        }),
{
    writes_are_sequential(service, resource_id, offset, payload);
    let w = service.write_size as int;
    vstd::arithmetic::div_mod::lemma_mod_adds(offset as int, payload.len() as int, w);
    vstd::arithmetic::div_mod::lemma_mod_bound(offset + payload.len(), w);
}

/// A flash write names the image size, and carries the digest exactly if it is the last one.
pub proof fn digest_comes_with_last_chunk(
    service: ServiceView,
    resource_id: Seq<u8>,
    offset: u32,
    payload: &[u8],
)
    requires
        service.wf(),
        service.chunk_outcome(resource_id, offset, payload@) is Written,
    ensures
        ({
            let next = service.chunk_outcome(resource_id, offset, payload@)->Written_0;
            let update = service.update->0;
            &&& service.chunk_reply(resource_id, offset, payload) matches Handle::Flash(
                FlashRequest::Write(write),
            )
            &&& write.offset == offset
            &&& write.payload@ == payload@
            &&& write.image_size == update.size
            &&& write.fnv1a64 == if next == update.size {
                Some(update.fnv1a64)
            } else {
                None
            }
            &&& service.chunk_handled(resource_id, offset, payload@).flash_completed(
                true,
            ).state is Complete <==> next == update.size
        }),
{
}

/// A chunk at another offset than the requested one never leads to a flash write, and never
/// changes the transfer.
pub proof fn only_requested_offset_is_written(
    service: ServiceView,
    resource_id: Seq<u8>,
    offset: u32,
    payload: &[u8],
)
    requires
        service.wf(),
        service.update is Some,
        offset != service.update->0.next_offset,
    ensures
        service.chunk_reply(resource_id, offset, payload) is Consumed,
        service.chunk_handled(resource_id, offset, payload@) == (ServiceView {
            pending: service.chunk_handled(resource_id, offset, payload@).pending,
            ..service
        }),
{
}

/// A chunk that was already written is acknowledged without another flash write and without any
/// change to the transfer: while receiving with `Duplicate`, after the last chunk with
/// `Complete`. One that is being written is passed over.
pub proof fn duplicate_chunk_is_acknowledged(
    service: ServiceView,
    offset: u32,
    payload: &[u8],
)
    requires
        service.wf(),
        service.update is Some,
    ensures
        service.state is Receiving && offset < service.update->0.next_offset ==> {
            &&& service.chunk_handled(service.correlation(), offset, payload@)
                == service.published(StatusCode::Duplicate)
            &&& service.chunk_reply(service.correlation(), offset, payload) is Consumed
        },
        service.state is Complete ==> {
            &&& service.chunk_handled(service.correlation(), offset, payload@)
                == service.published(StatusCode::Complete)
            &&& service.chunk_reply(service.correlation(), offset, payload) is Consumed
        },
        service.state is Writing && offset == service.update->0.next_offset ==> {
            &&& service.chunk_handled(service.correlation(), offset, payload@) == service
            &&& service.chunk_reply(service.correlation(), offset, payload) is Consumed
        },
{
}

/// A chunk beyond the requested offset is rejected with `Offset`: nothing is written and the
/// transfer stays as it was.
pub proof fn future_chunk_is_rejected(service: ServiceView, offset: u32, payload: &[u8])
    requires
        service.wf(),
        service.state is Receiving,
        offset > service.update->0.next_offset,
    ensures
        service.chunk_handled(service.correlation(), offset, payload@) == service.published(
            StatusCode::Offset,
        ),
        service.chunk_reply(service.correlation(), offset, payload) is Consumed,
{
}

/// A chunk of another transfer does not touch an active one.
pub proof fn unrelated_chunk_is_ignored(
    service: ServiceView,
    resource_id: Seq<u8>,
    offset: u32,
    payload: &[u8],
)
    requires
        service.wf(),
        crate::model::is_active(service.state),
        resource_id != service.correlation(),
    ensures
        service.chunk_handled(resource_id, offset, payload@) == service,
        service.chunk_reply(resource_id, offset, payload) is Consumed,
{
}

/// A trigger other than that of the transfer does not touch it, and the trigger of the transfer
/// only makes its status due once more.
pub proof fn overlapping_trigger_is_ignored(service: ServiceView, manifest: Option<ManifestView>)
    requires
        service.wf(),
        !(service.state is Idle),
    ensures
        service.trigger_reply::<'static>(manifest) is Consumed,
        manifest is Some && service.update->0.describes(manifest->0) ==> service.triggered(manifest)
            == service.published(crate::model::state_code(service.state)),
        !(manifest is Some && service.update->0.describes(manifest->0)) ==> service.triggered(
            manifest,
        ) == service,
{
}

/// A trigger that an idle service refuses is answered once and leaves no trace: whatever trigger
/// comes next has the outcome it would have had without it.
pub proof fn refused_trigger_leaves_no_trace(
    service: ServiceView,
    refused: Option<ManifestView>,
    next: Option<ManifestView>,
)
    requires
        service.wf(),
        service.state is Idle,
        !(service.trigger_outcome(refused) is Accepted),
    ensures
        service.trigger_outcome(refused) is Answered,
        service.triggered(refused) == service.published(
            service.trigger_outcome(refused)->Answered_0,
        ),
        service.trigger_reply::<'static>(refused) is Consumed,
        service.triggered(refused).trigger_outcome(next) == service.trigger_outcome(next),
{
}

/// An idle service accepts exactly the manifests of non-empty images within the capacity whose
/// largest chunk fits the receive budget; the transfer then waits for the staging area.
pub proof fn trigger_acceptance(service: ServiceView, manifest: ManifestView)
    requires
        service.wf(),
        service.state is Idle,
    ensures
        service.trigger_outcome(Some(manifest)) is Accepted <==> {
            &&& 0 < manifest.size <= service.capacity
            &&& service.chunk_budget(manifest.resource_id) <= service.max_rx_packet_size
        },
        service.trigger_outcome(Some(manifest)) is Accepted ==> {
            let after = service.triggered(Some(manifest));
            &&& after.state is Preparing
            &&& after.flash == Some(FlashOp::Prepare)
            &&& after.update->0.describes(manifest)
            &&& after.update->0.next_offset == 0
        },
{
}

/// Every chunk publish that an accepted transfer can ask for fits the receive limit under which
/// it was accepted.
pub proof fn accepted_chunks_fit_receive_limit(
    service: ServiceView,
    manifest: ManifestView,
    offset: u32,
    payload_len: nat,
)
    requires
        service.wf(),
        service.state is Idle,
        service.trigger_outcome(Some(manifest)) is Accepted,
        payload_len <= service.max_chunk_size,
    ensures
        crate::wire::chunk_packet_len(
            crate::text::utf8_len(service.prefix + CHUNK_SUFFIX@),
            manifest.resource_id.len(),
            crate::text::decimal(offset as nat).len(),
            payload_len,
        ) <= service.max_rx_packet_size,
{
    crate::wire::chunk_packet_within_budget(
        crate::text::utf8_len(service.prefix + CHUNK_SUFFIX@),
        manifest.resource_id.len(),
        offset,
        payload_len,
        manifest.resource_id.len(),
        service.max_chunk_size as nat,
    );
}

/// What a publish can do: it never touches the operation in flight, the deferred status, the topic
/// root, the limits or a transfer that has started; it leaves a staged or failed transfer alone;
/// and it asks for flash work exactly if a flash operation becomes outstanding. A chunk that is
/// written is the whole payload of the publish.
pub proof fn publish_effects_are_bounded(service: ServiceView, publish: InboundPublish<'_, '_>)
    requires
        service.wf(),
    ensures
        ({
            let after = service.handled(publish);
            let reply = service.reply(publish);
            &&& after.inflight == service.inflight
            &&& after.startup_publish == service.startup_publish
            &&& after.prefix == service.prefix
            &&& after.config() == service.config()
            &&& after.max_rx_packet_size == service.max_rx_packet_size
            &&& service.update is Some ==> after.update == service.update
            &&& service.state is Complete || service.state is Error ==> {
                &&& after.state == service.state
                &&& after.flash == service.flash
                &&& !(reply is Flash)
            }
            &&& reply is Flash <==> service.flash is None && after.flash is Some
            &&& reply matches Handle::Flash(FlashRequest::Write(write)) ==> write.payload
                == publish.payload
        }),
{
}

/// Only traffic on the trigger and chunk topics is taken; anything else is left to the owner and
/// changes nothing.
pub proof fn other_traffic_is_unhandled(service: ServiceView, publish: InboundPublish<'_, '_>)
    ensures
        service.reply(publish) is Unhandled <==> service.route(publish.topic@) is Other,
        service.reply(publish) is Unhandled ==> service.handled(publish) == service,
{
}

/// A flash request is reported once: a further report changes nothing, and neither does one
/// without a request.
pub proof fn flash_result_counts_once(service: ServiceView, first: bool, second: bool)
    ensures
        service.flash_completed(first).flash_completed(second) == service.flash_completed(first),
        service.flash is None ==> service.flash_completed(first) == service,
{
}

/// The next chunk is requested: once a flash operation has succeeded and the operation in flight
/// has settled, the step starts a status publication, and that asks for the first byte not yet
/// written.
pub proof fn next_chunk_is_requested(service: ServiceView)
    requires
        service.wf(),
        service.flash is Some,
    ensures
        ({
            let after = service.flash_completed(true);
            let stepped = after.settled(OpProgress::Settled);
            &&& after.step_action(OpProgress::Settled) matches StepAction::Start(
                Action::Publish(code),
            )
            &&& stepped.status(code).next_offset == after.update->0.next_offset
            &&& stepped.status(code).state == after.state
            &&& stepped.correlation() == service.update->0.resource_id
            &&& service.flash matches Some(FlashOp::Write { next_offset, .. })
                ==> stepped.status(code).next_offset == next_offset
            &&& service.flash == Some(FlashOp::Prepare) ==> stepped.status(code).next_offset == 0
        }),
{
}

/// A flash failure fails the transfer with `Backend` and keeps its progress.
pub proof fn flash_failure_fails_transfer(service: ServiceView)
    requires
        service.wf(),
        service.flash is Some,
    ensures
        service.flash_completed(false).state is Error,
        service.flash_completed(false).pending == Some(Action::Publish(StatusCode::Backend)),
        service.flash_completed(false).update == service.update,
{
}

/// An aborted transfer has failed: flash results that come in later are passed over, and a new
/// connection replays the error, behind the subscription where one is needed.
pub proof fn abort_is_final(service: ServiceView, success: bool)
    requires
        service.wf(),
        crate::model::is_active(service.state),
    ensures
        service.aborted().state is Error,
        service.aborted().update == service.update,
        service.aborted().flash_completed(success) == service.aborted(),
        service.aborted().startup(ConnectEvent::Connected).startup_publish == Some(
            StatusCode::Error,
        ),
        service.aborted().startup(ConnectEvent::Reconnected).pending == Some(
            Action::Publish(StatusCode::Error),
        ),
{
}

/// An abort does nothing without an active transfer.
pub proof fn abort_needs_active_transfer(service: ServiceView)
    requires
        !crate::model::is_active(service.state),
    ensures
        service.aborted() == service,
{
}

/// Drain the queue over a connection that completes every operation: settle the operation in
/// flight, start what is queued, and let it settle, `n` times over.
pub open spec fn drained(service: ServiceView, n: nat) -> ServiceView
    decreases n,
{
    if n == 0 {
        service.settled(OpProgress::Settled)
    } else {
        drained(service.settled(OpProgress::Settled).started(true), (n - 1) as nat)
    }
}

/// Later steps publish the error status of an aborted transfer: a working connection gets to it
/// within two further operations.
pub proof fn abort_is_published(service: ServiceView)
    requires
        service.wf(),
        crate::model::is_active(service.state),
    ensures
        exists|n: nat|
            n <= 1 && #[trigger] drained(service.aborted(), n).pending == Some(
                Action::Publish(StatusCode::Error),
            ),
{
    reveal_with_fuel(drained, 2);
    let aborted = service.aborted();
    let first = aborted.settled(OpProgress::Settled);
    if service.inflight == Some(Action::Subscribe) || !service.subscribing() {
        assert(drained(aborted, 0).pending == Some(Action::Publish(StatusCode::Error)));
    } else {
        assert(first.pending == Some(Action::Subscribe));
        assert(drained(aborted, 1).pending == Some(Action::Publish(StatusCode::Error)));
    }
}

/// A quiescent step leaves no MQTT work behind: nothing is queued, nothing is in flight, and no
/// status waits for the subscription.
pub proof fn quiescent_step_leaves_no_work(service: ServiceView, progress: OpProgress)
    requires
        service.wf(),
    ensures
        service.step() == Step::Quiescent ==> service.startup_publish is None,
        service.step_action(progress) == StepAction::Quiescent ==> {
            let after = service.settled(progress);
            &&& after.step() == Step::Quiescent
            &&& after.startup_publish is None
        },
{
}

/// A staged image is ready to reboot into as soon as the MQTT work is done.
pub proof fn quiescent_service_is_ready(service: ServiceView)
    requires
        service.wf(),
        service.state is Complete,
    ensures
        service.ready() <==> service.step() == Step::Quiescent,
{
}

/// Steps drain the queue: a connection that completes every operation has done all MQTT work
/// within three further operations.
pub proof fn steps_drain_the_queue(service: ServiceView)
    requires
        service.wf(),
    ensures
        drained(service, 3).step() == Step::Quiescent,
        drained(service, 3).startup_publish is None,
        drained(service, 3).state == service.state,
        drained(service, 3).update == service.update,
{
    reveal_with_fuel(drained, 4);
}

/// A subscription that another operation displaced from the queue is made up for: while a status
/// waits for it, a working connection gets to the subscription after at most one other operation,
/// and then publishes the status of the transfer as it is.
pub proof fn displaced_subscription_is_repeated(service: ServiceView)
    requires
        service.wf(),
        service.startup_publish is Some,
        !service.subscribing(),
    ensures
        exists|n: nat|
            n <= 1 && #[trigger] drained(service, n).pending == Some(Action::Subscribe) && drained(
                service,
                n + 1,
            ).pending == Some(Action::Publish(crate::model::state_code(service.state))),
{
    reveal_with_fuel(drained, 3);
    if service.pending is None {
        assert(drained(service, 0).pending == Some(Action::Subscribe));
        assert(drained(service, 0 + 1).pending == Some(
            Action::Publish(crate::model::state_code(service.state)),
        ));
    } else {
        assert(drained(service, 1).pending == Some(Action::Subscribe));
        assert(drained(service, 1 + 1).pending == Some(
            Action::Publish(crate::model::state_code(service.state)),
        ));
    }
}

/// A fresh session subscribes first; the status of a transfer is replayed once the subscription
/// is in place, and an idle service publishes nothing.
pub proof fn fresh_session_subscribes_then_replays(service: ServiceView, progress: OpProgress)
    ensures
        ({
            let started = service.startup(ConnectEvent::Connected);
            let subscribed = started.settled(progress).started(true);
            &&& started.step_action(progress) == StepAction::Start(Action::Subscribe)
            &&& subscribed.step_action(OpProgress::Pending) == StepAction::Wait
            &&& subscribed.step_action(OpProgress::Settled)
                == match crate::model::replayed_code(service.state) {
                Some(code) => StepAction::Start(Action::Publish(code)),
                None => StepAction::Quiescent,
            }
        }),
{
}

/// A resumed session does not subscribe again: the status of a transfer is queued at once.
pub proof fn resumed_session_replays_at_once(service: ServiceView)
    ensures
        ({
            let started = service.startup(ConnectEvent::Reconnected);
            &&& started.startup_publish is None
            &&& started.inflight == service.inflight
            &&& !(service.state is Idle) ==> started.pending == Some(
                Action::Publish(crate::model::state_code(service.state)),
            )
            &&& service.state is Idle ==> started.pending == service.pending
        }),
{
}

/// A step given up before its operation was reported as started is repeated: the operation stays
/// queued, and the next step asks for it again.
pub proof fn interrupted_step_is_repeated(
    service: ServiceView,
    progress: OpProgress,
    later: OpProgress,
)
    requires
        service.step_action(progress) is Start,
    ensures
        ({
            let after = service.settled(progress);
            &&& after.pending == Some(service.step_action(progress)->Start_0)
            &&& after.settled(later) == after
            &&& after.step_action(later) == service.step_action(progress)
        }),
{
}

/// An invalidated operation is queued again, and the next step asks for it.
pub proof fn invalidated_operation_is_retried(
    service: ServiceView,
    action: Action,
    later: OpProgress,
)
    requires
        service.inflight == Some(action),
    ensures
        service.step_action(OpProgress::Invalidated) == StepAction::Disconnected,
        service.settled(OpProgress::Invalidated).step_action(later) == StepAction::Start(action),
{
}

/// A step waits for the operation in flight and starts nothing beside it.
pub proof fn one_operation_at_a_time(service: ServiceView, action: Action)
    requires
        service.inflight == Some(action),
    ensures
        service.step_action(OpProgress::Pending) == StepAction::Wait,
        service.settled(OpProgress::Pending) == service,
{
}

/// The queue has one slot and the latest operation takes it, with the one exception that a
/// subscription in flight is not queued once more. Nothing else changes.
pub proof fn queue_holds_latest_operation(service: ServiceView, action: Action)
    ensures
        action is Subscribe && service.inflight == Some(Action::Subscribe) ==> service.queued(action)
            == service,
        !(action is Subscribe && service.inflight == Some(Action::Subscribe)) ==> service.queued(
            action,
        ) == (ServiceView { pending: Some(action), ..service }),
        service.queued(action).queued(action) == service.queued(action),
{
}

/// Only the latest status is queued: a status takes the place of one that was not started yet.
pub proof fn latest_status_is_queued(
    service: ServiceView,
    first: StatusCode,
    second: StatusCode,
)
    ensures
        service.published(first).published(second) == service.published(second),
        service.published(second).pending == Some(Action::Publish(second)),
{
}

/// A service that is ready to reboot has the whole image staged, no flash operation outstanding
/// and no MQTT work left.
pub proof fn ready_means_staged(service: ServiceView, progress: OpProgress)
    requires
        service.wf(),
        service.ready(),
    ensures
        service.update is Some,
        service.update->0.next_offset == service.update->0.size,
        service.flash is None,
        service.step() == Step::Quiescent,
        service.step_action(progress) == StepAction::Quiescent,
{
}

/// The status shows an identifier exactly while there is a transfer, with a progress within the
/// image, and neither offset nor size while idle.
pub proof fn status_is_consistent(service: ServiceView, code: StatusCode)
    requires
        service.wf(),
    ensures
        service.status(code).id.len() == 0 <==> service.state is Idle,
        service.state is Idle ==> service.status(code).next_offset == 0 && service.status(
            code,
        ).size == 0,
        service.status(code).next_offset <= service.status(code).size <= service.capacity,
        service.state is Complete <==> service.status(code).size > 0 && service.status(
            code,
        ).next_offset == service.status(code).size,
{
    if let Some(update) = service.update {
        let sequence = choose|sequence: u64|
            update.id == #[trigger] crate::text::decimal(sequence as nat);
        crate::text::lemma_decimal(sequence as nat);
    }
}

} // verus!
