//! What each operation does, told by the fields of the service before and after it and by what the
//! caller gets back.

use crate::model::{ManifestView, ServiceView, UpdateView};
use crate::types::{
    Action, ChunkError, Config, ConnectEvent, FlashOp, FlashRequest, Handle, OpProgress, QoS,
    RetainHandling, Route, State, StatusCode, Step, StepAction, Trigger,
};
use vstd::prelude::*;

verus! {

/// The product of `k` and `n`.
pub open spec fn product(k: nat, n: nat) -> nat {
    k * n
}

/// Whether `len` bytes are a whole number of pieces of `n` bytes each.
pub open spec fn whole_pieces(len: nat, n: nat) -> bool {
    exists|k: nat| len == #[trigger] product(k, n)
}

/// A length is a multiple of `n` exactly if it is a whole number of pieces of `n` bytes.
pub proof fn multiples_are_whole_pieces(len: nat, n: nat)
    ensures
        crate::chunk::is_multiple(len, n) <==> whole_pieces(len, n),
        n > 0 ==> (len % n == 0 <==> whole_pieces(len, n)),
{
    if n > 0 {
        if len % n == 0 {
            vstd::arithmetic::div_mod::lemma_fundamental_div_mod(len as int, n as int);
            assert(len == product(len / n, n)) by (nonlinear_arith)
                requires
                    len == n * (len / n) + len % n,
                    len % n == 0,
            ;
        }
        if whole_pieces(len, n) {
            let k = choose|k: nat| len == #[trigger] product(k, n);
            vstd::arithmetic::div_mod::lemma_mod_multiples_basic(k as int, n as int);
        }
    } else {
        assert(product(0, n) == 0);
        if whole_pieces(len, n) {
            let k = choose|k: nat| len == #[trigger] product(k, n);
            assert(k * 0 == 0) by (nonlinear_arith);
        }
    }
}

/// A configuration is valid exactly if the largest chunk is a whole number of flash writes, and at
/// least one, of at least one byte.
pub proof fn valid_configurations(config: Config)
    ensures
        crate::model::chunk_sizes_valid(config) <==> {
            &&& config.write_size > 0
            &&& config.max_chunk_size > 0
            &&& whole_pieces(config.max_chunk_size as nat, config.write_size as nat)
        },
{
    multiples_are_whole_pieces(config.max_chunk_size as nat, config.write_size as nat);
    if config.write_size > 0 {
        assert(config.max_chunk_size as nat % (config.write_size as nat) == (config.max_chunk_size
            % config.write_size) as nat);
    }
}

/// The topics fit exactly if the topic root takes at most 120 bytes in UTF-8.
pub proof fn topic_root_limit(prefix: Seq<char>)
    ensures
        crate::model::topics_fit(prefix) <==> vstd::utf8::encode_utf8(prefix).len() <= 120,
{
    crate::laws::topics_fit_short_prefixes(prefix);
}

/// A new service has the topic root and the limits it was made with, no transfer, and nothing to
/// do; it is well formed for every valid configuration.
pub proof fn created_service(prefix: Seq<char>, config: Config)
    ensures
        ({
            let service = ServiceView::initial(prefix, config);
            &&& service.prefix == prefix
            &&& service.capacity == config.capacity
            &&& service.max_chunk_size == config.max_chunk_size
            &&& service.write_size == config.write_size
            &&& service.max_rx_packet_size == 0
            &&& service.state == State::Idle
            &&& service.update is None
            &&& service.flash is None
            &&& service.inflight is None
            &&& service.pending is None
            &&& service.startup_publish is None
            &&& crate::model::topics_fit(prefix) && crate::model::chunk_sizes_valid(config)
                ==> service.wf()
        }),
{
}

/// The code that a phase is reported with, and whether a new connection replays it: an idle
/// service has nothing to replay.
pub proof fn phase_codes(state: State)
    ensures
        state == State::Idle ==> crate::model::state_code(state) == StatusCode::Idle
            && crate::model::replayed_code(state) is None,
        state == State::Preparing || state == State::Receiving || state == State::Writing
            ==> crate::model::state_code(state) == StatusCode::Accepted
            && crate::model::replayed_code(state) == Some(StatusCode::Accepted),
        state == State::Complete ==> crate::model::state_code(state) == StatusCode::Complete
            && crate::model::replayed_code(state) == Some(StatusCode::Complete),
        state == State::Error ==> crate::model::state_code(state) == StatusCode::Error
            && crate::model::replayed_code(state) == Some(StatusCode::Error),
        crate::model::is_active(state) <==> state == State::Preparing || state == State::Receiving
            || state == State::Writing,
{
}

/// A status shows the transfer as it is: its identifier, its own progress and its size, in every
/// phase and with every code, beside the limits of the service. Without a transfer it shows none.
/// The correlation data is the resource identifier of the transfer.
pub proof fn status_shows_progress(service: ServiceView, code: StatusCode)
    ensures
        service.status(code).code == code,
        service.status(code).state == service.state,
        service.status(code).mtu == service.max_chunk_size,
        service.status(code).write_size == service.write_size,
        service.update matches Some(update) ==> {
            &&& service.status(code).id == update.id
            &&& service.status(code).next_offset == update.next_offset
            &&& service.status(code).size == update.size
            &&& service.correlation() == update.resource_id
        },
        service.update is None ==> {
            &&& service.status(code).id.len() == 0
            &&& service.status(code).next_offset == 0
            &&& service.status(code).size == 0
            &&& service.correlation().len() == 0
        },
{
}

/// A service is ready to reboot exactly if the image is staged and no flash or MQTT work is left.
pub proof fn reboot_conditions(service: ServiceView)
    ensures
        service.ready() <==> {
            &&& service.state == State::Complete
            &&& service.flash is None
            &&& service.pending is None
            &&& service.inflight is None
            &&& service.startup_publish is None
        },
{
}

/// A fresh session forgets the operation in flight, queues the subscription, and puts the status of
/// the transfer behind it; a resumed one queues the status in place of what was queued. Nothing
/// else changes.
pub proof fn startup_effects(service: ServiceView)
    ensures
        ({
            let fresh = service.startup(ConnectEvent::Connected);
            &&& fresh == ServiceView {
                inflight: None,
                pending: Some(Action::Subscribe),
                startup_publish: fresh.startup_publish,
                ..service
            }
            &&& service.state == State::Idle ==> fresh.startup_publish is None
            &&& service.state == State::Preparing || service.state == State::Receiving
                || service.state == State::Writing ==> fresh.startup_publish == Some(
                StatusCode::Accepted,
            )
            &&& service.state == State::Complete ==> fresh.startup_publish == Some(
                StatusCode::Complete,
            )
            &&& service.state == State::Error ==> fresh.startup_publish == Some(StatusCode::Error)
        }),
        ({
            let resumed = service.startup(ConnectEvent::Reconnected);
            &&& resumed == ServiceView {
                startup_publish: None,
                pending: resumed.pending,
                ..service
            }
            &&& service.state == State::Idle ==> resumed.pending == service.pending
            &&& service.state == State::Preparing || service.state == State::Receiving
                || service.state == State::Writing ==> resumed.pending == Some(
                Action::Publish(StatusCode::Accepted),
            )
            &&& service.state == State::Complete ==> resumed.pending == Some(
                Action::Publish(StatusCode::Complete),
            )
            &&& service.state == State::Error ==> resumed.pending == Some(
                Action::Publish(StatusCode::Error),
            )
        }),
{
}

/// An abort fails a transfer that is being prepared, received or written, drops its flash
/// operation, keeps its progress, and makes the error status due: at once, or behind a
/// subscription that is queued or in flight. Otherwise it does nothing.
pub proof fn abort_effects(service: ServiceView)
    ensures
        service.state == State::Idle || service.state == State::Complete || service.state
            == State::Error ==> service.aborted() == service,
        service.state == State::Preparing || service.state == State::Receiving || service.state
            == State::Writing ==> {
            let subscribing = service.inflight == Some(Action::Subscribe) || service.pending
                == Some(Action::Subscribe);
            &&& subscribing ==> service.aborted() == ServiceView {
                state: State::Error,
                flash: None,
                startup_publish: Some(StatusCode::Error),
                ..service
            }
            &&& !subscribing ==> service.aborted() == ServiceView {
                state: State::Error,
                flash: None,
                pending: Some(Action::Publish(StatusCode::Error)),
                ..service
            }
        },
{
}

/// A flash report without an outstanding operation changes nothing.
pub proof fn unexpected_flash_report(service: ServiceView, success: bool)
    requires
        service.flash is None,
    ensures
        service.flash_completed(success) == service,
{
}

/// A failed flash operation fails the transfer where it is and queues `Backend`.
pub proof fn failed_flash_report(service: ServiceView)
    requires
        service.flash is Some,
        service.update is Some,
    ensures
        service.flash_completed(false) == (ServiceView {
            flash: None,
            state: State::Error,
            pending: Some(Action::Publish(StatusCode::Backend)),
            ..service
        }),
{
}

/// A flash report for no transfer is an error.
pub proof fn stray_flash_report(service: ServiceView, success: bool)
    requires
        service.flash is Some,
        service.update is None,
    ensures
        service.flash_completed(success) == (ServiceView {
            flash: None,
            state: State::Error,
            pending: Some(Action::Publish(StatusCode::Error)),
            ..service
        }),
{
}

/// A successful preparation makes the transfer receive from where it is and queues the status that
/// requests the first chunk.
pub proof fn prepared_flash_report(service: ServiceView)
    requires
        service.flash == Some(FlashOp::Prepare),
        service.update is Some,
    ensures
        service.flash_completed(true) == (ServiceView {
            flash: None,
            state: State::Receiving,
            pending: Some(Action::Publish(StatusCode::Accepted)),
            ..service
        }),
{
}

/// A successful write moves the progress behind the chunk and queues a status: the one that
/// requests the next chunk while image bytes are missing, and that of the staged image after the
/// last chunk.
pub proof fn written_flash_report(
    service: ServiceView,
    offset: u32,
    next_offset: u32,
    final_chunk: bool,
)
    requires
        service.flash == Some(FlashOp::Write { offset, next_offset, final_chunk }),
        service.update is Some,
    ensures
        !final_chunk ==> service.flash_completed(true) == (ServiceView {
            flash: None,
            state: State::Receiving,
            update: Some(UpdateView { next_offset, ..service.update->0 }),
            pending: Some(Action::Publish(StatusCode::Accepted)),
            ..service
        }),
        final_chunk ==> service.flash_completed(true) == (ServiceView {
            flash: None,
            state: State::Complete,
            update: Some(UpdateView { next_offset: service.update->0.size, ..service.update->0 }),
            pending: Some(Action::Publish(StatusCode::Complete)),
            ..service
        }),
{
}

/// Every flash report leaves a status queued, with the code that fits the phase it leads to: a
/// successful one leads to a receiving transfer that asks for the next chunk, or to a staged
/// image.
pub proof fn flash_report_is_published(service: ServiceView, success: bool)
    requires
        service.wf(),
        service.flash is Some,
    ensures
        ({
            let after = service.flash_completed(success);
            &&& after.flash is None
            &&& success ==> after.state == State::Receiving || after.state == State::Complete
            &&& !success ==> after.state == State::Error
            &&& after.state == State::Receiving ==> after.pending == Some(
                Action::Publish(StatusCode::Accepted),
            )
            &&& after.state == State::Complete ==> after.pending == Some(
                Action::Publish(StatusCode::Complete),
            )
            &&& after.state == State::Error ==> after.pending == Some(
                Action::Publish(StatusCode::Backend),
            )
        }),
{
}

/// A topic leads to the trigger or the chunk handler exactly if it is the topic root with
/// `/trigger` or `/chunk` behind it.
pub proof fn routing(service: ServiceView, topic: Seq<char>)
    ensures
        service.route(topic) == Route::Trigger <==> topic == service.prefix + "/trigger"@,
        service.route(topic) == Route::Chunk <==> topic == service.prefix + "/chunk"@,
        service.route(topic) == Route::Other <==> topic != service.prefix + "/trigger"@ && topic
            != service.prefix + "/chunk"@,
{
    reveal_strlit("/trigger");
    reveal_strlit("/chunk");
    assert((service.prefix + "/trigger"@).len() != (service.prefix + "/chunk"@).len());
}

/// A trigger declares the size, sequence number and digest it holds, with its resource identifier
/// in UTF-8. Only an identifier of more than 128 bytes leaves it without a manifest.
pub proof fn trigger_contents(trigger: Trigger<'_>)
    ensures
        vstd::utf8::encode_utf8(trigger.resource@).len() <= 128 ==> {
            &&& crate::model::payload_manifest(Some(trigger)) matches Some(manifest)
            &&& manifest.size == trigger.size
            &&& manifest.sequence == trigger.sequence
            &&& manifest.fnv1a64 == trigger.digest
            &&& manifest.resource_id == vstd::utf8::encode_utf8(trigger.resource@)
        },
        vstd::utf8::encode_utf8(trigger.resource@).len() > 128 ==> crate::model::payload_manifest(
            Some(trigger),
        ) is None,
        crate::model::trigger_manifest(trigger) == crate::model::payload_manifest(Some(trigger)),
        crate::model::payload_manifest(None) is None,
{
}

/// Two manifests declare the same transfer exactly if their sequence number, size, resource
/// identifier and digest are the same. A transfer that has started is the one that its manifest
/// declares, and no byte of it is written.
pub proof fn transfer_identity(manifest: ManifestView, other: ManifestView)
    ensures
        ({
            let update = UpdateView::start(manifest);
            &&& update.id == crate::text::decimal(manifest.sequence as nat)
            &&& update.size == manifest.size
            &&& update.resource_id == manifest.resource_id
            &&& update.fnv1a64 == manifest.fnv1a64
            &&& update.next_offset == 0
            &&& update.describes(other) <==> {
                &&& other.sequence == manifest.sequence
                &&& other.size == manifest.size
                &&& other.resource_id == manifest.resource_id
                &&& other.fnv1a64 == manifest.fnv1a64
            }
        }),
{
    crate::text::lemma_decimal(manifest.sequence as nat);
    crate::text::lemma_decimal(other.sequence as nat);
}

/// The progress of a transfer has no part in which manifest declares it.
pub proof fn identity_ignores_progress(update: UpdateView, next_offset: u32, manifest: ManifestView)
    ensures
        (UpdateView { next_offset, ..update }).describes(manifest) == update.describes(manifest),
        update.describes(manifest) <==> {
            &&& update.id == crate::text::decimal(manifest.sequence as nat)
            &&& update.size == manifest.size
            &&& update.resource_id == manifest.resource_id
            &&& update.fnv1a64 == manifest.fnv1a64
        },
{
}

/// A trigger without a manifest is answered with `Error` by an idle service and passed over by any
/// other.
pub proof fn invalid_trigger(service: ServiceView)
    ensures
        service.trigger_reply::<'static>(None) == Handle::Consumed,
        service.state == State::Idle ==> service.triggered(None) == (ServiceView {
            pending: Some(Action::Publish(StatusCode::Error)),
            ..service
        }),
        service.state != State::Idle ==> service.triggered(None) == service,
{
}

/// While there is a transfer, its own trigger queues the status of the current phase, and any other
/// trigger is passed over.
pub proof fn trigger_during_transfer(service: ServiceView, manifest: ManifestView)
    requires
        service.state != State::Idle,
    ensures
        service.trigger_reply::<'static>(Some(manifest)) == Handle::Consumed,
        ({
            let after = service.triggered(Some(manifest));
            let same = service.update is Some && service.update->0.describes(manifest);
            &&& !same ==> after == service
            &&& same ==> after == ServiceView { pending: after.pending, ..service }
            &&& same && service.state == State::Complete ==> after.pending == Some(
                Action::Publish(StatusCode::Complete),
            )
            &&& same && service.state == State::Error ==> after.pending == Some(
                Action::Publish(StatusCode::Error),
            )
            &&& same && service.state != State::Complete && service.state != State::Error
                ==> after.pending == Some(Action::Publish(StatusCode::Accepted))
        }),
{
}

/// An idle service refuses an empty image with `Error`, one beyond the capacity with `Oversize`,
/// and one whose largest chunk publish exceeds the receive limit with `Mtu`. A refusal changes
/// nothing but the queued status.
pub proof fn refused_triggers(service: ServiceView, manifest: ManifestView)
    requires
        service.state == State::Idle,
    ensures
        manifest.size == 0 ==> {
            &&& service.triggered(Some(manifest)) == ServiceView {
                pending: Some(Action::Publish(StatusCode::Error)),
                ..service
            }
            &&& service.trigger_reply::<'static>(Some(manifest)) == Handle::Consumed
        },
        manifest.size > service.capacity ==> {
            &&& service.triggered(Some(manifest)) == ServiceView {
                pending: Some(Action::Publish(StatusCode::Oversize)),
                ..service
            }
            &&& service.trigger_reply::<'static>(Some(manifest)) == Handle::Consumed
        },
        0 < manifest.size <= service.capacity && service.chunk_budget(manifest.resource_id)
            > service.max_rx_packet_size ==> {
            &&& service.triggered(Some(manifest)) == ServiceView {
                pending: Some(Action::Publish(StatusCode::Mtu)),
                ..service
            }
            &&& service.trigger_reply::<'static>(Some(manifest)) == Handle::Consumed
        },
{
}

/// An idle service accepts any other image: the transfer starts at its first byte, the owner is
/// asked to prepare as many bytes as the manifest declares, which is the size of the transfer, and
/// the acceptance is queued for publication.
pub proof fn accepted_trigger(service: ServiceView, manifest: ManifestView)
    requires
        service.state == State::Idle,
        0 < manifest.size <= service.capacity,
        service.chunk_budget(manifest.resource_id) <= service.max_rx_packet_size,
    ensures
        service.trigger_reply::<'static>(Some(manifest)) == Handle::Flash(
            FlashRequest::Prepare { size: manifest.size },
        ),
        ({
            let after = service.triggered(Some(manifest));
            &&& after == ServiceView {
                update: after.update,
                state: State::Preparing,
                flash: Some(FlashOp::Prepare),
                pending: Some(Action::Publish(StatusCode::Accepted)),
                ..service
            }
            &&& after.update == Some(
                UpdateView {
                    id: crate::text::decimal(manifest.sequence as nat),
                    resource_id: manifest.resource_id,
                    size: manifest.size,
                    next_offset: 0,
                    fnv1a64: manifest.fnv1a64,
                },
            )
        }),
{
}

/// The owner is asked to prepare exactly the size of the transfer that was started, and only where
/// one was started.
pub proof fn prepared_size_is_transfer_size(service: ServiceView, manifest: Option<ManifestView>)
    ensures
        ({
            let after = service.triggered(manifest);
            &&& service.trigger_reply::<'static>(manifest) matches Handle::Flash(request) ==> {
                &&& service.state == State::Idle
                &&& after.state == State::Preparing
                &&& manifest is Some
                &&& after.update is Some
                &&& request == FlashRequest::Prepare { size: after.update->0.size }
                &&& request == FlashRequest::Prepare { size: manifest->0.size }
            }
            &&& !(service.trigger_reply::<'static>(manifest) is Flash) ==> {
                &&& service.trigger_reply::<'static>(manifest) == Handle::Consumed
                &&& after.state == service.state
                &&& after.update == service.update
                &&& after.flash == service.flash
            }
        }),
{
}

/// A chunk at another offset than the next one is answered with `Duplicate` or `Offset`. One at the
/// next offset fails the transfer with `Mtu` if it is empty, with `Oversize` if it is longer than a
/// chunk may be, with `Unaligned` if it is no whole number of flash writes, and with `Oversize` if
/// it ends beyond the capacity or holds anything but erased bytes behind the image. Any other is
/// taken, up to its own end or that of the image.
pub proof fn chunk_verdicts(
    size: u32,
    next_offset: u32,
    offset: u32,
    payload: Seq<u8>,
    capacity: u32,
    max_chunk_size: usize,
    write_size: usize,
)
    ensures
        ({
            let verdict = crate::chunk::chunk_verdict(
                size,
                next_offset,
                offset,
                payload,
                capacity,
                max_chunk_size,
                write_size,
            );
            let whole = whole_pieces(payload.len(), write_size as nat);
            let fits = offset + payload.len() <= capacity;
            &&& offset < next_offset ==> verdict == Err::<u32, ChunkError>(
                ChunkError::Queue(StatusCode::Duplicate),
            )
            &&& offset > next_offset ==> verdict == Err::<u32, ChunkError>(
                ChunkError::Queue(StatusCode::Offset),
            )
            &&& offset == next_offset && payload.len() == 0 ==> verdict == Err::<u32, ChunkError>(
                ChunkError::Fail(StatusCode::Mtu),
            )
            &&& offset == next_offset && payload.len() > max_chunk_size ==> verdict == Err::<
                u32,
                ChunkError,
            >(ChunkError::Fail(StatusCode::Oversize))
            &&& offset == next_offset && 0 < payload.len() <= max_chunk_size && !whole
                ==> verdict == Err::<u32, ChunkError>(ChunkError::Fail(StatusCode::Unaligned))
            &&& offset == next_offset && 0 < payload.len() <= max_chunk_size && whole && !fits
                ==> verdict == Err::<u32, ChunkError>(ChunkError::Fail(StatusCode::Oversize))
            &&& offset == next_offset && 0 < payload.len() <= max_chunk_size && whole && fits
                && offset + payload.len() <= size ==> {
                &&& verdict matches Ok(end)
                &&& end == offset + payload.len()
            }
            &&& offset == next_offset && 0 < payload.len() <= max_chunk_size && whole && fits
                && offset <= size < offset + payload.len() ==> {
                let padded = forall|i: int|
                    size - offset <= i < payload.len() ==> #[trigger] payload[i] == 0xffu8;
                &&& padded ==> verdict == Ok::<u32, ChunkError>(size)
                &&& !padded ==> verdict == Err::<u32, ChunkError>(
                    ChunkError::Fail(StatusCode::Oversize),
                )
            }
        }),
{
    multiples_are_whole_pieces(payload.len(), write_size as nat);
    if offset <= size < offset + payload.len() {
        let padding = payload.skip(size - offset);
        assert(forall|k: int| 0 <= k < padding.len() ==> padding[k] == payload[k + size - offset]);
        if crate::chunk::is_erased(padding) {
            assert forall|i: int| size - offset <= i < payload.len() implies #[trigger] payload[i]
                == 0xffu8 by {
                assert(padding[i - (size - offset)] == payload[i]);
            }
        }
    }
}

/// A chunk keeps to the limits exactly if it holds at least one byte and at most as many as a chunk
/// may hold, is a whole number of flash writes, and ends within the capacity.
pub proof fn chunk_limits(
    offset: u32,
    len: nat,
    capacity: u32,
    max_chunk_size: usize,
    write_size: usize,
)
    ensures
        crate::chunk::within_limits(offset, len, capacity, max_chunk_size, write_size) <==> {
            &&& 0 < len <= max_chunk_size
            &&& whole_pieces(len, write_size as nat)
            &&& offset + len <= capacity
        },
{
    multiples_are_whole_pieces(len, write_size as nat);
}

/// A chunk is passed over while the staging area is being prepared.
pub proof fn chunk_while_preparing(
    service: ServiceView,
    resource_id: Seq<u8>,
    offset: u32,
    payload: &[u8],
)
    requires
        service.state == State::Preparing,
    ensures
        service.chunk_handled(resource_id, offset, payload@) == service,
        service.chunk_reply(resource_id, offset, payload) is Consumed,
{
}

/// A staged transfer answers every chunk with `Complete`, a failed one with `Error`, and an idle
/// service with `Idle`. Nothing else changes, and nothing is written.
pub proof fn chunk_without_running_transfer(
    service: ServiceView,
    resource_id: Seq<u8>,
    offset: u32,
    payload: &[u8],
)
    ensures
        service.state == State::Complete ==> {
            &&& service.chunk_handled(resource_id, offset, payload@) == ServiceView {
                pending: Some(Action::Publish(StatusCode::Complete)),
                ..service
            }
            &&& service.chunk_reply(resource_id, offset, payload) is Consumed
        },
        service.state == State::Error ==> {
            &&& service.chunk_handled(resource_id, offset, payload@) == ServiceView {
                pending: Some(Action::Publish(StatusCode::Error)),
                ..service
            }
            &&& service.chunk_reply(resource_id, offset, payload) is Consumed
        },
        service.state == State::Idle && service.update is None ==> {
            &&& service.chunk_handled(resource_id, offset, payload@) == ServiceView {
                pending: Some(Action::Publish(StatusCode::Idle)),
                ..service
            }
            &&& service.chunk_reply(resource_id, offset, payload) is Consumed
        },
{
}

/// A chunk under another resource identifier does not touch a transfer that is receiving or
/// writing.
pub proof fn chunk_of_another_transfer(
    service: ServiceView,
    resource_id: Seq<u8>,
    offset: u32,
    payload: &[u8],
)
    requires
        service.state == State::Receiving || service.state == State::Writing,
        service.update is Some,
        resource_id != service.update->0.resource_id,
    ensures
        service.chunk_handled(resource_id, offset, payload@) == service,
        service.chunk_reply(resource_id, offset, payload) is Consumed,
{
}

/// While a chunk is being written, the same chunk is passed over and any other one is answered with
/// `Error`; the write goes on.
pub proof fn chunk_while_writing(
    service: ServiceView,
    offset: u32,
    payload: &[u8],
    written: u32,
    next_offset: u32,
    final_chunk: bool,
)
    requires
        service.state == State::Writing,
        service.update is Some,
        service.flash == Some(FlashOp::Write { offset: written, next_offset, final_chunk }),
    ensures
        ({
            let resource_id = service.update->0.resource_id;
            let after = service.chunk_handled(resource_id, offset, payload@);
            &&& service.chunk_reply(resource_id, offset, payload) is Consumed
            &&& offset == written ==> after == service
            &&& offset != written ==> after == ServiceView {
                pending: Some(Action::Publish(StatusCode::Error)),
                ..service
            }
        }),
{
}

/// While receiving, a chunk at another offset than the requested one is answered, and the transfer
/// stays as it was.
pub proof fn chunk_at_another_offset(service: ServiceView, offset: u32, payload: &[u8])
    requires
        service.state == State::Receiving,
        service.update is Some,
        offset != service.update->0.next_offset,
    ensures
        ({
            let update = service.update->0;
            let after = service.chunk_handled(update.resource_id, offset, payload@);
            &&& service.chunk_reply(update.resource_id, offset, payload) is Consumed
            &&& offset < update.next_offset ==> after == ServiceView {
                pending: Some(Action::Publish(StatusCode::Duplicate)),
                ..service
            }
            &&& offset > update.next_offset ==> after == ServiceView {
                pending: Some(Action::Publish(StatusCode::Offset)),
                ..service
            }
        }),
{
}

/// While receiving, a chunk at the requested offset that breaks a limit fails the transfer with the
/// code of the first limit it breaks: `Mtu` if it is empty, `Oversize` if it is too long,
/// `Unaligned`, and `Oversize` if it ends beyond the capacity or has other than erased bytes behind
/// the image. Nothing is written and the progress stays.
pub proof fn faulty_chunk_fails_transfer(service: ServiceView, payload: &[u8])
    requires
        service.state == State::Receiving,
        service.update is Some,
        service.update->0.next_offset <= service.update->0.size,
    ensures
        ({
            let update = service.update->0;
            let offset = update.next_offset;
            let len = payload@.len();
            let after = service.chunk_handled(update.resource_id, offset, payload@);
            let reply = service.chunk_reply(update.resource_id, offset, payload);
            let sized = 0 < len <= service.max_chunk_size;
            let whole = whole_pieces(len, service.write_size as nat);
            let fits = offset + len <= service.capacity;
            let clean = forall|i: int|
                update.size - offset <= i < len ==> #[trigger] payload@[i] == 0xffu8;
            &&& len == 0 ==> after == ServiceView {
                state: State::Error,
                pending: Some(Action::Publish(StatusCode::Mtu)),
                ..service
            }
            &&& len > service.max_chunk_size ==> after == ServiceView {
                state: State::Error,
                pending: Some(Action::Publish(StatusCode::Oversize)),
                ..service
            }
            &&& sized && !whole ==> after == ServiceView {
                state: State::Error,
                pending: Some(Action::Publish(StatusCode::Unaligned)),
                ..service
            }
            &&& sized && whole && (!fits || !clean) ==> after == ServiceView {
                state: State::Error,
                pending: Some(Action::Publish(StatusCode::Oversize)),
                ..service
            }
            &&& !(sized && whole && fits && clean) ==> reply is Consumed
        }),
{
    let update = service.update->0;
    chunk_verdicts(
        update.size,
        update.next_offset,
        update.next_offset,
        payload@,
        service.capacity,
        service.max_chunk_size,
        service.write_size,
    );
}

/// While receiving, any other chunk at the requested offset is handed out for writing, whole and at
/// that offset, with the size of the image, and with the digest exactly if it reaches the end of
/// the image. The write is outstanding up to the end of the chunk or of the image; nothing is
/// queued and the progress waits for the result.
pub proof fn sound_chunk_is_written(service: ServiceView, payload: &[u8])
    requires
        service.state == State::Receiving,
        service.update is Some,
        service.update->0.next_offset <= service.update->0.size,
        0 < payload@.len() <= service.max_chunk_size,
        whole_pieces(payload@.len(), service.write_size as nat),
        service.update->0.next_offset + payload@.len() <= service.capacity,
        forall|i: int|
            service.update->0.size - service.update->0.next_offset <= i < payload@.len()
                ==> #[trigger] payload@[i] == 0xffu8,
    ensures
        ({
            let update = service.update->0;
            let offset = update.next_offset;
            let end = offset + payload@.len();
            let after = service.chunk_handled(update.resource_id, offset, payload@);
            &&& service.chunk_reply(update.resource_id, offset, payload) matches Handle::Flash(
                FlashRequest::Write(write),
            )
            &&& write.offset == offset
            &&& write.payload == payload
            &&& write.image_size == update.size
            &&& end < update.size ==> write.fnv1a64 is None
            &&& end >= update.size ==> write.fnv1a64 == Some(update.fnv1a64)
            &&& after == ServiceView { state: State::Writing, flash: after.flash, ..service }
            &&& end < update.size ==> after.flash == Some(
                FlashOp::Write { offset, next_offset: end as u32, final_chunk: false },
            )
            &&& end >= update.size ==> after.flash == Some(
                FlashOp::Write { offset, next_offset: update.size, final_chunk: true },
            )
        }),
{
    let update = service.update->0;
    chunk_verdicts(
        update.size,
        update.next_offset,
        update.next_offset,
        payload@,
        service.capacity,
        service.max_chunk_size,
        service.write_size,
    );
}

/// What a chunk can queue: `Complete` only once the image is staged, `Idle` only without a
/// transfer, and never `Accepted` or `Backend`.
pub proof fn codes_of_chunk_answers(
    service: ServiceView,
    resource_id: Seq<u8>,
    offset: u32,
    payload: Seq<u8>,
    code: StatusCode,
)
    requires
        service.wf(),
        service.chunk_handled(resource_id, offset, payload) != service,
        service.chunk_handled(resource_id, offset, payload).state != State::Writing
            || service.state == State::Writing,
        service.chunk_handled(resource_id, offset, payload).pending == Some(Action::Publish(code)),
    ensures
        code == StatusCode::Complete ==> service.state == State::Complete,
        code == StatusCode::Idle ==> service.state == State::Idle && service.update is None,
        code != StatusCode::Accepted,
        code != StatusCode::Backend,
{
}

/// A publish on the trigger topic is the trigger that its payload declares; one on the chunk topic
/// is the chunk that its properties name, with its whole payload, and nothing if they name none;
/// any other is no concern of the service.
pub proof fn publish_effects(
    service: ServiceView,
    topic: Seq<char>,
    payload: &[u8],
    properties: Seq<crate::properties::PropertyView>,
    trigger: Option<Trigger<'_>>,
)
    ensures
        ({
            let after = service.publish_handled(topic, payload@, properties, trigger);
            let reply = service.publish_reply(topic, payload, properties, trigger);
            let request = crate::properties::chunk_request(properties);
            let on_trigger = topic == service.prefix + "/trigger"@;
            let on_chunk = topic == service.prefix + "/chunk"@;
            &&& on_trigger ==> {
                &&& after == service.triggered(crate::model::payload_manifest(trigger))
                &&& reply == service.trigger_reply(crate::model::payload_manifest(trigger))
            }
            &&& on_chunk ==> (request matches Some((resource_id, offset)) ==> {
                &&& after == service.chunk_handled(resource_id, offset, payload@)
                &&& reply == service.chunk_reply(resource_id, offset, payload)
            })
            &&& on_chunk && request is None ==> after == service && reply is Consumed
            &&& !on_trigger && !on_chunk ==> after == service && reply is Unhandled
        }),
{
    routing(service, topic);
}

/// `handle` reads a publish by its topic, payload, properties and trigger.
pub proof fn publish_parts(
    service: ServiceView,
    publish: crate::types::InboundPublish<'_, '_>,
)
    ensures
        ({
            let properties = crate::properties::property_list(publish.properties);
            &&& service.handled(publish) == service.publish_handled(
                publish.topic@,
                publish.payload@,
                properties,
                publish.trigger,
            )
            &&& service.reply(publish) == service.publish_reply(
                publish.topic@,
                publish.payload,
                properties,
                publish.trigger,
            )
        }),
{
}

/// An operation takes the one place in the queue, but a subscription is not queued beside one in
/// flight.
pub proof fn queue_effects(service: ServiceView, action: Action, code: StatusCode)
    ensures
        service.published(code) == (ServiceView {
            pending: Some(Action::Publish(code)),
            ..service
        }),
        action != Action::Subscribe || service.inflight != Some(Action::Subscribe)
            ==> service.queued(action) == (ServiceView { pending: Some(action), ..service }),
        action == Action::Subscribe && service.inflight == Some(Action::Subscribe)
            ==> service.queued(action) == service,
{
}

/// A step with an operation in flight that is still pending waits and changes nothing; one that was
/// invalidated takes the queue again, and the connection is reported lost.
pub proof fn step_over_unfinished_operation(service: ServiceView, action: Action)
    requires
        service.inflight == Some(action),
    ensures
        service.settled(OpProgress::Pending) == service,
        service.step_action(OpProgress::Pending) == StepAction::Wait,
        service.settled(OpProgress::Invalidated) == (ServiceView {
            inflight: None,
            pending: Some(action),
            ..service
        }),
        service.step_action(OpProgress::Invalidated) == StepAction::Disconnected,
{
}

/// A subscription that has settled while a status waits for it makes the step start that status.
pub proof fn step_over_settled_subscription(service: ServiceView, code: StatusCode)
    requires
        service.inflight == Some(Action::Subscribe),
        service.startup_publish == Some(code),
    ensures
        service.settled(OpProgress::Settled) == (ServiceView {
            inflight: None,
            startup_publish: None,
            pending: Some(Action::Publish(code)),
            ..service
        }),
        service.step_action(OpProgress::Settled) == StepAction::Start(Action::Publish(code)),
{
}

/// Whether a status waits for the subscription in flight.
pub open spec fn status_waits_for_inflight(service: ServiceView) -> bool {
    service.inflight == Some(Action::Subscribe) && service.startup_publish is Some
}

/// Where the operation in flight has settled, or none is, and no deferred status takes the queue,
/// the step keeps what is queued and starts exactly that.
pub proof fn step_starts_what_is_queued(service: ServiceView, action: Action, progress: OpProgress)
    requires
        service.pending == Some(action),
        service.inflight is None || progress == OpProgress::Settled,
        !status_waits_for_inflight(service),
    ensures
        service.settled(progress) == (ServiceView { inflight: None, ..service }),
        service.step_action(progress) == StepAction::Start(action),
{
}

/// With nothing queued and no status waiting, a step whose operation has settled, or that has
/// none, is quiescent.
pub proof fn step_without_work(service: ServiceView, progress: OpProgress)
    requires
        service.pending is None,
        service.startup_publish is None,
        service.inflight is None || progress == OpProgress::Settled,
    ensures
        service.settled(progress) == (ServiceView { inflight: None, ..service }),
        service.step_action(progress) == StepAction::Quiescent,
{
}

/// With nothing queued but a status waiting for a subscription that is not in flight, the step
/// starts the subscription, and the status of the current phase waits for it.
pub proof fn step_repeats_displaced_subscription(service: ServiceView, progress: OpProgress)
    requires
        service.pending is None,
        service.startup_publish is Some,
        service.inflight is None || progress == OpProgress::Settled,
        service.inflight != Some(Action::Subscribe),
    ensures
        ({
            let after = service.settled(progress);
            &&& after == ServiceView {
                inflight: None,
                pending: Some(Action::Subscribe),
                startup_publish: after.startup_publish,
                ..service
            }
            &&& service.state == State::Complete ==> after.startup_publish == Some(
                StatusCode::Complete,
            )
            &&& service.state == State::Error ==> after.startup_publish == Some(StatusCode::Error)
            &&& service.state == State::Preparing || service.state == State::Receiving
                || service.state == State::Writing ==> after.startup_publish == Some(
                StatusCode::Accepted,
            )
            &&& service.state == State::Idle ==> after.startup_publish is None
        }),
        service.step_action(progress) == StepAction::Start(Action::Subscribe),
{
}

/// A step never empties the queue: what was queued is started, or stays queued, or has given way to
/// the operation that the step starts or that was invalidated. What a step starts stays queued
/// until it is reported started.
pub proof fn step_never_drops_work(service: ServiceView, progress: OpProgress)
    ensures
        service.pending is Some ==> service.settled(progress).pending is Some,
        service.pending is Some ==> service.step_action(progress) != StepAction::Quiescent,
        service.step_action(progress) matches StepAction::Start(action) ==> service.settled(
            progress,
        ).pending == Some(action),
        service.step_action(progress) == StepAction::Quiescent ==> {
            let after = service.settled(progress);
            after.pending is None && after.inflight is None && after.startup_publish is None
        },
{
}

/// A started operation leaves the queue and is in flight, or has completed at once: then a
/// subscription makes the waiting status due, and any other operation leaves the queue empty
/// unless a status still waits for the subscription, which takes the queue again.
pub proof fn started_operation(service: ServiceView, action: Action)
    requires
        service.pending == Some(action),
    ensures
        service.started(true) == (ServiceView {
            pending: None,
            inflight: Some(action),
            ..service
        }),
        service.startup_publish is None ==> service.started(false) == (ServiceView {
            pending: None,
            inflight: None,
            ..service
        }),
        action == Action::Subscribe && service.startup_publish is Some ==> service.started(false)
            == (ServiceView {
            pending: Some(Action::Publish(service.startup_publish->0)),
            inflight: None,
            startup_publish: None,
            ..service
        }),
        action != Action::Subscribe && service.startup_publish is Some ==> {
            let after = service.started(false);
            &&& after == ServiceView {
                pending: Some(Action::Subscribe),
                inflight: None,
                startup_publish: after.startup_publish,
                ..service
            }
            &&& service.state == State::Complete ==> after.startup_publish == Some(
                StatusCode::Complete,
            )
            &&& service.state == State::Error ==> after.startup_publish == Some(StatusCode::Error)
            &&& service.state == State::Preparing || service.state == State::Receiving
                || service.state == State::Writing ==> after.startup_publish == Some(
                StatusCode::Accepted,
            )
            &&& service.state == State::Idle ==> after.startup_publish is None
        },
{
}

/// Reporting a start with nothing queued changes nothing, unless a status still waits for a
/// subscription that is nowhere.
pub proof fn start_without_queued_operation(service: ServiceView, in_flight: bool)
    requires
        service.pending is None,
        service.inflight is Some || service.startup_publish is None,
    ensures
        service.started(in_flight) == service,
{
}

/// A step is quiescent exactly if nothing is queued and nothing is in flight.
pub proof fn step_results(service: ServiceView)
    ensures
        service.step() == Step::Quiescent <==> service.pending is None && service.inflight is None,
        service.step() == Step::Pending <==> service.pending is Some || service.inflight is Some,
{
}

/// A status publication goes out at least once on the status topic, as text, with the current
/// status. It asks for the next chunk: on the chunk topic, under the resource identifier of the
/// transfer, at the first byte not yet written, which reads back from its `offset` property.
/// Without a transfer it asks for nothing: no identifier, offset zero.
pub proof fn publication_requests_next_chunk(service: ServiceView, code: StatusCode)
    ensures
        ({
            let publication = service.publication(code);
            &&& publication.topic == service.prefix + "/status"@
            &&& publication.response_topic == service.prefix + "/chunk"@
            &&& publication.qos == QoS::AtLeastOnce
            &&& publication.payload_format_indicator == 1
            &&& publication.offset_key == "offset"@
            &&& publication.status.code == code
            &&& publication.status.state == service.state
            &&& publication.status.mtu == service.max_chunk_size
            &&& publication.status.write_size == service.write_size
            &&& service.update matches Some(update) ==> {
                &&& publication.correlation_data == update.resource_id
                &&& publication.status.id == update.id
                &&& publication.status.size == update.size
                &&& publication.status.next_offset == update.next_offset
                &&& publication.offset == crate::text::decimal(update.next_offset as nat)
                &&& crate::text::parsed_u32(publication.offset) == Some(update.next_offset)
            }
            &&& service.update is None ==> {
                &&& publication.correlation_data.len() == 0
                &&& publication.status.id.len() == 0
                &&& publication.status.size == 0
                &&& publication.status.next_offset == 0
                &&& crate::text::parsed_u32(publication.offset) == Some(0u32)
            }
        }),
{
    crate::text::decimal_round_trip(service.status(code).next_offset);
}

/// The service subscribes to the trigger and the chunk topic, delivered at least once, without
/// retained messages and without its own.
pub proof fn subscription_covers_host_topics(service: ServiceView)
    ensures
        ({
            let subscription = service.subscription();
            &&& subscription.trigger.topic == service.prefix + "/trigger"@
            &&& subscription.chunk.topic == service.prefix + "/chunk"@
            &&& subscription.trigger.maximum_qos == QoS::AtLeastOnce
            &&& subscription.chunk.maximum_qos == QoS::AtLeastOnce
            &&& subscription.trigger.retain_handling == RetainHandling::Never
            &&& subscription.chunk.retain_handling == RetainHandling::Never
            &&& subscription.trigger.ignore_local_messages
            &&& subscription.chunk.ignore_local_messages
            &&& service.route(subscription.trigger.topic) == Route::Trigger
            &&& service.route(subscription.chunk.topic) == Route::Chunk
        }),
{
    routing(service, service.prefix + "/trigger"@);
    routing(service, service.prefix + "/chunk"@);
}

/// The receive limit is taken over as it is, and nothing else changes.
pub proof fn receive_limit(service: ServiceView, limit: usize)
    ensures
        service.with_rx_limit(limit).max_rx_packet_size == limit,
        service.with_rx_limit(limit) == (ServiceView { max_rx_packet_size: limit, ..service }),
{
}

} // verus!
