//! The cooperative MQTT update service.

use crate::chunk::{multiple_of, validate_chunk};
use crate::manifest::{manifest_id, parse_trigger};
use crate::model::{CHUNK_SUFFIX, STATUS_SUFFIX, TRIGGER_SUFFIX};
use crate::properties::{chunk_properties, OFFSET_KEY};
use crate::storage::TopicString;
use crate::text::{bytes_equal, is_joined, numeral, text_equal};
use crate::types::{
    Action, ChunkError, Config, ConnectEvent, CreateError, FlashOp, FlashRequest, FlashWrite,
    Handle, InboundPublish, OpProgress, OwnedManifestProfile, QoS, ResourceError, RetainHandling, Route, State, Status,
    StatusCode, StatusPublication, Step, StepAction, Subscription, TopicSubscription, Trigger,
    Update,
};
use crate::wire::checked_rx_bytes;
use vstd::prelude::*;

verus! {

/// Cooperative MQTT OTA service.
pub struct Service {
    prefix: TopicString,
    inflight: Option<Action>,
    pending: Option<Action>,
    startup_publish: Option<StatusCode>,
    state: State,
    update: Option<Update>,
    flash: Option<FlashOp>,
    capacity: u32,
    max_chunk_size: usize,
    max_rx_packet_size: usize,
    write_size: usize,
}

impl View for Service {
    type V = crate::model::ServiceView;

    closed spec fn view(&self) -> crate::model::ServiceView {
        crate::model::ServiceView {
            prefix: self.prefix@,
            inflight: self.inflight,
            pending: self.pending,
            startup_publish: self.startup_publish,
            state: self.state,
            update: match self.update {
                Some(update) => Some(update@),
                None => None,
            },
            flash: self.flash,
            capacity: self.capacity,
            max_chunk_size: self.max_chunk_size,
            max_rx_packet_size: self.max_rx_packet_size,
            write_size: self.write_size,
        }
    }
}

/// Join a topic root and a suffix.
fn topic(prefix: &TopicString, suffix: &str) -> (r: Result<TopicString, ResourceError>)
    ensures
        r is Ok <==> crate::text::utf8_len(prefix@ + suffix@) <= crate::storage::TOPIC_CAPACITY,
        r matches Ok(topic) ==> topic@ == prefix@ + suffix@,
{
    let mut topic = prefix.duplicate();
    proof {
        crate::text::lemma_utf8_concat(prefix@, suffix@);
    }
    match topic.push_str(suffix) {
        Ok(()) => Ok(topic),
        Err(_) => Err(ResourceError::BufferTooSmall),
    }
}

impl Service {
    /// Create an OTA service at the exact protocol topic root supplied by the application.
    pub fn new(prefix: &str, config: Config) -> (r: Result<Self, CreateError>)
        ensures
            match r {
                Ok(service) => {
                    &&& crate::model::chunk_sizes_valid(config)
                    &&& crate::model::topics_fit(prefix@)
                    &&& service@ == crate::model::ServiceView::initial(prefix@, config)
                    &&& service@.wf()
                },
                Err(CreateError::InvalidChunkSize) => !crate::model::chunk_sizes_valid(config),
                Err(CreateError::Topic(_)) => {
                    &&& crate::model::chunk_sizes_valid(config)
                    &&& !crate::model::topics_fit(prefix@)
                },
            },
    {
        if config.write_size == 0 || config.max_chunk_size == 0 || !multiple_of(
            config.max_chunk_size,
            config.write_size,
        ) {
            return Err(CreateError::InvalidChunkSize);
        }
        proof {
            crate::text::lemma_utf8_concat(prefix@, TRIGGER_SUFFIX@);
        }
        let prefix = match TopicString::try_from_str(prefix) {
            Ok(prefix) => prefix,
            Err(_) => return Err(CreateError::Topic(ResourceError::BufferTooSmall)),
        };
        match topic(&prefix, TRIGGER_SUFFIX) {
            Ok(_) => {},
            Err(error) => return Err(CreateError::Topic(error)),
        }
        match topic(&prefix, STATUS_SUFFIX) {
            Ok(_) => {},
            Err(error) => return Err(CreateError::Topic(error)),
        }
        match topic(&prefix, CHUNK_SUFFIX) {
            Ok(_) => {},
            Err(error) => return Err(CreateError::Topic(error)),
        }
        Ok(
            Service {
                prefix,
                inflight: None,
                pending: None,
                startup_publish: None,
                state: State::Idle,
                update: None,
                flash: None,
                capacity: config.capacity,
                max_chunk_size: config.max_chunk_size,
                max_rx_packet_size: 0,
                write_size: config.write_size,
            },
        )
    }

    /// Queue an MQTT operation in place of one queued before.
    fn queue(&mut self, action: Action)
        ensures
            final(self)@ == old(self)@.queued(action),
    {
        if action == Action::Subscribe && self.inflight == Some(Action::Subscribe) {
            return;
        }
        self.pending = Some(action);
    }

    /// Begin OTA startup for one MQTT connect event.
    ///
    /// Pure local state update. Cancel-safe.
    pub fn begin_startup(&mut self, event: ConnectEvent)
        ensures
            final(self)@ == old(self)@.startup(event),
            old(self)@.wf() ==> final(self)@.wf(),
    {
        let replay = self.replay_status();
        match event {
            ConnectEvent::Connected => {
                self.inflight = None;
                self.startup_publish = replay;
                self.queue(Action::Subscribe);
            },
            ConnectEvent::Reconnected => {
                self.startup_publish = None;
                if let Some(code) = replay {
                    self.queue(Action::Publish(code));
                }
            },
        }
    }

    /// Return the current OTA status.
    ///
    /// Pure query. Cancel-safe.
    pub fn status(&self) -> (status: Status<'_>)
        ensures
            status@ == self@.status(crate::model::state_code(self@.state)),
    {
        self.status_with(self.current_code())
    }

    /// Return whether OTA has reached a terminal complete state and there is no remaining queued
    /// or in-flight MQTT work.
    pub fn ready_to_reboot(&self) -> (ready: bool)
        ensures
            ready == self@.ready(),
    {
        self.state == State::Complete && self.flash.is_none() && self.pending.is_none()
            && self.inflight.is_none() && self.startup_publish.is_none()
    }

    /// MQTT operation that is queued.
    pub fn pending(&self) -> (action: Option<Action>)
        ensures
            action == self@.pending,
    {
        self.pending
    }

    /// MQTT operation that is in flight.
    pub fn inflight(&self) -> (action: Option<Action>)
        ensures
            action == self@.inflight,
    {
        self.inflight
    }

    /// Status to publish once the subscription is in place.
    pub fn startup_publish(&self) -> (code: Option<StatusCode>)
        ensures
            code == self@.startup_publish,
    {
        self.startup_publish
    }

    /// Status code of the current phase.
    fn current_code(&self) -> (code: StatusCode)
        ensures
            code == crate::model::state_code(self@.state),
    {
        match self.state {
            State::Idle => StatusCode::Idle,
            State::Preparing | State::Receiving | State::Writing => StatusCode::Accepted,
            State::Complete => StatusCode::Complete,
            State::Error => StatusCode::Error,
        }
    }

    /// Return the current OTA status with this code.
    ///
    /// Pure query. Cancel-safe.
    pub fn status_with(&self, code: StatusCode) -> (status: Status<'_>)
        ensures
            status@ == self@.status(code),
    {
        match &self.update {
            Some(update) => Status {
                state: self.state,
                code,
                id: update.id.as_str(),
                next_offset: update.next_offset,
                size: update.size,
                mtu: self.max_chunk_size,
                write_size: self.write_size,
            },
            None => {
                proof {
                    reveal_strlit("");
                }
                let status = Status {
                    state: self.state,
                    code,
                    id: "",
                    next_offset: 0,
                    size: 0,
                    mtu: self.max_chunk_size,
                    write_size: self.write_size,
                };
                assert(status@.id =~= Seq::<char>::empty());
                status
            },
        }
    }

    /// Abort an active OTA transfer.
    ///
    /// Pure local state update. Cancel-safe.
    ///
    /// Returns `true` if an OTA transfer was active and is now marked as failed. A later step or
    /// reconnect startup replay will publish `error` status for the same transfer.
    pub fn abort(&mut self) -> (aborted: bool)
        ensures
            aborted == crate::model::is_active(old(self)@.state),
            final(self)@ == old(self)@.aborted(),
            old(self)@.wf() ==> final(self)@.wf(),
    {
        match self.state {
            State::Preparing | State::Receiving | State::Writing => {},
            _ => return false,
        }
        self.state = State::Error;
        self.flash = None;
        if self.inflight == Some(Action::Subscribe) || self.pending == Some(Action::Subscribe) {
            self.startup_publish = Some(StatusCode::Error);
        } else {
            self.queue(Action::Publish(StatusCode::Error));
        }
        true
    }

    /// Complete one previously emitted flash request.
    ///
    /// Pure local state update. Cancel-safe.
    pub fn complete_flash(&mut self, success: bool)
        ensures
            final(self)@ == old(self)@.flash_completed(success),
            old(self)@.wf() ==> final(self)@.wf(),
    {
        let flash = match self.flash.take() {
            Some(flash) => flash,
            None => return,
        };
        let mut update = match self.update.take() {
            Some(update) => update,
            None => {
                self.state = State::Error;
                self.queue(Action::Publish(StatusCode::Error));
                return;
            },
        };
        if !success {
            self.update = Some(update);
            self.state = State::Error;
            self.queue(Action::Publish(StatusCode::Backend));
            return;
        }
        match flash {
            FlashOp::Prepare => {
                self.update = Some(update);
                self.state = State::Receiving;
                self.queue(Action::Publish(StatusCode::Accepted));
            },
            FlashOp::Write { next_offset, final_chunk, .. } => {
                if final_chunk {
                    update.next_offset = update.size;
                    self.update = Some(update);
                    self.state = State::Complete;
                    self.queue(Action::Publish(StatusCode::Complete));
                } else {
                    update.next_offset = next_offset;
                    self.update = Some(update);
                    self.state = State::Receiving;
                    self.queue(Action::Publish(StatusCode::Accepted));
                }
            },
        }
    }

    /// Status that a new connection replays.
    fn replay_status(&self) -> (code: Option<StatusCode>)
        ensures
            code == crate::model::replayed_code(self@.state),
    {
        match self.state {
            State::Idle => None,
            State::Preparing | State::Receiving | State::Writing => Some(StatusCode::Accepted),
            State::Complete => Some(StatusCode::Complete),
            State::Error => Some(StatusCode::Error),
        }
    }

    /// What a publish on `topic` is about.
    pub fn route(&self, topic: &str) -> (route: Route)
        ensures
            route == self@.route(topic@),
    {
        if is_joined(topic, self.prefix.as_str(), TRIGGER_SUFFIX) {
            Route::Trigger
        } else if is_joined(topic, self.prefix.as_str(), CHUNK_SUFFIX) {
            Route::Chunk
        } else {
            Route::Other
        }
    }

    /// Handle one inbound publish.
    ///
    /// Pure local state update returning chunk data borrowed from the publish. This is
    /// cancel-safe.
    pub fn handle<'a>(&mut self, inbound: &InboundPublish<'_, 'a>) -> (handle: Handle<'a>)
        requires
            old(self)@.wf(),
        ensures
            final(self)@ == old(self)@.handled(*inbound),
            handle == old(self)@.reply(*inbound),
            final(self)@.wf(),
    {
        self.handle_publish_with_properties(
            inbound.topic,
            inbound.payload,
            inbound.properties,
            inbound.trigger,
        )
    }

    /// Handle a publish on `topic` with this payload and these properties; `trigger` is the payload
    /// as a trigger, and none where it is not one.
    pub fn handle_publish_with_properties<'a>(
        &mut self,
        topic: &str,
        payload: &'a [u8],
        properties: &minimq::Properties<'_>,
        trigger: Option<Trigger<'_>>,
    ) -> (handle: Handle<'a>)
        requires
            old(self)@.wf(),
        ensures
            final(self)@ == old(self)@.publish_handled(
                topic@,
                payload@,
                crate::properties::property_list(properties),
                trigger,
            ),
            handle == old(self)@.publish_reply(
                topic@,
                payload,
                crate::properties::property_list(properties),
                trigger,
            ),
            final(self)@.wf(),
    {
        match self.route(topic) {
            Route::Trigger => self.handle_trigger(trigger),
            Route::Other => Handle::Unhandled,
            Route::Chunk => match chunk_properties(properties) {
                Some(chunk) => self.handle_chunk(chunk.resource_id, chunk.offset, payload),
                None => Handle::Consumed,
            },
        }
    }

    /// Whether the service holds the transfer that `manifest` declares.
    pub fn describes(&self, manifest: &OwnedManifestProfile) -> (r: bool)
        ensures
            r == (self@.update is Some && self@.update->0.describes(manifest@)),
    {
        match (&self.update, manifest_id(manifest.sequence)) {
            (Some(update), Ok(id)) => text_equal(update.id.as_str(), id.as_str()) && update.size
                == manifest.size && bytes_equal(
                update.resource_id.as_slice(),
                manifest.resource_id.as_slice(),
            ) && update.fnv1a64 == manifest.fnv1a64,
            _ => false,
        }
    }

    /// Handle an update trigger; `trigger` is none where the payload is not a trigger.
    pub fn handle_trigger<'a>(&mut self, trigger: Option<Trigger<'_>>) -> (handle: Handle<'a>)
        requires
            old(self)@.wf(),
        ensures
            final(self)@ == old(self)@.triggered(crate::model::payload_manifest(trigger)),
            handle == old(self)@.trigger_reply::<'a>(crate::model::payload_manifest(trigger)),
            final(self)@.wf(),
    {
        let parsed = match trigger {
            Some(trigger) => parse_trigger(&trigger),
            None => Err(()),
        };
        let manifest = match parsed {
            Ok(manifest) => manifest,
            Err(_) => {
                if self.state == State::Idle {
                    self.queue(Action::Publish(StatusCode::Error));
                }
                return Handle::Consumed;
            },
        };
        let id = match manifest_id(manifest.sequence) {
            Ok(id) => id,
            Err(_) => {
                self.queue(Action::Publish(StatusCode::Error));
                return Handle::Consumed;
            },
        };
        if self.state != State::Idle {
            if self.describes(&manifest) {
                let code = self.current_code();
                self.queue(Action::Publish(code));
            }
            return Handle::Consumed;
        }
        if manifest.size == 0 {
            self.queue(Action::Publish(StatusCode::Error));
            return Handle::Consumed;
        }
        if manifest.size > self.capacity {
            self.queue(Action::Publish(StatusCode::Oversize));
            return Handle::Consumed;
        }
        let chunk_topic = self.chunk_topic();
        let fits = match checked_rx_bytes(
            chunk_topic.as_str(),
            manifest.resource_id.as_slice(),
            self.max_chunk_size,
        ) {
            Some(bytes) => bytes <= self.max_rx_packet_size,
            None => false,
        };
        if !fits {
            self.queue(Action::Publish(StatusCode::Mtu));
            return Handle::Consumed;
        }
        let size: u32 = manifest.size;
        self.update = Some(
            Update {
                id,
                resource_id: manifest.resource_id,
                size,
                next_offset: 0,
                fnv1a64: manifest.fnv1a64,
            },
        );
        self.state = State::Preparing;
        self.queue(Action::Publish(StatusCode::Accepted));
        self.flash = Some(FlashOp::Prepare);
        Handle::Flash(FlashRequest::Prepare { size })
    }

    /// Handle a firmware chunk of the transfer `resource_id` at `offset`.
    pub fn handle_chunk<'a>(
        &mut self,
        resource_id: &[u8],
        offset: u32,
        payload: &'a [u8],
    ) -> (handle: Handle<'a>)
        requires
            old(self)@.wf(),
        ensures
            final(self)@ == old(self)@.chunk_handled(resource_id@, offset, payload@),
            handle == old(self)@.chunk_reply(resource_id@, offset, payload),
            final(self)@.wf(),
    {
        if self.state == State::Preparing {
            return Handle::Consumed;
        }
        if self.state == State::Complete || self.state == State::Error {
            let code = self.current_code();
            self.queue(Action::Publish(code));
            return Handle::Consumed;
        }
        let update = match &self.update {
            Some(update) => update,
            None => {
                self.queue(Action::Publish(StatusCode::Idle));
                return Handle::Consumed;
            },
        };
        if !bytes_equal(resource_id, update.resource_id.as_slice()) {
            return Handle::Consumed;
        }
        if self.state == State::Writing {
            let duplicate = match self.flash {
                Some(FlashOp::Write { offset: written, .. }) => written == offset,
                _ => false,
            };
            if !duplicate {
                self.queue(Action::Publish(StatusCode::Error));
            }
            return Handle::Consumed;
        }
        if self.state != State::Receiving {
            self.queue(Action::Publish(StatusCode::Idle));
            return Handle::Consumed;
        }
        let size: u32 = update.size;
        let digest: u64 = update.fnv1a64;
        match validate_chunk(
            update,
            offset,
            payload,
            self.capacity,
            self.max_chunk_size,
            self.write_size,
        ) {
            Ok(next_offset) => {
                proof {
                    crate::laws::writes_stay_aligned(old(self)@, resource_id@, offset, payload@);
                }
                let final_chunk = next_offset == size;
                self.state = State::Writing;
                self.flash = Some(FlashOp::Write { offset, next_offset, final_chunk });
                Handle::Flash(
                    FlashRequest::Write(
                        FlashWrite {
                            offset,
                            payload,
                            image_size: size,
                            fnv1a64: if final_chunk {
                                Some(digest)
                            } else {
                                None
                            },
                        },
                    ),
                )
            },
            Err(ChunkError::Queue(code)) => {
                self.queue(Action::Publish(code));
                Handle::Consumed
            },
            Err(ChunkError::Fail(code)) => {
                self.state = State::Error;
                self.queue(Action::Publish(code));
                Handle::Consumed
            },
        }
    }

    /// The trigger topic.
    fn trigger_topic(&self) -> (topic: TopicString)
        requires
            self@.wf(),
        ensures
            topic@ == self@.prefix + TRIGGER_SUFFIX@,
    {
        self.derived_topic(TRIGGER_SUFFIX)
    }

    /// The status topic.
    fn status_topic(&self) -> (topic: TopicString)
        requires
            self@.wf(),
        ensures
            topic@ == self@.prefix + STATUS_SUFFIX@,
    {
        self.derived_topic(STATUS_SUFFIX)
    }

    /// The chunk topic.
    fn chunk_topic(&self) -> (topic: TopicString)
        requires
            self@.wf(),
        ensures
            topic@ == self@.prefix + CHUNK_SUFFIX@,
    {
        self.derived_topic(CHUNK_SUFFIX)
    }

    /// A topic below the topic root.
    fn derived_topic(&self, suffix: &str) -> (r: TopicString)
        requires
            crate::text::utf8_len(self@.prefix + suffix@) <= crate::storage::TOPIC_CAPACITY,
        ensures
            r@ == self@.prefix + suffix@,
    {
        topic(&self.prefix, suffix).unwrap()
    }

    /// Begin startup anew where a status still waits for the subscription while no MQTT work is
    /// left.
    fn resubscribe(&mut self)
        ensures
            final(self)@ == old(self)@.resubscribed(),
    {
        if self.inflight.is_none() && self.pending.is_none() && self.startup_publish.is_some() {
            self.begin_startup(ConnectEvent::Connected);
        }
    }

    /// Account for a completed MQTT operation.
    fn conclude(&mut self, action: Action)
        ensures
            final(self)@ == old(self)@.concluded(action),
    {
        match (action, self.startup_publish) {
            (Action::Subscribe, Some(code)) => {
                self.startup_publish = None;
                self.queue(Action::Publish(code));
            },
            _ => self.resubscribe(),
        }
    }

    /// Advance the MQTT queue by at most one operation.
    ///
    /// `progress` is what the connection knows of the operation in flight; it is not read while
    /// none is. A queued operation stays queued until `step_started` reports it, so that a step
    /// given up halfway is repeated.
    pub fn step(&mut self, progress: OpProgress) -> (action: StepAction)
        ensures
            final(self)@ == old(self)@.settled(progress),
            action == old(self)@.step_action(progress),
            action is Quiescent ==> final(self)@.step() is Quiescent,
            action is Quiescent ==> final(self)@.startup_publish is None,
            old(self)@.wf() ==> final(self)@.wf(),
    {
        match (self.inflight, progress) {
            (None, _) => self.resubscribe(),
            (Some(_), OpProgress::Pending) => return StepAction::Wait,
            (Some(action), OpProgress::Invalidated) => {
                self.inflight = None;
                self.queue(action);
                return StepAction::Disconnected;
            },
            (Some(action), OpProgress::Settled) => {
                self.inflight = None;
                self.conclude(action);
            },
        }
        match self.pending {
            Some(action) => StepAction::Start(action),
            None => StepAction::Quiescent,
        }
    }

    /// Report that the queued operation has been started, and whether it is in flight now or has
    /// completed at once.
    ///
    /// The step is quiescent once nothing is queued or in flight and no status waits for the
    /// subscription.
    pub fn step_started(&mut self, in_flight: bool) -> (step: Step)
        ensures
            final(self)@ == old(self)@.started(in_flight),
            step == final(self)@.step(),
            step is Quiescent ==> final(self)@.startup_publish is None,
            old(self)@.wf() ==> final(self)@.wf(),
    {
        match self.pending.take() {
            Some(action) => {
                if in_flight {
                    self.inflight = Some(action);
                } else {
                    self.inflight = None;
                    self.conclude(action);
                }
            },
            None => self.resubscribe(),
        }
        if self.inflight.is_none() && self.pending.is_none() {
            Step::Quiescent
        } else {
            Step::Pending
        }
    }

    /// Subscription to start for `Action::Subscribe`, on a connection that takes inbound packets
    /// of up to `max_rx_packet_size` bytes.
    pub fn subscription(&mut self, max_rx_packet_size: usize) -> (subscription: Subscription)
        requires
            old(self)@.wf(),
        ensures
            final(self)@ == old(self)@.with_rx_limit(max_rx_packet_size),
            final(self)@.wf(),
            subscription.trigger.topic@ == old(self)@.prefix + TRIGGER_SUFFIX@,
            subscription.trigger.maximum_qos is AtLeastOnce,
            subscription.trigger.retain_handling is Never,
            subscription.trigger.ignore_local_messages,
            subscription.chunk.topic@ == old(self)@.prefix + CHUNK_SUFFIX@,
            subscription.chunk.maximum_qos is AtLeastOnce,
            subscription.chunk.retain_handling is Never,
            subscription.chunk.ignore_local_messages,
            subscription@ == old(self)@.subscription(),
    {
        self.max_rx_packet_size = max_rx_packet_size;
        Subscription {
            trigger: TopicSubscription {
                topic: self.trigger_topic(),
                maximum_qos: QoS::AtLeastOnce,
                retain_handling: RetainHandling::Never,
                ignore_local_messages: true,
            },
            chunk: TopicSubscription {
                topic: self.chunk_topic(),
                maximum_qos: QoS::AtLeastOnce,
                retain_handling: RetainHandling::Never,
                ignore_local_messages: true,
            },
        }
    }

    /// Publication to start for `Action::Publish`. Its properties request the next chunk.
    pub fn status_publication(&self, code: StatusCode) -> (publication: StatusPublication<'_>)
        requires
            self@.wf(),
        ensures
            publication.topic@ == self@.prefix + STATUS_SUFFIX@,
            publication.qos is AtLeastOnce,
            publication.status@ == self@.status(code),
            publication.payload_format_indicator == 1,
            publication.response_topic@ == self@.prefix + CHUNK_SUFFIX@,
            publication.correlation_data@ == self@.correlation(),
            publication.offset_key@ == OFFSET_KEY@,
            publication.offset@ == crate::text::decimal(self@.status(code).next_offset as nat),
            publication@ == self@.publication(code),
    {
        let status = self.status_with(code);
        StatusPublication {
            topic: self.status_topic(),
            qos: QoS::AtLeastOnce,
            status,
            payload_format_indicator: 1,
            response_topic: self.chunk_topic(),
            correlation_data: self.status_correlation_data(),
            offset_key: OFFSET_KEY,
            offset: numeral(status.next_offset as u64).unwrap(),
        }
    }

    /// Resource identifier of the transfer; empty without one.
    fn status_correlation_data(&self) -> (data: &[u8])
        ensures
            data@ == self@.correlation(),
    {
        match &self.update {
            Some(update) => update.resource_id.as_slice(),
            None => {
                let data: &[u8] = &[];
                assert(data@ =~= Seq::<u8>::empty());
                data
            },
        }
    }
}

} // verus!
