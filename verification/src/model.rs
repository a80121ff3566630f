//! The update service as a mathematical state machine.

use crate::properties::PropertyView;
use crate::types::{
    Action, ConnectEvent, Config, FlashOp, FlashRequest, FlashWrite, Handle, InboundPublish,
    OpProgress, OwnedManifestProfile, QoS, RetainHandling, Route, State, Status, StatusCode,
    StatusPublication, Step, StepAction, Subscription, TopicSubscription, Trigger, Update,
};
use vstd::prelude::*;

verus! {

/// Suffix of the trigger topic.
pub const TRIGGER_SUFFIX: &'static str = "/trigger";

/// Suffix of the status topic.
pub const STATUS_SUFFIX: &'static str = "/status";

/// Suffix of the chunk topic.
pub const CHUNK_SUFFIX: &'static str = "/chunk";

/// Contents of a manifest.
#[verifier::ext_equal]
pub struct ManifestView {
    /// Sequence number of the update.
    pub sequence: u64,
    /// Image size in bytes.
    pub size: u32,
    /// Resource identifier of the transfer.
    pub resource_id: Seq<u8>,
    /// FNV-1a digest of the image.
    pub fnv1a64: u64,
}

/// Contents of a transfer.
#[verifier::ext_equal]
pub struct UpdateView {
    /// Decimal sequence number.
    pub id: Seq<char>,
    /// Resource identifier of the transfer.
    pub resource_id: Seq<u8>,
    /// Image size in bytes.
    pub size: u32,
    /// First image byte not yet written.
    pub next_offset: u32,
    /// FNV-1a digest of the image.
    pub fnv1a64: u64,
}

/// Contents of a status.
#[verifier::ext_equal]
pub struct StatusView {
    /// Current transfer state.
    pub state: State,
    /// Result associated with the status.
    pub code: StatusCode,
    /// Decimal manifest sequence number, or the empty text while idle.
    pub id: Seq<char>,
    /// First image byte not yet written.
    pub next_offset: u32,
    /// Declared image size in bytes.
    pub size: u32,
    /// Maximum chunk payload.
    pub mtu: usize,
    /// Required chunk alignment.
    pub write_size: usize,
}

/// Contents of the service.
#[verifier::ext_equal]
pub struct ServiceView {
    /// Topic root.
    pub prefix: Seq<char>,
    /// MQTT operation in flight.
    pub inflight: Option<Action>,
    /// MQTT operation queued.
    pub pending: Option<Action>,
    /// Status to publish once the subscription is in place.
    pub startup_publish: Option<StatusCode>,
    /// Transfer phase.
    pub state: State,
    /// The transfer.
    pub update: Option<UpdateView>,
    /// Flash operation whose result is outstanding.
    pub flash: Option<FlashOp>,
    /// Maximum image size.
    pub capacity: u32,
    /// Maximum chunk payload.
    pub max_chunk_size: usize,
    /// Largest inbound packet of the connection.
    pub max_rx_packet_size: usize,
    /// Flash-write alignment.
    pub write_size: usize,
}

/// Contents of a flash write that the service asks for.
#[verifier::ext_equal]
pub struct WriteView {
    /// Firmware byte offset.
    pub offset: u32,
    /// Chunk bytes.
    pub payload: Seq<u8>,
    /// Declared image size in bytes.
    pub image_size: u32,
    /// FNV-1a digest of the image, on the last write.
    pub fnv1a64: Option<u64>,
}

/// Contents of a status publication.
#[verifier::ext_equal]
pub struct PublicationView {
    /// Topic of the publication.
    pub topic: Seq<char>,
    /// Delivery guarantee.
    pub qos: QoS,
    /// Status that makes up the payload.
    pub status: StatusView,
    /// Payload format indicator.
    pub payload_format_indicator: u8,
    /// Topic that chunks are to be published on.
    pub response_topic: Seq<char>,
    /// Data that chunks are to carry as correlation data.
    pub correlation_data: Seq<u8>,
    /// Key of the user property that chunks are to carry.
    pub offset_key: Seq<char>,
    /// Value of that user property.
    pub offset: Seq<char>,
}

/// Contents of a subscription to one topic.
#[verifier::ext_equal]
pub struct TopicSubscriptionView {
    /// Topic to subscribe to.
    pub topic: Seq<char>,
    /// Highest delivery guarantee asked for.
    pub maximum_qos: QoS,
    /// Policy for retained messages.
    pub retain_handling: RetainHandling,
    /// Whether messages of this client itself are left out.
    pub ignore_local_messages: bool,
}

/// Contents of the subscription to the OTA topics.
#[verifier::ext_equal]
pub struct SubscriptionView {
    /// The trigger topic.
    pub trigger: TopicSubscriptionView,
    /// The chunk topic.
    pub chunk: TopicSubscriptionView,
}

/// What becomes of a trigger.
pub enum TriggerOutcome {
    /// Nothing.
    Ignored,
    /// A status with this code is queued; no transfer starts.
    Answered(StatusCode),
    /// The transfer starts.
    Accepted,
}

/// What becomes of a chunk.
pub enum ChunkOutcome {
    /// Nothing.
    Ignored,
    /// A status with this code is queued; the transfer goes on as it was.
    Answered(StatusCode),
    /// The transfer fails, and a status with this code is queued.
    Failed(StatusCode),
    /// The chunk is written; this is the offset after it.
    Written(u32),
}

impl View for OwnedManifestProfile {
    type V = ManifestView;

    open spec fn view(&self) -> ManifestView {
        ManifestView {
            sequence: self.sequence,
            size: self.size,
            resource_id: self.resource_id@,
            fnv1a64: self.fnv1a64,
        }
    }
}

impl View for Update {
    type V = UpdateView;

    open spec fn view(&self) -> UpdateView {
        UpdateView {
            id: self.id@,
            resource_id: self.resource_id@,
            size: self.size,
            next_offset: self.next_offset,
            fnv1a64: self.fnv1a64,
        }
    }
}

impl<'a> View for Status<'a> {
    type V = StatusView;

    open spec fn view(&self) -> StatusView {
        StatusView {
            state: self.state,
            code: self.code,
            id: self.id@,
            next_offset: self.next_offset,
            size: self.size,
            mtu: self.mtu,
            write_size: self.write_size,
        }
    }
}

impl<'a> View for FlashWrite<'a> {
    type V = WriteView;

    open spec fn view(&self) -> WriteView {
        WriteView {
            offset: self.offset,
            payload: self.payload@,
            image_size: self.image_size,
            fnv1a64: self.fnv1a64,
        }
    }
}

impl<'a> View for StatusPublication<'a> {
    type V = PublicationView;

    open spec fn view(&self) -> PublicationView {
        PublicationView {
            topic: self.topic@,
            qos: self.qos,
            status: self.status@,
            payload_format_indicator: self.payload_format_indicator,
            response_topic: self.response_topic@,
            correlation_data: self.correlation_data@,
            offset_key: self.offset_key@,
            offset: self.offset@,
        }
    }
}

impl View for TopicSubscription {
    type V = TopicSubscriptionView;

    open spec fn view(&self) -> TopicSubscriptionView {
        TopicSubscriptionView {
            topic: self.topic@,
            maximum_qos: self.maximum_qos,
            retain_handling: self.retain_handling,
            ignore_local_messages: self.ignore_local_messages,
        }
    }
}

impl View for Subscription {
    type V = SubscriptionView;

    open spec fn view(&self) -> SubscriptionView {
        SubscriptionView { trigger: self.trigger@, chunk: self.chunk@ }
    }
}

/// A subscription and a status publication are seen as they are, field by field.
pub proof fn mqtt_views_show_every_field(
    subscription: Subscription,
    topic: TopicSubscription,
    publication: StatusPublication<'_>,
)
    ensures
        subscription@.trigger == subscription.trigger@,
        subscription@.chunk == subscription.chunk@,
        topic@.topic == topic.topic@,
        topic@.maximum_qos == topic.maximum_qos,
        topic@.retain_handling == topic.retain_handling,
        topic@.ignore_local_messages == topic.ignore_local_messages,
        publication@.topic == publication.topic@,
        publication@.qos == publication.qos,
        publication@.status == publication.status@,
        publication@.payload_format_indicator == publication.payload_format_indicator,
        publication@.response_topic == publication.response_topic@,
        publication@.correlation_data == publication.correlation_data@,
        publication@.offset_key == publication.offset_key@,
        publication@.offset == publication.offset@,
{
}

/// A manifest, a transfer, a status and a flash write are seen as they are, field by field.
pub proof fn views_show_every_field(
    manifest: OwnedManifestProfile,
    update: Update,
    status: Status<'_>,
    write: FlashWrite<'_>,
)
    ensures
        manifest@.sequence == manifest.sequence,
        manifest@.size == manifest.size,
        manifest@.resource_id == manifest.resource_id@,
        manifest@.fnv1a64 == manifest.fnv1a64,
        update@.id == update.id@,
        update@.resource_id == update.resource_id@,
        update@.size == update.size,
        update@.next_offset == update.next_offset,
        update@.fnv1a64 == update.fnv1a64,
        status@.state == status.state,
        status@.code == status.code,
        status@.id == status.id@,
        status@.next_offset == status.next_offset,
        status@.size == status.size,
        status@.mtu == status.mtu,
        status@.write_size == status.write_size,
        write@.offset == write.offset,
        write@.payload == write.payload@,
        write@.image_size == write.image_size,
        write@.fnv1a64 == write.fnv1a64,
{
}

/// The flash write that a reply asks for, if it asks for one.
pub open spec fn requested_write(handle: Handle<'_>) -> Option<WriteView> {
    match handle {
        Handle::Flash(FlashRequest::Write(write)) => Some(write@),
        _ => None,
    }
}

/// The manifest that a trigger declares. Its resource identifier has to fit the storage.
pub open spec fn trigger_manifest(trigger: Trigger<'_>) -> Option<ManifestView> {
    if crate::text::utf8_len(trigger.resource@) <= crate::storage::MAX_RESOURCE_ID_BYTES {
        Some(
            ManifestView {
                sequence: trigger.sequence,
                size: trigger.size,
                resource_id: vstd::utf8::encode_utf8(trigger.resource@),
                fnv1a64: trigger.digest,
            },
        )
    } else {
        None
    }
}

/// The manifest that a payload declares, given the payload as a trigger if it is one.
pub open spec fn payload_manifest(trigger: Option<Trigger<'_>>) -> Option<ManifestView> {
    match trigger {
        Some(trigger) => trigger_manifest(trigger),
        None => None,
    }
}

/// Whether the topics derived from `prefix` fit the topic storage.
pub open spec fn topics_fit(prefix: Seq<char>) -> bool {
    &&& crate::text::utf8_len(prefix + TRIGGER_SUFFIX@) <= crate::storage::TOPIC_CAPACITY
    &&& crate::text::utf8_len(prefix + STATUS_SUFFIX@) <= crate::storage::TOPIC_CAPACITY
    &&& crate::text::utf8_len(prefix + CHUNK_SUFFIX@) <= crate::storage::TOPIC_CAPACITY
}

/// Whether chunks of up to the maximum size can be written in aligned pieces.
pub open spec fn chunk_sizes_valid(config: Config) -> bool {
    &&& config.write_size > 0
    &&& config.max_chunk_size > 0
    &&& config.max_chunk_size % config.write_size == 0
}

impl UpdateView {
    /// Whether this is the transfer that `manifest` declares.
    pub open spec fn describes(self, manifest: ManifestView) -> bool {
        &&& self.id == crate::text::decimal(manifest.sequence as nat)
        &&& self.size == manifest.size
        &&& self.resource_id == manifest.resource_id
        &&& self.fnv1a64 == manifest.fnv1a64
    }

    /// The transfer at its start.
    pub open spec fn start(manifest: ManifestView) -> UpdateView {
        UpdateView {
            id: crate::text::decimal(manifest.sequence as nat),
            resource_id: manifest.resource_id,
            size: manifest.size,
            next_offset: 0,
            fnv1a64: manifest.fnv1a64,
        }
    }
}

/// Whether a transfer is under way in this phase.
pub open spec fn is_active(state: State) -> bool {
    state is Preparing || state is Receiving || state is Writing
}

/// Status code that a phase is reported with.
pub open spec fn state_code(state: State) -> StatusCode {
    match state {
        State::Idle => StatusCode::Idle,
        State::Preparing | State::Receiving | State::Writing => StatusCode::Accepted,
        State::Complete => StatusCode::Complete,
        State::Error => StatusCode::Error,
    }
}

/// Status that a new connection replays: that of the transfer, if there is one.
pub open spec fn replayed_code(state: State) -> Option<StatusCode> {
    if state is Idle {
        None
    } else {
        Some(state_code(state))
    }
}

impl ServiceView {
    /// A service without a transfer and without queued work.
    pub open spec fn initial(prefix: Seq<char>, config: Config) -> ServiceView {
        ServiceView {
            prefix,
            inflight: None,
            pending: None,
            startup_publish: None,
            state: State::Idle,
            update: None,
            flash: None,
            capacity: config.capacity,
            max_chunk_size: config.max_chunk_size,
            max_rx_packet_size: 0,
            write_size: config.write_size,
        }
    }

    /// The limits the service was made with.
    pub open spec fn config(self) -> Config {
        Config {
            capacity: self.capacity,
            max_chunk_size: self.max_chunk_size,
            write_size: self.write_size,
        }
    }

    /// Whether the first `offset` bytes of an image are a whole number of flash writes.
    pub open spec fn aligned(self, offset: u32) -> bool {
        offset as nat % (self.write_size as nat) == 0
    }

    /// What holds of every service: the topics fit, writes can be aligned, an idle service has no
    /// transfer, a flash operation is outstanding exactly while the phase says so, the progress
    /// lies within the image and is a whole number of flash writes up to its end, and a status
    /// that waits for the subscription has MQTT work before it.
    pub open spec fn wf(self) -> bool {
        &&& topics_fit(self.prefix)
        &&& chunk_sizes_valid(self.config())
        &&& self.state is Idle <==> self.update is None
        &&& self.state is Preparing <==> self.flash == Some(FlashOp::Prepare)
        &&& self.state is Writing <==> (self.flash is Some && self.flash->0 is Write)
        &&& self.update matches Some(update) ==> {
            &&& 0 < update.size <= self.capacity
            &&& update.next_offset <= update.size
            &&& update.resource_id.len() <= crate::storage::MAX_RESOURCE_ID_BYTES
            &&& exists|sequence: u64| update.id == #[trigger] crate::text::decimal(sequence as nat)
            &&& self.state is Preparing ==> update.next_offset == 0
            &&& self.state is Receiving || self.state is Writing ==> update.next_offset
                < update.size
            &&& self.state is Complete <==> update.next_offset == update.size
            &&& self.aligned(update.next_offset) || self.state is Complete
            &&& self.flash matches Some(FlashOp::Write { offset, next_offset, final_chunk }) ==> {
                &&& offset == update.next_offset
                &&& offset < next_offset <= update.size
                &&& self.aligned(next_offset) || final_chunk
                &&& final_chunk == (next_offset == update.size)
            }
        }
        &&& self.startup_publish is Some ==> {
            &&& self.inflight is Some || self.pending is Some
            &&& !(self.state is Idle)
        }
    }

    /// Queue an MQTT operation, in place of one queued before. A subscription in flight is not
    /// queued once more.
    pub open spec fn queued(self, action: Action) -> ServiceView {
        if action is Subscribe && self.inflight == Some(Action::Subscribe) {
            self
        } else {
            ServiceView { pending: Some(action), ..self }
        }
    }

    /// Queue a status with this code.
    pub open spec fn published(self, code: StatusCode) -> ServiceView {
        self.queued(Action::Publish(code))
    }

    /// The status that the service reports with this code.
    pub open spec fn status(self, code: StatusCode) -> StatusView {
        StatusView {
            state: self.state,
            code,
            id: match self.update {
                Some(update) => update.id,
                None => Seq::empty(),
            },
            next_offset: match self.update {
                Some(update) => update.next_offset,
                None => 0,
            },
            size: match self.update {
                Some(update) => update.size,
                None => 0,
            },
            mtu: self.max_chunk_size,
            write_size: self.write_size,
        }
    }

    /// Correlation data that the service asks chunks to carry.
    pub open spec fn correlation(self) -> Seq<u8> {
        match self.update {
            Some(update) => update.resource_id,
            None => Seq::empty(),
        }
    }

    /// The publication that reports this code and requests the next chunk.
    pub open spec fn publication(self, code: StatusCode) -> PublicationView {
        PublicationView {
            topic: self.prefix + STATUS_SUFFIX@,
            qos: QoS::AtLeastOnce,
            status: self.status(code),
            payload_format_indicator: 1,
            response_topic: self.prefix + CHUNK_SUFFIX@,
            correlation_data: self.correlation(),
            offset_key: crate::properties::OFFSET_KEY@,
            offset: crate::text::decimal(self.status(code).next_offset as nat),
        }
    }

    /// The subscription to the topic root with `suffix` behind it.
    pub open spec fn topic_subscription(self, suffix: Seq<char>) -> TopicSubscriptionView {
        TopicSubscriptionView {
            topic: self.prefix + suffix,
            maximum_qos: QoS::AtLeastOnce,
            retain_handling: RetainHandling::Never,
            ignore_local_messages: true,
        }
    }

    /// The subscription to the topics that the host publishes on.
    pub open spec fn subscription(self) -> SubscriptionView {
        SubscriptionView {
            trigger: self.topic_subscription(TRIGGER_SUFFIX@),
            chunk: self.topic_subscription(CHUNK_SUFFIX@),
        }
    }

    /// Whether the image is staged and no work is left.
    pub open spec fn ready(self) -> bool {
        &&& self.state is Complete
        &&& self.flash is None
        &&& self.pending is None
        &&& self.inflight is None
        &&& self.startup_publish is None
    }

    /// After a connection has come up.
    pub open spec fn startup(self, event: ConnectEvent) -> ServiceView {
        match event {
            ConnectEvent::Connected => {
                ServiceView {
                    inflight: None,
                    startup_publish: replayed_code(self.state),
                    ..self
                }.queued(Action::Subscribe)
            },
            ConnectEvent::Reconnected => {
                let service = ServiceView { startup_publish: None, ..self };
                match replayed_code(self.state) {
                    Some(code) => service.published(code),
                    None => service,
                }
            },
        }
    }

    /// Whether a subscription is queued or in flight.
    pub open spec fn subscribing(self) -> bool {
        self.inflight == Some(Action::Subscribe) || self.pending == Some(Action::Subscribe)
    }

    /// After an abort: an active transfer has failed, and its error status is due, behind a
    /// subscription that is not in place yet.
    pub open spec fn aborted(self) -> ServiceView {
        if is_active(self.state) {
            let service = ServiceView { state: State::Error, flash: None, ..self };
            if self.subscribing() {
                ServiceView { startup_publish: Some(StatusCode::Error), ..service }
            } else {
                service.published(StatusCode::Error)
            }
        } else {
            self
        }
    }

    /// After the outstanding flash operation has been reported.
    pub open spec fn flash_completed(self, success: bool) -> ServiceView {
        match (self.flash, self.update) {
            (None, _) => self,
            (Some(_), None) => {
                ServiceView { flash: None, state: State::Error, ..self }.published(
                    StatusCode::Error,
                )
            },
            (Some(op), Some(update)) => {
                let service = ServiceView { flash: None, ..self };
                if !success {
                    ServiceView { state: State::Error, ..service }.published(StatusCode::Backend)
                } else {
                    match op {
                        FlashOp::Prepare => {
                            ServiceView { state: State::Receiving, ..service }.published(
                                StatusCode::Accepted,
                            )
                        },
                        FlashOp::Write { offset, next_offset, final_chunk } => {
                            if final_chunk {
                                ServiceView {
                                    state: State::Complete,
                                    update: Some(UpdateView { next_offset: update.size, ..update }),
                                    ..service
                                }.published(StatusCode::Complete)
                            } else {
                                ServiceView {
                                    state: State::Receiving,
                                    update: Some(UpdateView { next_offset, ..update }),
                                    ..service
                                }.published(StatusCode::Accepted)
                            }
                        },
                    }
                }
            },
        }
    }

    /// What a publish on `topic` is about.
    pub open spec fn route(self, topic: Seq<char>) -> Route {
        if topic == self.prefix + TRIGGER_SUFFIX@ {
            Route::Trigger
        } else if topic == self.prefix + CHUNK_SUFFIX@ {
            Route::Chunk
        } else {
            Route::Other
        }
    }

    /// Receive buffer that the largest chunk of a transfer may need.
    pub open spec fn chunk_budget(self, resource_id: Seq<u8>) -> nat {
        crate::wire::rx_bytes(
            crate::text::utf8_len(self.prefix + CHUNK_SUFFIX@),
            resource_id.len(),
            self.max_chunk_size as nat,
        )
    }

    /// What becomes of a trigger that declares `manifest`, or no manifest.
    pub open spec fn trigger_outcome(self, manifest: Option<ManifestView>) -> TriggerOutcome {
        match manifest {
            None => if self.state is Idle {
                TriggerOutcome::Answered(StatusCode::Error)
            } else {
                TriggerOutcome::Ignored
            },
            Some(manifest) => if !(self.state is Idle) {
                if self.update is Some && self.update->0.describes(manifest) {
                    TriggerOutcome::Answered(state_code(self.state))
                } else {
                    TriggerOutcome::Ignored
                }
            } else if manifest.size == 0 {
                TriggerOutcome::Answered(StatusCode::Error)
            } else if manifest.size > self.capacity {
                TriggerOutcome::Answered(StatusCode::Oversize)
            } else if self.chunk_budget(manifest.resource_id) > self.max_rx_packet_size {
                TriggerOutcome::Answered(StatusCode::Mtu)
            } else {
                TriggerOutcome::Accepted
            },
        }
    }

    /// After a trigger.
    pub open spec fn triggered(self, manifest: Option<ManifestView>) -> ServiceView {
        match self.trigger_outcome(manifest) {
            TriggerOutcome::Ignored => self,
            TriggerOutcome::Answered(code) => self.published(code),
            TriggerOutcome::Accepted => {
                ServiceView {
                    update: Some(UpdateView::start(manifest->0)),
                    state: State::Preparing,
                    flash: Some(FlashOp::Prepare),
                    ..self
                }.published(StatusCode::Accepted)
            },
        }
    }

    /// What the caller is told of a trigger.
    pub open spec fn trigger_reply<'a>(self, manifest: Option<ManifestView>) -> Handle<'a> {
        match self.trigger_outcome(manifest) {
            TriggerOutcome::Accepted => Handle::Flash(
                FlashRequest::Prepare { size: manifest->0.size },
            ),
            _ => Handle::Consumed,
        }
    }

    /// What becomes of a chunk of the transfer `resource_id` at `offset`.
    pub open spec fn chunk_outcome(
        self,
        resource_id: Seq<u8>,
        offset: u32,
        payload: Seq<u8>,
    ) -> ChunkOutcome {
        if self.state is Preparing {
            ChunkOutcome::Ignored
        } else if self.state is Complete || self.state is Error {
            ChunkOutcome::Answered(state_code(self.state))
        } else {
            match self.update {
                None => ChunkOutcome::Answered(StatusCode::Idle),
                Some(update) => if resource_id != update.resource_id {
                    ChunkOutcome::Ignored
                } else if self.state is Writing {
                    match self.flash {
                        Some(FlashOp::Write { offset: written, .. }) if written == offset => {
                            ChunkOutcome::Ignored
                        },
                        _ => ChunkOutcome::Answered(StatusCode::Error),
                    }
                } else if self.state is Receiving {
                    match crate::chunk::chunk_verdict(
                        update.size,
                        update.next_offset,
                        offset,
                        payload,
                        self.capacity,
                        self.max_chunk_size,
                        self.write_size,
                    ) {
                        Ok(next_offset) => ChunkOutcome::Written(next_offset),
                        Err(crate::types::ChunkError::Queue(code)) => ChunkOutcome::Answered(code),
                        Err(crate::types::ChunkError::Fail(code)) => ChunkOutcome::Failed(code),
                    }
                } else {
                    ChunkOutcome::Answered(StatusCode::Idle)
                },
            }
        }
    }

    /// After a chunk.
    pub open spec fn chunk_handled(
        self,
        resource_id: Seq<u8>,
        offset: u32,
        payload: Seq<u8>,
    ) -> ServiceView {
        match self.chunk_outcome(resource_id, offset, payload) {
            ChunkOutcome::Ignored => self,
            ChunkOutcome::Answered(code) => self.published(code),
            ChunkOutcome::Failed(code) => ServiceView { state: State::Error, ..self }.published(
                code,
            ),
            ChunkOutcome::Written(next_offset) => ServiceView {
                state: State::Writing,
                flash: Some(
                    FlashOp::Write {
                        offset,
                        next_offset,
                        final_chunk: next_offset == self.update->0.size,
                    },
                ),
                ..self
            },
        }
    }

    /// The flash write that a chunk leads to, if it is written.
    pub open spec fn chunk_write(
        self,
        resource_id: Seq<u8>,
        offset: u32,
        payload: Seq<u8>,
    ) -> Option<WriteView> {
        match self.chunk_outcome(resource_id, offset, payload) {
            ChunkOutcome::Written(next_offset) => Some(
                WriteView {
                    offset,
                    payload,
                    image_size: self.update->0.size,
                    fnv1a64: if next_offset == self.update->0.size {
                        Some(self.update->0.fnv1a64)
                    } else {
                        None
                    },
                },
            ),
            _ => None,
        }
    }

    /// What the caller is told of a chunk.
    pub open spec fn chunk_reply<'a>(
        self,
        resource_id: Seq<u8>,
        offset: u32,
        payload: &'a [u8],
    ) -> Handle<'a> {
        match self.chunk_outcome(resource_id, offset, payload@) {
            ChunkOutcome::Written(next_offset) => Handle::Flash(
                FlashRequest::Write(
                    FlashWrite {
                        offset,
                        payload,
                        image_size: self.update->0.size,
                        fnv1a64: if next_offset == self.update->0.size {
                            Some(self.update->0.fnv1a64)
                        } else {
                            None
                        },
                    },
                ),
            ),
            _ => Handle::Consumed,
        }
    }

    /// After a publish on `topic` with this payload and these properties; `trigger` is the payload
    /// as a trigger, if it is one.
    pub open spec fn publish_handled(
        self,
        topic: Seq<char>,
        payload: Seq<u8>,
        properties: Seq<PropertyView>,
        trigger: Option<Trigger<'_>>,
    ) -> ServiceView {
        match self.route(topic) {
            Route::Other => self,
            Route::Trigger => self.triggered(payload_manifest(trigger)),
            Route::Chunk => match crate::properties::chunk_request(properties) {
                Some((resource_id, offset)) => self.chunk_handled(resource_id, offset, payload),
                None => self,
            },
        }
    }

    /// What the caller is told of such a publish.
    pub open spec fn publish_reply<'a>(
        self,
        topic: Seq<char>,
        payload: &'a [u8],
        properties: Seq<PropertyView>,
        trigger: Option<Trigger<'_>>,
    ) -> Handle<'a> {
        match self.route(topic) {
            Route::Other => Handle::Unhandled,
            Route::Trigger => self.trigger_reply(payload_manifest(trigger)),
            Route::Chunk => match crate::properties::chunk_request(properties) {
                Some((resource_id, offset)) => self.chunk_reply(resource_id, offset, payload),
                None => Handle::Consumed,
            },
        }
    }

    /// After an inbound publish.
    pub open spec fn handled(self, publish: InboundPublish<'_, '_>) -> ServiceView {
        self.publish_handled(
            publish.topic@,
            publish.payload@,
            crate::properties::property_list(publish.properties),
            publish.trigger,
        )
    }

    /// What the caller is told of an inbound publish.
    pub open spec fn reply<'a>(self, publish: InboundPublish<'_, 'a>) -> Handle<'a> {
        self.publish_reply(
            publish.topic@,
            publish.payload,
            crate::properties::property_list(publish.properties),
            publish.trigger,
        )
    }

    /// Startup begins anew where a status still waits for the subscription while no MQTT work is
    /// left: the subscription was displaced from the queue.
    pub open spec fn resubscribed(self) -> ServiceView {
        if self.inflight is None && self.pending is None && self.startup_publish is Some {
            self.startup(ConnectEvent::Connected)
        } else {
            self
        }
    }

    /// After an operation has completed and is not in flight any more. A completed subscription
    /// makes the deferred status due.
    pub open spec fn concluded(self, action: Action) -> ServiceView {
        match (action, self.startup_publish) {
            (Action::Subscribe, Some(code)) => {
                ServiceView { startup_publish: None, ..self }.published(code)
            },
            _ => self.resubscribed(),
        }
    }

    /// What the operation in flight has come to: it is kept while it is pending, queued again
    /// once invalidated, and concluded once settled.
    pub open spec fn settled(self, progress: OpProgress) -> ServiceView {
        match (self.inflight, progress) {
            (None, _) => self.resubscribed(),
            (_, OpProgress::Pending) => self,
            (Some(action), OpProgress::Invalidated) => {
                ServiceView { inflight: None, ..self }.queued(action)
            },
            (Some(action), OpProgress::Settled) => {
                ServiceView { inflight: None, ..self }.concluded(action)
            },
        }
    }

    /// What a step asks of the connection.
    pub open spec fn step_action(self, progress: OpProgress) -> StepAction {
        match (self.inflight, progress) {
            (Some(_), OpProgress::Pending) => StepAction::Wait,
            (Some(_), OpProgress::Invalidated) => StepAction::Disconnected,
            _ => match self.settled(progress).pending {
                Some(action) => StepAction::Start(action),
                None => StepAction::Quiescent,
            },
        }
    }

    /// After the queued operation has been started: it is in flight if `in_flight`, and has
    /// completed at once otherwise.
    pub open spec fn started(self, in_flight: bool) -> ServiceView {
        match self.pending {
            Some(action) => if in_flight {
                ServiceView { pending: None, inflight: Some(action), ..self }
            } else {
                ServiceView { pending: None, inflight: None, ..self }.concluded(action)
            },
            None => self.resubscribed(),
        }
    }

    /// Whether MQTT work is queued or in flight.
    pub open spec fn step(self) -> Step {
        if self.inflight is None && self.pending is None {
            Step::Quiescent
        } else {
            Step::Pending
        }
    }

    /// After the connection's receive limit has become known.
    pub open spec fn with_rx_limit(self, max_rx_packet_size: usize) -> ServiceView {
        ServiceView { max_rx_packet_size, ..self }
    }
}

} // verus!
