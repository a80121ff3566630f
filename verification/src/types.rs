//! Plain data types of the update service.

use crate::storage::{Numeral, ResourceId, TopicString};
use vstd::prelude::*;

verus! {

/// Immediate result of one cooperative step.
#[derive(Debug, Clone, Copy, PartialEq, Eq, Structural)]
#[must_use]
pub enum Step {
    /// No queued OTA MQTT work remains after this step.
    Quiescent,
    /// OTA still has queued or in-flight MQTT work.
    Pending,
}

/// Local capacity failures.
#[derive(Debug, Clone, Copy, PartialEq, Eq, Structural)]
pub enum ResourceError {
    /// Local fixed-capacity storage was too small.
    BufferTooSmall,
}

/// Error returned while constructing an OTA service.
#[derive(Debug, Clone, Copy, PartialEq, Eq, Structural)]
pub enum CreateError {
    /// A derived OTA topic does not fit the fixed topic buffer.
    Topic(ResourceError),
    /// The maximum chunk size or flash write size cannot support aligned writes.
    InvalidChunkSize,
}

impl CreateError {
    /// What went wrong, in words.
    pub fn message(&self) -> (text: &'static str)
        ensures
            text@ == match *self {
                CreateError::Topic(_) => "OTA topic does not fit buffer"@,
                CreateError::InvalidChunkSize => "invalid OTA chunk or write size"@,
            },
    {
        match self {
            CreateError::Topic(_) => "OTA topic does not fit buffer",
            CreateError::InvalidChunkSize => "invalid OTA chunk or write size",
        }
    }
}

/// Storage and flash limits for one OTA service.
#[derive(Debug, Clone, Copy, PartialEq, Eq, Structural)]
pub struct Config {
    /// Maximum staged image size in bytes.
    pub capacity: u32,
    /// Maximum firmware bytes accepted in one MQTT chunk.
    pub max_chunk_size: usize,
    /// Required flash-write alignment in bytes.
    pub write_size: usize,
}

/// How an MQTT connection came up.
#[derive(Debug, Clone, Copy, PartialEq, Eq, Structural)]
pub enum ConnectEvent {
    /// The broker created a fresh session.
    Connected,
    /// The broker resumed the existing session.
    Reconnected,
}

/// Current OTA transfer phase.
#[derive(Debug, Clone, Copy, PartialEq, Eq, Structural)]
pub enum State {
    /// No update is active.
    Idle,
    /// The flash backend is preparing the staging area.
    Preparing,
    /// The device is ready for the next chunk.
    Receiving,
    /// The flash backend is writing one chunk.
    Writing,
    /// The full image was staged.
    Complete,
    /// The transfer failed or was aborted.
    Error,
}

/// Result conveyed by an OTA status publication.
#[derive(Debug, Clone, Copy, PartialEq, Eq, Structural)]
pub enum StatusCode {
    /// No update is active.
    Idle,
    /// The manifest or latest chunk was accepted.
    Accepted,
    /// An already accepted chunk was received again.
    Duplicate,
    /// The chunk did not match the requested offset.
    Offset,
    /// The image or chunk exceeds a configured limit.
    Oversize,
    /// The MQTT RX packet budget cannot carry a configured chunk.
    Mtu,
    /// The chunk does not meet the flash write alignment.
    Unaligned,
    /// The flash backend rejected an operation.
    Backend,
    /// The image was staged.
    Complete,
    /// The request or service state was invalid.
    Error,
}

/// Current OTA progress and device transfer limits.
#[derive(Debug, Clone, Copy, PartialEq, Eq)]
pub struct Status<'a> {
    /// Current transfer state.
    pub state: State,
    /// Result associated with this status publication.
    pub code: StatusCode,
    /// Decimal manifest sequence number, or an empty string while idle.
    pub id: &'a str,
    /// First image byte not yet written.
    pub next_offset: u32,
    /// Declared image size in bytes.
    pub size: u32,
    /// Maximum chunk payload accepted by this service.
    pub mtu: usize,
    /// Required chunk alignment in bytes.
    pub write_size: usize,
}

/// Trigger of an update, as its JSON payload declares it.
#[derive(Debug, Clone, Copy, PartialEq, Eq)]
pub struct Trigger<'a> {
    /// Image size in bytes.
    pub size: u32,
    /// Resource identifier of the transfer.
    pub resource: &'a str,
    /// Sequence number of the update.
    pub sequence: u64,
    /// FNV-1a digest of the image.
    pub digest: u64,
}

/// One inbound MQTT publish, as far as the service reads it.
#[derive(Debug)]
pub struct InboundPublish<'p, 'a> {
    /// Topic of the publish.
    pub topic: &'p str,
    /// Payload bytes.
    pub payload: &'a [u8],
    /// MQTT properties of the publish.
    pub properties: &'p minimq::Properties<'p>,
    /// The payload as a JSON trigger, or `None` where it is not one. Read on the trigger topic
    /// only.
    pub trigger: Option<Trigger<'a>>,
}

/// What a publish is about, by its topic.
#[derive(Debug, Clone, Copy, PartialEq, Eq, Structural)]
pub enum Route {
    /// An update trigger.
    Trigger,
    /// A firmware chunk.
    Chunk,
    /// No OTA traffic.
    Other,
}

/// Flash operation requested by the OTA state machine.
#[derive(Debug)]
pub enum FlashRequest<'a> {
    /// Prepare the staging slot for one image.
    Prepare {
        /// Declared image size in bytes.
        size: u32,
    },
    /// Write one accepted chunk and optionally finalize the image.
    Write(FlashWrite<'a>),
}

/// One accepted chunk ready for flash.
#[derive(Debug)]
pub struct FlashWrite<'a> {
    /// Firmware byte offset.
    pub offset: u32,
    /// Chunk bytes borrowed from the inbound publish. The owner must consume or copy them before
    /// polling the connection again.
    pub payload: &'a [u8],
    /// Manifest image size, excluding any final erased-flash padding.
    pub image_size: u32,
    /// Expected FNV-1a checksum. Present only on the final chunk.
    pub fnv1a64: Option<u64>,
}

/// Result of handling one inbound MQTT publish.
#[must_use]
#[derive(Debug)]
pub enum Handle<'a> {
    /// The publish is not OTA traffic.
    Unhandled,
    /// OTA traffic was consumed without new flash work.
    Consumed,
    /// The owner must execute this flash request and report its result with
    /// `Service::complete_flash`.
    Flash(FlashRequest<'a>),
}

/// One queued MQTT operation.
#[derive(Debug, Clone, Copy, PartialEq, Eq, Structural)]
pub enum Action {
    /// Publish the current status with this code.
    Publish(StatusCode),
    /// Subscribe to the trigger and chunk topics.
    Subscribe,
}

/// Why a chunk is not written.
#[derive(Debug, Clone, Copy, PartialEq, Eq, Structural)]
pub enum ChunkError {
    /// Answer with this code; the transfer goes on.
    Queue(StatusCode),
    /// Answer with this code; the transfer has failed.
    Fail(StatusCode),
}

/// Flash operation whose result is outstanding.
#[derive(Debug, Clone, Copy, PartialEq, Eq, Structural)]
pub enum FlashOp {
    /// The staging area is being prepared.
    Prepare,
    /// A chunk is being written.
    Write {
        /// Offset of the chunk.
        offset: u32,
        /// First image byte after the chunk.
        next_offset: u32,
        /// Whether the chunk is the last one.
        final_chunk: bool,
    },
}

/// What the connection knows of the MQTT operation in flight.
#[derive(Debug, Clone, Copy, PartialEq, Eq, Structural)]
pub enum OpProgress {
    /// The operation still has local in-flight state.
    Pending,
    /// The session state that could complete the operation was discarded.
    Invalidated,
    /// Neither: the operation has completed.
    Settled,
}

/// What one step asks of the connection.
#[derive(Debug, Clone, Copy, PartialEq, Eq, Structural)]
pub enum StepAction {
    /// An operation is in flight: nothing to do but wait.
    Wait,
    /// The operation in flight was invalidated and is queued again: report a lost connection.
    Disconnected,
    /// No MQTT work is left.
    Quiescent,
    /// Start this operation, then report it with `Service::step_started`.
    Start(Action),
}

/// Delivery guarantee of an MQTT message.
#[derive(Debug, Clone, Copy, PartialEq, Eq, Structural)]
pub enum QoS {
    /// Deliver at most once.
    AtMostOnce,
    /// Deliver at least once.
    AtLeastOnce,
    /// Deliver exactly once.
    ExactlyOnce,
}

/// Broker policy for retained messages on a new subscription.
#[derive(Debug, Clone, Copy, PartialEq, Eq, Structural)]
pub enum RetainHandling {
    /// Send them when the subscription is created.
    Immediately,
    /// Send them if the subscription did not exist.
    IfSubscriptionDoesNotExist,
    /// Never send them.
    Never,
}

/// Manifest of an update in storage of its own.
#[derive(Debug)]
pub struct OwnedManifestProfile {
    /// Sequence number of the update.
    pub sequence: u64,
    /// Image size in bytes.
    pub size: u32,
    /// Resource identifier of the transfer.
    pub resource_id: ResourceId,
    /// FNV-1a digest of the image.
    pub fnv1a64: u64,
}

/// A transfer and its progress.
#[derive(Debug)]
pub struct Update {
    /// Decimal sequence number.
    pub id: Numeral,
    /// Resource identifier of the transfer.
    pub resource_id: ResourceId,
    /// Image size in bytes.
    pub size: u32,
    /// First image byte not yet written.
    pub next_offset: u32,
    /// FNV-1a digest of the image.
    pub fnv1a64: u64,
}

/// Subscription to one topic.
#[derive(Debug)]
pub struct TopicSubscription {
    /// Topic to subscribe to.
    pub topic: TopicString,
    /// Highest delivery guarantee asked for.
    pub maximum_qos: QoS,
    /// Policy for retained messages.
    pub retain_handling: RetainHandling,
    /// Whether messages of this client itself are left out.
    pub ignore_local_messages: bool,
}

/// Subscription to the OTA topics.
#[derive(Debug)]
pub struct Subscription {
    /// The trigger topic.
    pub trigger: TopicSubscription,
    /// The chunk topic.
    pub chunk: TopicSubscription,
}

/// Status publication that requests the next chunk.
#[derive(Debug)]
pub struct StatusPublication<'a> {
    /// Topic of the publication.
    pub topic: TopicString,
    /// Delivery guarantee.
    pub qos: QoS,
    /// Status that makes up the JSON payload.
    pub status: Status<'a>,
    /// Payload format indicator: one, for UTF-8 text.
    pub payload_format_indicator: u8,
    /// Topic that chunks are to be published on.
    pub response_topic: TopicString,
    /// Data that chunks are to carry as correlation data.
    pub correlation_data: &'a [u8],
    /// Key of the user property that chunks are to carry.
    pub offset_key: &'static str,
    /// Value of that user property: the requested offset.
    pub offset: Numeral,
}

} // verus!
