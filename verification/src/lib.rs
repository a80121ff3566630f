//! `ota-mqtt` stages firmware over MQTT 5: a state machine for the device that accepts an update
//! trigger, requests the image chunk by chunk, hands flash work to its owner and publishes its
//! progress.
//!
//! It does not own the network stack, the flash task, timeouts or the reboot policy. Every
//! operation of [`Service`] is a local state update whose contract gives the next state and the
//! result exactly, over the state machine in [`model`]. What each operation does to the fields of
//! the service is stated and proved in [`effects`], and what the operations promise together in
//! [`laws`], [`history`], [`packet`] and [`wire`]. [`numerals`] says which texts are numbers.

pub mod chunk;
pub mod effects;
pub mod history;
pub mod laws;
pub mod manifest;
pub mod model;
pub mod numerals;
pub mod packet;
pub mod progress;
pub mod properties;
pub mod service;
pub mod storage;
pub mod text;
pub mod types;
pub mod wire;

pub use chunk::{payload_padding, validate_chunk};
pub use manifest::{manifest_id, parse_trigger};
pub use progress::{reject_log_level, should_log_chunk_progress, status_log_level, LogLevel};
pub use properties::{chunk_properties, ChunkProperties};
pub use service::Service;
pub use storage::{Numeral, ResourceId, TopicString};
pub use types::{
    Action, ChunkError, Config, ConnectEvent, CreateError, FlashOp, FlashRequest, FlashWrite,
    Handle, InboundPublish, OpProgress, OwnedManifestProfile, QoS, ResourceError, RetainHandling,
    Route, State, Status, StatusCode, StatusPublication, Step, StepAction, Subscription,
    TopicSubscription, Trigger, Update,
};
pub use wire::{checked_rx_bytes, mqtt_varint_len, required_rx_bytes};
