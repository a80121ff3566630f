//! Protocol scenarios, driven through the JSON triggers and MQTT properties of real publishes.

use minimq::{Properties, Property};
use ota_mqtt::{
    required_rx_bytes, Action, Config, ConnectEvent, FlashRequest, Handle, OpProgress,
    Route, Service, State, StatusCode, Trigger,
};
use serde::de::{Deserialize, Deserializer, Error, MapAccess, Visitor};

const PREFIX: &str = "dt/sinara/mpll/dev/ota";
const TRIGGER_TOPIC: &str = "dt/sinara/mpll/dev/ota/trigger";
const CHUNK_TOPIC: &str = "dt/sinara/mpll/dev/ota/chunk";
const RESOURCE: &[u8] = b"dt/sinara/mpll/ota/u1";
const SLOT: usize = 32;

const JSON_TRIGGER_8: &[u8] = br#"{"size":8,"resource":"dt/sinara/mpll/ota/u1","sequence":23,"digest":9126140903112366317}"#;
const JSON_TRIGGER_6: &[u8] = br#"{"size":6,"resource":"dt/sinara/mpll/ota/u1","sequence":23,"digest":10900469685490858058}"#;
const JSON_TRIGGER_0: &[u8] =
    br#"{"size":0,"resource":"dt/sinara/mpll/ota/u1","sequence":23,"digest":14695981039346656037}"#;
const JSON_TRIGGER_MISSING_DIGEST: &[u8] =
    br#"{"size":8,"resource":"dt/sinara/mpll/ota/u1","sequence":23}"#;
const JSON_TRIGGER_UNKNOWN_FIELD: &[u8] =
    br#"{"size":8,"resource":"dt/sinara/mpll/ota/u1","sequence":23,"digest":9126140903112366317,"hash":"yafnv1a64"}"#;

/// JSON form of a trigger.
struct TriggerJson<'a>(Trigger<'a>);

const FIELDS: &[&str] = &["size", "resource", "sequence", "digest"];

struct TriggerVisitor;

impl<'de> Visitor<'de> for TriggerVisitor {
    type Value = TriggerJson<'de>;

    fn expecting(&self, f: &mut std::fmt::Formatter<'_>) -> std::fmt::Result {
        f.write_str("a trigger")
    }

    fn visit_map<A: MapAccess<'de>>(self, mut map: A) -> Result<Self::Value, A::Error> {
        let mut size: Option<u32> = None;
        let mut resource: Option<&'de str> = None;
        let mut sequence: Option<u64> = None;
        let mut digest: Option<u64> = None;
        while let Some(key) = map.next_key::<&'de str>()? {
            match key {
                "size" if size.is_none() => size = Some(map.next_value()?),
                "resource" if resource.is_none() => resource = Some(map.next_value()?),
                "sequence" if sequence.is_none() => sequence = Some(map.next_value()?),
                "digest" if digest.is_none() => digest = Some(map.next_value()?),
                _ => return Err(A::Error::unknown_field(key, FIELDS)),
            }
        }
        Ok(TriggerJson(Trigger {
            size: size.ok_or_else(|| A::Error::missing_field("size"))?,
            resource: resource.ok_or_else(|| A::Error::missing_field("resource"))?,
            sequence: sequence.ok_or_else(|| A::Error::missing_field("sequence"))?,
            digest: digest.ok_or_else(|| A::Error::missing_field("digest"))?,
        }))
    }
}

impl<'de> Deserialize<'de> for TriggerJson<'de> {
    fn deserialize<D: Deserializer<'de>>(deserializer: D) -> Result<Self, D::Error> {
        deserializer.deserialize_struct("Trigger", FIELDS, TriggerVisitor)
    }
}

fn decode(payload: &[u8]) -> Option<Trigger<'_>> {
    serde_json_core::from_slice::<TriggerJson<'_>>(payload)
        .ok()
        .map(|(json, _)| json.0)
}

#[derive(Default)]
struct Backend {
    prepared: Option<u32>,
    writes: Vec<(u32, Vec<u8>)>,
    finished: Option<u32>,
    fail_finish: bool,
}

impl Backend {
    fn apply(&mut self, flash: FlashRequest<'_>) -> bool {
        match flash {
            FlashRequest::Prepare { size } => {
                self.prepared = Some(size);
                true
            }
            FlashRequest::Write(write) => {
                self.writes.push((write.offset, write.payload.to_vec()));
                if write.fnv1a64.is_some() {
                    if self.fail_finish {
                        return false;
                    }
                    self.finished = Some(write.image_size);
                }
                true
            }
        }
    }
}

fn apply_handle(service: &mut Service, backend: &mut Backend, handle: Handle<'_>) {
    if let Handle::Flash(flash) = handle {
        service.complete_flash(backend.apply(flash));
    }
}

fn publish<'a>(
    service: &mut Service,
    topic: &str,
    payload: &'a [u8],
    properties: &Properties<'_>,
) -> Handle<'a> {
    let trigger = match service.route(topic) {
        Route::Trigger => decode(payload),
        _ => None,
    };
    service.handle_publish_with_properties(topic, payload, properties, trigger)
}

fn trigger<'a>(service: &mut Service, payload: &'a [u8]) -> Handle<'a> {
    publish(service, TRIGGER_TOPIC, payload, &Properties::from_slice(&[]))
}

fn chunk<'a>(
    service: &mut Service,
    resource: &[u8],
    offset: &str,
    payload: &'a [u8],
) -> Handle<'a> {
    let properties = [
        Property::CorrelationData(resource),
        Property::UserProperty("offset", offset),
    ];
    publish(
        service,
        CHUNK_TOPIC,
        payload,
        &Properties::from_slice(&properties),
    )
}

fn drive_trigger(service: &mut Service, backend: &mut Backend, payload: &[u8]) {
    let handle = trigger(service, payload);
    apply_handle(service, backend, handle);
}

fn drive_chunk(
    service: &mut Service,
    backend: &mut Backend,
    resource: &[u8],
    offset: &str,
    payload: &[u8],
) {
    let handle = chunk(service, resource, offset, payload);
    apply_handle(service, backend, handle);
}

/// Let the queued operation go out and complete at once.
fn clear_pending(service: &mut Service) {
    let _ = service.step(OpProgress::Settled);
    let _ = service.step_started(false);
    assert_eq!(service.pending(), None);
}

fn service(rx: usize) -> Service {
    let mut service = Service::new(
        PREFIX,
        Config {
            capacity: 128,
            max_chunk_size: SLOT,
            write_size: 4,
        },
    )
    .unwrap();
    let _ = service.subscription(rx);
    service
}

/// A service that has received the first 32 of 64 bytes.
fn receiving_service() -> Service {
    let mut service = service(128);
    let mut backend = Backend::default();
    drive_trigger(
        &mut service,
        &mut backend,
        br#"{"size":64,"resource":"dt/sinara/mpll/ota/u1","sequence":23,"digest":0}"#,
    );
    drive_chunk(&mut service, &mut backend, RESOURCE, "0", &[0; 32]);
    clear_pending(&mut service);
    service
}

#[test]
fn connected_startup_queues_subscribe_only_for_idle_service() {
    let mut service = service(128);
    service.begin_startup(ConnectEvent::Connected);
    assert_eq!(service.pending(), Some(Action::Subscribe));
    assert_eq!(service.startup_publish(), None);
}

#[test]
fn connected_startup_defers_status_replay_until_after_subscribe() {
    let mut service = receiving_service();
    service.begin_startup(ConnectEvent::Connected);
    assert_eq!(service.pending(), Some(Action::Subscribe));
    assert_eq!(service.startup_publish(), Some(StatusCode::Accepted));
}

#[test]
fn reconnected_startup_replays_current_status_without_subscribe() {
    let mut service = receiving_service();
    service.begin_startup(ConnectEvent::Reconnected);
    assert_eq!(service.pending(), Some(Action::Publish(StatusCode::Accepted)));
    assert_eq!(service.startup_publish(), None);
}

#[test]
fn status_reports_receiving_transfer_state() {
    let service = receiving_service();
    let status = service.status();
    assert_eq!(status.state, State::Receiving);
    assert_eq!(status.code, StatusCode::Accepted);
    assert_eq!(status.id, "23");
    assert_eq!(status.next_offset, 32);
    assert_eq!(status.size, 64);
    assert_eq!(status.mtu, SLOT);
    assert_eq!(status.write_size, 4);
}

#[test]
fn abort_marks_receiving_transfer_failed() {
    let mut service = receiving_service();
    assert!(service.abort());
    assert_eq!(service.status().state, State::Error);
    assert_eq!(service.status().code, StatusCode::Error);
    assert_eq!(service.pending(), Some(Action::Publish(StatusCode::Error)));
}

#[test]
fn abort_is_noop_without_active_transfer() {
    let mut service = service(128);
    assert!(!service.abort());
    assert_eq!(service.status().state, State::Idle);
}

#[test]
fn abort_is_noop_after_transfer_completes() {
    let mut service = service(128);
    let mut backend = Backend::default();
    drive_trigger(&mut service, &mut backend, JSON_TRIGGER_8);
    drive_chunk(&mut service, &mut backend, RESOURCE, "0", &[1, 2, 3, 4, 5, 6, 7, 8]);
    assert_eq!(service.status().state, State::Complete);
    assert!(!service.abort());
    assert_eq!(service.status().state, State::Complete);
}

#[test]
fn trigger_reports_preparing_before_flash_prepare_completes() {
    let mut service = service(128);
    let handle = trigger(&mut service, br#"{"size":8,"resource":"dt/sinara/mpll/ota/u1","sequence":23,"digest":9126140903112366317}"#);
    assert!(matches!(
        handle,
        Handle::Flash(FlashRequest::Prepare { size: 8 })
    ));
    assert_eq!(service.status().state, State::Preparing);
    assert_eq!(service.pending(), Some(Action::Publish(StatusCode::Accepted)));
}

#[test]
fn trigger_rejects_if_one_aligned_chunk_cannot_fit() {
    let mut service = service(64);
    assert!(matches!(
        trigger(&mut service, JSON_TRIGGER_8),
        Handle::Consumed
    ));
    assert_eq!(service.status().state, State::Idle);
    assert_eq!(service.status().code, StatusCode::Idle);
    assert_eq!(service.pending(), Some(Action::Publish(StatusCode::Mtu)));
}

#[test]
fn trigger_accepts_exact_qos1_chunk_packet_budget() {
    let required = required_rx_bytes("dt/sinara/mpll/dev/ota/chunk", RESOURCE, SLOT);
    assert!(matches!(
        trigger(&mut service(required), JSON_TRIGGER_8),
        Handle::Flash(FlashRequest::Prepare { .. })
    ));

    let mut undersized = service(required - 1);
    assert!(matches!(
        trigger(&mut undersized, JSON_TRIGGER_8),
        Handle::Consumed
    ));
    assert_eq!(undersized.pending(), Some(Action::Publish(StatusCode::Mtu)));
}

#[test]
fn trigger_rejects_invalid_json_profiles() {
    for payload in [
        JSON_TRIGGER_0,
        JSON_TRIGGER_MISSING_DIGEST,
        JSON_TRIGGER_UNKNOWN_FIELD,
    ] {
        let mut service = service(128);
        assert!(matches!(trigger(&mut service, payload), Handle::Consumed));
        assert_eq!(service.status().state, State::Idle);
        assert_eq!(service.pending(), Some(Action::Publish(StatusCode::Error)));
    }
}

#[test]
fn oversized_trigger_is_one_shot_and_next_trigger_can_succeed() {
    let mut service = service(128);
    let mut backend = Backend::default();
    let oversized = br#"{"size":129,"resource":"dt/sinara/mpll/ota/u1","sequence":23,"digest":9126140903112366317}"#;

    assert!(matches!(trigger(&mut service, oversized), Handle::Consumed));
    assert_eq!(service.status().state, State::Idle);
    assert_eq!(service.pending(), Some(Action::Publish(StatusCode::Oversize)));

    drive_trigger(&mut service, &mut backend, JSON_TRIGGER_8);
    assert_eq!(service.status().state, State::Receiving);
    assert_eq!(backend.prepared, Some(8));
}

#[test]
fn ordered_chunks_write_immediately_and_finish() {
    let mut service = service(128);
    let mut backend = Backend::default();
    drive_trigger(&mut service, &mut backend, JSON_TRIGGER_8);
    assert_eq!(service.status().state, State::Receiving);

    drive_chunk(&mut service, &mut backend, RESOURCE, "0", &[1, 2, 3, 4]);
    assert_eq!(service.status().state, State::Receiving);

    drive_chunk(&mut service, &mut backend, RESOURCE, "4", &[5, 6, 7, 8]);
    assert_eq!(service.status().state, State::Complete);

    assert_eq!(backend.prepared, Some(8));
    assert_eq!(
        backend.writes,
        vec![(0, vec![1, 2, 3, 4]), (4, vec![5, 6, 7, 8])]
    );
    assert_eq!(backend.finished, Some(8));
}

#[test]
fn duplicate_final_chunk_replays_complete_status() {
    let mut service = service(128);
    let mut backend = Backend::default();
    drive_trigger(&mut service, &mut backend, JSON_TRIGGER_8);
    drive_chunk(&mut service, &mut backend, RESOURCE, "0", &[1, 2, 3, 4]);
    drive_chunk(&mut service, &mut backend, RESOURCE, "4", &[5, 6, 7, 8]);
    clear_pending(&mut service);

    assert!(matches!(
        chunk(&mut service, RESOURCE, "4", &[5, 6, 7, 8]),
        Handle::Consumed
    ));
    assert_eq!(service.status().state, State::Complete);
    assert_eq!(service.pending(), Some(Action::Publish(StatusCode::Complete)));
    assert_eq!(backend.writes.len(), 2);
}

#[test]
fn unrelated_chunks_do_not_disrupt_active_transfer() {
    let mut service = service(128);
    let mut backend = Backend::default();
    drive_trigger(&mut service, &mut backend, JSON_TRIGGER_8);
    clear_pending(&mut service);

    assert!(matches!(
        publish(
            &mut service,
            CHUNK_TOPIC,
            &[1, 2, 3, 4],
            &Properties::from_slice(&[]),
        ),
        Handle::Consumed
    ));
    assert_eq!(service.status().state, State::Receiving);
    assert_eq!(service.pending(), None);

    assert!(matches!(
        chunk(&mut service, b"another-transfer", "0", &[1, 2, 3, 4]),
        Handle::Consumed
    ));
    assert_eq!(service.status().state, State::Receiving);
    assert_eq!(service.pending(), None);
}

#[test]
fn future_offset_is_rejected_without_write() {
    let mut service = service(128);
    let mut backend = Backend::default();
    drive_trigger(&mut service, &mut backend, JSON_TRIGGER_8);
    assert!(matches!(
        chunk(&mut service, RESOURCE, "4", &[5, 6, 7, 8]),
        Handle::Consumed
    ));

    assert!(backend.writes.is_empty());
    assert_eq!(backend.finished, None);
}

#[test]
fn overlapping_trigger_does_not_disrupt_active_transfer() {
    let mut service = service(128);
    let mut backend = Backend::default();
    drive_trigger(&mut service, &mut backend, JSON_TRIGGER_8);
    clear_pending(&mut service);
    assert!(matches!(
        trigger(&mut service, JSON_TRIGGER_6),
        Handle::Consumed
    ));

    assert_eq!(backend.prepared, Some(8));
    assert_eq!(service.status().state, State::Receiving);
    assert_eq!(service.pending(), None);
    let status = service.status();
    assert_eq!(status.size, 8);
    assert_eq!(status.next_offset, 0);
}

#[test]
fn duplicate_trigger_replays_active_status() {
    let mut service = service(128);
    let mut backend = Backend::default();
    drive_trigger(&mut service, &mut backend, JSON_TRIGGER_8);
    clear_pending(&mut service);

    assert!(matches!(
        trigger(&mut service, JSON_TRIGGER_8),
        Handle::Consumed
    ));
    assert_eq!(service.status().state, State::Receiving);
    assert_eq!(service.pending(), Some(Action::Publish(StatusCode::Accepted)));
    assert_eq!(backend.prepared, Some(8));
}

#[test]
fn final_chunk_may_be_erased_value_padded() {
    let mut service = service(128);
    let mut backend = Backend::default();
    drive_trigger(&mut service, &mut backend, JSON_TRIGGER_6);
    drive_chunk(&mut service, &mut backend, RESOURCE, "0", &[1, 2, 3, 4]);
    drive_chunk(
        &mut service,
        &mut backend,
        RESOURCE,
        "4",
        &[5, 6, 0xff, 0xff],
    );
    assert_eq!(service.status().state, State::Complete);

    assert_eq!(
        backend.writes,
        vec![(0, vec![1, 2, 3, 4]), (4, vec![5, 6, 0xff, 0xff])]
    );
    assert_eq!(backend.finished, Some(6));
}

#[test]
fn final_chunk_rejects_non_erased_padding() {
    let mut service = service(128);
    let mut backend = Backend::default();
    drive_trigger(&mut service, &mut backend, JSON_TRIGGER_6);
    drive_chunk(&mut service, &mut backend, RESOURCE, "0", &[1, 2, 3, 4]);
    assert!(matches!(
        chunk(&mut service, RESOURCE, "4", &[5, 6, 0, 0]),
        Handle::Consumed
    ));

    assert_eq!(backend.finished, None);
}

#[test]
fn backend_failure_marks_transfer_error() {
    let mut service = service(128);
    let mut backend = Backend {
        fail_finish: true,
        ..Backend::default()
    };

    drive_trigger(&mut service, &mut backend, JSON_TRIGGER_8);
    drive_chunk(&mut service, &mut backend, RESOURCE, "0", &[1, 2, 3, 4]);
    drive_chunk(&mut service, &mut backend, RESOURCE, "4", &[5, 6, 7, 8]);
    assert_eq!(service.status().state, State::Error);
    assert_eq!(service.pending(), Some(Action::Publish(StatusCode::Backend)));
}
