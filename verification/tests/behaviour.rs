//! What the service promises over several operations.

use minimq::{Properties, Property};
use ota_mqtt::{
    Action, Config, ConnectEvent, FlashRequest, FlashWrite, Handle, InboundPublish, OpProgress,
    QoS, RetainHandling, Service, State, StatusCode, Step, StepAction, Trigger,
};

const PREFIX: &str = "devices/example/ota";
const RESOURCE: &str = "devices/example/ota/85944171f73967e8";

fn service_with(config: Config) -> Service {
    let mut service = Service::new(PREFIX, config).unwrap();
    let _ = service.subscription(1024);
    service
}

fn service() -> Service {
    service_with(Config {
        capacity: 128,
        max_chunk_size: 32,
        write_size: 4,
    })
}

fn manifest(size: u32) -> Trigger<'static> {
    Trigger {
        size,
        resource: RESOURCE,
        sequence: 23,
        digest: 9_625_390_261_332_434_920,
    }
}

fn send_trigger(service: &mut Service, trigger: Option<Trigger<'_>>) -> Option<u32> {
    let properties = Properties::empty();
    match service.handle(&InboundPublish {
        topic: "devices/example/ota/trigger",
        payload: b"",
        properties: &properties,
        trigger,
    }) {
        Handle::Flash(FlashRequest::Prepare { size }) => Some(size),
        Handle::Consumed => None,
        _ => panic!("unexpected reply to a trigger"),
    }
}

fn send_chunk<'a>(
    service: &mut Service,
    resource: &[u8],
    offset: &str,
    payload: &'a [u8],
) -> Option<FlashWrite<'a>> {
    let list = [
        Property::CorrelationData(resource),
        Property::UserProperty("offset", offset),
    ];
    match service.handle(&InboundPublish {
        topic: "devices/example/ota/chunk",
        payload,
        properties: &Properties::from_slice(&list),
        trigger: None,
    }) {
        Handle::Flash(FlashRequest::Write(write)) => Some(write),
        Handle::Consumed => None,
        _ => panic!("unexpected reply to a chunk"),
    }
}

fn receiving(size: u32) -> Service {
    let mut service = service();
    assert_eq!(send_trigger(&mut service, Some(manifest(size))), Some(size));
    service.complete_flash(true);
    assert_eq!(service.status().state, State::Receiving);
    service
}

fn published(service: &Service) -> Option<StatusCode> {
    match service.pending() {
        Some(Action::Publish(code)) => Some(code),
        _ => None,
    }
}

/// Start the queued operation, and let it complete.
fn drain(service: &mut Service) -> Option<Action> {
    match service.step(OpProgress::Settled) {
        StepAction::Start(action) => {
            let _ = service.step_started(true);
            Some(action)
        }
        _ => None,
    }
}

#[test]
fn status_publication_requests_the_next_chunk() {
    let mut service = receiving(64);
    assert!(send_chunk(&mut service, RESOURCE.as_bytes(), "0", &[1; 12]).is_some());
    service.complete_flash(true);
    let publication = service.status_publication(StatusCode::Accepted);
    assert_eq!(publication.topic.as_str(), "devices/example/ota/status");
    assert_eq!(publication.response_topic.as_str(), "devices/example/ota/chunk");
    assert_eq!(publication.qos, QoS::AtLeastOnce);
    assert_eq!(publication.payload_format_indicator, 1);
    assert_eq!(publication.correlation_data, RESOURCE.as_bytes());
    assert_eq!(publication.offset_key, "offset");
    assert_eq!(publication.offset.as_str(), "12");
    assert_eq!(publication.status.code, StatusCode::Accepted);
    assert_eq!(publication.status.state, State::Receiving);
    assert_eq!(publication.status.id, "23");
    assert_eq!(publication.status.next_offset, 12);
    assert_eq!(publication.status.size, 64);
}

#[test]
fn idle_status_has_no_transfer() {
    let service = service();
    let publication = service.status_publication(StatusCode::Oversize);
    assert_eq!(publication.status.code, StatusCode::Oversize);
    assert_eq!(publication.status.state, State::Idle);
    assert_eq!(publication.status.id, "");
    assert_eq!(publication.status.next_offset, 0);
    assert_eq!(publication.status.size, 0);
    assert_eq!(publication.correlation_data, b"");
    assert_eq!(publication.offset.as_str(), "0");
}

#[test]
fn status_keeps_naming_the_accepted_trigger() {
    let mut service = service();
    assert_eq!(send_trigger(&mut service, Some(manifest(129))), None);
    assert_eq!(service.status_with(StatusCode::Oversize).id, "");
    assert_eq!(send_trigger(&mut service, Some(manifest(8))), Some(8));
    let other = Trigger {
        size: 16,
        resource: "other",
        sequence: 24,
        digest: 1,
    };
    for round in 0..6 {
        assert_eq!(send_trigger(&mut service, Some(other)), None);
        let status = service.status_with(StatusCode::Duplicate);
        assert_eq!(status.code, StatusCode::Duplicate);
        assert_eq!(status.state, service.status().state);
        assert_eq!((status.id, status.size), ("23", 8));
        assert_eq!((status.mtu, status.write_size), (32, 4));
        let publication = service.status_publication(StatusCode::Accepted);
        assert_eq!(publication.correlation_data, RESOURCE.as_bytes());
        match round {
            0 | 2 => service.complete_flash(true),
            1 => assert!(send_chunk(&mut service, RESOURCE.as_bytes(), "0", &[0; 4]).is_some()),
            3 => service.begin_startup(ConnectEvent::Connected),
            _ => assert_eq!(service.abort(), round == 4),
        }
    }
    assert_eq!(service.status().state, State::Error);
    assert_eq!(service.status().next_offset, 4);
}

#[test]
fn mirrored_requests_stage_the_whole_image() {
    let image: Vec<u8> = (0..=101u8).collect();
    for chunk_len in [4usize, 8, 12, 32] {
        let mut service = receiving(image.len() as u32);
        let mut staged: Vec<u8> = Vec::new();
        let mut digest = None;
        while service.status().state == State::Receiving {
            let (resource, offset, start) = {
                let request = service.status_publication(StatusCode::Accepted);
                (
                    request.correlation_data.to_vec(),
                    request.offset.as_str().to_string(),
                    request.status.next_offset as usize,
                )
            };
            assert_eq!(start, staged.len());
            let end = image.len().min(start + chunk_len);
            let mut payload = image[start..end].to_vec();
            while payload.len() % 4 != 0 {
                payload.push(0xff);
            }
            let write = send_chunk(&mut service, &resource, &offset, &payload).unwrap();
            assert_eq!(write.offset as usize, start);
            assert_eq!(write.image_size as usize, image.len());
            staged.extend_from_slice(write.payload);
            digest = write.fnv1a64;
            assert_eq!(digest.is_some(), end == image.len());
            service.complete_flash(true);
        }
        assert_eq!(service.status().state, State::Complete);
        assert_eq!(service.status().next_offset, service.status().size);
        staged.truncate(image.len());
        assert_eq!(staged, image);
        assert_eq!(digest, Some(9_625_390_261_332_434_920));
    }
}

#[test]
fn subscription_covers_both_topics() {
    let mut service = service();
    let subscription = service.subscription(256);
    assert_eq!(subscription.trigger.topic.as_str(), "devices/example/ota/trigger");
    assert_eq!(subscription.chunk.topic.as_str(), "devices/example/ota/chunk");
    for topic in [&subscription.trigger, &subscription.chunk] {
        assert_eq!(topic.maximum_qos, QoS::AtLeastOnce);
        assert_eq!(topic.retain_handling, RetainHandling::Never);
        assert!(topic.ignore_local_messages);
    }
}

#[test]
fn fresh_session_subscribes_before_it_replays() {
    let mut service = receiving(64);
    let _ = drain(&mut service);
    service.begin_startup(ConnectEvent::Connected);
    assert_eq!(
        service.step(OpProgress::Settled),
        StepAction::Start(Action::Subscribe)
    );
    assert_eq!(service.step_started(true), Step::Pending);
    assert_eq!(service.inflight(), Some(Action::Subscribe));
    assert_eq!(service.step(OpProgress::Pending), StepAction::Wait);
    assert_eq!(
        service.step(OpProgress::Settled),
        StepAction::Start(Action::Publish(StatusCode::Accepted))
    );
    assert_eq!(service.startup_publish(), None);
    assert_eq!(service.step_started(false), Step::Quiescent);
    assert_eq!(service.step(OpProgress::Settled), StepAction::Quiescent);
}

#[test]
fn fresh_session_of_idle_service_only_subscribes() {
    let mut service = service();
    service.begin_startup(ConnectEvent::Connected);
    assert_eq!(drain(&mut service), Some(Action::Subscribe));
    assert_eq!(service.step(OpProgress::Settled), StepAction::Quiescent);
}

#[test]
fn resumed_session_of_idle_service_does_nothing() {
    let mut service = service();
    service.begin_startup(ConnectEvent::Reconnected);
    assert_eq!(service.pending(), None);
    assert_eq!(service.step(OpProgress::Settled), StepAction::Quiescent);
}

#[test]
fn displaced_subscription_is_repeated() {
    let mut service = service();
    assert_eq!(send_trigger(&mut service, Some(manifest(8))), Some(8));
    service.begin_startup(ConnectEvent::Connected);
    assert_eq!(service.startup_publish(), Some(StatusCode::Accepted));
    service.complete_flash(true);
    assert_eq!(published(&service), Some(StatusCode::Accepted));

    assert_eq!(
        service.step(OpProgress::Settled),
        StepAction::Start(Action::Publish(StatusCode::Accepted))
    );
    assert_eq!(service.step_started(false), Step::Pending);
    assert_eq!(
        service.step(OpProgress::Settled),
        StepAction::Start(Action::Subscribe)
    );
    assert_eq!(service.step_started(true), Step::Pending);
    assert_eq!(
        service.step(OpProgress::Settled),
        StepAction::Start(Action::Publish(StatusCode::Accepted))
    );
    assert_eq!(service.step_started(false), Step::Quiescent);
    assert_eq!(service.startup_publish(), None);

    assert!(send_chunk(&mut service, RESOURCE.as_bytes(), "0", &[0; 8]).is_some());
    service.complete_flash(true);
    assert_eq!(drain(&mut service), Some(Action::Publish(StatusCode::Complete)));
    assert_eq!(service.step(OpProgress::Settled), StepAction::Quiescent);
    assert!(service.ready_to_reboot());
}

#[test]
fn displaced_subscription_replays_the_current_status() {
    let mut service = receiving(8);
    assert!(send_chunk(&mut service, RESOURCE.as_bytes(), "0", &[0; 8]).is_some());
    service.begin_startup(ConnectEvent::Connected);
    service.complete_flash(true);
    let mut actions = Vec::new();
    while let Some(action) = drain(&mut service) {
        actions.push(action);
    }
    assert_eq!(
        actions,
        [
            Action::Publish(StatusCode::Complete),
            Action::Subscribe,
            Action::Publish(StatusCode::Complete),
        ]
    );
    assert!(service.ready_to_reboot());

    let mut service = receiving(8);
    service.begin_startup(ConnectEvent::Connected);
    assert!(send_chunk(&mut service, RESOURCE.as_bytes(), "4", &[0; 4]).is_none());
    assert_eq!(published(&service), Some(StatusCode::Offset));
    assert!(service.abort());
    actions.clear();
    while let Some(action) = drain(&mut service) {
        actions.push(action);
    }
    assert_eq!(
        actions,
        [
            Action::Publish(StatusCode::Error),
            Action::Subscribe,
            Action::Publish(StatusCode::Error),
        ]
    );
}

#[test]
fn subscription_done_at_once_makes_the_status_due() {
    let mut service = receiving(8);
    service.begin_startup(ConnectEvent::Connected);
    assert_eq!(
        service.step(OpProgress::Settled),
        StepAction::Start(Action::Subscribe)
    );
    assert_eq!(service.step_started(false), Step::Pending);
    assert_eq!(published(&service), Some(StatusCode::Accepted));
    assert_eq!(service.startup_publish(), None);
}

#[test]
fn queue_drains_within_three_operations() {
    let mut service = receiving(8);
    assert_eq!(drain(&mut service), Some(Action::Publish(StatusCode::Accepted)));
    assert!(send_chunk(&mut service, RESOURCE.as_bytes(), "4", &[0; 4]).is_none());
    service.begin_startup(ConnectEvent::Connected);
    assert!(send_chunk(&mut service, RESOURCE.as_bytes(), "4", &[0; 4]).is_none());
    for _ in 0..3 {
        assert!(drain(&mut service).is_some());
    }
    assert_eq!(service.step(OpProgress::Settled), StepAction::Quiescent);
    assert_eq!(service.pending(), None);
    assert_eq!(service.inflight(), None);
    assert_eq!(service.startup_publish(), None);
}

#[test]
fn flash_writes_come_in_order() {
    let mut service = receiving(22);
    let mut writes: Vec<(u32, usize, u32, Option<u64>)> = Vec::new();
    for (offset, len) in [
        ("4", 4),
        ("0", 8),
        ("0", 8),
        ("12", 4),
        ("8", 12),
        ("8", 4),
        ("20", 4),
        ("20", 4),
        ("24", 4),
    ] {
        let payload = vec![0xff; len];
        if let Some(write) = send_chunk(&mut service, RESOURCE.as_bytes(), offset, &payload) {
            writes.push((write.offset, write.payload.len(), write.image_size, write.fnv1a64));
            service.complete_flash(true);
        }
    }
    assert_eq!(
        writes,
        [
            (0, 8, 22, None),
            (8, 12, 22, None),
            (20, 4, 22, Some(9_625_390_261_332_434_920)),
        ]
    );
    assert_eq!(service.status().state, State::Complete);
}

#[test]
fn chunk_sizes_beyond_every_receive_limit_are_refused() {
    for max_chunk_size in [usize::MAX - 3, usize::MAX - 99] {
        let mut service = service_with(Config {
            capacity: 128,
            max_chunk_size,
            write_size: 4,
        });
        let _ = service.subscription(usize::MAX);
        assert_eq!(send_trigger(&mut service, Some(manifest(8))), None);
        assert_eq!(published(&service), Some(StatusCode::Mtu));
        assert_eq!(service.status().state, State::Idle);
    }
    let mut service = service_with(Config {
        capacity: 128,
        max_chunk_size: usize::MAX - 103,
        write_size: 4,
    });
    let _ = service.subscription(usize::MAX);
    assert_eq!(send_trigger(&mut service, Some(manifest(8))), Some(8));
}

#[test]
fn interrupted_step_asks_again() {
    let mut service = service();
    service.begin_startup(ConnectEvent::Connected);
    for progress in [
        OpProgress::Settled,
        OpProgress::Pending,
        OpProgress::Invalidated,
    ] {
        assert_eq!(service.step(progress), StepAction::Start(Action::Subscribe));
        assert_eq!(service.pending(), Some(Action::Subscribe));
    }
}

#[test]
fn invalidated_operation_is_queued_again() {
    let mut service = receiving(64);
    assert_eq!(drain(&mut service), Some(Action::Publish(StatusCode::Accepted)));
    assert_eq!(service.step(OpProgress::Invalidated), StepAction::Disconnected);
    assert_eq!(service.inflight(), None);
    assert_eq!(
        service.step(OpProgress::Settled),
        StepAction::Start(Action::Publish(StatusCode::Accepted))
    );
}

#[test]
fn startup_forgets_operation_in_flight() {
    let mut service = receiving(64);
    assert_eq!(drain(&mut service), Some(Action::Publish(StatusCode::Accepted)));
    service.begin_startup(ConnectEvent::Reconnected);
    assert_eq!(service.inflight(), Some(Action::Publish(StatusCode::Accepted)));
    service.begin_startup(ConnectEvent::Connected);
    assert_eq!(service.inflight(), None);
    assert_eq!(service.pending(), Some(Action::Subscribe));
}

#[test]
fn starting_without_queued_work_changes_nothing() {
    let mut service = service();
    assert_eq!(service.step_started(true), Step::Quiescent);
    assert_eq!(service.inflight(), None);
}

#[test]
fn latest_status_takes_the_queue() {
    let mut service = service();
    assert_eq!(send_trigger(&mut service, Some(manifest(0))), None);
    assert_eq!(published(&service), Some(StatusCode::Error));
    assert_eq!(send_trigger(&mut service, Some(manifest(129))), None);
    assert_eq!(published(&service), Some(StatusCode::Oversize));
}

#[test]
fn refused_triggers_leave_idle_service_as_it_was() {
    let mut service = service();
    let long = "r".repeat(129);
    for (trigger, code) in [
        (None, StatusCode::Error),
        (Some(manifest(0)), StatusCode::Error),
        (Some(manifest(129)), StatusCode::Oversize),
        (
            Some(Trigger {
                resource: &long,
                ..manifest(8)
            }),
            StatusCode::Error,
        ),
    ] {
        assert_eq!(send_trigger(&mut service, trigger), None);
        assert_eq!(published(&service), Some(code));
        assert_eq!(service.status().state, State::Idle);
    }
    let _ = service.subscription(10);
    assert_eq!(send_trigger(&mut service, Some(manifest(8))), None);
    assert_eq!(published(&service), Some(StatusCode::Mtu));
    let _ = service.subscription(1024);
    assert_eq!(send_trigger(&mut service, Some(manifest(128))), Some(128));
}

#[test]
fn active_transfer_ignores_invalid_and_other_triggers() {
    let mut service = receiving(64);
    let _ = drain(&mut service);
    assert_eq!(send_trigger(&mut service, None), None);
    assert_eq!(service.pending(), None);
    for trigger in [
        manifest(65),
        Trigger {
            sequence: 24,
            ..manifest(64)
        },
        Trigger {
            digest: 1,
            ..manifest(64)
        },
        Trigger {
            resource: "other",
            ..manifest(64)
        },
    ] {
        assert_eq!(send_trigger(&mut service, Some(trigger)), None);
        assert_eq!(service.pending(), None);
    }
    assert_eq!(send_trigger(&mut service, Some(manifest(64))), None);
    assert_eq!(published(&service), Some(StatusCode::Accepted));
}

#[test]
fn chunks_fail_by_size_and_alignment() {
    for (payload, code) in [
        (vec![], StatusCode::Mtu),
        (vec![0; 36], StatusCode::Oversize),
        (vec![0; 33], StatusCode::Oversize),
        (vec![0; 30], StatusCode::Unaligned),
        (vec![0; 1], StatusCode::Unaligned),
    ] {
        let mut service = receiving(64);
        assert!(send_chunk(&mut service, RESOURCE.as_bytes(), "0", &payload).is_none());
        assert_eq!(published(&service), Some(code));
        assert_eq!(service.status().state, State::Error);
    }
}

#[test]
fn chunks_fail_beyond_the_capacity() {
    let mut service = service_with(Config {
        capacity: 6,
        max_chunk_size: 32,
        write_size: 4,
    });
    assert_eq!(send_trigger(&mut service, Some(manifest(6))), Some(6));
    service.complete_flash(true);
    assert!(send_chunk(&mut service, RESOURCE.as_bytes(), "0", &[1, 2, 3, 4]).is_some());
    service.complete_flash(true);
    assert!(send_chunk(&mut service, RESOURCE.as_bytes(), "4", &[5, 6, 255, 255]).is_none());
    assert_eq!(published(&service), Some(StatusCode::Oversize));
    assert_eq!(service.status().state, State::Error);
}

#[test]
fn padding_must_be_erased() {
    let mut service = receiving(6);
    assert!(
        send_chunk(&mut service, RESOURCE.as_bytes(), "0", &[1, 2, 3, 4, 5, 6, 255, 254]).is_none()
    );
    assert_eq!(published(&service), Some(StatusCode::Oversize));
    assert_eq!(service.status().state, State::Error);
}

#[test]
fn other_offsets_are_answered_without_write() {
    let mut service = receiving(64);
    assert!(send_chunk(&mut service, RESOURCE.as_bytes(), "4", &[0; 4]).is_none());
    assert_eq!(published(&service), Some(StatusCode::Offset));
    assert_eq!(service.status().state, State::Receiving);
    assert!(send_chunk(&mut service, RESOURCE.as_bytes(), "0", &[0; 4]).is_some());
    service.complete_flash(true);
    assert!(send_chunk(&mut service, RESOURCE.as_bytes(), "0", &[0; 4]).is_none());
    assert_eq!(published(&service), Some(StatusCode::Duplicate));
    assert_eq!(service.status().state, State::Receiving);
    assert_eq!(service.status().next_offset, 4);
}

#[test]
fn chunks_wait_for_the_write_in_progress() {
    let mut service = receiving(64);
    let _ = drain(&mut service);
    assert!(send_chunk(&mut service, RESOURCE.as_bytes(), "0", &[0; 4]).is_some());
    assert_eq!(service.status().state, State::Writing);
    assert!(send_chunk(&mut service, RESOURCE.as_bytes(), "0", &[0; 4]).is_none());
    assert_eq!(service.pending(), None);
    assert!(send_chunk(&mut service, b"other", "4", &[0; 4]).is_none());
    assert_eq!(service.pending(), None);
    assert!(send_chunk(&mut service, RESOURCE.as_bytes(), "4", &[0; 4]).is_none());
    assert_eq!(published(&service), Some(StatusCode::Error));
    assert_eq!(service.status().state, State::Writing);
    assert_eq!(service.status().next_offset, 0);
}

#[test]
fn chunks_without_receiving_transfer_are_answered() {
    let mut service = service();
    assert!(send_chunk(&mut service, b"", "0", &[0; 4]).is_none());
    assert_eq!(published(&service), Some(StatusCode::Idle));
    assert_eq!(send_trigger(&mut service, Some(manifest(8))), Some(8));
    let _ = drain(&mut service);
    assert!(send_chunk(&mut service, RESOURCE.as_bytes(), "0", &[0; 4]).is_none());
    assert_eq!(service.pending(), None);
    service.complete_flash(false);
    assert_eq!(published(&service), Some(StatusCode::Backend));
    assert!(send_chunk(&mut service, RESOURCE.as_bytes(), "0", &[0; 4]).is_none());
    assert_eq!(published(&service), Some(StatusCode::Error));
    assert_eq!(service.status().state, State::Error);
}

#[test]
fn publishes_on_other_topics_are_unhandled() {
    let mut service = receiving(8);
    let _ = drain(&mut service);
    let properties = Properties::empty();
    assert!(matches!(
        service.handle(&InboundPublish {
            topic: "devices/example/ota/status",
            payload: b"x",
            properties: &properties,
            trigger: Some(manifest(8)),
        }),
        Handle::Unhandled
    ));
    assert_eq!(service.pending(), None);
}

#[test]
fn flash_results_count_once() {
    let mut service = receiving(64);
    assert!(send_chunk(&mut service, RESOURCE.as_bytes(), "0", &[0; 4]).is_some());
    service.complete_flash(true);
    service.complete_flash(false);
    assert_eq!(service.status().state, State::Receiving);
    assert_eq!(service.status().next_offset, 4);
}

#[test]
fn flash_result_after_abort_is_ignored() {
    let mut service = receiving(64);
    assert!(send_chunk(&mut service, RESOURCE.as_bytes(), "0", &[0; 4]).is_some());
    assert!(service.abort());
    service.complete_flash(true);
    assert_eq!(service.status().state, State::Error);
    assert_eq!(service.status().next_offset, 0);
    assert!(!service.abort());
}

#[test]
fn abort_waits_for_the_subscription() {
    let mut service = receiving(64);
    service.begin_startup(ConnectEvent::Connected);
    assert!(service.abort());
    assert_eq!(service.pending(), Some(Action::Subscribe));
    assert_eq!(service.startup_publish(), Some(StatusCode::Error));
    assert_eq!(drain(&mut service), Some(Action::Subscribe));
    assert_eq!(
        drain(&mut service),
        Some(Action::Publish(StatusCode::Error))
    );
}

#[test]
fn aborted_transfer_is_replayed_as_error() {
    let mut service = receiving(64);
    assert!(service.abort());
    service.begin_startup(ConnectEvent::Connected);
    assert_eq!(service.startup_publish(), Some(StatusCode::Error));
    service.begin_startup(ConnectEvent::Reconnected);
    assert_eq!(published(&service), Some(StatusCode::Error));
}

#[test]
fn reboot_waits_for_the_last_status() {
    let mut service = receiving(8);
    assert!(send_chunk(&mut service, RESOURCE.as_bytes(), "0", &[0; 8]).is_some());
    assert!(!service.ready_to_reboot());
    service.complete_flash(true);
    assert_eq!(published(&service), Some(StatusCode::Complete));
    assert!(!service.ready_to_reboot());
    assert_eq!(
        drain(&mut service),
        Some(Action::Publish(StatusCode::Complete))
    );
    assert!(!service.ready_to_reboot());
    assert_eq!(service.step(OpProgress::Settled), StepAction::Quiescent);
    assert!(service.ready_to_reboot());
    service.begin_startup(ConnectEvent::Connected);
    assert!(!service.ready_to_reboot());
}
