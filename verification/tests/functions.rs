//! Single functions of the library on concrete values.

use minimq::{Properties, Property};
use ota_mqtt::text::{bytes_equal, is_joined, parse_u32, text_equal};
use ota_mqtt::{
    checked_rx_bytes, chunk_properties, manifest_id, mqtt_varint_len, parse_trigger,
    payload_padding, reject_log_level, required_rx_bytes, should_log_chunk_progress,
    status_log_level, validate_chunk, ChunkError, Config, CreateError, LogLevel, ResourceError,
    Route, Service, State, Status, StatusCode, Trigger, Update,
};

const CONFIG: Config = Config {
    capacity: 128,
    max_chunk_size: 32,
    write_size: 4,
};

fn create_error(prefix: &str, config: Config) -> Option<CreateError> {
    Service::new(prefix, config).err()
}

#[test]
fn varint_takes_one_byte_per_seven_bits() {
    for (value, len) in [
        (0, 1),
        (1, 1),
        (127, 1),
        (128, 2),
        (16_383, 2),
        (16_384, 3),
        (2_097_151, 3),
        (2_097_152, 4),
        (268_435_455, 4),
        (268_435_456, 5),
    ] {
        assert_eq!(mqtt_varint_len(value), len);
    }
}

#[test]
fn varint_length_never_falls() {
    let mut last = 0;
    for value in 0..20_000 {
        let len = mqtt_varint_len(value);
        assert!(len >= last);
        last = len;
    }
}

#[test]
fn receive_budget_is_exact() {
    // 47 bytes of properties, 112 bytes behind the fixed header.
    assert_eq!(
        required_rx_bytes("dt/sinara/mpll/dev/ota/chunk", b"dt/sinara/mpll/ota/u1", 32),
        114
    );
    // The remaining length takes two bytes from 128 on.
    assert_eq!(
        required_rx_bytes("dt/sinara/mpll/dev/ota/chunk", b"dt/sinara/mpll/ota/u1", 47),
        129
    );
    assert_eq!(
        required_rx_bytes("dt/sinara/mpll/dev/ota/chunk", b"dt/sinara/mpll/ota/u1", 48),
        131
    );
    // So does the property length: 26 bytes and the resource identifier.
    assert_eq!(required_rx_bytes("", &[0; 101], 0), 1 + 2 + 2 + 2 + 1 + 127);
    assert_eq!(required_rx_bytes("", &[0; 102], 0), 1 + 2 + 2 + 2 + 2 + 128);
    assert_eq!(checked_rx_bytes("", &[0; 102], 0), Some(1 + 2 + 2 + 2 + 2 + 128));
    assert_eq!(checked_rx_bytes("", b"", usize::MAX), None);
    // Topics count in bytes, not in characters.
    assert_eq!(
        required_rx_bytes("\u{e9}", b"", 0),
        required_rx_bytes("ab", b"", 0)
    );
}

#[test]
fn padding_is_what_lies_behind_the_image() {
    assert_eq!(payload_padding(&[1, 2, 3, 4], 0), Some(&[1, 2, 3, 4][..]));
    assert_eq!(payload_padding(&[1, 2, 3, 4], 3), Some(&[4][..]));
    assert_eq!(payload_padding(&[1, 2, 3, 4], 4), None);
    assert_eq!(payload_padding(&[1, 2, 3, 4], u32::MAX), None);
    assert_eq!(payload_padding(&[], 0), None);
}

fn transfer(size: u32, next_offset: u32) -> Update {
    let manifest = parse_trigger(&Trigger {
        size,
        resource: "r",
        sequence: 23,
        digest: 7,
    })
    .unwrap();
    Update {
        id: manifest_id(23).unwrap(),
        resource_id: manifest.resource_id,
        size,
        next_offset,
        fnv1a64: 7,
    }
}

#[test]
fn chunks_are_checked_in_order() {
    let update = transfer(96, 32);
    let check = |offset: u32, payload: &[u8]| validate_chunk(&update, offset, payload, 128, 32, 4);
    assert_eq!(check(28, &[0; 36]), Err(ChunkError::Queue(StatusCode::Duplicate)));
    assert_eq!(check(36, &[0; 36]), Err(ChunkError::Queue(StatusCode::Offset)));
    assert_eq!(check(32, &[]), Err(ChunkError::Fail(StatusCode::Mtu)));
    assert_eq!(check(32, &[0; 36]), Err(ChunkError::Fail(StatusCode::Oversize)));
    assert_eq!(check(32, &[0; 33]), Err(ChunkError::Fail(StatusCode::Oversize)));
    assert_eq!(check(32, &[0; 30]), Err(ChunkError::Fail(StatusCode::Unaligned)));
    assert_eq!(check(32, &[0; 4]), Ok(36));
    assert_eq!(check(32, &[0; 32]), Ok(64));
}

#[test]
fn chunks_end_within_the_capacity_and_the_image() {
    let update = transfer(94, 92);
    assert_eq!(validate_chunk(&update, 92, &[1, 2, 255, 255], 96, 32, 4), Ok(94));
    for (payload, capacity) in [([1, 2, 255, 255], 95), ([1, 2, 255, 0], 96)] {
        assert_eq!(
            validate_chunk(&update, 92, &payload, capacity, 32, 4),
            Err(ChunkError::Fail(StatusCode::Oversize))
        );
    }
    // A capacity below the offset has no room at all.
    assert_eq!(
        validate_chunk(&update, 92, &[1, 2, 255, 255], 91, 32, 4),
        Err(ChunkError::Fail(StatusCode::Oversize))
    );
    let last = transfer(u32::MAX, u32::MAX - 3);
    assert_eq!(
        validate_chunk(&last, u32::MAX - 3, &[255; 4], u32::MAX, 32, 4),
        Err(ChunkError::Fail(StatusCode::Oversize))
    );
}

#[test]
fn numbers_parse_as_in_the_standard_library() {
    for text in [
        "", "+", "-", "0", "7", "+7", "-7", "++7", "007", "42", " 42", "42 ", "4 2", "4_2", "4a",
        "0x10", "4294967295", "4294967296", "+4294967295", "00000000004294967295", "42949672950",
        "99999999999999999999999", "\u{0664}", "1\u{e9}", "1.0", "1e3", "-0",
    ] {
        assert_eq!(parse_u32(text), text.parse::<u32>().ok());
    }
    assert_eq!(parse_u32("4294967295"), Some(u32::MAX));
    assert_eq!(parse_u32("+12"), Some(12));
    assert_eq!(parse_u32("4294967296"), None);
}

#[test]
fn every_offset_parses_back() {
    for n in [0, 1, 9, 10, 99, 100, 4096, 1_000_000, u32::MAX - 1, u32::MAX] {
        assert_eq!(parse_u32(&n.to_string()), Some(n));
    }
}

#[test]
fn byte_strings_and_texts_compare_by_contents() {
    assert!(bytes_equal(b"", b""));
    assert!(bytes_equal(b"abc", b"abc"));
    assert!(!bytes_equal(b"abc", b"abd"));
    assert!(!bytes_equal(b"abc", b"ab"));
    assert!(text_equal("offset", "offset"));
    assert!(!text_equal("offset", "Offset"));
    assert!(is_joined("a/b/chunk", "a/b", "/chunk"));
    assert!(!is_joined("a/b/chunks", "a/b", "/chunk"));
    assert!(!is_joined("a/b", "a/b", "/chunk"));
    assert!(!is_joined("a/c/chunk", "a/b", "/chunk"));
    assert!(is_joined("\u{e9}/x", "\u{e9}", "/x"));
}

#[test]
fn chunk_properties_need_both_parts() {
    let list = [
        Property::PayloadFormatIndicator(1),
        Property::UserProperty("offset", "12"),
        Property::CorrelationData(b"id"),
    ];
    let properties = Properties::from_slice(&list);
    let chunk = chunk_properties(&properties).unwrap();
    assert_eq!(chunk.resource_id, b"id");
    assert_eq!(chunk.offset, 12);

    let list = [Property::CorrelationData(b"id")];
    assert!(chunk_properties(&Properties::from_slice(&list)).is_none());
    let list = [Property::UserProperty("offset", "12")];
    assert!(chunk_properties(&Properties::from_slice(&list)).is_none());
    assert!(chunk_properties(&Properties::empty()).is_none());
}

#[test]
fn first_correlation_data_and_last_offset_count() {
    let list = [
        Property::CorrelationData(b"first"),
        Property::UserProperty("offset", "1"),
        Property::UserProperty("Offset", "2"),
        Property::ResponseTopic("offset"),
        Property::CorrelationData(b"second"),
        Property::UserProperty("offset", "3"),
        Property::UserProperty("other", "4"),
    ];
    let properties = Properties::from_slice(&list);
    let chunk = chunk_properties(&properties).unwrap();
    assert_eq!(chunk.resource_id, b"first");
    assert_eq!(chunk.offset, 3);

    let list = [
        Property::CorrelationData(b"id"),
        Property::UserProperty("offset", "1"),
        Property::UserProperty("offset", "x"),
    ];
    assert!(chunk_properties(&Properties::from_slice(&list)).is_none());
}

#[test]
fn manifest_takes_resources_of_up_to_128_bytes() {
    let resource = "r".repeat(128);
    let trigger = Trigger {
        size: 7,
        resource: &resource,
        sequence: 5,
        digest: 9,
    };
    let manifest = parse_trigger(&trigger).unwrap();
    assert_eq!(manifest.size, 7);
    assert_eq!(manifest.sequence, 5);
    assert_eq!(manifest.fnv1a64, 9);
    assert_eq!(manifest.resource_id.as_slice(), resource.as_bytes());

    let resource = "r".repeat(129);
    let trigger = Trigger {
        resource: &resource,
        ..trigger
    };
    assert!(parse_trigger(&trigger).is_err());
    // 65 characters of two bytes each.
    let resource = "\u{e9}".repeat(65);
    let trigger = Trigger {
        resource: &resource,
        ..trigger
    };
    assert!(parse_trigger(&trigger).is_err());
}

#[test]
fn every_sequence_number_has_an_identifier() {
    for sequence in [0, 9, 10, 23, u64::MAX] {
        let id = manifest_id(sequence).unwrap();
        assert_eq!(id.as_str(), sequence.to_string());
    }
}

#[test]
fn creation_checks_chunk_sizes() {
    for config in [
        Config {
            write_size: 0,
            ..CONFIG
        },
        Config {
            max_chunk_size: 0,
            ..CONFIG
        },
        Config {
            max_chunk_size: 30,
            ..CONFIG
        },
    ] {
        assert_eq!(
            create_error("a", config),
            Some(CreateError::InvalidChunkSize)
        );
        // Chunk sizes are checked before the topics.
        assert_eq!(
            create_error(&"a".repeat(200), config),
            Some(CreateError::InvalidChunkSize)
        );
    }
    assert_eq!(create_error("a", CONFIG), None);
    assert_eq!(
        create_error(
            "a",
            Config {
                write_size: 32,
                ..CONFIG
            }
        ),
        None
    );
}

#[test]
fn creation_checks_topic_length() {
    let too_long = Some(CreateError::Topic(ResourceError::BufferTooSmall));
    assert_eq!(create_error(&"a".repeat(120), CONFIG), None);
    assert_eq!(create_error(&"a".repeat(121), CONFIG), too_long);
    assert_eq!(create_error(&"a".repeat(129), CONFIG), too_long);
    assert_eq!(create_error(&"\u{e9}".repeat(60), CONFIG), None);
    assert_eq!(create_error(&"\u{e9}".repeat(61), CONFIG), too_long);
    assert_eq!(create_error("", CONFIG), None);
}

#[test]
fn creation_errors_have_messages() {
    assert_eq!(
        CreateError::Topic(ResourceError::BufferTooSmall).message(),
        "OTA topic does not fit buffer"
    );
    assert_eq!(
        CreateError::InvalidChunkSize.message(),
        "invalid OTA chunk or write size"
    );
}

#[test]
fn topics_are_routed_exactly() {
    let service = Service::new("devices/example/ota", CONFIG).unwrap();
    assert_eq!(service.route("devices/example/ota/trigger"), Route::Trigger);
    assert_eq!(service.route("devices/example/ota/chunk"), Route::Chunk);
    for topic in [
        "",
        "devices/example/ota",
        "devices/example/ota/status",
        "devices/example/ota/trigger/",
        "devices/example/ota/trigge",
        "evices/example/ota/trigger",
        "devices/example/otb/chunk",
        "xdevices/example/ota/chunk",
    ] {
        assert_eq!(service.route(topic), Route::Other);
    }
}

#[test]
fn progress_is_prominent_at_start_end_and_stride() {
    assert!(should_log_chunk_progress(0, 1_000_000, 32));
    assert!(!should_log_chunk_progress(32, 1_000_000, 32));
    assert!(!should_log_chunk_progress(127 * 32, 1_000_000, 32));
    assert!(should_log_chunk_progress(128 * 32, 1_000_000, 32));
    assert!(!should_log_chunk_progress(129 * 32, 1_000_000, 32));
    assert!(should_log_chunk_progress(1_000_000 - 32, 1_000_000, 32));
    assert!(!should_log_chunk_progress(1_000_000 - 64, 1_000_000, 32));
    assert!(should_log_chunk_progress(0, 0, 0));
    assert!(should_log_chunk_progress(u32::MAX - 1, u32::MAX, 32));
    assert!(should_log_chunk_progress(32, 1_000_000, usize::MAX));
    assert!(should_log_chunk_progress(5, 5, 0));
}

#[test]
fn statuses_are_logged_by_code() {
    let status = Status {
        state: State::Receiving,
        code: StatusCode::Accepted,
        id: "1",
        next_offset: 32,
        size: 1_000_000,
        mtu: 32,
        write_size: 4,
    };
    assert_eq!(status_log_level(StatusCode::Accepted, &status), LogLevel::Debug);
    let start = Status {
        next_offset: 0,
        ..status
    };
    assert_eq!(status_log_level(StatusCode::Accepted, &start), LogLevel::Info);
    for (code, level) in [
        (StatusCode::Complete, LogLevel::Info),
        (StatusCode::Idle, LogLevel::Debug),
        (StatusCode::Duplicate, LogLevel::Debug),
        (StatusCode::Offset, LogLevel::Warn),
        (StatusCode::Oversize, LogLevel::Warn),
        (StatusCode::Mtu, LogLevel::Warn),
        (StatusCode::Unaligned, LogLevel::Warn),
        (StatusCode::Backend, LogLevel::Warn),
        (StatusCode::Error, LogLevel::Warn),
    ] {
        assert_eq!(status_log_level(code, &status), level);
    }
    assert_eq!(reject_log_level(StatusCode::Duplicate), LogLevel::Debug);
    assert_eq!(reject_log_level(StatusCode::Offset), LogLevel::Warn);
    assert_eq!(reject_log_level(StatusCode::Error), LogLevel::Warn);
}
