//! The chunk publish on the wire, byte by byte, and what its size means for the receive limit.

use crate::model::{ManifestView, ServiceView, TriggerOutcome};
use vstd::prelude::*;

verus! {

/// MQTT variable byte integer: seven bits per byte, least significant first, with the high bit set
/// on all bytes but the last.
pub open spec fn varint(value: nat) -> Seq<u8>
    decreases value,
{
    if value < 128 {
        seq![value as u8]
    } else {
        seq![(128 + value % 128) as u8] + varint(value / 128)
    }
}

/// The number that a variable byte integer encodes.
pub open spec fn varint_value(bytes: Seq<u8>) -> nat
    decreases bytes.len(),
{
    if bytes.len() == 0 {
        0
    } else if bytes[0] < 128 {
        bytes[0] as nat
    } else {
        (bytes[0] - 128) as nat + 128 * varint_value(bytes.drop_first())
    }
}

/// Bytes with their length in two bytes before them, as MQTT writes texts and binary data.
pub open spec fn prefixed(bytes: Seq<u8>) -> Seq<u8> {
    seq![(bytes.len() / 256) as u8, (bytes.len() % 256) as u8] + bytes
}

/// Property block of a chunk publish: payload format indicator, correlation data and the `offset`
/// user property.
pub open spec fn chunk_property_block(resource_id: Seq<u8>, offset: Seq<u8>) -> Seq<u8> {
    seq![0x01u8, 1u8] + (seq![0x09u8] + prefixed(resource_id)) + (seq![0x26u8] + prefixed(
        seq![0x6fu8, 0x66u8, 0x66u8, 0x73u8, 0x65u8, 0x74u8],
    ) + prefixed(offset))
}

/// What follows the fixed header of a QoS 1 chunk publish.
pub open spec fn chunk_variable_part(
    topic: Seq<u8>,
    packet_id: u16,
    resource_id: Seq<u8>,
    offset: Seq<u8>,
    payload: Seq<u8>,
) -> Seq<u8> {
    let block = chunk_property_block(resource_id, offset);
    prefixed(topic) + seq![(packet_id / 256) as u8, (packet_id % 256) as u8] + varint(block.len())
        + block + payload
}

/// A whole QoS 1 chunk publish.
pub open spec fn chunk_publish(
    topic: Seq<u8>,
    packet_id: u16,
    resource_id: Seq<u8>,
    offset: Seq<u8>,
    payload: Seq<u8>,
) -> Seq<u8> {
    let rest = chunk_variable_part(topic, packet_id, resource_id, offset, payload);
    seq![0x32u8] + varint(rest.len()) + rest
}

/// A variable byte integer encodes its number, in as many bytes as its length says.
pub proof fn varint_encodes(value: nat)
    ensures
        varint_value(varint(value)) == value,
        varint(value).len() == crate::wire::varint_len(value),
    decreases value,
{
    if value >= 128 {
        varint_encodes(value / 128);
        assert(varint(value).drop_first() =~= varint(value / 128));
    }
}

/// The size of a chunk publish is the number of its bytes.
pub proof fn packet_len_counts_bytes(
    topic: Seq<u8>,
    packet_id: u16,
    resource_id: Seq<u8>,
    offset: Seq<u8>,
    payload: Seq<u8>,
)
    ensures
        chunk_publish(topic, packet_id, resource_id, offset, payload).len()
            == crate::wire::chunk_packet_len(
            topic.len(),
            resource_id.len(),
            offset.len(),
            payload.len(),
        ),
        offset.len() == 10 ==> chunk_publish(topic, packet_id, resource_id, offset, payload).len()
            == crate::wire::rx_bytes(topic.len(), resource_id.len(), payload.len()),
{
    let block = chunk_property_block(resource_id, offset);
    assert(seq![0x6fu8, 0x66u8, 0x66u8, 0x73u8, 0x65u8, 0x74u8].len() == 6);
    assert(block.len() == 16 + resource_id.len() + offset.len());
    varint_encodes(block.len());
    varint_encodes(chunk_variable_part(topic, packet_id, resource_id, offset, payload).len());
}

/// The bytes of a decimal offset.
pub open spec fn offset_bytes(offset: u32) -> Seq<u8> {
    vstd::utf8::encode_utf8(crate::text::decimal(offset as nat))
}

/// The largest 32-bit offset has ten digits, and no other has more.
proof fn lemma_offset_bytes(offset: u32)
    ensures
        offset_bytes(offset).len() == crate::text::decimal(offset as nat).len() <= 10,
        offset_bytes(u32::MAX).len() == 10,
{
    crate::text::lemma_decimal_utf8(offset as nat);
    crate::text::lemma_decimal_digits(offset as nat);
    crate::text::lemma_decimal_utf8(u32::MAX as nat);
    reveal_with_fuel(crate::text::decimal, 10);
    assert(crate::text::decimal(u32::MAX as nat).len() == 10);
}

/// The receive budget is the size of the largest chunk publish: no chunk publish of the transfer is
/// larger, whatever its offset, and the one with the largest offset and a full payload has exactly
/// that size.
pub proof fn budget_is_largest_publish(
    topic: Seq<u8>,
    packet_id: u16,
    resource_id: Seq<u8>,
    offset: u32,
    payload: Seq<u8>,
    payload_size: nat,
)
    requires
        payload.len() <= payload_size,
    ensures
        chunk_publish(topic, packet_id, resource_id, offset_bytes(offset), payload).len()
            <= crate::wire::rx_bytes(topic.len(), resource_id.len(), payload_size),
        payload.len() == payload_size ==> chunk_publish(
            topic,
            packet_id,
            resource_id,
            offset_bytes(u32::MAX),
            payload,
        ).len() == crate::wire::rx_bytes(topic.len(), resource_id.len(), payload_size),
{
    lemma_offset_bytes(offset);
    packet_len_counts_bytes(topic, packet_id, resource_id, offset_bytes(offset), payload);
    packet_len_counts_bytes(topic, packet_id, resource_id, offset_bytes(u32::MAX), payload);
    crate::wire::chunk_packet_within_budget(
        topic.len(),
        resource_id.len(),
        offset,
        payload.len(),
        resource_id.len(),
        payload_size,
    );
}

/// Whether every chunk publish that a transfer can ask for fits the receive limit.
pub open spec fn every_chunk_fits(service: ServiceView, resource_id: Seq<u8>) -> bool {
    forall|packet_id: u16, offset: u32, payload: Seq<u8>|
        payload.len() <= service.max_chunk_size ==> #[trigger] chunk_publish(
            vstd::utf8::encode_utf8(service.prefix + "/chunk"@),
            packet_id,
            resource_id,
            offset_bytes(offset),
            payload,
        ).len() <= service.max_rx_packet_size
}

/// The budget of a service is within the receive limit exactly if every chunk publish fits it.
pub proof fn budget_covers_every_chunk(service: ServiceView, resource_id: Seq<u8>)
    ensures
        service.chunk_budget(resource_id) <= service.max_rx_packet_size <==> every_chunk_fits(
            service,
            resource_id,
        ),
{
    let topic = vstd::utf8::encode_utf8(service.prefix + "/chunk"@);
    let size = service.max_chunk_size as nat;
    assert forall|packet_id: u16, offset: u32, payload: Seq<u8>|
        payload.len() <= size implies #[trigger] chunk_publish(
        topic,
        packet_id,
        resource_id,
        offset_bytes(offset),
        payload,
    ).len() <= service.chunk_budget(resource_id) by {
        budget_is_largest_publish(topic, packet_id, resource_id, offset, payload, size);
    }
    let full = Seq::new(size, |i: int| 0u8);
    budget_is_largest_publish(topic, 0, resource_id, u32::MAX, full, size);
    assert(chunk_publish(topic, 0, resource_id, offset_bytes(u32::MAX), full).len()
        == service.chunk_budget(resource_id));
}

/// An idle service accepts a manifest exactly if the image is not empty, lies within the capacity,
/// and every chunk publish of the transfer fits the receive limit. Where only that limit stands
/// against it, it is refused with `Mtu`.
pub proof fn acceptance_by_packets(service: ServiceView, manifest: ManifestView)
    requires
        service.state is Idle,
    ensures
        service.trigger_outcome(Some(manifest)) is Accepted <==> {
            &&& 0 < manifest.size <= service.capacity
            &&& every_chunk_fits(service, manifest.resource_id)
        },
        0 < manifest.size <= service.capacity && !every_chunk_fits(service, manifest.resource_id)
            ==> service.trigger_outcome(Some(manifest)) == TriggerOutcome::Answered(
            crate::types::StatusCode::Mtu,
        ),
{
    budget_covers_every_chunk(service, manifest.resource_id);
}

} // verus!
