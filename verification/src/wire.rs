//! Sizes of MQTT packets on the wire.

use vstd::prelude::*;

verus! {

/// Number of bytes of an MQTT variable byte integer: one for every seven bits of `value`, and
/// one for zero.
pub open spec fn varint_len(value: nat) -> nat
    decreases value,
{
    if value < 128 {
        1
    } else {
        1 + varint_len(value / 128)
    }
}

/// Size of the property block of a chunk publish whose correlation data has `resource_len`
/// bytes and whose offset has `digits` digits: a payload format indicator, the correlation data
/// and the `offset` user property.
pub open spec fn chunk_properties_len(resource_len: nat, digits: nat) -> nat {
    2 + (1 + 2 + resource_len) + (1 + 2 + 6 + 2 + digits)
}

/// What follows the fixed header of a QoS 1 chunk publish: topic, packet identifier, properties
/// and payload.
pub open spec fn chunk_remaining_len(
    topic_len: nat,
    resource_len: nat,
    digits: nat,
    payload_len: nat,
) -> nat {
    let properties = chunk_properties_len(resource_len, digits);
    2 + topic_len + 2 + varint_len(properties) + properties + payload_len
}

/// Size of a whole QoS 1 chunk publish.
pub open spec fn chunk_packet_len(
    topic_len: nat,
    resource_len: nat,
    digits: nat,
    payload_len: nat,
) -> nat {
    let remaining = chunk_remaining_len(topic_len, resource_len, digits, payload_len);
    1 + varint_len(remaining) + remaining
}

/// Receive buffer that a chunk publish may need: the packet with the longest offset, which has
/// ten digits.
pub open spec fn rx_bytes(topic_len: nat, resource_len: nat, payload_len: nat) -> nat {
    chunk_packet_len(topic_len, resource_len, 10, payload_len)
}

/// A variable byte integer never outgrows the number it encodes, but for zero.
proof fn lemma_varint_len_small(value: nat)
    ensures
        1 <= varint_len(value) <= 1 + value,
    decreases value,
{
    if value >= 128 {
        lemma_varint_len_small(value / 128);
    }
}

/// Larger numbers take no fewer bytes.
pub proof fn varint_len_monotonic(a: nat, b: nat)
    requires
        a <= b,
    ensures
        varint_len(a) <= varint_len(b),
    decreases b,
{
    lemma_varint_len_small(b);
    if a >= 128 {
        varint_len_monotonic(a / 128, b / 128);
    }
}

/// A number takes at most `n` bytes exactly if it lies below 128 to the power of `n`.
pub proof fn varint_len_is_least(value: nat, n: nat)
    requires
        n >= 1,
    ensures
        varint_len(value) <= n <==> value < vstd::arithmetic::power::pow(128, n),
    decreases value,
{
    lemma_varint_len_small(value);
    vstd::arithmetic::power::lemma_pow0(128);
    vstd::arithmetic::power::lemma_pow1(128);
    let p = vstd::arithmetic::power::pow(128, (n - 1) as nat);
    assert(vstd::arithmetic::power::pow(128, n) == 128 * p) by {
        reveal(vstd::arithmetic::power::pow);
    }
    vstd::arithmetic::power::lemma_pow_positive(128, (n - 1) as nat);
    if value < 128 {
        assert(128 * p >= 128);
    } else {
        lemma_varint_len_small(value / 128);
        if n > 1 {
            varint_len_is_least(value / 128, (n - 1) as nat);
            assert(value < 128 * p <==> value / 128 < p);
        }
    }
}

/// The receive budget of the largest chunk covers every chunk: no smaller payload, shorter
/// resource identifier or shorter offset gives a larger packet.
pub proof fn chunk_packet_within_budget(
    topic_len: nat,
    resource_len: nat,
    offset: u32,
    payload_len: nat,
    max_resource_len: nat,
    max_payload_len: nat,
)
    requires
        resource_len <= max_resource_len,
        payload_len <= max_payload_len,
    ensures
        chunk_packet_len(
            topic_len,
            resource_len,
            crate::text::decimal(offset as nat).len(),
            payload_len,
        ) <= rx_bytes(topic_len, max_resource_len, max_payload_len),
{
    let digits = crate::text::decimal(offset as nat).len();
    crate::text::lemma_decimal_digits(offset as nat);
    varint_len_monotonic(
        chunk_properties_len(resource_len, digits),
        chunk_properties_len(max_resource_len, 10),
    );
    varint_len_monotonic(
        chunk_remaining_len(topic_len, resource_len, digits, payload_len),
        chunk_remaining_len(topic_len, max_resource_len, 10, max_payload_len),
    );
}

/// Number of bytes that an MQTT variable byte integer takes for `value`.
pub fn mqtt_varint_len(value: usize) -> (len: usize)
    ensures
        len == varint_len(value as nat),
{
    let mut rest: usize = value;
    let mut len: usize = 1;
    proof {
        lemma_varint_len_small(value as nat);
    }
    while rest >= 128
        invariant
            1 <= len,
            len + varint_len(rest as nat) == 1 + varint_len(value as nat),
            len + rest <= 1 + value,
        decreases rest,
    {
        proof {
            lemma_varint_len_small(rest as nat / 128);
        }
        rest = rest / 128;
        len = len + 1;
    }
    len
}

/// Receive buffer size that a QoS 1 chunk publish on `topic` may need, with correlation data
/// `resource_id`, any offset, and a payload of `payload_size` bytes; none if it is no machine
/// number.
pub fn checked_rx_bytes(topic: &str, resource_id: &[u8], payload_size: usize) -> (bytes: Option<
    usize,
>)
    ensures
        ({
            let needed = rx_bytes(
                crate::text::utf8_len(topic@),
                resource_id@.len(),
                payload_size as nat,
            );
            match bytes {
                Some(bytes) => bytes == needed,
                None => needed > usize::MAX,
            }
        }),
{
    let properties: usize = resource_id.len().checked_add(
        2  // payload format indicator: identifier and value
         + 1  // correlation data identifier
         + 2  // correlation data length prefix
         + 1  // user property identifier
         + 2  // key length prefix
         + 6  // `offset`
         + 2  // value length prefix
         + 10,  // decimal digits of the largest 32-bit offset
    )?;
    let remaining: usize = properties.checked_add(
        mqtt_varint_len(properties),
    )?.checked_add(payload_size)?.checked_add(topic.as_bytes().len())?.checked_add(
        2  // topic length prefix
         + 2,  // QoS 1 packet identifier
    )?;
    remaining.checked_add(mqtt_varint_len(remaining))?.checked_add(1)
}

/// Receive buffer size that a QoS 1 chunk publish on `topic` may need, with correlation data
/// `resource_id`, any offset, and a payload of `payload_size` bytes.
pub fn required_rx_bytes(topic: &str, resource_id: &[u8], payload_size: usize) -> (bytes: usize)
    requires
        rx_bytes(crate::text::utf8_len(topic@), resource_id@.len(), payload_size as nat) <= usize::MAX,
    ensures
        bytes == rx_bytes(crate::text::utf8_len(topic@), resource_id@.len(), payload_size as nat),
{
    checked_rx_bytes(topic, resource_id, payload_size).unwrap()
}

} // verus!
