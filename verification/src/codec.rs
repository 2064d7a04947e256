//! Fixed-offset packet codec of the throttle protocol.
//!
//! Both directions use a fixed 36-byte interrupt packet. An outbound
//! command carries a two-byte header (1, 6) and the LED byte and intensity
//! byte at offsets 2 and 3; an inbound status report carries the LED byte
//! and intensity byte at offsets 26 and 27. The asymmetry between the two
//! layouts is the device's own and is preserved exactly.

use vstd::prelude::*;

use crate::warthog::ThrottleLEDState;

verus! {

/// Exact length, in bytes, of every interrupt packet of this device, in
/// both directions.
pub const WARTHOG_PACKET_DATA_LENGTH: usize = 36;

/// The outbound command packet for a LED byte and an intensity byte:
/// header bytes 1 and 6, the payload at offsets 2 and 3, zeroes elsewhere.
pub open spec fn encoded_command(led_bits: u8, intensity: u8) -> Seq<u8> {
    Seq::new(
        WARTHOG_PACKET_DATA_LENGTH as nat,
        |i: int|
            if i == 0 {
                1u8
            } else if i == 1 {
                6u8
            } else if i == 2 {
                led_bits
            } else if i == 3 {
                intensity
            } else {
                0u8
            },
    )
}

/// The LED byte of an inbound status report: offset 26, or zero when the
/// buffer is too short to hold it.
pub open spec fn decoded_led_byte(packet: Seq<u8>) -> u8 {
    if packet.len() > 26 {
        packet[26]
    } else {
        0
    }
}

/// The intensity byte of an inbound status report: offset 27, or zero when
/// the buffer is too short to hold it.
pub open spec fn decoded_intensity_byte(packet: Seq<u8>) -> u8 {
    if packet.len() > 27 {
        packet[27]
    } else {
        0
    }
}

/// Builds the outbound command packet for the given LED set and intensity.
/// Out-of-range intensity values are transmitted as-is: the codec never
/// clamps.
pub fn encode_command(leds: ThrottleLEDState, intensity: u8) -> (r: Vec<u8>)
    ensures
        r@ == encoded_command(leds.bits, intensity),
{
    let mut buf: Vec<u8> = Vec::new();
    buf.push(1);
    buf.push(6);
    buf.push(leds.raw());
    buf.push(intensity);
    while buf.len() < WARTHOG_PACKET_DATA_LENGTH
        invariant
            4 <= buf@.len() <= WARTHOG_PACKET_DATA_LENGTH,
            forall|i: int| 0 <= i < buf@.len() ==> buf@[i] == encoded_command(leds.bits, intensity)[i],
        decreases WARTHOG_PACKET_DATA_LENGTH - buf@.len(),
    {
        buf.push(0);
    }
    proof {
        assert(buf@ =~= encoded_command(leds.bits, intensity));
    }
    buf
}

/// Reads the LED set and the intensity out of an inbound status report.
/// Only offsets 26 and 27 are read; a buffer too short for either offset
/// yields zero for the missing byte rather than an error. Values are
/// decoded exactly as received, with no clamping.
pub fn decode_status(packet: &Vec<u8>) -> (r: (ThrottleLEDState, u8))
    ensures
        r.0.bits == decoded_led_byte(packet@),
        r.1 == decoded_intensity_byte(packet@),
{
    let led_bits: u8 = if packet.len() > 26 {
        packet[26]
    } else {
        0
    };
    let intensity: u8 = if packet.len() > 27 {
        packet[27]
    } else {
        0
    };
    (ThrottleLEDState { bits: led_bits }, intensity)
}

/// Law: a command packet is always exactly 36 bytes, opens with the header
/// bytes 1 and 6 whatever the payload, and is zero everywhere past the
/// payload bytes.
pub proof fn lemma_command_shape(led_bits: u8, intensity: u8)
    ensures
        encoded_command(led_bits, intensity).len() == WARTHOG_PACKET_DATA_LENGTH,
        encoded_command(led_bits, intensity)[0] == 1u8,
        encoded_command(led_bits, intensity)[1] == 6u8,
        encoded_command(led_bits, intensity)[2] == led_bits,
        encoded_command(led_bits, intensity)[3] == intensity,
        forall|i: int|
            4 <= i < WARTHOG_PACKET_DATA_LENGTH ==> encoded_command(led_bits, intensity)[i] == 0u8,
{
}

/// Law: decoding reads exactly offsets 26 and 27. Two reports of the same
/// length that agree on those offsets decode to the same result, however
/// the other bytes differ.
pub proof fn lemma_decode_reads_only_status_bytes(p: Seq<u8>, q: Seq<u8>)
    requires
        p.len() == q.len(),
        p.len() > 26 ==> p[26] == q[26],
        p.len() > 27 ==> p[27] == q[27],
    ensures
        decoded_led_byte(p) == decoded_led_byte(q),
        decoded_intensity_byte(p) == decoded_intensity_byte(q),
{
}

} // verus!
