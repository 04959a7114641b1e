//! Decoding of indoor-bike-data notifications.
//!
//! Only two fields of the payload are read, at fixed offsets: the speed at
//! bytes 2 and 3 and the power at bytes 4 and 5, both unsigned 16-bit,
//! little-endian. The flags at bytes 0 and 1 are not interpreted, so the
//! decoder is right only for devices that send speed and power first.

use vstd::prelude::*;
use crate::error::Error;

verus! {

/// Least number of bytes a payload must have.
pub const MIN_PAYLOAD_LEN: usize = 6;

/// One decoded notification.
#[derive(Clone, Copy, Debug, PartialEq, Eq, Structural)]
pub enum TrainerUpdate {
    /// Speed in hundredths of km/h, power in watts.
    Power { speed: u16, power: u16 },
}

/// The number that two bytes spell, least significant byte first.
pub open spec fn le_u16(lo: u8, hi: u8) -> int {
    lo as int + 256 * (hi as int)
}

/// What a payload decodes to: nothing if it is shorter than six bytes.
pub open spec fn decoded(bytes: Seq<u8>) -> Option<TrainerUpdate> {
    if bytes.len() < 6 {
        None
    } else {
        Some(
            TrainerUpdate::Power {
                speed: le_u16(bytes[2], bytes[3]) as u16,
                power: le_u16(bytes[4], bytes[5]) as u16,
            },
        )
    }
}

/// What decoding a payload returns: the update, or `MalformedPayload`.
pub open spec fn decoding(bytes: Seq<u8>) -> Result<TrainerUpdate, Error> {
    match decoded(bytes) {
        Some(update) => Ok(update),
        None => Err(Error::MalformedPayload),
    }
}

/// Reads two bytes as an unsigned 16-bit number, least significant first.
pub fn u16_from_le(lo: u8, hi: u8) -> (v: u16)
    ensures
        v as int == le_u16(lo, hi),
{
    let low: u16 = lo as u16;
    let high: u16 = hi as u16;
    high * 256 + low
}

/// Decodes one notification payload.
///
/// The result depends on the bytes alone. It is `MalformedPayload` exactly
/// when the payload has fewer than six bytes; no byte beyond the payload
/// is read.
pub fn decode(bytes: &[u8]) -> (r: Result<TrainerUpdate, Error>)
    ensures
        r == decoding(bytes@),
        r is Err <==> bytes@.len() < 6,
{
    if bytes.len() < MIN_PAYLOAD_LEN {
        return Err(Error::MalformedPayload);
    }
    let speed = u16_from_le(bytes[2], bytes[3]);
    let power = u16_from_le(bytes[4], bytes[5]);
    Ok(TrainerUpdate::Power { speed, power })
}

/// Two bytes spell a number that fits 16 bits, and different pairs of
/// bytes spell different numbers.
pub proof fn le_u16_is_exact(lo: u8, hi: u8, other_lo: u8, other_hi: u8)
    ensures
        0 <= le_u16(lo, hi) <= u16::MAX,
        le_u16(lo, hi) == le_u16(other_lo, other_hi) <==> lo == other_lo && hi == other_hi,
{
}

/// A payload of six bytes or more always decodes, and to the speed and
/// power that its bytes 2 to 5 spell.
pub proof fn long_payload_decodes(bytes: Seq<u8>)
    requires
        bytes.len() >= 6,
    ensures
        decoding(bytes) == Ok::<TrainerUpdate, Error>(
            TrainerUpdate::Power {
                speed: le_u16(bytes[2], bytes[3]) as u16,
                power: le_u16(bytes[4], bytes[5]) as u16,
            },
        ),
        (le_u16(bytes[2], bytes[3]) as u16) as int == le_u16(bytes[2], bytes[3]),
        (le_u16(bytes[4], bytes[5]) as u16) as int == le_u16(bytes[4], bytes[5]),
{
}

/// A payload shorter than six bytes never decodes.
pub proof fn short_payload_is_malformed(bytes: Seq<u8>)
    requires
        bytes.len() < 6,
    ensures
        decoding(bytes) == Err::<TrainerUpdate, Error>(Error::MalformedPayload),
{
}

/// Decoding looks at nothing but bytes 2 to 5: payloads that agree there
/// decode alike, whatever their flags and whatever follows the power.
pub proof fn decoding_reads_speed_and_power_only(a: Seq<u8>, b: Seq<u8>)
    requires
        a.len() >= 6,
        b.len() >= 6,
        a.subrange(2, 6) == b.subrange(2, 6),
    ensures
        decoding(a) == decoding(b),
{
    assert forall|i: int| 2 <= i < 6 implies a[i] == b[i] by {
        assert(a.subrange(2, 6)[i - 2] == a[i]);
        assert(b.subrange(2, 6)[i - 2] == b[i]);
    }
}

} // verus!
