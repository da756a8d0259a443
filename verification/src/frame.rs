//! The wire layout of a Heart Rate Measurement frame, as mathematics.
//!
//! A frame is a flags byte followed by a body. The body holds, in this
//! order: the heart rate value (one byte, or two in little-endian order),
//! the energy expended (two bytes, little-endian, optional) and the
//! RR-interval samples (two bytes each, little-endian, up to the end of the
//! frame).

use vstd::prelude::*;
use crate::error::{Field, ParseError};
use crate::flags::{
    contact_of, has_bit, ENERGY_EXPENDED_PRESENT, HR_FORMAT_U16, RR_INTERVAL_PRESENT,
    SENSOR_CONTACT, SENSOR_CONTACT_PRESENT,
};

verus! {

/// What a frame says, independent of how wide its fields were on the wire.
pub struct HeartRateRecord {
    /// The heart rate value took two bytes in the frame.
    pub wide: bool,
    /// Beats per minute as sent.
    pub hr_measurement: nat,
    /// Skin contact; `None` when the sensor cannot detect it.
    pub contact: Option<bool>,
    /// Kilojoules, when the frame carries them.
    pub energy_expended: Option<u16>,
    /// RR intervals in units of 1/1024 s, oldest first.
    pub rr_intervals: Seq<u16>,
}

impl HeartRateRecord {
    /// The heart rate fits the width it is said to have been sent in.
    pub open spec fn well_formed(self) -> bool {
        if self.wide {
            self.hr_measurement <= u16::MAX
        } else {
            self.hr_measurement <= u8::MAX
        }
    }
}

/// The 16-bit value whose little-endian encoding is `lo`, `hi`.
pub open spec fn le16(lo: u8, hi: u8) -> u16 {
    (lo as int + 256 * (hi as int)) as u16
}

/// The RR samples held by `bytes`: one from each consecutive pair of bytes,
/// pairs never sharing a byte.
pub open spec fn rr_samples(bytes: Seq<u8>) -> Seq<u16> {
    Seq::new((bytes.len() / 2) as nat, |i: int| le16(bytes[2 * i], bytes[2 * i + 1]))
}

/// How many bytes of the body the heart rate value takes.
pub open spec fn hr_width(flags: u8) -> nat {
    if has_bit(flags, HR_FORMAT_U16) {
        2
    } else {
        1
    }
}

/// How many bytes of the body the energy expended field takes.
pub open spec fn energy_width(flags: u8) -> nat {
    if has_bit(flags, ENERGY_EXPENDED_PRESENT) {
        2
    } else {
        0
    }
}

/// Where in the body the RR samples start.
pub open spec fn rr_offset(flags: u8) -> nat {
    hr_width(flags) + energy_width(flags)
}

/// The heart rate value at the start of `body`.
pub open spec fn hr_value(flags: u8, body: Seq<u8>) -> nat
    recommends
        body.len() >= hr_width(flags),
{
    if has_bit(flags, HR_FORMAT_U16) {
        le16(body[0], body[1]) as nat
    } else {
        body[0] as nat
    }
}

/// The energy expended field of `body`, if the flags announce one.
pub open spec fn energy_value(flags: u8, body: Seq<u8>) -> Option<u16>
    recommends
        body.len() >= rr_offset(flags),
{
    if has_bit(flags, ENERGY_EXPENDED_PRESENT) {
        let at = hr_width(flags) as int;
        Some(le16(body[at], body[at + 1]))
    } else {
        None
    }
}

/// The RR samples of `body`: none unless the flags announce them, in
/// which case bytes after the last sample are simply not part of the frame's
/// meaning.
pub open spec fn rr_value(flags: u8, body: Seq<u8>) -> Seq<u16>
    recommends
        body.len() >= rr_offset(flags),
{
    if has_bit(flags, RR_INTERVAL_PRESENT) {
        rr_samples(body.subrange(rr_offset(flags) as int, body.len() as int))
    } else {
        Seq::empty()
    }
}

/// What the bytes after the flags byte decode to.
///
/// The first field that does not fit names the error. An odd number of
/// bytes where RR samples are expected leaves the last sample incomplete.
pub open spec fn decode_body(flags: u8, body: Seq<u8>) -> Result<HeartRateRecord, ParseError> {
    if body.len() < hr_width(flags) {
        Err(ParseError::TruncatedField(Field::HrMeasurement))
    } else if body.len() < rr_offset(flags) {
        Err(ParseError::TruncatedField(Field::EnergyExpended))
    } else if has_bit(flags, RR_INTERVAL_PRESENT) && (body.len() - rr_offset(flags)) % 2 != 0 {
        Err(ParseError::TruncatedField(Field::RrInterval))
    } else {
        Ok(
            HeartRateRecord {
                wide: has_bit(flags, HR_FORMAT_U16),
                hr_measurement: hr_value(flags, body),
                contact: contact_of(flags),
                energy_expended: energy_value(flags, body),
                rr_intervals: rr_value(flags, body),
            },
        )
    }
}

/// What a whole frame decodes to.
pub open spec fn decode_frame(bytes: Seq<u8>) -> Result<HeartRateRecord, ParseError> {
    if bytes.len() == 0 {
        Err(ParseError::MissingFlagsByte)
    } else {
        decode_body(bytes[0], bytes.subrange(1, bytes.len() as int))
    }
}

/// A frame is long enough for every field that its flags byte announces,
/// and its RR samples, if any, are all complete.
pub open spec fn well_sized(bytes: Seq<u8>) -> bool {
    &&& bytes.len() >= 1
    &&& bytes.len() - 1 >= rr_offset(bytes[0])
    &&& has_bit(bytes[0], RR_INTERVAL_PRESENT) ==> (bytes.len() - 1 - rr_offset(bytes[0])) % 2 == 0
}

/// The two bytes of `x`, low byte first.
pub open spec fn le_bytes(x: u16) -> Seq<u8> {
    seq![(x % 256) as u8, (x / 256) as u8]
}

/// The heart rate value of `r` as it goes on the wire.
pub open spec fn hr_bytes(r: HeartRateRecord) -> Seq<u8> {
    if r.wide {
        le_bytes(r.hr_measurement as u16)
    } else {
        seq![r.hr_measurement as u8]
    }
}

/// The energy expended field of `r` as it goes on the wire.
pub open spec fn energy_bytes(r: HeartRateRecord) -> Seq<u8> {
    match r.energy_expended {
        Some(energy) => le_bytes(energy),
        None => Seq::empty(),
    }
}

/// RR samples as they go on the wire: two bytes each, low byte first.
pub open spec fn rr_bytes(samples: Seq<u16>) -> Seq<u8> {
    Seq::new(
        2 * samples.len(),
        |i: int|
            if i % 2 == 0 {
                (samples[i / 2] % 256) as u8
            } else {
                (samples[i / 2] / 256) as u8
            },
    )
}

/// The flags byte announces exactly the fields that `r` has. Where `r` has
/// no RR samples the flags may or may not announce them, and the reserved
/// bits are free; without contact detection the status bit is free as well.
pub open spec fn announces(flags: u8, r: HeartRateRecord) -> bool {
    &&& has_bit(flags, HR_FORMAT_U16) == r.wide
    &&& contact_of(flags) == r.contact
    &&& has_bit(flags, ENERGY_EXPENDED_PRESENT) == (r.energy_expended is Some)
    &&& r.rr_intervals.len() > 0 ==> has_bit(flags, RR_INTERVAL_PRESENT)
}

/// The frame that carries `r` under the flags byte `flags`.
pub open spec fn encode_frame(flags: u8, r: HeartRateRecord) -> Seq<u8> {
    seq![flags] + hr_bytes(r) + energy_bytes(r) + rr_bytes(r.rr_intervals)
}

/// The flags byte that announces the fields of `r` and sets no other bit.
pub open spec fn flags_for(r: HeartRateRecord) -> u8 {
    (if r.wide { HR_FORMAT_U16 } else { 0u8 })
    | (if r.contact == Some(true) { SENSOR_CONTACT } else { 0u8 })
    | (if r.contact is Some { SENSOR_CONTACT_PRESENT } else { 0u8 })
    | (if r.energy_expended is Some { ENERGY_EXPENDED_PRESENT } else { 0u8 })
    | (if r.rr_intervals.len() > 0 { RR_INTERVAL_PRESENT } else { 0u8 })
}

} // verus!
