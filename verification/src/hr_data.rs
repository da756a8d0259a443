//! Decoded Heart Rate Measurement frames.

use vstd::prelude::*;
use vstd::slice::slice_subrange;
use crate::error::{Field, ParseError};
use crate::flags::{
    has_bit, HRDataFlags, ENERGY_EXPENDED_PRESENT, HR_FORMAT_U16, RR_INTERVAL_PRESENT,
    SENSOR_CONTACT, SENSOR_CONTACT_PRESENT,
};
use crate::frame::{
    decode_body, decode_frame, encode_frame, energy_bytes, flags_for, hr_bytes, le16, le_bytes,
    rr_bytes, rr_samples, HeartRateRecord,
};
use crate::laws::{lemma_decode_encode, lemma_flags_for_announces};
use crate::pairs::{byte_pairs, pairs_of};

verus! {

/// The integer types a heart rate value can be sent as.
pub trait HRDataSize {

}

impl HRDataSize for u8 {

}

impl HRDataSize for u16 {

}

/// One decoded frame whose heart rate value has type `T`.
///
/// RR intervals are kept as the sensor counts them, in units of 1/1024 s.
#[derive(Debug, Clone, PartialEq, Eq)]
pub struct HRData<T: HRDataSize> {
    pub contact: Option<bool>,
    pub hr_measurement: T,
    pub energy_expended: Option<u16>,
    pub rr_intervals: Vec<u16>,
}

/// A decoded frame of either width.
#[derive(Debug, Clone, PartialEq, Eq)]
pub enum HRData2 {
    Single(HRData<u8>),
    Double(HRData<u16>),
}

impl View for HRData<u8> {
    type V = HeartRateRecord;

    open spec fn view(&self) -> HeartRateRecord {
        HeartRateRecord {
            wide: false,
            hr_measurement: self.hr_measurement as nat,
            contact: self.contact,
            energy_expended: self.energy_expended,
            rr_intervals: self.rr_intervals@,
        }
    }
}

impl View for HRData<u16> {
    type V = HeartRateRecord;

    open spec fn view(&self) -> HeartRateRecord {
        HeartRateRecord {
            wide: true,
            hr_measurement: self.hr_measurement as nat,
            contact: self.contact,
            energy_expended: self.energy_expended,
            rr_intervals: self.rr_intervals@,
        }
    }
}

impl View for HRData2 {
    type V = HeartRateRecord;

    open spec fn view(&self) -> HeartRateRecord {
        match *self {
            HRData2::Single(data) => data@,
            HRData2::Double(data) => data@,
        }
    }
}

/// A decoding result with the decoded value replaced by what it stands for.
pub open spec fn outcome<T: View>(r: Result<T, ParseError>) -> Result<T::V, ParseError> {
    match r {
        Ok(data) => Ok(data@),
        Err(e) => Err(e),
    }
}

/// Puts two bytes in little-endian order together.
pub fn u16_from_le(lo: u8, hi: u8) -> (x: u16)
    ensures
        x == le16(lo, hi),
{
    let low: u16 = lo as u16;
    let high: u16 = hi as u16;
    low + high * 256
}

/// Appends the two bytes of `x` to `out`, low byte first.
pub fn push_u16_le(out: &mut Vec<u8>, x: u16)
    ensures
        final(out)@ == old(out)@ + le_bytes(x),
{
    out.push((x % 256) as u8);
    out.push((x / 256) as u8);
    assert(out@ =~= old(out)@ + le_bytes(x));
}

/// Reads the byte at `pos` as the field `field`.
pub fn read_u8(v: &[u8], pos: usize, field: Field) -> (r: Result<u8, ParseError>)
    ensures
        r == if pos < v@.len() {
            Ok::<u8, ParseError>(v@[pos as int])
        } else {
            Err::<u8, ParseError>(ParseError::TruncatedField(field))
        },
{
    if pos < v.len() {
        Ok(v[pos])
    } else {
        Err(ParseError::TruncatedField(field))
    }
}

/// Reads the two bytes at `pos`, in little-endian order, as the field
/// `field`.
pub fn read_u16_le(v: &[u8], pos: usize, field: Field) -> (r: Result<u16, ParseError>)
    ensures
        r == if pos + 2 <= v@.len() {
            Ok::<u16, ParseError>(le16(v@[pos as int], v@[pos + 1]))
        } else {
            Err::<u16, ParseError>(ParseError::TruncatedField(field))
        },
{
    if v.len() >= 2 && pos <= v.len() - 2 {
        Ok(u16_from_le(v[pos], v[pos + 1]))
    } else {
        Err(ParseError::TruncatedField(field))
    }
}

/// Reads everything from `pos` to the end of `v` as RR samples.
///
/// Each sample takes the next two bytes; no byte is read twice. A byte
/// left over at the end is an incomplete sample.
pub fn read_rr_intervals(v: &[u8], pos: usize) -> (r: Result<Vec<u16>, ParseError>)
    requires
        pos <= v@.len(),
    ensures
        r is Ok <==> (v@.len() - pos) % 2 == 0,
        r is Ok ==> r->Ok_0@ == rr_samples(v@.subrange(pos as int, v@.len() as int)),
        r is Err ==> r == Err::<Vec<u16>, ParseError>(
            ParseError::TruncatedField(Field::RrInterval),
        ),
{
    let rest = slice_subrange(v, pos, v.len());
    if rest.len() % 2 != 0 {
        return Err(ParseError::TruncatedField(Field::RrInterval));
    }
    let pairs = byte_pairs(rest);
    let mut samples: Vec<u16> = Vec::new();
    let mut i: usize = 0;
    while i < pairs.len()
        invariant
            i <= pairs@.len(),
            pairs@ == pairs_of(rest@),
            samples@.len() == i,
            forall|k: int| 0 <= k < i ==> samples@[k] == le16(rest@[2 * k], rest@[2 * k + 1]),
        decreases pairs@.len() - i,
    {
        let (lo, hi) = pairs[i];
        samples.push(u16_from_le(lo, hi));
        i += 1;
    }
    assert(samples@ =~= rr_samples(rest@));
    Ok(samples)
}

impl HRData<u8> {
    /// Decodes the body of a frame whose flags say that the heart rate
    /// value is one byte wide.
    pub fn new(flags: HRDataFlags, v: &[u8]) -> (r: Result<Self, ParseError>)
        requires
            !has_bit(flags.0, HR_FORMAT_U16),
        ensures
            outcome(r) == decode_body(flags.0, v@),
    {
        let hr_measurement = match read_u8(v, 0, Field::HrMeasurement) {
            Ok(hr) => hr,
            Err(e) => {
                return Err(e);
            },
        };
        let mut pos: usize = 1;

        let contact = flags.contact();

        let energy_expended = if flags.energy_expended_present() {
            match read_u16_le(v, pos, Field::EnergyExpended) {
                Ok(energy) => {
                    pos += 2;
                    Some(energy)
                },
                Err(e) => {
                    return Err(e);
                },
            }
        } else {
            None
        };

        let rr_intervals = if flags.rr_interval_present() {
            match read_rr_intervals(v, pos) {
                Ok(samples) => samples,
                Err(e) => {
                    return Err(e);
                },
            }
        } else {
            Vec::new()
        };

        Ok(Self { contact, hr_measurement, energy_expended, rr_intervals })
    }
}

impl HRData<u16> {
    /// Decodes the body of a frame whose flags say that the heart rate
    /// value is two bytes wide.
    pub fn new(flags: HRDataFlags, v: &[u8]) -> (r: Result<Self, ParseError>)
        requires
            has_bit(flags.0, HR_FORMAT_U16),
        ensures
            outcome(r) == decode_body(flags.0, v@),
    {
        let hr_measurement = match read_u16_le(v, 0, Field::HrMeasurement) {
            Ok(hr) => hr,
            Err(e) => {
                return Err(e);
            },
        };
        let mut pos: usize = 2;

        let contact = flags.contact();

        let energy_expended = if flags.energy_expended_present() {
            match read_u16_le(v, pos, Field::EnergyExpended) {
                Ok(energy) => {
                    pos += 2;
                    Some(energy)
                },
                Err(e) => {
                    return Err(e);
                },
            }
        } else {
            None
        };

        let rr_intervals = if flags.rr_interval_present() {
            match read_rr_intervals(v, pos) {
                Ok(samples) => samples,
                Err(e) => {
                    return Err(e);
                },
            }
        } else {
            Vec::new()
        };

        Ok(Self { contact, hr_measurement, energy_expended, rr_intervals })
    }
}

impl HRData2 {
    /// The heart rate in beats per minute, whichever width it was sent in.
    pub fn hr_measurement(&self) -> (hr: u16)
        ensures
            hr == self@.hr_measurement,
    {
        match self {
            HRData2::Single(data) => data.hr_measurement as u16,
            HRData2::Double(data) => data.hr_measurement,
        }
    }

    /// Skin contact; `None` when the sensor cannot detect it.
    pub fn contact(&self) -> (c: Option<bool>)
        ensures
            c == self@.contact,
    {
        match self {
            HRData2::Single(data) => data.contact,
            HRData2::Double(data) => data.contact,
        }
    }

    /// Energy expended in kilojoules, where the frame carried it.
    pub fn energy_expended(&self) -> (e: Option<u16>)
        ensures
            e == self@.energy_expended,
    {
        match self {
            HRData2::Single(data) => data.energy_expended,
            HRData2::Double(data) => data.energy_expended,
        }
    }

    /// The RR intervals in units of 1/1024 s, oldest first.
    pub fn rr_intervals(&self) -> (rr: &Vec<u16>)
        ensures
            rr@ == self@.rr_intervals,
    {
        match self {
            HRData2::Single(data) => &data.rr_intervals,
            HRData2::Double(data) => &data.rr_intervals,
        }
    }

    /// Whether the sensor says that it is off the skin. A sensor that
    /// cannot tell is not taken to be off.
    pub fn contact_lost(&self) -> (lost: bool)
        ensures
            lost == (self@.contact == Some(false)),
    {
        match self.contact() {
            Some(touching) => !touching,
            None => false,
        }
    }

    /// The most recent RR interval of the frame, in units of 1/1024 s.
    pub fn latest_rr_interval(&self) -> (last: Option<u16>)
        ensures
            last == if self@.rr_intervals.len() == 0 {
                None::<u16>
            } else {
                Some(self@.rr_intervals.last())
            },
    {
        let rr = self.rr_intervals();
        if rr.len() == 0 {
            None
        } else {
            Some(rr[rr.len() - 1])
        }
    }

    /// The flags byte that announces the fields of this frame and sets no
    /// other bit.
    pub fn flags(&self) -> (flags: HRDataFlags)
        ensures
            flags.0 == flags_for(self@),
    {
        let wide: u8 = match self {
            HRData2::Single(_) => 0,
            HRData2::Double(_) => HR_FORMAT_U16,
        };
        let contact = self.contact();
        let status: u8 = match contact {
            Some(true) => SENSOR_CONTACT,
            _ => 0,
        };
        let detects: u8 = if contact.is_some() {
            SENSOR_CONTACT_PRESENT
        } else {
            0
        };
        let energy: u8 = if self.energy_expended().is_some() {
            ENERGY_EXPENDED_PRESENT
        } else {
            0
        };
        let rr: u8 = if self.rr_intervals().len() > 0 {
            RR_INTERVAL_PRESENT
        } else {
            0
        };
        HRDataFlags(wide | status | detects | energy | rr)
    }

    /// Writes the frame out as it would travel: the inverse of decoding.
    pub fn to_bytes(&self) -> (bytes: Vec<u8>)
        ensures
            bytes@ == encode_frame(flags_for(self@), self@),
            decode_frame(bytes@) == Ok::<HeartRateRecord, ParseError>(self@),
    {
        let mut bytes: Vec<u8> = Vec::new();
        bytes.push(self.flags().0);
        match self {
            HRData2::Single(data) => {
                bytes.push(data.hr_measurement);
            },
            HRData2::Double(data) => {
                push_u16_le(&mut bytes, data.hr_measurement);
            },
        }
        match self.energy_expended() {
            Some(energy) => {
                push_u16_le(&mut bytes, energy);
            },
            None => {},
        }
        let ghost head = bytes@;
        assert(head =~= seq![flags_for(self@)] + hr_bytes(self@) + energy_bytes(self@));
        let rr = self.rr_intervals();
        let mut i: usize = 0;
        while i < rr.len()
            invariant
                i <= rr@.len(),
                bytes@ == head + rr_bytes(rr@.take(i as int)),
            decreases rr@.len() - i,
        {
            let ghost before = bytes@;
            push_u16_le(&mut bytes, rr[i]);
            proof {
                let done = rr@.take(i as int);
                let next = rr@.take(i + 1);
                assert(rr_bytes(next) =~= rr_bytes(done) + le_bytes(rr@[i as int])) by {
                    assert forall|k: int| 0 <= k < 2 * i implies rr_bytes(next)[k] == rr_bytes(
                        done,
                    )[k] by {
                        assert(0 <= k / 2 < i);
                    }
                    assert((2 * i) / 2 == i && (2 * i) % 2 == 0);
                    assert((2 * i + 1) / 2 == i && (2 * i + 1) % 2 == 1);
                }
                assert(bytes@ =~= head + rr_bytes(next));
            }
            i += 1;
        }
        proof {
            assert(rr@.take(i as int) =~= rr@);
            lemma_flags_for_announces(self@);
            lemma_decode_encode(flags_for(self@), self@);
        }
        bytes
    }

    /// Decodes a whole frame, flags byte included.
    pub fn decode(bytes: &[u8]) -> (r: Result<Self, ParseError>)
        ensures
            outcome(r) == decode_frame(bytes@),
            bytes@.len() == 0 ==> r == Err::<Self, ParseError>(ParseError::MissingFlagsByte),
    {
        if bytes.len() == 0 {
            return Err(ParseError::MissingFlagsByte);
        }
        let flags = HRDataFlags(bytes[0]);
        let body = slice_subrange(bytes, 1, bytes.len());
        if flags.hrv_format_is_u16() {
            match HRData::<u16>::new(flags, body) {
                Ok(data) => Ok(HRData2::Double(data)),
                Err(e) => Err(e),
            }
        } else {
            match HRData::<u8>::new(flags, body) {
                Ok(data) => Ok(HRData2::Single(data)),
                Err(e) => Err(e),
            }
        }
    }
}

/// Two decoded frames are compared through what they stand for, which the
/// contract of `try_from` itself does; no statement is made here about the
/// identity of the value returned.
impl vstd::std_specs::convert::TryFromSpecImpl<Vec<u8>> for HRData2 {
    open spec fn obeys_try_from_spec() -> bool {
        false
    }

    open spec fn try_from_spec(v: Vec<u8>) -> Result<Self, ParseError> {
        arbitrary()
    }
}

impl TryFrom<Vec<u8>> for HRData2 {
    type Error = ParseError;

    /// Decodes a whole frame that the caller hands over.
    fn try_from(v: Vec<u8>) -> (r: Result<Self, ParseError>)
        ensures
            outcome(r) == decode_frame(v@),
            v@.len() == 0 ==> r == Err::<Self, ParseError>(ParseError::MissingFlagsByte),
    {
        HRData2::decode(v.as_slice())
    }
}

} // verus!
