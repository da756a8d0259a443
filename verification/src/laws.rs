//! What holds of decoding for every frame.

use vstd::prelude::*;
use crate::error::{Field, ParseError};
use crate::flags::{contact_of, has_bit, RR_INTERVAL_PRESENT, SENSOR_CONTACT_PRESENT};
use crate::frame::{
    announces, decode_frame, encode_frame, energy_bytes, flags_for, hr_bytes, rr_bytes,
    rr_offset, rr_samples, well_sized, HeartRateRecord,
};

verus! {

/// Decoding succeeds exactly on the frames that are long enough for what
/// their flags byte announces, whatever that byte is, and what comes out
/// fits the width it was sent in.
pub proof fn lemma_decodes_iff_well_sized(bytes: Seq<u8>)
    ensures
        decode_frame(bytes) is Ok <==> well_sized(bytes),
        decode_frame(bytes) is Ok ==> decode_frame(bytes)->Ok_0.well_formed(),
{
}

/// RR samples written out and read back are the same samples.
pub proof fn lemma_rr_samples_of_rr_bytes(samples: Seq<u16>)
    ensures
        rr_bytes(samples).len() == 2 * samples.len(),
        rr_samples(rr_bytes(samples)) == samples,
{
    let bytes = rr_bytes(samples);
    assert(rr_samples(bytes).len() == samples.len());
    assert forall|i: int| 0 <= i < samples.len() implies rr_samples(bytes)[i] == samples[i] by {
        assert((2 * i) % 2 == 0);
        assert((2 * i) / 2 == i);
        assert((2 * i + 1) % 2 == 1);
        assert((2 * i + 1) / 2 == i);
    }
    assert(rr_samples(bytes) =~= samples);
}

/// Round trip: a record put on the wire under any flags byte that
/// announces its fields decodes to that same record.
pub proof fn lemma_decode_encode(flags: u8, r: HeartRateRecord)
    requires
        r.well_formed(),
        announces(flags, r),
    ensures
        well_sized(encode_frame(flags, r)),
        decode_frame(encode_frame(flags, r)) == Ok::<HeartRateRecord, ParseError>(r),
{
    let bytes = encode_frame(flags, r);
    let body = bytes.subrange(1, bytes.len() as int);
    let tail = rr_bytes(r.rr_intervals);
    lemma_rr_samples_of_rr_bytes(r.rr_intervals);
    assert(body =~= hr_bytes(r) + energy_bytes(r) + tail);
    assert(body.len() == rr_offset(flags) + 2 * r.rr_intervals.len());
    assert(body.subrange(rr_offset(flags) as int, body.len() as int) =~= tail);
    let decoded = decode_frame(bytes)->Ok_0;
    assert(decoded.rr_intervals =~= r.rr_intervals);
}

/// The canonical flags byte of a record announces its fields.
pub proof fn lemma_flags_for_announces(r: HeartRateRecord)
    ensures
        announces(flags_for(r), r),
{
    let a: u8 = if r.wide { 0x01 } else { 0 };
    let b: u8 = if r.contact == Some(true) { 0x02 } else { 0 };
    let c: u8 = if r.contact is Some { 0x04 } else { 0 };
    let d: u8 = if r.energy_expended is Some { 0x08 } else { 0 };
    let e: u8 = if r.rr_intervals.len() > 0 { 0x10 } else { 0 };
    assert(((a | b | c | d | e) & 0x01 != 0) == (a != 0)
        && ((a | b | c | d | e) & 0x02 != 0) == (b != 0)
        && ((a | b | c | d | e) & 0x04 != 0) == (c != 0)
        && ((a | b | c | d | e) & 0x08 != 0) == (d != 0)
        && ((a | b | c | d | e) & 0x10 != 0) == (e != 0)) by (bit_vector)
        requires
            a == 0 || a == 0x01,
            b == 0 || b == 0x02,
            c == 0 || c == 0x04,
            d == 0 || d == 0x08,
            e == 0 || e == 0x10,
    ;
    assert(flags_for(r) == a | b | c | d | e);
    assert(contact_of(flags_for(r)) == r.contact);
}

/// Contact is absent exactly when the flags byte says that the sensor
/// cannot detect it; the status bit plays no part in that.
pub proof fn lemma_contact_absent_iff_unsupported(bytes: Seq<u8>)
    requires
        decode_frame(bytes) is Ok,
    ensures
        decode_frame(bytes)->Ok_0.contact is None <==> !has_bit(bytes[0], SENSOR_CONTACT_PRESENT),
{
}

/// Where the flags announce RR samples and the fields before them fit,
/// the bytes that are left are all samples: an even number of bytes gives
/// half as many samples, an odd number is an error.
pub proof fn lemma_rr_interval_count(bytes: Seq<u8>)
    requires
        bytes.len() >= 1,
        has_bit(bytes[0], RR_INTERVAL_PRESENT),
        bytes.len() - 1 >= rr_offset(bytes[0]),
    ensures
        ({
            let left = bytes.len() - 1 - rr_offset(bytes[0]);
            &&& left % 2 == 0 ==> decode_frame(bytes) is Ok
                && decode_frame(bytes)->Ok_0.rr_intervals.len() == left / 2
            &&& left % 2 != 0 ==> decode_frame(bytes) == Err::<HeartRateRecord, ParseError>(
                ParseError::TruncatedField(Field::RrInterval),
            )
        }),
{
}

} // verus!
