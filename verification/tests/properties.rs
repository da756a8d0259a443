use hrmon::error::{Field, ParseError};
use hrmon::flags::{
    HRDataFlags, ENERGY_EXPENDED_PRESENT, HR_FORMAT_U16, RR_INTERVAL_PRESENT, SENSOR_CONTACT,
    SENSOR_CONTACT_PRESENT,
};
use hrmon::hr_data::{
    push_u16_le, read_rr_intervals, read_u16_le, read_u8, u16_from_le, HRData, HRData2,
};

fn header_len(flags: u8) -> usize {
    let hr = if flags & 0x01 != 0 { 2 } else { 1 };
    let energy = if flags & 0x08 != 0 { 2 } else { 0 };
    1 + hr + energy
}

fn frame(flags: u8, len: usize) -> Vec<u8> {
    let mut bytes = vec![flags];
    for i in 1..len {
        bytes.push((i * 37 % 251) as u8);
    }
    bytes
}

#[test]
fn every_flags_byte_decodes_when_the_frame_is_sized_for_it() {
    for flags in 0..=255u8 {
        for samples in 0..4usize {
            let len = header_len(flags) + 2 * samples;
            let data = HRData2::try_from(frame(flags, len)).unwrap();
            let expected = if flags & 0x10 != 0 { samples } else { 0 };
            assert_eq!(data.rr_intervals().len(), expected);
            assert_eq!(matches!(data, HRData2::Double(_)), flags & 0x01 != 0);
            assert_eq!(data.energy_expended().is_some(), flags & 0x08 != 0);
        }
    }
}

#[test]
fn every_frame_shorter_than_its_header_names_the_missing_field() {
    for flags in 0..=255u8 {
        let hr_end = if flags & 0x01 != 0 { 3 } else { 2 };
        for len in 1..header_len(flags) {
            let expected = if len < hr_end {
                Field::HrMeasurement
            } else {
                Field::EnergyExpended
            };
            assert_eq!(
                HRData2::try_from(frame(flags, len)),
                Err(ParseError::TruncatedField(expected))
            );
        }
    }
}

#[test]
fn contact_is_absent_exactly_when_the_support_bit_is_clear() {
    for flags in 0..=255u8 {
        let data = HRData2::try_from(frame(flags, header_len(flags))).unwrap();
        assert_eq!(data.contact().is_none(), flags & 0x04 == 0);
        if flags & 0x04 != 0 {
            assert_eq!(data.contact(), Some(flags & 0x02 != 0));
        }
        assert_eq!(HRDataFlags(flags).contact(), data.contact());
    }
}

#[test]
fn rr_count_is_half_of_what_is_left_and_odd_rests_fail() {
    for flags in [0x10u8, 0x11, 0x18, 0x19, 0x16, 0xff] {
        for left in 0..9usize {
            let result = HRData2::try_from(frame(flags, header_len(flags) + left));
            if left % 2 == 0 {
                assert_eq!(result.unwrap().rr_intervals().len(), left / 2);
            } else {
                assert_eq!(result, Err(ParseError::TruncatedField(Field::RrInterval)));
            }
        }
    }
}

#[test]
fn written_frames_decode_to_what_was_written() {
    let records = vec![
        HRData2::Single(HRData {
            contact: None,
            hr_measurement: 70u8,
            energy_expended: None,
            rr_intervals: vec![],
        }),
        HRData2::Single(HRData {
            contact: Some(false),
            hr_measurement: 255u8,
            energy_expended: Some(0),
            rr_intervals: vec![0, 1, 65535],
        }),
        HRData2::Double(HRData {
            contact: Some(true),
            hr_measurement: 70u16,
            energy_expended: Some(513),
            rr_intervals: vec![512, 1024],
        }),
        HRData2::Double(HRData {
            contact: None,
            hr_measurement: 65535u16,
            energy_expended: None,
            rr_intervals: vec![258],
        }),
    ];
    for record in records {
        let bytes = record.to_bytes();
        assert_eq!(bytes[0], record.flags().0);
        assert_eq!(HRData2::try_from(bytes), Ok(record));
    }
}

#[test]
fn written_frame_has_the_documented_layout() {
    let record = HRData2::Double(HRData {
        contact: Some(true),
        hr_measurement: 0x0146u16,
        energy_expended: Some(0x0210),
        rr_intervals: vec![0x0400, 0x0201],
    });
    assert_eq!(
        record.to_bytes(),
        vec![0x1f, 0x46, 0x01, 0x10, 0x02, 0x00, 0x04, 0x01, 0x02]
    );
    let narrow = HRData2::Single(HRData {
        contact: Some(false),
        hr_measurement: 70u8,
        energy_expended: None,
        rr_intervals: vec![],
    });
    assert_eq!(narrow.to_bytes(), vec![0x04, 0x46]);
}

#[test]
fn canonical_flags_announce_the_fields() {
    let record = HRData2::Single(HRData {
        contact: None,
        hr_measurement: 1u8,
        energy_expended: Some(2),
        rr_intervals: vec![3],
    });
    let flags = record.flags();
    assert_eq!(flags, HRDataFlags(0x18));
    assert!(!flags.hrv_format_is_u16());
    assert!(!flags.sensor_contact_present());
    assert!(flags.energy_expended_present());
    assert!(flags.rr_interval_present());
}

#[test]
fn flag_bits_are_where_the_layout_puts_them() {
    assert_eq!(HR_FORMAT_U16, 1 << 0);
    assert_eq!(SENSOR_CONTACT, 1 << 1);
    assert_eq!(SENSOR_CONTACT_PRESENT, 1 << 2);
    assert_eq!(ENERGY_EXPENDED_PRESENT, 1 << 3);
    assert_eq!(RR_INTERVAL_PRESENT, 1 << 4);
    let only_status = HRDataFlags(0x02);
    assert!(only_status.sensor_contact());
    assert!(!only_status.sensor_contact_present());
    assert_eq!(only_status.contact(), None);
    let all = HRDataFlags(0xff);
    assert!(all.hrv_format_is_u16());
    assert!(all.sensor_contact());
    assert!(all.sensor_contact_present());
    assert!(all.energy_expended_present());
    assert!(all.rr_interval_present());
    assert_eq!(all.contact(), Some(true));
    let none = HRDataFlags(0xe0);
    assert!(!none.hrv_format_is_u16());
    assert!(!none.sensor_contact());
    assert!(!none.sensor_contact_present());
    assert!(!none.energy_expended_present());
    assert!(!none.rr_interval_present());
}

#[test]
fn little_endian_helpers() {
    assert_eq!(u16_from_le(0x34, 0x12), 0x1234);
    assert_eq!(u16_from_le(0xff, 0x00), 255);
    assert_eq!(u16_from_le(0x00, 0x01), 256);
    assert_eq!(u16_from_le(0xff, 0xff), 65535);
    let mut out = vec![9u8];
    push_u16_le(&mut out, 0x1234);
    assert_eq!(out, vec![9, 0x34, 0x12]);
}

#[test]
fn field_readers_check_their_bounds() {
    let v = [1u8, 2, 3];
    assert_eq!(read_u8(&v, 2, Field::HrMeasurement), Ok(3));
    assert_eq!(
        read_u8(&v, 3, Field::HrMeasurement),
        Err(ParseError::TruncatedField(Field::HrMeasurement))
    );
    assert_eq!(read_u16_le(&v, 1, Field::EnergyExpended), Ok(0x0302));
    assert_eq!(
        read_u16_le(&v, 2, Field::EnergyExpended),
        Err(ParseError::TruncatedField(Field::EnergyExpended))
    );
    assert_eq!(
        read_u16_le(&v, usize::MAX, Field::EnergyExpended),
        Err(ParseError::TruncatedField(Field::EnergyExpended))
    );
    assert_eq!(
        read_u16_le(&[], 0, Field::RrInterval),
        Err(ParseError::TruncatedField(Field::RrInterval))
    );
}

#[test]
fn rr_reader_pairs_from_the_given_position() {
    let v = [9u8, 1, 0, 2, 0];
    assert_eq!(read_rr_intervals(&v, 1), Ok(vec![1, 2]));
    assert_eq!(read_rr_intervals(&v, 3), Ok(vec![2]));
    assert_eq!(read_rr_intervals(&v, 5), Ok(vec![]));
    assert_eq!(
        read_rr_intervals(&v, 0),
        Err(ParseError::TruncatedField(Field::RrInterval))
    );
    assert_eq!(
        read_rr_intervals(&v, 4),
        Err(ParseError::TruncatedField(Field::RrInterval))
    );
}

#[test]
fn contact_lost_only_when_the_sensor_says_so() {
    let with = |contact: Option<bool>| {
        HRData2::Single(HRData {
            contact,
            hr_measurement: 70u8,
            energy_expended: None,
            rr_intervals: vec![],
        })
    };
    assert!(with(Some(false)).contact_lost());
    assert!(!with(Some(true)).contact_lost());
    assert!(!with(None).contact_lost());
}

#[test]
fn latest_rr_interval_is_the_last_one() {
    let data = HRData2::try_from(vec![0x10, 0x46, 1, 0, 2, 0, 3, 0]).unwrap();
    assert_eq!(data.latest_rr_interval(), Some(3));
    let none = HRData2::try_from(vec![0x10, 0x46]).unwrap();
    assert_eq!(none.latest_rr_interval(), None);
}

#[test]
fn each_error_has_its_message() {
    assert_eq!(ParseError::MissingFlagsByte.message(), "No flags field present");
    assert_eq!(
        ParseError::TruncatedField(Field::HrMeasurement).message(),
        "Heart rate measurement is cut short"
    );
    assert_eq!(
        ParseError::TruncatedField(Field::EnergyExpended).message(),
        "Energy expended is cut short"
    );
    assert_eq!(
        ParseError::TruncatedField(Field::RrInterval).message(),
        "Last RR interval is cut short"
    );
}
