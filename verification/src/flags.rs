//! The flags byte that opens every Heart Rate Measurement frame.

use vstd::prelude::*;

verus! {

/// Bit 0: the heart rate value is sent as 16 bits rather than 8.
pub const HR_FORMAT_U16: u8 = 0x01;

/// Bit 1: the sensor reports skin contact.
pub const SENSOR_CONTACT: u8 = 0x02;

/// Bit 2: the sensor is able to report skin contact at all.
pub const SENSOR_CONTACT_PRESENT: u8 = 0x04;

/// Bit 3: an energy expended field follows the heart rate value.
pub const ENERGY_EXPENDED_PRESENT: u8 = 0x08;

/// Bit 4: RR-interval samples fill the rest of the frame.
pub const RR_INTERVAL_PRESENT: u8 = 0x10;

/// Whether `byte` has any bit of `mask` set.
pub open spec fn has_bit(byte: u8, mask: u8) -> bool {
    byte & mask != 0
}

/// What a flags byte says about skin contact: nothing when the sensor
/// cannot detect it, otherwise the status bit.
pub open spec fn contact_of(byte: u8) -> Option<bool> {
    if has_bit(byte, SENSOR_CONTACT_PRESENT) {
        Some(has_bit(byte, SENSOR_CONTACT))
    } else {
        None
    }
}

/// The flags byte of a frame. Bits 5 to 7 are reserved and never read.
#[derive(Clone, Copy, Debug, PartialEq, Eq, Structural)]
pub struct HRDataFlags(pub u8);

impl HRDataFlags {
    pub fn hrv_format_is_u16(&self) -> (b: bool)
        ensures
            b == has_bit(self.0, HR_FORMAT_U16),
    {
        self.0 & HR_FORMAT_U16 != 0
    }

    pub fn sensor_contact(&self) -> (b: bool)
        ensures
            b == has_bit(self.0, SENSOR_CONTACT),
    {
        self.0 & SENSOR_CONTACT != 0
    }

    pub fn sensor_contact_present(&self) -> (b: bool)
        ensures
            b == has_bit(self.0, SENSOR_CONTACT_PRESENT),
    {
        self.0 & SENSOR_CONTACT_PRESENT != 0
    }

    pub fn energy_expended_present(&self) -> (b: bool)
        ensures
            b == has_bit(self.0, ENERGY_EXPENDED_PRESENT),
    {
        self.0 & ENERGY_EXPENDED_PRESENT != 0
    }

    pub fn rr_interval_present(&self) -> (b: bool)
        ensures
            b == has_bit(self.0, RR_INTERVAL_PRESENT),
    {
        self.0 & RR_INTERVAL_PRESENT != 0
    }

    /// Skin contact as a three-way answer: `None` when the sensor cannot
    /// tell, `Some(false)` when it can and there is none, `Some(true)` when
    /// there is.
    pub fn contact(&self) -> (c: Option<bool>)
        ensures
            c == contact_of(self.0),
            c is None <==> !has_bit(self.0, SENSOR_CONTACT_PRESENT),
    {
        if self.sensor_contact_present() {
            Some(self.sensor_contact())
        } else {
            None
        }
    }
}

} // verus!
