//! Why a frame could not be decoded.

use vstd::prelude::*;

verus! {

/// A field of the frame that has a fixed place in the layout.
#[derive(Clone, Copy, Debug, PartialEq, Eq, Structural)]
pub enum Field {
    HrMeasurement,
    EnergyExpended,
    RrInterval,
}

/// The two ways a frame can be malformed. Values are never judged: a heart
/// rate of 0 or of 65535 decodes like any other.
#[derive(Clone, Copy, Debug, PartialEq, Eq, Structural)]
pub enum ParseError {
    /// The frame is empty, so there is no flags byte to read.
    MissingFlagsByte,
    /// The frame ends before the named field is complete.
    TruncatedField(Field),
}

/// The text that `ParseError::message` gives for each error.
pub open spec fn message_of(e: ParseError) -> Seq<char> {
    match e {
        ParseError::MissingFlagsByte => "No flags field present"@,
        ParseError::TruncatedField(Field::HrMeasurement) => "Heart rate measurement is cut short"@,
        ParseError::TruncatedField(Field::EnergyExpended) => "Energy expended is cut short"@,
        ParseError::TruncatedField(Field::RrInterval) => "Last RR interval is cut short"@,
    }
}

impl ParseError {
    /// One line that says what is wrong with the frame.
    pub fn message(&self) -> (s: &'static str)
        ensures
            s@ == message_of(*self),
    {
        match self {
            ParseError::MissingFlagsByte => "No flags field present",
            ParseError::TruncatedField(Field::HrMeasurement) => "Heart rate measurement is cut short",
            ParseError::TruncatedField(Field::EnergyExpended) => "Energy expended is cut short",
            ParseError::TruncatedField(Field::RrInterval) => "Last RR interval is cut short",
        }
    }
}

} // verus!
