use crate::midilib::LaunchMessage;
use crate::pad_identifier::{spec_decode_coordinate, spec_decode_identifier, PadIdentifier};
use vstd::prelude::*;

verus! {

/// A position on the device: rows 0 to 7 are the note grid (columns 0 to 7,
/// with column 8 the scene button at the right end of the row); row 8 is the
/// row of round control buttons (columns 0 to 7).
#[derive(Clone, Copy, Debug, PartialEq, Eq, Structural)]
pub struct MatPos {
    pub row: u8,
    pub col: u8,
}

impl MatPos {
    /// Whether the position names a key of the device: a note grid key or
    /// scene button (row 0 to 7, column 0 to 8), or a control button (row 8,
    /// column 0 to 7).
    pub open spec fn is_valid(self) -> bool {
        (self.row <= 7 && self.col <= 8) || (self.row == 8 && self.col <= 7)
    }

    pub fn new(row: u8, col: u8) -> (r: MatPos)
        ensures
            r == (MatPos { row, col }),
    {
        MatPos { row, col }
    }

    pub fn get_as_tuple(self) -> (r: (u8, u8))
        ensures
            r == (self.row, self.col),
    {
        (self.row, self.col)
    }
}

impl From<PadIdentifier> for MatPos {
    fn from(padid: PadIdentifier) -> (r: MatPos) {
        padid.coordinate()
    }
}

impl vstd::std_specs::convert::FromSpecImpl<PadIdentifier> for MatPos {
    open spec fn obeys_from_spec() -> bool {
        true
    }

    open spec fn from_spec(v: PadIdentifier) -> MatPos {
        spec_decode_coordinate(v)
    }
}

impl From<LaunchMessage> for MatPos {
    fn from(msg: LaunchMessage) -> (r: MatPos) {
        PadIdentifier::from(msg).coordinate()
    }
}

impl vstd::std_specs::convert::FromSpecImpl<LaunchMessage> for MatPos {
    open spec fn obeys_from_spec() -> bool {
        true
    }

    open spec fn from_spec(v: LaunchMessage) -> MatPos {
        spec_decode_coordinate(spec_decode_identifier(v))
    }
}

} // verus!
