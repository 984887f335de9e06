//! The codec between grid positions, wire identifiers and wire messages.
use crate::help_types::{Color, MessageType};
use crate::mat_pos::MatPos;
use crate::midilib::LaunchMessage;
use vstd::prelude::*;

verus! {

/// Key byte of the first round control button; the others follow it.
pub const CONTROL_ROW_BASE: u8 = 0x68;

/// Row index of the round control buttons.
pub const CONTROL_ROW: u8 = 8;

/// The wire identity of a key: its message class and its key byte.
#[derive(Clone, Copy, Debug, PartialEq, Eq, Structural)]
pub struct PadIdentifier {
    pub status: MessageType,
    pub key: u8,
}

/// The identifier of the key at `pos`: a control change keyed `0x68 + col`
/// for the control row, else a note keyed `0x10 * row + col` (both modulo 256,
/// which matters only for positions off the device).
pub open spec fn spec_encode_identifier(pos: MatPos) -> PadIdentifier {
    if pos.row > 7 {
        PadIdentifier { status: MessageType::Ctl, key: ((0x68 + pos.col) % 256) as u8 }
    } else {
        PadIdentifier { status: MessageType::On, key: ((0x10 * pos.row + pos.col) % 256) as u8 }
    }
}

/// The identifier a received message carries: its class from the status byte
/// (an unknown status counts as `Off`) and its key from `data1`.
pub open spec fn spec_decode_identifier(msg: LaunchMessage) -> PadIdentifier {
    let status = if msg.status == 0xb0 {
        MessageType::Ctl
    } else if msg.status == 0x90 {
        MessageType::On
    } else {
        MessageType::Off
    };
    PadIdentifier { status, key: msg.data1 }
}

/// The position an identifier names: row 8 and column `key - 0x68` (modulo
/// 256) for a control change, else row `key / 16` and column `key % 16`.
pub open spec fn spec_decode_coordinate(id: PadIdentifier) -> MatPos {
    if id.status == MessageType::Ctl {
        MatPos { row: 8, col: ((id.key - 0x68) % 256) as u8 }
    } else {
        MatPos { row: (id.key / 16) as u8, col: (id.key % 16) as u8 }
    }
}

/// The message that lights the key at `pos` in `color`: a control change for
/// the control row, a note-on elsewhere.
pub open spec fn spec_encode_write(pos: MatPos, color: Color) -> LaunchMessage {
    let id = spec_encode_identifier(pos);
    LaunchMessage { status: id.status.spec_status(), data1: id.key, data2: color.spec_byte() }
}

impl PadIdentifier {
    /// The key byte to send as `data1` when writing to this key.
    pub fn key(&self) -> (r: u8)
        ensures
            r == self.key,
    {
        self.key
    }

    /// The position this identifier names.
    pub fn coordinate(&self) -> (r: MatPos)
        ensures
            r == spec_decode_coordinate(*self),
    {
        if self.status == MessageType::Ctl {
            MatPos { row: CONTROL_ROW, col: self.key.wrapping_sub(CONTROL_ROW_BASE) }
        } else {
            MatPos { row: self.key / 16, col: self.key % 16 }
        }
    }
}

impl From<MatPos> for PadIdentifier {
    fn from(pos: MatPos) -> (r: PadIdentifier) {
        if pos.row > 7 {
            PadIdentifier { status: MessageType::Ctl, key: CONTROL_ROW_BASE.wrapping_add(pos.col) }
        } else {
            PadIdentifier { status: MessageType::On, key: (0x10 * pos.row).wrapping_add(pos.col) }
        }
    }
}

impl vstd::std_specs::convert::FromSpecImpl<MatPos> for PadIdentifier {
    open spec fn obeys_from_spec() -> bool {
        true
    }

    open spec fn from_spec(v: MatPos) -> PadIdentifier {
        spec_encode_identifier(v)
    }
}

impl From<LaunchMessage> for PadIdentifier {
    fn from(msg: LaunchMessage) -> (r: PadIdentifier) {
        if msg.status == MessageType::Ctl.status() {
            PadIdentifier { status: MessageType::Ctl, key: msg.data1 }
        } else if msg.status == MessageType::On.status() {
            PadIdentifier { status: MessageType::On, key: msg.data1 }
        } else {
            PadIdentifier { status: MessageType::Off, key: msg.data1 }
        }
    }
}

impl vstd::std_specs::convert::FromSpecImpl<LaunchMessage> for PadIdentifier {
    open spec fn obeys_from_spec() -> bool {
        true
    }

    open spec fn from_spec(v: LaunchMessage) -> PadIdentifier {
        spec_decode_identifier(v)
    }
}

/// The message that lights the key at `pos` in `color`.
pub fn encode_write(pos: MatPos, color: Color) -> (r: LaunchMessage)
    ensures
        r == spec_encode_write(pos, color),
{
    let id = PadIdentifier::from(pos);
    LaunchMessage { status: id.status.status(), data1: id.key(), data2: color.byte() }
}

/// Writing a note grid key or scene button (row 0 to 7, column 0 to 8) and
/// decoding the message that goes out gives back the position.
pub proof fn lemma_note_grid_round_trip(pos: MatPos, color: Color)
    requires
        pos.row <= 7,
        pos.col <= 8,
    ensures
        spec_decode_coordinate(spec_decode_identifier(spec_encode_write(pos, color))) == pos,
{
}

/// Writing a control button (row 8, column 0 to 7) and decoding the message
/// that goes out gives back the position.
pub proof fn lemma_control_row_round_trip(pos: MatPos, color: Color)
    requires
        pos.row == 8,
        pos.col <= 7,
    ensures
        spec_decode_coordinate(spec_decode_identifier(spec_encode_write(pos, color))) == pos,
{
}

/// Every key of the device is written with a key byte below 0x80.
pub proof fn lemma_valid_keys_fit_seven_bits(pos: MatPos)
    requires
        pos.is_valid(),
    ensures
        spec_encode_identifier(pos).key < 0x80,
{
}

} // verus!
