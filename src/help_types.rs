use vstd::prelude::*;

verus! {

/// Class of a wire message, carried in its status byte.
///
/// `On` is a key press or a light switched on, `Off` a key release or a light
/// switched off, `Ctl` a control change (the round buttons of the top row).
#[derive(Clone, Copy, Debug, PartialEq, Eq, Structural)]
pub enum MessageType {
    Off,
    On,
    Ctl,
}

impl MessageType {
    /// The status byte of this class.
    pub open spec fn spec_status(self) -> u8 {
        match self {
            MessageType::Off => 0x80,
            MessageType::On => 0x90,
            MessageType::Ctl => 0xb0,
        }
    }

    /// The status byte of this class.
    #[verifier::when_used_as_spec(spec_status)]
    pub fn status(self) -> (r: u8)
        ensures
            r == self.spec_status(),
    {
        match self {
            MessageType::Off => 0x80,
            MessageType::On => 0x90,
            MessageType::Ctl => 0xb0,
        }
    }
}

/// The colors the device can display. Each is a byte whose high nibble is the
/// green intensity and whose low nibble is the red intensity (0 to 3 each).
#[derive(Clone, Copy, Debug, PartialEq, Eq, Structural)]
pub enum Color {
    Black,
    DimGreen,
    MedGreen,
    Green,
    Grellow,
    DimGrellow,
    Yellow,
    MedYellow,
    DimYellow,
    YellOrange,
    Orange,
    DimORedange,
    ORedange,
    Red,
    MedRed,
    DimRed,
}

impl Color {
    /// The velocity byte that shows this color.
    pub open spec fn spec_byte(self) -> u8 {
        match self {
            Color::Black => 0x00,
            Color::DimGreen => 0x10,
            Color::MedGreen => 0x20,
            Color::Green => 0x30,
            Color::Grellow => 0x31,
            Color::DimGrellow => 0x21,
            Color::Yellow => 0x32,
            Color::MedYellow => 0x22,
            Color::DimYellow => 0x11,
            Color::YellOrange => 0x33,
            Color::Orange => 0x23,
            Color::DimORedange => 0x12,
            Color::ORedange => 0x13,
            Color::Red => 0x03,
            Color::MedRed => 0x02,
            Color::DimRed => 0x01,
        }
    }

    /// The velocity byte that shows this color.
    #[verifier::when_used_as_spec(spec_byte)]
    pub fn byte(self) -> (r: u8)
        ensures
            r == self.spec_byte(),
            r <= 0x33,
    {
        match self {
            Color::Black => 0x00,
            Color::DimGreen => 0x10,
            Color::MedGreen => 0x20,
            Color::Green => 0x30,
            Color::Grellow => 0x31,
            Color::DimGrellow => 0x21,
            Color::Yellow => 0x32,
            Color::MedYellow => 0x22,
            Color::DimYellow => 0x11,
            Color::YellOrange => 0x33,
            Color::Orange => 0x23,
            Color::DimORedange => 0x12,
            Color::ORedange => 0x13,
            Color::Red => 0x03,
            Color::MedRed => 0x02,
            Color::DimRed => 0x01,
        }
    }
}

/// Buffer modes of the device, which has two internal display buffers.
///
/// `ZeroOnly` and `OneOnly` use a single buffer; `OneActive` and `ZeroActive`
/// use both (double buffering), with buffer 1 respectively buffer 0 shown.
#[derive(Clone, Copy, Debug, PartialEq, Eq, Structural)]
pub enum BufferSetting {
    ZeroOnly,
    OneActive,
    ZeroActive,
    OneOnly,
}

impl BufferSetting {
    /// The low nibble of the buffer control byte for this mode.
    pub open spec fn spec_bits(self) -> u8 {
        match self {
            BufferSetting::ZeroOnly => 0x00,
            BufferSetting::OneActive => 0x01,
            BufferSetting::ZeroActive => 0x04,
            BufferSetting::OneOnly => 0x05,
        }
    }

    /// The low nibble of the buffer control byte for this mode.
    #[verifier::when_used_as_spec(spec_bits)]
    pub fn bits(self) -> (r: u8)
        ensures
            r == self.spec_bits(),
            r <= 0x05,
    {
        match self {
            BufferSetting::ZeroOnly => 0x00,
            BufferSetting::OneActive => 0x01,
            BufferSetting::ZeroActive => 0x04,
            BufferSetting::OneOnly => 0x05,
        }
    }
}

/// Layout of the note keys on the grid, as the device interprets them.
///
/// `XY` numbers the keys row by row (`0x10 * row + col`); `DrumRack` uses the
/// device's drum rack layout.
#[derive(Clone, Copy, Debug, PartialEq, Eq, Structural)]
pub enum GridMode {
    XY,
    DrumRack,
}

impl GridMode {
    /// The byte that selects this layout.
    pub open spec fn spec_byte(self) -> u8 {
        match self {
            GridMode::XY => 0x01,
            GridMode::DrumRack => 0x02,
        }
    }

    /// The byte that selects this layout.
    #[verifier::when_used_as_spec(spec_byte)]
    pub fn byte(self) -> (r: u8)
        ensures
            r == self.spec_byte(),
    {
        match self {
            GridMode::XY => 0x01,
            GridMode::DrumRack => 0x02,
        }
    }
}

} // verus!
