//! Control of a Launchpad Mini style grid controller: an 8x8 note grid with a
//! column of scene buttons and a row of round control buttons, driven over a
//! three-byte MIDI message transport.
//!
//! The codec maps grid positions to wire messages and back; `LaunchDevice`
//! composes codec output into calls on an `Output` port and tracks the
//! device's double-buffering state.

mod help_types;
mod launch_device;
mod mat_pos;
mod midilib;
mod pad_identifier;

pub use help_types::{BufferSetting, Color, GridMode, MessageType};
pub use launch_device::{
    first_message, lemma_buffer_byte_nibbles, lemma_duty_cycle_clamps,
    lemma_first_row_messages_ascend, lemma_grid_messages_cover_grid, lemma_swap_alternates,
    lemma_velocity_forcing, spec_buffer_byte, spec_clamp_denominator, spec_clamp_numerator,
    spec_control_message, spec_duty_cycle_message, spec_first_row_messages, spec_grid_messages,
    spec_grid_pos, spec_is_double_buffered, spec_matrix_messages, spec_note_message,
    spec_swap_target, LaunchDevice, CONTROL_BUTTONS, GRID_COLS, GRID_ROWS,
};
pub use mat_pos::MatPos;
pub use midilib::{
    device_matches, find_device, DeviceInfo, Direction, Identifier, Input, LaunchMessage,
    MidiInterface, MidiInterfaceError, Output,
};
pub use pad_identifier::{
    encode_write, lemma_control_row_round_trip, lemma_note_grid_round_trip,
    lemma_valid_keys_fit_seven_bits, spec_decode_coordinate, spec_decode_identifier,
    spec_encode_identifier, spec_encode_write, PadIdentifier, CONTROL_ROW, CONTROL_ROW_BASE,
};
