//! The device controller: composes codec output into writes on an output
//! port and tracks the device's buffer mode.
use crate::help_types::{BufferSetting, Color, GridMode, MessageType};
use crate::mat_pos::MatPos;
use crate::midilib::{Input, LaunchMessage, MidiInterfaceError, Output};
use crate::pad_identifier::{
    encode_write, lemma_note_grid_round_trip, spec_decode_coordinate, spec_decode_identifier,
    spec_encode_write, CONTROL_ROW_BASE,
};
use vstd::prelude::*;

verus! {

/// Number of note grid rows.
pub const GRID_ROWS: usize = 8;

/// Number of columns in a note grid row, the scene button included.
pub const GRID_COLS: usize = 9;

/// Number of round control buttons.
pub const CONTROL_BUTTONS: u8 = 8;

/// A control change message with the given key and value.
pub open spec fn spec_control_message(data1: u8, data2: u8) -> LaunchMessage {
    LaunchMessage { status: 0xb0, data1, data2 }
}

/// The buffer control byte for `setting`, with the copy flag in the high
/// nibble (0x30 copies the shown buffer on a swap, 0x20 does not).
pub open spec fn spec_buffer_byte(setting: BufferSetting, copy: bool) -> u8 {
    (if copy {
        0x30u8
    } else {
        0x20u8
    }) | setting.spec_bits()
}

/// Whether the buffer control byte `b` selects double buffering.
pub open spec fn spec_is_double_buffered(b: u8) -> bool {
    (b & 0x0f) == BufferSetting::OneActive.spec_bits() || (b & 0x0f)
        == BufferSetting::ZeroActive.spec_bits()
}

/// The mode a swap moves to from buffer control byte `b`: `ZeroActive` where
/// buffer 1 is shown, else `OneActive`.
pub open spec fn spec_swap_target(b: u8) -> BufferSetting {
    if (b & 0x0f) == BufferSetting::OneActive.spec_bits() {
        BufferSetting::ZeroActive
    } else {
        BufferSetting::OneActive
    }
}

/// The note message for `key` with velocity `vel`, under buffer control byte
/// `b`: without double buffering the bits 0x0C of the velocity are set.
pub open spec fn spec_note_message(on: bool, key: u8, vel: u8, b: u8) -> LaunchMessage {
    LaunchMessage {
        status: if on {
            MessageType::On.spec_status()
        } else {
            MessageType::Off.spec_status()
        },
        data1: key,
        data2: if spec_is_double_buffered(b) {
            vel
        } else {
            vel | 0x0c
        },
    }
}

/// The grid position with row-major index `i` (9 columns per row).
pub open spec fn spec_grid_pos(i: int) -> MatPos {
    MatPos { row: (i / 9) as u8, col: (i % 9) as u8 }
}

/// The 72 writes that set every note grid key and scene button to `color`,
/// row by row.
pub open spec fn spec_grid_messages(color: Color) -> Seq<LaunchMessage> {
    Seq::new(72, |i: int| spec_encode_write(spec_grid_pos(i), color))
}

/// The 72 writes that set each note grid key and scene button to its entry
/// of `mat` (indexed by row, then column), row by row.
pub open spec fn spec_matrix_messages(mat: [[Color; 9]; 8]) -> Seq<LaunchMessage> {
    Seq::new(72, |i: int| spec_encode_write(spec_grid_pos(i), mat@[i / 9]@[i % 9]))
}

/// The 8 control changes that set the round buttons to `color`, left to right.
pub open spec fn spec_first_row_messages(color: Color) -> Seq<LaunchMessage> {
    Seq::new(8, |i: int| spec_control_message((0x68 + i) as u8, color.spec_byte()))
}

/// The numerator of a duty cycle, clamped to 1..=16.
pub open spec fn spec_clamp_numerator(n: u8) -> u8 {
    if n > 16 {
        16
    } else if n < 1 {
        1
    } else {
        n
    }
}

/// The denominator of a duty cycle, clamped to 3..=18.
pub open spec fn spec_clamp_denominator(d: u8) -> u8 {
    if d > 18 {
        18
    } else if d < 3 {
        3
    } else {
        d
    }
}

/// The control change that sets the duty cycle `n / d` (both clamped first):
/// key 0x1E with `16 * (n - 1) + (d - 3)` for `n < 9`, else key 0x1F with
/// `16 * (n - 9) + (d - 3)`.
pub open spec fn spec_duty_cycle_message(numerator: u8, denominator: u8) -> LaunchMessage {
    let n = spec_clamp_numerator(numerator);
    let d = spec_clamp_denominator(denominator);
    if n < 9 {
        spec_control_message(0x1e, (16 * (n - 1) + (d - 3)) as u8)
    } else {
        spec_control_message(0x1f, (16 * (n - 9) + (d - 3)) as u8)
    }
}

proof fn lemma_grid_index(x: int, y: int)
    requires
        0 <= x,
        0 <= y < 9,
    ensures
        (9 * x + y) / 9 == x,
        (9 * x + y) % 9 == y,
{
    assert((9 * x + y) / 9 == x && (9 * x + y) % 9 == y) by (nonlinear_arith)
        requires
            0 <= x,
            0 <= y < 9,
    ;
}

/// Controller of one device, owning its input and output port.
///
/// It keeps the buffer control byte last sent (0 before any), which decides
/// the direction of a swap and whether note velocities get the bits 0x0C.
pub struct LaunchDevice<I: Input, O: Output> {
    in_port: I,
    out_port: O,
    buffer_setting: u8,
    log: Ghost<Seq<LaunchMessage>>,
}

impl<I: Input, O: Output> LaunchDevice<I, O> {
    /// The messages handed to the output port so far, in order, whether the
    /// port accepted them or not. Each command states what it adds here; the
    /// `Result` it returns is the port's own.
    pub closed spec fn sent(&self) -> Seq<LaunchMessage> {
        self.log@
    }

    /// The buffer control byte the controller holds.
    pub closed spec fn buffer_state(&self) -> u8 {
        self.buffer_setting
    }

    /// A controller for the device behind `in_port` and `out_port`. Nothing is
    /// sent; the buffer control byte starts at 0.
    pub fn new(in_port: I, out_port: O) -> (r: LaunchDevice<I, O>)
        ensures
            r.buffer_state() == 0,
            r.sent() == Seq::<LaunchMessage>::empty(),
    {
        LaunchDevice { in_port, out_port, buffer_setting: 0, log: Ghost(Seq::empty()) }
    }

    /// The buffer control byte the controller holds.
    pub fn buffer_setting(&self) -> (r: u8)
        ensures
            r == self.buffer_state(),
    {
        self.buffer_setting
    }

    /// Whether messages from the device are waiting.
    pub fn poll(&self) -> (r: Result<bool, MidiInterfaceError>) {
        self.in_port.poll()
    }

    /// Reads one message, where one is waiting.
    pub fn read_single_msg(&self) -> (r: Result<Option<LaunchMessage>, MidiInterfaceError>) {
        match self.in_port.read_n(1) {
            Ok(batch) => Ok(first_message(batch)),
            Err(e) => Err(e),
        }
    }

    /// Reads at most `n` messages.
    pub fn read_n_msgs(&self, n: usize) -> (r: Result<
        Option<Vec<LaunchMessage>>,
        MidiInterfaceError,
    >) {
        self.in_port.read_n(n)
    }

    /// Whether the held buffer mode is a double-buffering one.
    pub fn is_double_buffered(&self) -> (r: bool)
        ensures
            r == spec_is_double_buffered(self.buffer_state()),
    {
        let buffered = self.buffer_setting & 0x0f;
        buffered == BufferSetting::OneActive.bits() || buffered == BufferSetting::ZeroActive.bits()
    }

    /// Hands one message to the output port and records it.
    fn write_one(&mut self, msg: LaunchMessage) -> (r: Result<(), MidiInterfaceError>)
        ensures
            final(self).sent() == old(self).sent().push(msg),
            final(self).buffer_state() == old(self).buffer_state(),
    {
        self.log = Ghost(self.log@.push(msg));
        self.out_port.write_message(msg)
    }

    /// Hands a batch of messages to the output port and records them.
    fn write_batch(&mut self, msgs: Vec<LaunchMessage>) -> (r: Result<(), MidiInterfaceError>)
        ensures
            final(self).sent() == old(self).sent() + msgs@,
            final(self).buffer_state() == old(self).buffer_state(),
    {
        self.log = Ghost(self.log@ + msgs@);
        self.out_port.write_messages(msgs)
    }

    /// Sends a note message (`on`: note-on, else note-off) for `key`. Without
    /// double buffering the bits 0x0C of `vel` are set, so that the light
    /// latches.
    pub fn send_note_msg(&mut self, on: bool, key: u8, vel: u8) -> (r: Result<
        (),
        MidiInterfaceError,
    >)
        ensures
            final(self).sent() == old(self).sent().push(
                spec_note_message(on, key, vel, old(self).buffer_state()),
            ),
            final(self).buffer_state() == old(self).buffer_state(),
    {
        let mut vel = vel;
        if !self.is_double_buffered() {
            vel = vel | 0x0c;
        }
        let mut mtype = MessageType::Off.status();
        if on {
            mtype = MessageType::On.status();
        }
        self.write_one(LaunchMessage { status: mtype, data1: key, data2: vel })
    }

    /// Sends `msgs` as they are, in order.
    pub fn send_messages(&mut self, msgs: Vec<LaunchMessage>) -> (r: Result<(), MidiInterfaceError>)
        ensures
            final(self).sent() == old(self).sent() + msgs@,
            final(self).buffer_state() == old(self).buffer_state(),
    {
        self.write_batch(msgs)
    }

    /// Sends a control change with key `data1` and value `data2`.
    pub fn send_ctl_msg(&mut self, data1: u8, data2: u8) -> (r: Result<(), MidiInterfaceError>)
        ensures
            final(self).sent() == old(self).sent().push(spec_control_message(data1, data2)),
            final(self).buffer_state() == old(self).buffer_state(),
    {
        self.write_one(LaunchMessage { status: MessageType::Ctl.status(), data1, data2 })
    }

    /// Sets the LED duty cycle to `numerator / denominator`. The numerator is
    /// clamped to 1..=16 and the denominator to 3..=18 before encoding.
    pub fn set_duty_cycle(&mut self, numerator: u8, denominator: u8) -> (r: Result<
        (),
        MidiInterfaceError,
    >)
        ensures
            final(self).sent() == old(self).sent().push(
                spec_duty_cycle_message(numerator, denominator),
            ),
            final(self).buffer_state() == old(self).buffer_state(),
    {
        let mut numerator = numerator;
        let mut denominator = denominator;
        if numerator > 16 {
            numerator = 16;
        } else if numerator < 1 {
            numerator = 1;
        }
        if denominator > 18 {
            denominator = 18;
        } else if denominator < 3 {
            denominator = 3;
        }
        let data1: u8;
        let data2: u8;
        if numerator < 9 {
            data1 = 0x1e;
            data2 = 0x10 * (numerator - 1) + (denominator - 3);
        } else {
            data1 = 0x1f;
            data2 = 0x10 * (numerator - 9) + (denominator - 3);
        }
        self.write_one(LaunchMessage { status: MessageType::Ctl.status(), data1, data2 })
    }

    /// Sets every note grid key and scene button to the color given for it in
    /// `mat` (indexed by row, then column), as one batch in row-major order.
    pub fn set_matrix(&mut self, mat: &[[Color; 9]; 8]) -> (r: Result<(), MidiInterfaceError>)
        ensures
            final(self).sent() == old(self).sent() + spec_matrix_messages(*mat),
            final(self).buffer_state() == old(self).buffer_state(),
    {
        let mut res: Vec<LaunchMessage> = Vec::with_capacity(GRID_ROWS * GRID_COLS);
        let mut i: usize = 0;
        while i < GRID_ROWS
            invariant
                i <= 8,
                res@ =~= spec_matrix_messages(*mat).take(9 * i),
            decreases 8 - i,
        {
            let row = &mat[i];
            let mut j: usize = 0;
            while j < GRID_COLS
                invariant
                    i < 8,
                    j <= 9,
                    *row == mat@[i as int],
                    res@ =~= spec_matrix_messages(*mat).take(9 * i + j),
                decreases 9 - j,
            {
                proof {
                    lemma_grid_index(i as int, j as int);
                }
                res.push(encode_write(MatPos::new(i as u8, j as u8), row[j]));
                j = j + 1;
            }
            i = i + 1;
        }
        self.write_batch(res)
    }

    /// Sets every note grid key and scene button to `color`, as one batch in
    /// row-major order.
    pub fn set_all(&mut self, color: Color) -> (r: Result<(), MidiInterfaceError>)
        ensures
            final(self).sent() == old(self).sent() + spec_grid_messages(color),
            final(self).buffer_state() == old(self).buffer_state(),
    {
        let mut msg: Vec<LaunchMessage> = Vec::with_capacity(GRID_ROWS * GRID_COLS);
        let mut x: u8 = 0;
        while x < 8
            invariant
                x <= 8,
                msg@ =~= spec_grid_messages(color).take(9 * x),
            decreases 8 - x,
        {
            let mut y: u8 = 0;
            while y < 9
                invariant
                    x < 8,
                    y <= 9,
                    msg@ =~= spec_grid_messages(color).take(9 * x + y),
                decreases 9 - y,
            {
                proof {
                    lemma_grid_index(x as int, y as int);
                }
                msg.push(encode_write(MatPos::new(x, y), color));
                y = y + 1;
            }
            x = x + 1;
        }
        self.write_batch(msg)
    }

    /// Sets the round control buttons to `color`, as one batch from left to
    /// right.
    pub fn set_first_row(&mut self, color: Color) -> (r: Result<(), MidiInterfaceError>)
        ensures
            final(self).sent() == old(self).sent() + spec_first_row_messages(color),
            final(self).buffer_state() == old(self).buffer_state(),
    {
        let mut msg: Vec<LaunchMessage> = Vec::with_capacity(8);
        let mut i: u8 = 0;
        while i < CONTROL_BUTTONS
            invariant
                i <= 8,
                msg@ =~= spec_first_row_messages(color).take(i as int),
            decreases 8 - i,
        {
            msg.push(
                LaunchMessage {
                    status: MessageType::Ctl.status(),
                    data1: CONTROL_ROW_BASE + i,
                    data2: color.byte(),
                },
            );
            i = i + 1;
        }
        self.write_batch(msg)
    }

    /// Sets the buffer mode: the held byte becomes the copy flag (0x30 where
    /// `copy`, else 0x20) or'ed with the bits of `setting`, and is sent as a
    /// control change on key 0.
    pub fn set_buffer_mode(&mut self, setting: BufferSetting, copy: bool) -> (r: Result<
        (),
        MidiInterfaceError,
    >)
        ensures
            final(self).buffer_state() == spec_buffer_byte(setting, copy),
            final(self).sent() == old(self).sent().push(
                spec_control_message(0x00, spec_buffer_byte(setting, copy)),
            ),
    {
        if copy {
            self.buffer_setting = 0x30;
        } else {
            self.buffer_setting = 0x20;
        }
        self.buffer_setting = self.buffer_setting | setting.bits();
        let b = self.buffer_setting;
        self.send_ctl_msg(0x00, b)
    }

    /// Turns double buffering off: buffer 0 only, without copying.
    pub fn disable_double_buffering(&mut self) -> (r: Result<(), MidiInterfaceError>)
        ensures
            final(self).buffer_state() == spec_buffer_byte(BufferSetting::ZeroOnly, false),
            final(self).sent() == old(self).sent().push(
                spec_control_message(0x00, spec_buffer_byte(BufferSetting::ZeroOnly, false)),
            ),
    {
        self.set_buffer_mode(BufferSetting::ZeroOnly, false)
    }

    /// Swaps the shown buffer: to `ZeroActive` where buffer 1 is shown, else
    /// to `OneActive`; with `copy` the shown buffer is copied to the new one.
    pub fn swap_buffers(&mut self, copy: bool) -> (r: Result<(), MidiInterfaceError>)
        ensures
            final(self).buffer_state() == spec_buffer_byte(
                spec_swap_target(old(self).buffer_state()),
                copy,
            ),
            final(self).sent() == old(self).sent().push(
                spec_control_message(
                    0x00,
                    spec_buffer_byte(spec_swap_target(old(self).buffer_state()), copy),
                ),
            ),
    {
        let setting = self.buffer_setting & 0x0f;
        if setting == BufferSetting::OneActive.bits() {
            self.set_buffer_mode(BufferSetting::ZeroActive, copy)
        } else {
            self.set_buffer_mode(BufferSetting::OneActive, copy)
        }
    }

    /// Swaps the shown buffer without copying.
    pub fn hard_swap(&mut self) -> (r: Result<(), MidiInterfaceError>)
        ensures
            final(self).buffer_state() == spec_buffer_byte(
                spec_swap_target(old(self).buffer_state()),
                false,
            ),
            final(self).sent() == old(self).sent().push(
                spec_control_message(
                    0x00,
                    spec_buffer_byte(spec_swap_target(old(self).buffer_state()), false),
                ),
            ),
    {
        self.swap_buffers(false)
    }

    /// Turns off every light but the round control buttons.
    pub fn blackout(&mut self) -> (r: Result<(), MidiInterfaceError>)
        ensures
            final(self).sent() == old(self).sent() + spec_grid_messages(Color::Black),
            final(self).buffer_state() == old(self).buffer_state(),
    {
        self.set_all(Color::Black)
    }

    /// Turns off every light: the grid as one batch, then each round control
    /// button. Stops at the first write that fails.
    pub fn full_blackout(&mut self) -> (r: Result<(), MidiInterfaceError>)
        ensures
            final(self).buffer_state() == old(self).buffer_state(),
            ({
                let all = spec_grid_messages(Color::Black) + spec_first_row_messages(Color::Black);
                &&& old(self).sent().len() + 72 <= final(self).sent().len()
                    <= old(self).sent().len() + 80
                &&& final(self).sent() == old(self).sent() + all.take(
                    final(self).sent().len() - old(self).sent().len(),
                )
                &&& r is Ok ==> final(self).sent() == old(self).sent() + all
            }),
    {
        let ghost start = self.log@;
        let ghost all = spec_grid_messages(Color::Black) + spec_first_row_messages(Color::Black);
        match self.set_all(Color::Black) {
            Ok(()) => {},
            Err(e) => {
                assert(self.log@ =~= start + all.take(72));
                return Err(e);
            },
        }
        assert(self.log@ =~= start + all.take(72));
        let mut i: u8 = 0;
        while i < CONTROL_BUTTONS
            invariant
                i <= 8,
                start == old(self).log@,
                self.log@ =~= start + all.take(72 + i),
                self.buffer_setting == old(self).buffer_setting,
                all == spec_grid_messages(Color::Black) + spec_first_row_messages(Color::Black),
            decreases 8 - i,
        {
            match self.send_ctl_msg(CONTROL_ROW_BASE + i, Color::Black.byte()) {
                Ok(()) => {},
                Err(e) => {
                    assert(self.log@ =~= start + all.take(72 + i + 1));
                    return Err(e);
                },
            }
            assert(self.log@ =~= start + all.take(72 + i + 1));
            i = i + 1;
        }
        assert(all.take(80) =~= all);
        Ok(())
    }

    /// Sets the key at (`row`, `col`) to `color`: a control change for the
    /// control row (row 8), a note-on elsewhere.
    pub fn set_position(&mut self, row: u8, col: u8, color: Color) -> (r: Result<
        (),
        MidiInterfaceError,
    >)
        ensures
            final(self).sent() == old(self).sent().push(
                spec_encode_write(MatPos { row, col }, color),
            ),
            final(self).buffer_state() == old(self).buffer_state(),
    {
        self.write_one(encode_write(MatPos::new(row, col), color))
    }

    /// Selects how the device lays out note keys on the grid.
    pub fn select_mode(&mut self, mode: GridMode) -> (r: Result<(), MidiInterfaceError>)
        ensures
            final(self).sent() == old(self).sent().push(spec_control_message(0x00, mode.spec_byte())),
            final(self).buffer_state() == old(self).buffer_state(),
    {
        self.send_ctl_msg(0x00, mode.byte())
    }

    /// Resets the device: a control change with key 0 and value 0.
    pub fn reset(&mut self) -> (r: Result<(), MidiInterfaceError>)
        ensures
            final(self).sent() == old(self).sent().push(spec_control_message(0x00, 0x00)),
            final(self).buffer_state() == old(self).buffer_state(),
    {
        self.send_ctl_msg(0x00, 0x00)
    }
}

/// The first message of a batch read from an input port: `None` where the
/// read gave nothing or an empty batch.
pub fn first_message(batch: Option<Vec<LaunchMessage>>) -> (r: Option<LaunchMessage>)
    ensures
        r == match batch {
            Some(v) => if v@.len() > 0 {
                Some(v@[0])
            } else {
                None::<LaunchMessage>
            },
            None => None::<LaunchMessage>,
        },
{
    match batch {
        None => None,
        Some(v) => {
            if v.len() > 0 {
                Some(v[0])
            } else {
                None
            }
        },
    }
}

/// The grid fill for `color` is 72 note-on writes of `color`, one per note
/// grid key and scene button, in row-major order: message `i` decodes to row
/// `i / 9`, column `i % 9`, so position (`row`, `col`) is message `9 * row + col`.
pub proof fn lemma_grid_messages_cover_grid(color: Color)
    ensures
        spec_grid_messages(color).len() == 72,
        forall|i: int|
            0 <= i < 72 ==> {
                &&& (#[trigger] spec_grid_messages(color)[i]).status
                    == MessageType::On.spec_status()
                &&& spec_grid_messages(color)[i].data2 == color.spec_byte()
                &&& spec_decode_coordinate(spec_decode_identifier(spec_grid_messages(color)[i]))
                    == spec_grid_pos(i)
            },
        forall|row: u8, col: u8|
            row < 8 && col < 9 ==> spec_decode_coordinate(
                spec_decode_identifier(#[trigger] spec_grid_messages(color)[9 * row + col]),
            ) == (MatPos { row, col }),
{
    assert forall|i: int| 0 <= i < 72 implies {
        &&& (#[trigger] spec_grid_messages(color)[i]).status == MessageType::On.spec_status()
        &&& spec_grid_messages(color)[i].data2 == color.spec_byte()
        &&& spec_decode_coordinate(spec_decode_identifier(spec_grid_messages(color)[i]))
            == spec_grid_pos(i)
    } by {
        lemma_note_grid_round_trip(spec_grid_pos(i), color);
    }
    assert forall|row: u8, col: u8| row < 8 && col < 9 implies spec_decode_coordinate(
        spec_decode_identifier(#[trigger] spec_grid_messages(color)[9 * row + col]),
    ) == (MatPos { row, col }) by {
        lemma_grid_index(row as int, col as int);
        lemma_note_grid_round_trip(MatPos { row, col }, color);
    }
}

/// The control row fill for `color` is 8 control changes of `color` on keys
/// 0x68 to 0x6F, in ascending order.
pub proof fn lemma_first_row_messages_ascend(color: Color)
    ensures
        spec_first_row_messages(color).len() == 8,
        forall|i: int|
            0 <= i < 8 ==> {
                &&& (#[trigger] spec_first_row_messages(color)[i]).status
                    == MessageType::Ctl.spec_status()
                &&& spec_first_row_messages(color)[i].data1 == 0x68 + i
                &&& spec_first_row_messages(color)[i].data2 == color.spec_byte()
            },
        forall|i: int, j: int|
            0 <= i < j < 8 ==> (#[trigger] spec_first_row_messages(color)[i]).data1
                < (#[trigger] spec_first_row_messages(color)[j]).data1,
{
}

/// A duty cycle is sent as that of its clamped numerator and denominator, on
/// key 0x1E or 0x1F, with a value below 0x80.
pub proof fn lemma_duty_cycle_clamps(numerator: u8, denominator: u8)
    ensures
        spec_duty_cycle_message(numerator, denominator) == spec_duty_cycle_message(
            spec_clamp_numerator(numerator),
            spec_clamp_denominator(denominator),
        ),
        1 <= spec_clamp_numerator(numerator) <= 16,
        3 <= spec_clamp_denominator(denominator) <= 18,
        spec_duty_cycle_message(numerator, denominator).data1 == 0x1e
            || spec_duty_cycle_message(numerator, denominator).data1 == 0x1f,
        spec_duty_cycle_message(numerator, denominator).data2 < 0x80,
{
}

/// The two nibbles of a buffer control byte are independent: the low one is
/// the bits of the setting, the high one the copy flag.
pub proof fn lemma_buffer_byte_nibbles(setting: BufferSetting, copy: bool)
    ensures
        spec_buffer_byte(setting, copy) & 0x0f == setting.spec_bits(),
        spec_buffer_byte(setting, copy) & 0xf0 == (if copy {
            0x30u8
        } else {
            0x20u8
        }),
{
    let h: u8 = if copy {
        0x30u8
    } else {
        0x20u8
    };
    let l: u8 = setting.spec_bits();
    assert((h | l) & 0x0f == l && (h | l) & 0xf0 == h) by (bit_vector)
        requires
            h == 0x20 || h == 0x30,
            l <= 5,
    ;
}

/// Swapping alternates the two double-buffering modes: after `OneActive` a
/// swap selects `ZeroActive`, after `ZeroActive` it selects `OneActive`, in
/// either case with the copy flag the swap was given.
pub proof fn lemma_swap_alternates(first_copy: bool, copy: bool)
    ensures
        spec_swap_target(spec_buffer_byte(BufferSetting::OneActive, first_copy))
            == BufferSetting::ZeroActive,
        spec_swap_target(spec_buffer_byte(BufferSetting::ZeroActive, first_copy))
            == BufferSetting::OneActive,
        ({
            let b = spec_buffer_byte(
                spec_swap_target(spec_buffer_byte(BufferSetting::OneActive, first_copy)),
                copy,
            );
            &&& b & 0x0f == BufferSetting::ZeroActive.spec_bits()
            &&& b & 0xf0 == (if copy {
                0x30u8
            } else {
                0x20u8
            })
        }),
{
    lemma_buffer_byte_nibbles(BufferSetting::OneActive, first_copy);
    lemma_buffer_byte_nibbles(BufferSetting::ZeroActive, first_copy);
    lemma_buffer_byte_nibbles(BufferSetting::ZeroActive, copy);
}

/// A note is sent with the bits 0x0C forced on in its velocity under buffer
/// 0 alone, and with its velocity unchanged while buffer 1 is shown in
/// double buffering.
pub proof fn lemma_velocity_forcing(on: bool, key: u8, vel: u8, b: u8)
    ensures
        b & 0x0f == BufferSetting::ZeroOnly.spec_bits() ==> spec_note_message(on, key, vel, b).data2
            == vel | 0x0c,
        b & 0x0f == BufferSetting::OneActive.spec_bits() ==> spec_note_message(
            on,
            key,
            vel,
            b,
        ).data2 == vel,
{
}

} // verus!
