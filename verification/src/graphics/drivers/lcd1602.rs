//! A 16x2 character display driven in 4-bit mode through an I2C port
//! expander. The driver computes the expander writes and the waits between
//! them; the firmware carries them out in order.
use vstd::prelude::*;
use vstd::utf8::encode_utf8;

verus! {

/// Register select: the byte is a character, not a command.
pub const RS_BIT: u8 = 0x01;

/// Read/write line (always low: the display is only written).
pub const RW_BIT: u8 = 0x02;

/// Enable line: the display latches the nibble on its falling edge.
pub const EN_BIT: u8 = 0x04;

/// Backlight on.
pub const BL_BIT: u8 = 0x08;

/// One step of talking to the display.
#[derive(Debug, Copy, Clone, PartialEq, Eq, Structural)]
pub enum LcdOp {
    /// Write this byte to the expander at this address.
    Write(u8, u8),
    /// Wait this many microseconds.
    Delay(u32),
}

pub struct Lcd1602 {
    /// The expander's I2C address.
    pub addr: u8,
}

/// Sending a nibble (high four bits of `nibble`): enable high, then low.
pub open spec fn nibble_ops(addr: u8, nibble: u8, rs: bool) -> Seq<LcdOp> {
    let data = nibble | BL_BIT | (if rs {
        RS_BIT
    } else {
        0u8
    });
    seq![LcdOp::Write(addr, data | EN_BIT), LcdOp::Delay(1), LcdOp::Write(addr, data), LcdOp::Delay(40)]
}

/// Sending a byte as a command (or a character when `rs`): high nibble,
/// then low nibble.
pub open spec fn command_ops(addr: u8, value: u8, rs: bool) -> Seq<LcdOp> {
    nibble_ops(addr, value & 0xF0, rs) + nibble_ops(addr, ((value << 4u8) & 0xF0) as u8, rs)
}

/// The display address of a column and row, held to the 16x2 grid.
pub open spec fn cursor_address(col: u8, row: u8) -> u8 {
    let c = if col > 15 {
        15u8
    } else {
        col
    };
    if row == 0 {
        c
    } else {
        (0x40 + c) as u8
    }
}

/// Sending the characters `bytes`.
pub open spec fn text_ops(addr: u8, bytes: Seq<u8>) -> Seq<LcdOp>
    decreases bytes.len(),
{
    if bytes.len() == 0 {
        Seq::empty()
    } else {
        text_ops(addr, bytes.drop_last()) + command_ops(addr, bytes.last(), true)
    }
}

/// Drawing `rows`, the `k`-th on display row `k` (rows past the second
/// land on the second).
pub open spec fn draw_ops(addr: u8, rows: Seq<Seq<u8>>) -> Seq<LcdOp>
    decreases rows.len(),
{
    if rows.len() == 0 {
        Seq::empty()
    } else {
        let k = (rows.len() - 1) as u8;
        draw_ops(addr, rows.drop_last()) + command_ops(addr, 0x80u8 | cursor_address(0, k), false)
            + text_ops(addr, rows.last())
    }
}

/// The bytes of each row, in order.
pub open spec fn row_bytes(rows: Seq<String>) -> Seq<Seq<u8>> {
    rows.map_values(|s: String| encode_utf8(s@))
}

/// The start-up sequence: power-up wait, the reset to 8-bit mode three
/// times, the switch to 4-bit mode, then two lines, display off, clear,
/// left-to-right entry and display on without cursor.
pub open spec fn init_ops(addr: u8) -> Seq<LcdOp> {
    seq![LcdOp::Delay(50_000)] + nibble_ops(addr, 0x30, false) + seq![LcdOp::Delay(4500)]
        + nibble_ops(addr, 0x30, false) + seq![LcdOp::Delay(4500)] + nibble_ops(addr, 0x30, false)
        + seq![LcdOp::Delay(150)] + nibble_ops(addr, 0x20, false) + seq![LcdOp::Delay(150)]
        + command_ops(addr, 0x28, false) + command_ops(addr, 0x08, false) + command_ops(addr, 0x01, false)
        + seq![LcdOp::Delay(2000)] + command_ops(addr, 0x06, false) + command_ops(addr, 0x0C, false)
}

/// Clearing the display.
pub open spec fn clear_ops(addr: u8) -> Seq<LcdOp> {
    command_ops(addr, 0x01, false) + seq![LcdOp::Delay(2000)]
}

impl Lcd1602 {
    pub fn new(addr: u8) -> (r: Self)
        ensures
            r.addr == addr,
    {
        Lcd1602 { addr }
    }

    fn send_nibble(&self, ops: &mut Vec<LcdOp>, nibble: u8, rs: bool)
        ensures
            final(ops)@ == old(ops)@ + nibble_ops(self.addr, nibble, rs),
    {
        let rs_bit = if rs {
            RS_BIT
        } else {
            0
        };
        let data: u8 = nibble | BL_BIT | rs_bit;
        ops.push(LcdOp::Write(self.addr, data | EN_BIT));
        ops.push(LcdOp::Delay(1));
        ops.push(LcdOp::Write(self.addr, data));
        ops.push(LcdOp::Delay(40));
        assert(ops@ =~= old(ops)@ + nibble_ops(self.addr, nibble, rs));
    }

    fn send_command(&self, ops: &mut Vec<LcdOp>, value: u8, rs: bool)
        ensures
            final(ops)@ == old(ops)@ + command_ops(self.addr, value, rs),
    {
        let high = value & 0xF0;
        let low = (value << 4) & 0xF0;
        self.send_nibble(ops, high, rs);
        self.send_nibble(ops, low, rs);
        assert(ops@ =~= old(ops)@ + command_ops(self.addr, value, rs));
    }

    fn set_cursor(&self, ops: &mut Vec<LcdOp>, col: u8, row: u8)
        ensures
            final(ops)@ == old(ops)@ + command_ops(self.addr, 0x80u8 | cursor_address(col, row), false),
    {
        let col = if col > 15 {
            15
        } else {
            col
        };
        let row = if row > 1 {
            1
        } else {
            row
        };
        let address = if row == 0 {
            col
        } else {
            0x40 + col
        };
        self.send_command(ops, 0x80 | address, false);
    }

    fn write(&self, ops: &mut Vec<LcdOp>, text: &str)
        ensures
            final(ops)@ == old(ops)@ + text_ops(self.addr, encode_utf8(text@)),
    {
        let bytes = text.as_bytes();
        let n = bytes.len();
        for i in 0..n
            invariant
                n == bytes@.len(),
                bytes@ == encode_utf8(text@),
                ops@ == old(ops)@ + text_ops(self.addr, bytes@.take(i as int)),
        {
            assert(bytes@.take(i + 1).drop_last() =~= bytes@.take(i as int));
            self.send_command(ops, bytes[i], true);
            assert(ops@ =~= old(ops)@ + text_ops(self.addr, bytes@.take(i + 1)));
        }
        assert(bytes@.take(n as int) =~= bytes@);
    }

    /// The start-up sequence.
    pub fn init(&self) -> (r: Vec<LcdOp>)
        ensures
            r@ == init_ops(self.addr),
    {
        let mut ops: Vec<LcdOp> = Vec::new();
        ops.push(LcdOp::Delay(50_000));
        self.send_nibble(&mut ops, 0x30, false);
        ops.push(LcdOp::Delay(4500));
        self.send_nibble(&mut ops, 0x30, false);
        ops.push(LcdOp::Delay(4500));
        self.send_nibble(&mut ops, 0x30, false);
        ops.push(LcdOp::Delay(150));
        self.send_nibble(&mut ops, 0x20, false);
        ops.push(LcdOp::Delay(150));
        self.send_command(&mut ops, 0x28, false);
        self.send_command(&mut ops, 0x08, false);
        self.send_command(&mut ops, 0x01, false);
        ops.push(LcdOp::Delay(2000));
        self.send_command(&mut ops, 0x06, false);
        self.send_command(&mut ops, 0x0C, false);
        assert(ops@ =~= init_ops(self.addr));
        ops
    }

    /// Draws `rows`, the first on the top line.
    pub fn draw(&self, rows: &Vec<String>) -> (r: Vec<LcdOp>)
        requires
            rows@.len() <= 256,
        ensures
            r@ == draw_ops(self.addr, row_bytes(rows@)),
    {
        let mut ops: Vec<LcdOp> = Vec::new();
        let n = rows.len();
        let mut i: usize = 0;
        while i < n
            invariant
                n == rows@.len(),
                n <= 256,
                i <= n,
                ops@ == draw_ops(self.addr, row_bytes(rows@.take(i as int))),
            decreases n - i,
        {
            let ghost before = row_bytes(rows@.take(i as int));
            assert(row_bytes(rows@.take(i + 1)) =~= before.push(encode_utf8(rows@[i as int]@)));
            self.set_cursor(&mut ops, 0, i as u8);
            self.write(&mut ops, rows[i].as_str());
            assert(row_bytes(rows@.take(i + 1)).drop_last() =~= before);
            assert(ops@ =~= draw_ops(self.addr, row_bytes(rows@.take(i + 1))));
            i = i + 1;
        }
        assert(rows@.take(n as int) =~= rows@);
        ops
    }

    /// Clears the display.
    pub fn clear(&self) -> (r: Vec<LcdOp>)
        ensures
            r@ == clear_ops(self.addr),
    {
        let mut ops: Vec<LcdOp> = Vec::new();
        self.send_command(&mut ops, 0x01, false);
        ops.push(LcdOp::Delay(2000));
        assert(ops@ =~= clear_ops(self.addr));
        ops
    }
}

} // verus!
