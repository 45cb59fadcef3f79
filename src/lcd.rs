use vstd::prelude::*;

verus! {

/// Clears the display and returns the cursor home.
pub const LCD_CLEARDISPLAY: u8 = 0x01;

pub const LCD_ENTRYMODESET: u8 = 0x04;

pub const LCD_DISPLAYCONTROL: u8 = 0x08;

pub const LCD_FUNCTIONSET: u8 = 0x20;

/// Sets the DDRAM address, i.e. the cursor position.
pub const LCD_SETDDRAMADDR: u8 = 0x80;

pub const LCD_ENTRYLEFT: u8 = 0x02;

pub const LCD_DISPLAYON: u8 = 0x04;

pub const LCD_CURSOROFF: u8 = 0x00;

pub const LCD_BLINKOFF: u8 = 0x00;

pub const LCD_4BITMODE: u8 = 0x00;

pub const LCD_2LINE: u8 = 0x08;

pub const LCD_5X8DOTS: u8 = 0x00;

/// Enable line of the I2C expander.
pub const EN: u8 = 0x04;

/// Register-select line: set for character data, clear for commands.
pub const RS: u8 = 0x01;

/// Backlight line, kept on in every write.
pub const BACKLIGHT: u8 = 0x08;

/// One step of driving a character LCD through its I2C expander.
#[derive(Clone, Copy, Debug, PartialEq, Eq, Structural)]
pub enum LcdStep {
    /// Write this byte to the expander.
    Write(u8),
    /// Wait at least this many microseconds.
    WaitMicros(u32),
}

/// Puts `data` on the lines with the backlight on.
pub open spec fn write_byte(data: u8) -> LcdStep {
    LcdStep::Write(data | BACKLIGHT)
}

/// Latches a nibble: `data` on the upper four lines, then a pulse of the
/// enable line.
pub open spec fn nibble(data: u8) -> Seq<LcdStep> {
    seq![
        write_byte(data),
        write_byte(data | EN),
        LcdStep::WaitMicros(1),
        write_byte(data & !EN),
        LcdStep::WaitMicros(50),
    ]
}

/// A byte in 4-bit mode: its high nibble, then its low nibble, each with the
/// register-select bits `mode`.
pub open spec fn byte_steps(data: u8, mode: u8) -> Seq<LcdStep> {
    nibble(((data & 0xF0) | mode) as u8) + nibble((((data << 4u8) & 0xF0) | mode) as u8)
}

/// A command byte and the time the controller needs for it.
pub open spec fn command_seq(cmd: u8) -> Seq<LcdStep> {
    byte_steps(cmd, 0).push(LcdStep::WaitMicros(100))
}

/// A character byte and the time the controller needs for it.
pub open spec fn char_seq(ch: u8) -> Seq<LcdStep> {
    byte_steps(ch, RS).push(LcdStep::WaitMicros(100))
}

/// Clearing the display.
pub open spec fn clear_seq() -> Seq<LcdStep> {
    command_seq(LCD_CLEARDISPLAY).push(LcdStep::WaitMicros(2000))
}

/// Power-on setup: the 4-bit handshake, two lines of 5x8 dots, display on
/// without cursor, cleared, text running left to right.
pub open spec fn init_seq() -> Seq<LcdStep> {
    seq![LcdStep::WaitMicros(50000)] + nibble(0x30) + seq![LcdStep::WaitMicros(5000)] + nibble(
        0x30,
    ) + seq![LcdStep::WaitMicros(150)] + nibble(0x30) + seq![LcdStep::WaitMicros(150)] + nibble(
        0x20,
    ) + seq![LcdStep::WaitMicros(150)] + command_seq(
        (LCD_FUNCTIONSET | LCD_4BITMODE | LCD_2LINE | LCD_5X8DOTS) as u8,
    ) + command_seq((LCD_DISPLAYCONTROL | LCD_DISPLAYON | LCD_CURSOROFF | LCD_BLINKOFF) as u8)
        + clear_seq() + command_seq((LCD_ENTRYMODESET | LCD_ENTRYLEFT) as u8)
}

/// DDRAM address of the first column of `row`.
pub open spec fn row_offset(row: u8) -> u8 {
    if row == 0 {
        0x00
    } else {
        0x40
    }
}

/// Moving the cursor to `col` of `row`.
pub open spec fn set_cursor_seq(col: u8, row: u8) -> Seq<LcdStep> {
    command_seq((LCD_SETDDRAMADDR | ((row_offset(row) + col) as u8)) as u8)
}

/// Writing the ASCII characters of `text`; others are skipped.
pub open spec fn print_seq(text: Seq<char>) -> Seq<LcdStep>
    decreases text.len(),
{
    if text.len() == 0 {
        seq![]
    } else {
        let c = text.last();
        print_seq(text.drop_last()) + if (c as u32) < 128 {
            char_seq(c as u8)
        } else {
            seq![]
        }
    }
}

fn push_nibble(out: &mut Vec<LcdStep>, data: u8)
    ensures
        final(out)@ == old(out)@ + nibble(data),
{
    out.push(LcdStep::Write(data | BACKLIGHT));
    out.push(LcdStep::Write((data | EN) | BACKLIGHT));
    out.push(LcdStep::WaitMicros(1));
    out.push(LcdStep::Write((data & !EN) | BACKLIGHT));
    out.push(LcdStep::WaitMicros(50));
    assert(final(out)@ =~= old(out)@ + nibble(data));
}

fn push_byte(out: &mut Vec<LcdStep>, data: u8, mode: u8)
    ensures
        final(out)@ == old(out)@ + byte_steps(data, mode),
{
    push_nibble(out, (data & 0xF0) | mode);
    push_nibble(out, ((data << 4u8) & 0xF0) | mode);
    assert(final(out)@ =~= old(out)@ + byte_steps(data, mode));
}

fn push_command(out: &mut Vec<LcdStep>, cmd: u8)
    ensures
        final(out)@ == old(out)@ + command_seq(cmd),
{
    push_byte(out, cmd, 0);
    out.push(LcdStep::WaitMicros(100));
    assert(final(out)@ =~= old(out)@ + command_seq(cmd));
}

fn push_char(out: &mut Vec<LcdStep>, ch: u8)
    ensures
        final(out)@ == old(out)@ + char_seq(ch),
{
    push_byte(out, ch, RS);
    out.push(LcdStep::WaitMicros(100));
    assert(final(out)@ =~= old(out)@ + char_seq(ch));
}

fn push_clear(out: &mut Vec<LcdStep>)
    ensures
        final(out)@ == old(out)@ + clear_seq(),
{
    push_command(out, LCD_CLEARDISPLAY);
    out.push(LcdStep::WaitMicros(2000));
    assert(final(out)@ =~= old(out)@ + clear_seq());
}

/// The steps that bring the display up.
pub fn init_steps() -> (r: Vec<LcdStep>)
    ensures
        r@ == init_seq(),
{
    let mut out: Vec<LcdStep> = Vec::new();
    out.push(LcdStep::WaitMicros(50000));
    push_nibble(&mut out, 0x30);
    out.push(LcdStep::WaitMicros(5000));
    push_nibble(&mut out, 0x30);
    out.push(LcdStep::WaitMicros(150));
    push_nibble(&mut out, 0x30);
    out.push(LcdStep::WaitMicros(150));
    push_nibble(&mut out, 0x20);
    out.push(LcdStep::WaitMicros(150));
    push_command(&mut out, LCD_FUNCTIONSET | LCD_4BITMODE | LCD_2LINE | LCD_5X8DOTS);
    push_command(&mut out, LCD_DISPLAYCONTROL | LCD_DISPLAYON | LCD_CURSOROFF | LCD_BLINKOFF);
    push_clear(&mut out);
    push_command(&mut out, LCD_ENTRYMODESET | LCD_ENTRYLEFT);
    assert(out@ =~= init_seq());
    out
}

/// The steps that clear the display.
pub fn clear_steps() -> (r: Vec<LcdStep>)
    ensures
        r@ == clear_seq(),
{
    let mut out: Vec<LcdStep> = Vec::new();
    push_clear(&mut out);
    assert(out@ =~= clear_seq());
    out
}

/// The steps that move the cursor to `col` of `row` (row 0 or 1).
pub fn set_cursor_steps(col: u8, row: u8) -> (r: Vec<LcdStep>)
    requires
        row < 2,
        row_offset(row) + col <= 0xFF,
    ensures
        r@ == set_cursor_seq(col, row),
{
    let offset: u8 = if row == 0 {
        0x00
    } else {
        0x40
    };
    let mut out: Vec<LcdStep> = Vec::new();
    push_command(&mut out, LCD_SETDDRAMADDR | (offset + col));
    assert(out@ =~= set_cursor_seq(col, row));
    out
}

/// The steps that write `text` at the cursor, skipping characters outside
/// ASCII.
pub fn print_steps(text: &str) -> (r: Vec<LcdStep>)
    ensures
        r@ == print_seq(text@),
{
    let n = text.unicode_len();
    let mut out: Vec<LcdStep> = Vec::new();
    let mut i: usize = 0;
    while i < n
        invariant
            n == text@.len(),
            i <= n,
            out@ == print_seq(text@.subrange(0, i as int)),
        decreases n - i,
    {
        let c = text.get_char(i);
        if (c as u32) < 128 {
            push_char(&mut out, c as u8);
        }
        assert(text@.subrange(0, i + 1).drop_last() =~= text@.subrange(0, i as int));
        i = i + 1;
    }
    assert(text@.subrange(0, n as int) =~= text@);
    out
}

} // verus!
