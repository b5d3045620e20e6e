//! The BIOS video service reached through `INT 0x10`.
//!
//! Only function AH = 0x0E (teletype output) is wired: the character in AL
//! goes to COM1 wrapped in a bright+color SGR prefix chosen by the low
//! nibble of BL and a reset suffix. Any other AH is reported and skipped.

use vstd::prelude::*;

use crate::emulator::Emulator;
use crate::io::io_out8;
use crate::register::Register8;
use crate::semantics::{MachineView, StepResult, COM1_PORT};

verus! {

/// The terminal palette code (without its leading '3') for BIOS color
/// bits 0..2: the BIOS order black, blue, green, cyan, red, magenta,
/// yellow, white laid onto the terminal order.
pub open spec fn term_color_digit(c: u8) -> u8 {
    if c == 0 {
        0
    } else if c == 1 {
        4
    } else if c == 2 {
        2
    } else if c == 3 {
        6
    } else if c == 4 {
        1
    } else if c == 5 {
        5
    } else if c == 6 {
        3
    } else {
        7
    }
}

/// The byte in AL printed as a character: the UTF-8 encoding of the
/// Unicode scalar with that value (one byte below 0x80, two bytes above).
pub open spec fn utf8_char_bytes(c: u8) -> Seq<u8> {
    if c < 0x80 {
        seq![c]
    } else {
        seq![(0xC0 | (c >> 6u8)) as u8, (0x80 | (c & 0x3F)) as u8]
    }
}

/// Everything one teletype call sends to COM1: ESC '[' bright ';' '3'
/// color 'm', the character, then the reset ESC '[' '0' 'm'. The bright
/// attribute is 1 exactly when bit 3 of the color nibble is set.
pub open spec fn teletype_bytes(al: u8, bl: u8) -> Seq<u8> {
    let color = bl & 0x0F;
    let bright: u8 = if color & 8 != 0 {
        1
    } else {
        0
    };
    seq![
        0x1Bu8,
        0x5B,
        (0x30 + bright) as u8,
        0x3B,
        0x33,
        (0x30 + term_color_digit(color & 7)) as u8,
        0x6D,
    ] + utf8_char_bytes(al) + seq![0x1Bu8, 0x5B, 0x30, 0x6D]
}

/// What the BIOS video service does to a state (EIP already moved past
/// the INT instruction): teletype output for AH = 0x0E, a report and no
/// change for any other AH.
pub open spec fn bios_video_res(s: MachineView) -> (MachineView, StepResult) {
    let func = s.reg8(4);
    if func == 0x0E {
        (MachineView { output: s.output + teletype_bytes(s.reg8(0), s.reg8(3)), ..s },
        StepResult::Normal)
    } else {
        (s, StepResult::UnknownBiosFunction(func))
    }
}

/// Sends each byte of `s` to COM1 in order.
pub fn put_string(emu: &mut Emulator, s: &Vec<u8>)
    requires
        old(emu)@.wf(),
    ensures
        final(emu)@ == (MachineView { output: old(emu)@.output + s@, ..old(emu)@ }),
        final(emu).instructions@ == old(emu).instructions@,
{
    let mut i: usize = 0;
    while i < s.len()
        invariant
            i <= s@.len(),
            emu@.wf(),
            emu@ == (MachineView { output: old(emu)@.output + s@.take(i as int), ..old(emu)@ }),
            emu.instructions@ == old(emu).instructions@,
        decreases s@.len() - i,
    {
        io_out8(emu, COM1_PORT, s[i]);
        proof {
            assert(old(emu)@.output + s@.take(i as int) + seq![s@[i as int]] =~= old(emu)@.output
                + s@.take(i + 1));
        }
        i = i + 1;
    }
    proof {
        assert(s@.take(s@.len() as int) =~= s@);
    }
}

/// The teletype function itself: builds the SGR-wrapped character and
/// sends it to COM1.
fn bios_video_teletype(emu: &mut Emulator)
    requires
        old(emu)@.wf(),
    ensures
        final(emu)@ == (MachineView {
            output: old(emu)@.output + teletype_bytes(old(emu)@.reg8(0), old(emu)@.reg8(3)),
            ..old(emu)@
        }),
        final(emu).instructions@ == old(emu).instructions@,
{
    let color: u8 = emu.get_register8(Register8::Bl) & 0x0F;
    let ch: u8 = emu.get_register8(Register8::Al);
    let digit: u8 = term_color(color & 7);
    let bright: u8 = if color & 8 != 0 {
        1
    } else {
        0
    };
    let mut buf: Vec<u8> = Vec::new();
    buf.push(0x1B);
    buf.push(0x5B);
    buf.push(0x30 + bright);
    buf.push(0x3B);
    buf.push(0x33);
    buf.push(0x30 + digit);
    buf.push(0x6D);
    if ch < 0x80 {
        buf.push(ch);
    } else {
        buf.push(0xC0 | (ch >> 6));
        buf.push(0x80 | (ch & 0x3F));
    }
    buf.push(0x1B);
    buf.push(0x5B);
    buf.push(0x30);
    buf.push(0x6D);
    proof {
        assert(buf@ =~= teletype_bytes(old(emu)@.reg8(0), old(emu)@.reg8(3)));
    }
    put_string(emu, &buf);
}

/// The executable twin of `term_color_digit`.
fn term_color(c: u8) -> (r: u8)
    ensures
        r == term_color_digit(c),
{
    if c == 0 {
        0
    } else if c == 1 {
        4
    } else if c == 2 {
        2
    } else if c == 3 {
        6
    } else if c == 4 {
        1
    } else if c == 5 {
        5
    } else if c == 6 {
        3
    } else {
        7
    }
}

/// The BIOS video dispatch on AH.
pub fn bios_video(emu: &mut Emulator) -> (r: StepResult)
    requires
        old(emu)@.wf(),
    ensures
        final(emu)@ == bios_video_res(old(emu)@).0,
        r == bios_video_res(old(emu)@).1,
        final(emu).instructions@ == old(emu).instructions@,
{
    let func: u8 = emu.get_register8(Register8::Ah);
    if func == 0x0E {
        bios_video_teletype(emu);
        StepResult::Normal
    } else {
        StepResult::UnknownBiosFunction(func)
    }
}

} // verus!
