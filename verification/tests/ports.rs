//! Port I/O through the COM1 byte queues: IN waits for queued input and
//! consumes it in order, OUT appends to the output queue, and every other
//! port reads zero and swallows writes.

use x86emu::emulator::Emulator;
use x86emu::semantics::{RunStatus, StepResult};

const MEM: usize = 1024 * 1024;

fn loaded(program: &[u8]) -> Emulator {
    let mut emu = Emulator::new(MEM, 0x7C00, 0x7C00);
    emu.load_binary(&program.to_vec());
    emu
}

#[test]
fn in_on_com1_requests_then_consumes_input() {
    // MOV EDX, 0x3F8; IN AL, DX
    let mut emu = loaded(&[0xBA, 0xF8, 0x03, 0x00, 0x00, 0xEC]);
    assert_eq!(emu.step(), StepResult::Normal);
    assert_eq!(emu.step(), StepResult::InputRequested);
    // Nothing moved: the same step succeeds once a byte is queued.
    assert_eq!(emu.get_eip(), 0x7C05);
    emu.push_input(0x41);
    assert_eq!(emu.step(), StepResult::Normal);
    assert_eq!(emu.get_register32(0) & 0xFF, 0x41);
    assert_eq!(emu.get_eip(), 0x7C06);
}

#[test]
fn in_consumes_queued_bytes_front_first() {
    // MOV EDX, 0x3F8; IN; MOV BL, AL; IN
    let mut emu = loaded(&[0xBA, 0xF8, 0x03, 0x00, 0x00, 0xEC, 0x88, 0xC3, 0xEC]);
    emu.push_input(0x10);
    emu.push_input(0x20);
    assert_eq!(emu.step(), StepResult::Normal);
    assert_eq!(emu.step(), StepResult::Normal);
    assert_eq!(emu.step(), StepResult::Normal);
    assert_eq!(emu.step(), StepResult::Normal);
    assert_eq!(emu.get_register32(3) & 0xFF, 0x10);
    assert_eq!(emu.get_register32(0) & 0xFF, 0x20);
}

#[test]
fn in_on_unwired_port_reads_zero() {
    // MOV EDX, 0x100; IN AL, DX — with AL primed to something else.
    let mut emu = loaded(&[0xBA, 0x00, 0x01, 0x00, 0x00, 0xEC]);
    emu.set_register32(0, 0xFF);
    emu.push_input(0x41);
    assert_eq!(emu.step(), StepResult::Normal);
    assert_eq!(emu.step(), StepResult::Normal);
    assert_eq!(emu.get_register32(0) & 0xFF, 0);
    // The queued byte is still there for a later COM1 read.
    emu.set_register32(2, 0x3F8);
    emu.set_memory8(0x7C06, 0xEC);
    assert_eq!(emu.step(), StepResult::Normal);
    assert_eq!(emu.get_register32(0) & 0xFF, 0x41);
}

#[test]
fn run_pauses_awaiting_input() {
    // MOV EDX, 0x3F8; IN AL, DX — the run pauses rather than guessing.
    let mut emu = loaded(&[0xBA, 0xF8, 0x03, 0x00, 0x00, 0xEC, 0x6A, 0x00, 0xC3]);
    assert_eq!(emu.run(100), RunStatus::AwaitingInput);
    emu.push_input(0x5A);
    assert_eq!(emu.run(100), RunStatus::EndOfProgram);
    assert_eq!(emu.get_register32(0) & 0xFF, 0x5A);
}

#[test]
fn out_on_com1_appends_to_output() {
    // MOV EDX, 0x3F8; MOV AL, 'x'; OUT DX, AL; OUT DX, AL
    let mut emu = loaded(&[0xBA, 0xF8, 0x03, 0x00, 0x00, 0xB0, 0x78, 0xEE, 0xEE]);
    assert_eq!(emu.run(3), RunStatus::OutOfFuel);
    assert_eq!(emu.take_output(), vec![0x78, 0x78]);
    assert_eq!(emu.take_output(), Vec::<u8>::new());
}

#[test]
fn out_on_unwired_port_is_silent() {
    // MOV EDX, 0x200; MOV AL, 'x'; OUT DX, AL
    let mut emu = loaded(&[0xBA, 0x00, 0x02, 0x00, 0x00, 0xB0, 0x78, 0xEE]);
    assert_eq!(emu.step(), StepResult::Normal);
    assert_eq!(emu.step(), StepResult::Normal);
    assert_eq!(emu.step(), StepResult::Normal);
    assert_eq!(emu.take_output(), Vec::<u8>::new());
    assert_eq!(emu.get_eip(), 0x7C08);
}

#[test]
fn dx_port_uses_low_sixteen_bits() {
    // EDX = 0xABCD03F8: the high half is ignored, so COM1 is addressed.
    let mut emu = loaded(&[0xB0, 0x21, 0xEE]);
    emu.set_register32(2, 0xABCD03F8);
    assert_eq!(emu.step(), StepResult::Normal);
    assert_eq!(emu.step(), StepResult::Normal);
    assert_eq!(emu.take_output(), vec![0x21]);
}
