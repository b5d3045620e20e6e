//! End-to-end programs: literal bytes loaded at 0x7C00 with ESP = 0x7C00,
//! run until EIP reaches 0 or the machine stops.

use x86emu::emulator::Emulator;
use x86emu::semantics::{Fault, RunStatus, StepResult};

const MEM: usize = 1024 * 1024;

fn loaded(program: &[u8]) -> Emulator {
    let mut emu = Emulator::new(MEM, 0x7C00, 0x7C00);
    emu.load_binary(&program.to_vec());
    emu
}

#[test]
fn immediate_load_and_near_jump() {
    // MOV EBX, 0x20; JMP rel32 0 — single-step checking, no clean end.
    let mut emu = loaded(&[0xBB, 0x20, 0x00, 0x00, 0x00, 0xE9, 0x00, 0x00, 0x00, 0x00]);
    assert_eq!(emu.step(), StepResult::Normal);
    assert_eq!(emu.get_register32(3), 0x20);
    assert_eq!(emu.get_eip(), 0x7C05);
    assert_eq!(emu.step(), StepResult::Normal);
    assert_eq!(emu.get_eip(), 0x7C0A);
    // The byte past the program is 0, which no opcode claims.
    assert_eq!(emu.step(), StepResult::Faulted(Fault::UnknownOpcode));
}

#[test]
fn arithmetic_and_ret_to_zero() {
    // PUSH 0; MOV EBX, 5; INC EBX; INC EBX; RET
    let mut emu = loaded(&[0x6A, 0x00, 0xBB, 0x05, 0x00, 0x00, 0x00, 0x43, 0x43, 0xC3]);
    assert_eq!(emu.run(1000), RunStatus::EndOfProgram);
    assert_eq!(emu.get_register32(3), 7);
    assert_eq!(emu.get_eip(), 0);
}

#[test]
fn cmp_jz_taken_skips_incs() {
    // MOV EAX, 0x2A; CMP EAX, 0x2A; JZ +3; INC EAX x3; PUSH 0; RET
    let mut emu = loaded(&[
        0xB8, 0x2A, 0x00, 0x00, 0x00, 0x3D, 0x2A, 0x00, 0x00, 0x00, 0x74, 0x03, 0x40, 0x40, 0x40,
        0x6A, 0x00, 0xC3,
    ]);
    assert_eq!(emu.run(1000), RunStatus::EndOfProgram);
    assert_eq!(emu.get_register32(0), 0x2A);
    assert!(emu.is_zero());
}

#[test]
fn cmp_jz_not_taken_runs_incs() {
    // As above but comparing against 0x2B: ZF = 0, the three INCs run.
    let mut emu = loaded(&[
        0xB8, 0x2A, 0x00, 0x00, 0x00, 0x3D, 0x2B, 0x00, 0x00, 0x00, 0x74, 0x03, 0x40, 0x40, 0x40,
        0x6A, 0x00, 0xC3,
    ]);
    assert_eq!(emu.run(1000), RunStatus::EndOfProgram);
    assert_eq!(emu.get_register32(0), 0x2D);
    assert!(!emu.is_zero());
}

#[test]
fn call_ret_balances_stack() {
    // CALL to a lone RET, which returns to PUSH 0; RET — ending at 0 with
    // the stack balanced.
    let mut emu = loaded(&[0xE8, 0x03, 0x00, 0x00, 0x00, 0x6A, 0x00, 0xC3, 0xC3]);
    assert_eq!(emu.step(), StepResult::Normal);
    assert_eq!(emu.get_eip(), 0x7C08);
    assert_eq!(emu.get_register32(4), 0x7BFC);
    assert_eq!(emu.get_memory32(0x7BFC), 0x7C05);
    assert_eq!(emu.step(), StepResult::Normal);
    assert_eq!(emu.get_eip(), 0x7C05);
    assert_eq!(emu.get_register32(4), 0x7C00);
    assert_eq!(emu.run(1000), RunStatus::EndOfProgram);
    assert_eq!(emu.get_register32(4), 0x7C00);
}

#[test]
fn call_ret_preserves_registers_and_flags() {
    let mut emu = loaded(&[0xE8, 0x03, 0x00, 0x00, 0x00, 0x6A, 0x00, 0xC3, 0xC3]);
    for i in 0..8 {
        if i != 4 {
            emu.set_register32(i, 0x1000 + i as u32);
        }
    }
    let result = (7u64).wrapping_sub(9u64);
    emu.update_eflags_sub(7, 9, result);
    let flags_before = (emu.is_carry(), emu.is_zero(), emu.is_sign(), emu.is_overflow());
    assert_eq!(emu.step(), StepResult::Normal);
    assert_eq!(emu.step(), StepResult::Normal);
    assert_eq!(emu.get_eip(), 0x7C05);
    for i in 0..8 {
        if i != 4 {
            assert_eq!(emu.get_register32(i), 0x1000 + i as u32);
        }
    }
    assert_eq!(emu.get_register32(4), 0x7C00);
    let flags_after = (emu.is_carry(), emu.is_zero(), emu.is_sign(), emu.is_overflow());
    assert_eq!(flags_before, flags_after);
}

#[test]
fn teletype_emits_sgr_wrapped_character() {
    // MOV AH, 0x0E; MOV AL, 'H'; MOV BL, 0x0F; INT 0x10; PUSH 0; RET
    let mut emu = loaded(&[0xB4, 0x0E, 0xB0, 0x48, 0xB3, 0x0F, 0xCD, 0x10, 0x6A, 0x00, 0xC3]);
    assert_eq!(emu.run(1000), RunStatus::EndOfProgram);
    assert_eq!(emu.take_output(), b"\x1b[1;37mH\x1b[0m".to_vec());
}

#[test]
fn teletype_color_mapping_dim_green() {
    // BL = 0x02: green without the bright bit.
    let mut emu = loaded(&[0xB4, 0x0E, 0xB0, 0x41, 0xB3, 0x02, 0xCD, 0x10, 0x6A, 0x00, 0xC3]);
    assert_eq!(emu.run(1000), RunStatus::EndOfProgram);
    assert_eq!(emu.take_output(), b"\x1b[0;32mA\x1b[0m".to_vec());
}

#[test]
fn teletype_high_byte_prints_as_utf8() {
    // AL = 0xFF prints as the character U+00FF, two bytes in UTF-8.
    let mut emu = loaded(&[0xB4, 0x0E, 0xB0, 0xFF, 0xB3, 0x07, 0xCD, 0x10, 0x6A, 0x00, 0xC3]);
    assert_eq!(emu.run(1000), RunStatus::EndOfProgram);
    assert_eq!(emu.take_output(), b"\x1b[0;37m\xc3\xbf\x1b[0m".to_vec());
}

#[test]
fn unknown_interrupt_is_reported_and_skipped() {
    let mut emu = loaded(&[0xCD, 0x11, 0x6A, 0x00, 0xC3]);
    assert_eq!(emu.step(), StepResult::UnknownInterrupt(0x11));
    assert_eq!(emu.get_eip(), 0x7C02);
    assert_eq!(emu.run(1000), RunStatus::EndOfProgram);
}

#[test]
fn unknown_bios_function_is_reported_and_skipped() {
    // AH = 0x02 is not a wired BIOS video function.
    let mut emu = loaded(&[0xB4, 0x02, 0xCD, 0x10, 0x6A, 0x00, 0xC3]);
    assert_eq!(emu.step(), StepResult::Normal);
    assert_eq!(emu.step(), StepResult::UnknownBiosFunction(0x02));
    assert_eq!(emu.get_eip(), 0x7C04);
    assert_eq!(emu.take_output(), Vec::<u8>::new());
}

#[test]
fn leave_restores_frame() {
    let mut emu = loaded(&[0xC9, 0x6A, 0x00, 0xC3]);
    emu.set_register32(5, 0x9000);
    emu.set_memory32(0x9000, 0x1234);
    assert_eq!(emu.step(), StepResult::Normal);
    assert_eq!(emu.get_register32(4), 0x9004);
    assert_eq!(emu.get_register32(5), 0x1234);
    assert_eq!(emu.get_eip(), 0x7C01);
}

#[test]
fn push_pop_registers_move_values() {
    // PUSH EAX; POP ECX
    let mut emu = loaded(&[0x50, 0x59, 0x6A, 0x00, 0xC3]);
    emu.set_register32(0, 0xFEEDFACE);
    assert_eq!(emu.run(1000), RunStatus::EndOfProgram);
    assert_eq!(emu.get_register32(1), 0xFEEDFACE);
    assert_eq!(emu.get_register32(4), 0x7C00);
}

#[test]
fn push_imm32_pushes_value() {
    let mut emu = loaded(&[0x68, 0x78, 0x56, 0x34, 0x12, 0x58, 0x6A, 0x00, 0xC3]);
    assert_eq!(emu.run(1000), RunStatus::EndOfProgram);
    assert_eq!(emu.get_register32(0), 0x12345678);
}

#[test]
fn inc_wraps_at_32_bits() {
    let mut emu = loaded(&[0x40, 0x6A, 0x00, 0xC3]);
    emu.set_register32(0, 0xFFFFFFFF);
    assert_eq!(emu.run(1000), RunStatus::EndOfProgram);
    assert_eq!(emu.get_register32(0), 0);
    // INC leaves the flags alone even on wraparound.
    assert!(!emu.is_zero() && !emu.is_carry());
}

#[test]
fn short_jump_backward_loops_until_fuel_runs_out() {
    // JMP rel8 -2: an instruction that jumps to itself.
    let mut emu = loaded(&[0xEB, 0xFE]);
    assert_eq!(emu.run(10), RunStatus::OutOfFuel);
    assert_eq!(emu.get_eip(), 0x7C00);
}

#[test]
fn eip_outside_memory_stops_the_run() {
    let mut emu = Emulator::new(0x1000, 0x1000, 0x800);
    assert_eq!(emu.run(10), RunStatus::EipOutOfRange);
    assert_eq!(emu.step(), StepResult::Faulted(Fault::OutOfBounds));
}

#[test]
fn stack_faults_leave_machine_unchanged() {
    // PUSH EAX with ESP = 2: no room below the stack pointer. The PUSH
    // byte is placed by hand since the loader targets 0x7C00.
    let mut emu = Emulator::new(0x1000, 0x800, 2);
    emu.set_memory8(0x800, 0x50);
    assert_eq!(emu.step(), StepResult::Faulted(Fault::OutOfBounds));
    assert_eq!(emu.get_eip(), 0x800);
    assert_eq!(emu.get_register32(4), 2);
    // RET with ESP four short of the end faults too.
    let mut emu2 = Emulator::new(0x1000, 0x800, 0xFFE);
    emu2.set_memory8(0x800, 0xC3);
    assert_eq!(emu2.step(), StepResult::Faulted(Fault::OutOfBounds));
    assert_eq!(emu2.get_register32(4), 0xFFE);
}
