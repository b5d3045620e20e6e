//! ModR/M addressing in every supported mode, the group opcodes 0x83 and
//! 0xFF, and the faults on SIB operands and unknown sub-opcodes.

use x86emu::emulator::Emulator;
use x86emu::semantics::{Fault, StepResult};

const MEM: usize = 1024 * 1024;

fn loaded(program: &[u8]) -> Emulator {
    let mut emu = Emulator::new(MEM, 0x7C00, 0x7C00);
    emu.load_binary(&program.to_vec());
    emu
}

#[test]
fn mov_to_memory_register_indirect() {
    // MOV [EBX], EAX
    let mut emu = loaded(&[0x89, 0x03]);
    emu.set_register32(3, 0x1000);
    emu.set_register32(0, 0xDEADBEEF);
    assert_eq!(emu.step(), StepResult::Normal);
    assert_eq!(emu.get_memory32(0x1000), 0xDEADBEEF);
    assert_eq!(emu.get_eip(), 0x7C02);
}

#[test]
fn mov_from_memory_with_positive_disp8() {
    // MOV EAX, [EBX + 0x10]
    let mut emu = loaded(&[0x8B, 0x43, 0x10]);
    emu.set_register32(3, 0x1000);
    emu.set_memory32(0x1010, 0x13572468);
    assert_eq!(emu.step(), StepResult::Normal);
    assert_eq!(emu.get_register32(0), 0x13572468);
    assert_eq!(emu.get_eip(), 0x7C03);
}

#[test]
fn mov_from_memory_with_negative_disp8() {
    // MOV EAX, [EBX - 0x10]
    let mut emu = loaded(&[0x8B, 0x43, 0xF0]);
    emu.set_register32(3, 0x1000);
    emu.set_memory32(0x0FF0, 0x0BADF00D);
    assert_eq!(emu.step(), StepResult::Normal);
    assert_eq!(emu.get_register32(0), 0x0BADF00D);
}

#[test]
fn mov_from_memory_with_disp32() {
    // MOV ECX, [EBX + 0x100]
    let mut emu = loaded(&[0x8B, 0x8B, 0x00, 0x01, 0x00, 0x00]);
    emu.set_register32(3, 0x2000);
    emu.set_memory32(0x2100, 0x31415926);
    assert_eq!(emu.step(), StepResult::Normal);
    assert_eq!(emu.get_register32(1), 0x31415926);
    assert_eq!(emu.get_eip(), 0x7C06);
}

#[test]
fn mov_from_absolute_address() {
    // MOV EAX, [0x2000]
    let mut emu = loaded(&[0x8B, 0x05, 0x00, 0x20, 0x00, 0x00]);
    emu.set_memory32(0x2000, 0x55AA55AA);
    assert_eq!(emu.step(), StepResult::Normal);
    assert_eq!(emu.get_register32(0), 0x55AA55AA);
}

#[test]
fn mov_register_to_register() {
    // MOV EAX, EBX through MOV r/m32, r32 with mod = 3
    let mut emu = loaded(&[0x89, 0xD8]);
    emu.set_register32(3, 0x42424242);
    assert_eq!(emu.step(), StepResult::Normal);
    assert_eq!(emu.get_register32(0), 0x42424242);
}

#[test]
fn mov_byte_register_forms() {
    // MOV AL, CL (88 C8), then MOV DL, [EBX] (8A 13)
    let mut emu = loaded(&[0x88, 0xC8, 0x8A, 0x13]);
    emu.set_register32(1, 0x77);
    emu.set_register32(0, 0xAABBCC00);
    emu.set_register32(3, 0x3000);
    emu.set_memory8(0x3000, 0x5C);
    assert_eq!(emu.step(), StepResult::Normal);
    assert_eq!(emu.get_register32(0), 0xAABBCC77);
    assert_eq!(emu.step(), StepResult::Normal);
    assert_eq!(emu.get_register32(2) & 0xFF, 0x5C);
}

#[test]
fn mov_byte_to_memory() {
    // MOV [EBX], AH (88 23: reg = 4 = AH)
    let mut emu = loaded(&[0x88, 0x23]);
    emu.set_register32(0, 0x0000EE00);
    emu.set_register32(3, 0x4000);
    assert_eq!(emu.step(), StepResult::Normal);
    assert_eq!(emu.get_memory8(0x4000), 0xEE);
}

#[test]
fn add_rm32_r32_wraps_and_keeps_flags() {
    // ADD EAX, EBX (01 D8)
    let mut emu = loaded(&[0x01, 0xD8]);
    emu.set_register32(0, 0xFFFFFFFF);
    emu.set_register32(3, 2);
    assert_eq!(emu.step(), StepResult::Normal);
    assert_eq!(emu.get_register32(0), 1);
    assert!(!emu.is_carry() && !emu.is_zero());
}

#[test]
fn add_into_memory_operand() {
    // ADD [EBX], ECX (01 0B)
    let mut emu = loaded(&[0x01, 0x0B]);
    emu.set_register32(3, 0x5000);
    emu.set_register32(1, 7);
    emu.set_memory32(0x5000, 35);
    assert_eq!(emu.step(), StepResult::Normal);
    assert_eq!(emu.get_memory32(0x5000), 42);
}

#[test]
fn group83_add_does_not_touch_flags() {
    // ADD EAX, imm8 (83 C0 05)
    let mut emu = loaded(&[0x83, 0xC0, 0x05]);
    emu.set_register32(0, 10);
    assert_eq!(emu.step(), StepResult::Normal);
    assert_eq!(emu.get_register32(0), 15);
    assert!(!emu.is_zero());
    assert_eq!(emu.get_eip(), 0x7C03);
}

#[test]
fn group83_add_sign_extends_imm8() {
    // ADD EAX, -1 (83 C0 FF)
    let mut emu = loaded(&[0x83, 0xC0, 0xFF]);
    emu.set_register32(0, 10);
    assert_eq!(emu.step(), StepResult::Normal);
    assert_eq!(emu.get_register32(0), 9);
}

#[test]
fn group83_sub_updates_flags() {
    // SUB EAX, imm8 (83 E8 05)
    let mut emu = loaded(&[0x83, 0xE8, 0x05]);
    emu.set_register32(0, 5);
    assert_eq!(emu.step(), StepResult::Normal);
    assert_eq!(emu.get_register32(0), 0);
    assert!(emu.is_zero());
    assert!(!emu.is_carry());
}

#[test]
fn group83_sub_borrow_sets_carry() {
    // SUB EAX, 5 with EAX = 3: wraps and borrows.
    let mut emu = loaded(&[0x83, 0xE8, 0x05]);
    emu.set_register32(0, 3);
    assert_eq!(emu.step(), StepResult::Normal);
    assert_eq!(emu.get_register32(0), 0xFFFFFFFE);
    assert!(emu.is_carry());
    assert!(emu.is_sign());
}

#[test]
fn group83_cmp_only_sets_flags() {
    // CMP EAX, imm8 (83 F8 05)
    let mut emu = loaded(&[0x83, 0xF8, 0x05]);
    emu.set_register32(0, 5);
    assert_eq!(emu.step(), StepResult::Normal);
    assert_eq!(emu.get_register32(0), 5);
    assert!(emu.is_zero());
}

#[test]
fn group83_on_memory_operand() {
    // SUB dword [EBX], 1 (83 2B 01)
    let mut emu = loaded(&[0x83, 0x2B, 0x01]);
    emu.set_register32(3, 0x6000);
    emu.set_memory32(0x6000, 1);
    assert_eq!(emu.step(), StepResult::Normal);
    assert_eq!(emu.get_memory32(0x6000), 0);
    assert!(emu.is_zero());
    assert_eq!(emu.get_eip(), 0x7C03);
}

#[test]
fn group83_unknown_subopcode_faults() {
    // 83 /1 (OR) is outside the subset.
    let mut emu = loaded(&[0x83, 0xC8, 0x01]);
    assert_eq!(emu.step(), StepResult::Faulted(Fault::UnsupportedGroupOp));
    assert_eq!(emu.get_eip(), 0x7C00);
}

#[test]
fn group_ff_inc_memory() {
    // INC dword [EBX] (FF 03)
    let mut emu = loaded(&[0xFF, 0x03]);
    emu.set_register32(3, 0x7000);
    emu.set_memory32(0x7000, 0xFFFFFFFF);
    assert_eq!(emu.step(), StepResult::Normal);
    assert_eq!(emu.get_memory32(0x7000), 0);
}

#[test]
fn group_ff_inc_register() {
    // INC EAX through the group form (FF C0)
    let mut emu = loaded(&[0xFF, 0xC0]);
    emu.set_register32(0, 41);
    assert_eq!(emu.step(), StepResult::Normal);
    assert_eq!(emu.get_register32(0), 42);
}

#[test]
fn group_ff_unknown_subopcode_faults() {
    // FF /1 (DEC) is outside the subset.
    let mut emu = loaded(&[0xFF, 0xC8]);
    assert_eq!(emu.step(), StepResult::Faulted(Fault::UnsupportedGroupOp));
}

#[test]
fn mov_rm32_imm32_to_register_and_memory() {
    // MOV ECX, 0x01020304 (C7 C1), then MOV [EBX], 0x0A0B0C0D (C7 03)
    let mut emu = loaded(&[
        0xC7, 0xC1, 0x04, 0x03, 0x02, 0x01, 0xC7, 0x03, 0x0D, 0x0C, 0x0B, 0x0A,
    ]);
    emu.set_register32(3, 0x8000);
    assert_eq!(emu.step(), StepResult::Normal);
    assert_eq!(emu.get_register32(1), 0x01020304);
    assert_eq!(emu.get_eip(), 0x7C06);
    assert_eq!(emu.step(), StepResult::Normal);
    assert_eq!(emu.get_memory32(0x8000), 0x0A0B0C0D);
    assert_eq!(emu.get_eip(), 0x7C0C);
}

#[test]
fn sib_operand_faults_cleanly() {
    // MOV [..SIB..], EAX (89 04 ..): mod = 0, rm = 4 needs the SIB byte.
    let mut emu = loaded(&[0x89, 0x04, 0x00]);
    assert_eq!(emu.step(), StepResult::Faulted(Fault::SibUnsupported));
    assert_eq!(emu.get_eip(), 0x7C00);
}

#[test]
fn memory_operand_out_of_bounds_faults() {
    // MOV EAX, [0x000FFFFE]: the last word would cross the 1 MiB end.
    let mut emu = loaded(&[0x8B, 0x05, 0xFE, 0xFF, 0x0F, 0x00]);
    assert_eq!(emu.step(), StepResult::Faulted(Fault::OutOfBounds));
    assert_eq!(emu.get_eip(), 0x7C00);
    assert_eq!(emu.get_register32(0), 0);
}

#[test]
fn cmp_r32_rm32_compares_register_to_memory() {
    // CMP EAX, [EBX] (3B 03)
    let mut emu = loaded(&[0x3B, 0x03]);
    emu.set_register32(0, 7);
    emu.set_register32(3, 0x9000);
    emu.set_memory32(0x9000, 9);
    assert_eq!(emu.step(), StepResult::Normal);
    assert!(emu.is_carry());
    assert!(!emu.is_zero());
    assert_eq!(emu.get_register32(0), 7);
}
