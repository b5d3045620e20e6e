//! The conditional-jump family: after a CMP with known operands, each Jcc
//! either takes the displacement or advances by its fixed two bytes.

use x86emu::emulator::Emulator;
use x86emu::semantics::StepResult;

const MEM: usize = 1024 * 1024;

/// Runs `CMP EAX, imm32` with EAX = `eax`, then the given short-jump
/// opcode with displacement 5, and returns the EIP the jump leaves.
fn eip_after_jcc(eax: u32, imm: u32, jcc: u8) -> u32 {
    let mut emu = Emulator::new(MEM, 0x7C00, 0x7C00);
    let ib = imm.to_le_bytes();
    emu.load_binary(&vec![0x3D, ib[0], ib[1], ib[2], ib[3], jcc, 0x05]);
    emu.set_register32(0, eax);
    assert_eq!(emu.step(), StepResult::Normal);
    assert_eq!(emu.get_eip(), 0x7C05);
    assert_eq!(emu.step(), StepResult::Normal);
    emu.get_eip()
}

const TAKEN: u32 = 0x7C05 + 2 + 5;
const NOT_TAKEN: u32 = 0x7C05 + 2;

#[test]
fn jz_follows_zero_flag() {
    assert_eq!(eip_after_jcc(5, 5, 0x74), TAKEN);
    assert_eq!(eip_after_jcc(5, 6, 0x74), NOT_TAKEN);
}

#[test]
fn jnz_follows_inverted_zero_flag() {
    assert_eq!(eip_after_jcc(5, 6, 0x75), TAKEN);
    assert_eq!(eip_after_jcc(5, 5, 0x75), NOT_TAKEN);
}

#[test]
fn jc_follows_carry_flag() {
    assert_eq!(eip_after_jcc(0, 1, 0x72), TAKEN);
    assert_eq!(eip_after_jcc(1, 0, 0x72), NOT_TAKEN);
}

#[test]
fn jnc_follows_inverted_carry_flag() {
    assert_eq!(eip_after_jcc(1, 0, 0x73), TAKEN);
    assert_eq!(eip_after_jcc(0, 1, 0x73), NOT_TAKEN);
}

#[test]
fn js_follows_sign_flag() {
    assert_eq!(eip_after_jcc(0, 1, 0x78), TAKEN);
    assert_eq!(eip_after_jcc(1, 0, 0x78), NOT_TAKEN);
}

#[test]
fn jns_follows_inverted_sign_flag() {
    assert_eq!(eip_after_jcc(1, 0, 0x79), TAKEN);
    assert_eq!(eip_after_jcc(0, 1, 0x79), NOT_TAKEN);
}

#[test]
fn jo_follows_overflow_flag() {
    assert_eq!(eip_after_jcc(0x80000000, 1, 0x70), TAKEN);
    assert_eq!(eip_after_jcc(0, 0, 0x70), NOT_TAKEN);
}

#[test]
fn jno_follows_inverted_overflow_flag() {
    assert_eq!(eip_after_jcc(0, 0, 0x71), TAKEN);
    assert_eq!(eip_after_jcc(0x80000000, 1, 0x71), NOT_TAKEN);
}

#[test]
fn jl_takes_when_signed_less() {
    assert_eq!(eip_after_jcc(0, 1, 0x7C), TAKEN);
    // -1 < 1 signed, though 0xFFFFFFFF > 1 unsigned.
    assert_eq!(eip_after_jcc(0xFFFFFFFF, 1, 0x7C), TAKEN);
    assert_eq!(eip_after_jcc(1, 0, 0x7C), NOT_TAKEN);
}

#[test]
fn jle_takes_on_equal_or_signed_less() {
    assert_eq!(eip_after_jcc(5, 5, 0x7E), TAKEN);
    assert_eq!(eip_after_jcc(0, 1, 0x7E), TAKEN);
    assert_eq!(eip_after_jcc(1, 0, 0x7E), NOT_TAKEN);
}

#[test]
fn backward_displacement_is_sign_extended() {
    // JZ -4 after an equal CMP of AL: 0x7C04 + 2 - 4 = 0x7C02.
    let mut emu = Emulator::new(MEM, 0x7C00, 0x7C00);
    emu.load_binary(&vec![0xB0, 0x07, 0x3C, 0x07, 0x74, 0xFC]);
    assert_eq!(emu.step(), StepResult::Normal);
    assert_eq!(emu.step(), StepResult::Normal);
    assert!(emu.is_zero());
    assert_eq!(emu.step(), StepResult::Normal);
    assert_eq!(emu.get_eip(), 0x7C02);
}

#[test]
fn cmp_al_imm8_sets_flags_from_byte_operands() {
    let mut emu = Emulator::new(MEM, 0x7C00, 0x7C00);
    emu.load_binary(&vec![0x3C, 0x10]);
    emu.set_register32(0, 0xFFFFFF05);  // AL = 5, upper bytes ignored
    assert_eq!(emu.step(), StepResult::Normal);
    assert!(emu.is_carry());
    assert!(!emu.is_zero());
    assert_eq!(emu.get_eip(), 0x7C02);
}
