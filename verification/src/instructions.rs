//! One handler per opcode family, each proved to realise the transition
//! function of the same name in `semantics`, plus the dispatcher, the
//! single-step function, and the bounded run loop.
//!
//! A handler checks every code fetch, memory operand and stack access
//! against the memory bounds before it changes anything, so a faulting
//! step leaves the machine exactly as it was.

use vstd::prelude::*;

use crate::emulator::Emulator;
use crate::modrm::sign_extend8;
use crate::register::{Register, Register8};
use crate::semantics::{
    add_rm32_r32_res, call_rel32_res, cf, cmp_al_imm8_res, cmp_eax_imm32_res, cmp_r32_rm32_res,
    code_83_res, code_ff_res, cond_jump_res, decode, in_al_dx_res, inc_r32_res, instr_res,
    leave_res, mov_r32_imm32_res, mov_r32_rm32_res, mov_r8_imm8_res, mov_r8_rm8_res,
    mov_rm32_imm32_res, mov_rm32_r32_res, mov_rm8_r8_res, near_jump_res, of, out_dx_al_res,
    pop_r32_res, push_imm32_res, push_imm8_res, push_r32_res, ret_res, run_res, sf,
    short_jump_res, step_res, swi_res, zf, Fault, Instruction, RunStatus, StepResult,
};

verus! {

impl Emulator {
    /// MOV r8, imm8 (0xB0..0xB7).
    pub fn mov_r8_imm8(&mut self) -> (r: StepResult)
        requires
            old(self).wf(),
            old(self)@.eip < old(self)@.mem.len(),
            0xB0 <= old(self)@.code8(0) < 0xB8,
        ensures
            final(self).wf(),
            final(self)@ == mov_r8_imm8_res(old(self)@).0,
            r == mov_r8_imm8_res(old(self)@).1,
    {
        if !self.code_len_ok(2) {
            return StepResult::Faulted(Fault::OutOfBounds);
        }
        let opcode: u8 = self.get_code8(0);
        let reg = Register8::from_usize((opcode - 0xB0) as usize).unwrap();
        let value: u8 = self.get_code8(1);
        self.set_register8(reg, value);
        self.eip = self.eip + 2;
        StepResult::Normal
    }

    /// MOV r32, imm32 (0xB8..0xBF).
    pub fn mov_r32_imm32(&mut self) -> (r: StepResult)
        requires
            old(self).wf(),
            old(self)@.eip < old(self)@.mem.len(),
            0xB8 <= old(self)@.code8(0) < 0xC0,
        ensures
            final(self).wf(),
            final(self)@ == mov_r32_imm32_res(old(self)@).0,
            r == mov_r32_imm32_res(old(self)@).1,
    {
        if !self.code_len_ok(5) {
            return StepResult::Faulted(Fault::OutOfBounds);
        }
        let reg: usize = (self.get_code8(0) - 0xB8) as usize;
        let value: u32 = self.get_code32(1);
        self.set_register32(reg, value);
        self.eip = self.eip + 5;
        StepResult::Normal
    }

    /// INC r32 (0x40..0x47): wrapping, no flag update.
    pub fn inc_r32(&mut self) -> (r: StepResult)
        requires
            old(self).wf(),
            old(self)@.eip < old(self)@.mem.len(),
            0x40 <= old(self)@.code8(0) < 0x48,
        ensures
            final(self).wf(),
            final(self)@ == inc_r32_res(old(self)@).0,
            r == inc_r32_res(old(self)@).1,
    {
        let reg: usize = (self.get_code8(0) - 0x40) as usize;
        let value: u32 = self.get_register32(reg).wrapping_add(1);
        self.set_register32(reg, value);
        self.eip = self.eip + 1;
        StepResult::Normal
    }

    /// PUSH r32 (0x50..0x57).
    pub fn push_r32(&mut self) -> (r: StepResult)
        requires
            old(self).wf(),
            old(self)@.eip < old(self)@.mem.len(),
            0x50 <= old(self)@.code8(0) < 0x58,
        ensures
            final(self).wf(),
            final(self)@ == push_r32_res(old(self)@).0,
            r == push_r32_res(old(self)@).1,
    {
        if !self.stack_push_ok() {
            return StepResult::Faulted(Fault::OutOfBounds);
        }
        let reg: usize = (self.get_code8(0) - 0x50) as usize;
        let value: u32 = self.get_register32(reg);
        self.push32(value);
        self.eip = self.eip + 1;
        StepResult::Normal
    }

    /// POP r32 (0x58..0x5F).
    pub fn pop_r32(&mut self) -> (r: StepResult)
        requires
            old(self).wf(),
            old(self)@.eip < old(self)@.mem.len(),
            0x58 <= old(self)@.code8(0) < 0x60,
        ensures
            final(self).wf(),
            final(self)@ == pop_r32_res(old(self)@).0,
            r == pop_r32_res(old(self)@).1,
    {
        if !self.stack_pop_ok() {
            return StepResult::Faulted(Fault::OutOfBounds);
        }
        let reg: usize = (self.get_code8(0) - 0x58) as usize;
        let value: u32 = self.pop32();
        self.set_register32(reg, value);
        self.eip = self.eip + 1;
        StepResult::Normal
    }

    /// PUSH imm32 (0x68).
    pub fn push_imm32(&mut self) -> (r: StepResult)
        requires
            old(self).wf(),
            old(self)@.eip < old(self)@.mem.len(),
        ensures
            final(self).wf(),
            final(self)@ == push_imm32_res(old(self)@).0,
            r == push_imm32_res(old(self)@).1,
    {
        if !self.code_len_ok(5) || !self.stack_push_ok() {
            return StepResult::Faulted(Fault::OutOfBounds);
        }
        let value: u32 = self.get_code32(1);
        self.push32(value);
        self.eip = self.eip + 5;
        StepResult::Normal
    }

    /// PUSH imm8 (0x6A): the byte is zero-extended.
    pub fn push_imm8(&mut self) -> (r: StepResult)
        requires
            old(self).wf(),
            old(self)@.eip < old(self)@.mem.len(),
        ensures
            final(self).wf(),
            final(self)@ == push_imm8_res(old(self)@).0,
            r == push_imm8_res(old(self)@).1,
    {
        if !self.code_len_ok(2) || !self.stack_push_ok() {
            return StepResult::Faulted(Fault::OutOfBounds);
        }
        let value: u32 = self.get_code8(1) as u32;
        self.push32(value);
        self.eip = self.eip + 2;
        StepResult::Normal
    }

    /// CALL rel32 (0xE8).
    pub fn call_rel32(&mut self) -> (r: StepResult)
        requires
            old(self).wf(),
            old(self)@.eip < old(self)@.mem.len(),
        ensures
            final(self).wf(),
            final(self)@ == call_rel32_res(old(self)@).0,
            r == call_rel32_res(old(self)@).1,
    {
        if !self.code_len_ok(5) || !self.stack_push_ok() {
            return StepResult::Faulted(Fault::OutOfBounds);
        }
        let diff: u32 = self.get_code32(1);
        let ret_addr: u32 = self.eip + 5;
        self.push32(ret_addr);
        self.eip = self.eip.wrapping_add(diff).wrapping_add(5);
        StepResult::Normal
    }

    /// RET (0xC3).
    pub fn ret(&mut self) -> (r: StepResult)
        requires
            old(self).wf(),
            old(self)@.eip < old(self)@.mem.len(),
        ensures
            final(self).wf(),
            final(self)@ == ret_res(old(self)@).0,
            r == ret_res(old(self)@).1,
    {
        if !self.stack_pop_ok() {
            return StepResult::Faulted(Fault::OutOfBounds);
        }
        let value: u32 = self.pop32();
        self.eip = value;
        StepResult::Normal
    }

    /// LEAVE (0xC9): ESP := EBP, then EBP is popped from the new stack
    /// top.
    pub fn leave(&mut self) -> (r: StepResult)
        requires
            old(self).wf(),
            old(self)@.eip < old(self)@.mem.len(),
        ensures
            final(self).wf(),
            final(self)@ == leave_res(old(self)@).0,
            r == leave_res(old(self)@).1,
    {
        let ebp: u32 = self.get_register32(Register::EBP.as_usize());
        if !self.addr32_ok(ebp) {
            return StepResult::Faulted(Fault::OutOfBounds);
        }
        let value: u32 = self.get_memory32(ebp);
        self.set_register32(Register::ESP.as_usize(), ebp + 4);
        self.set_register32(Register::EBP.as_usize(), value);
        self.eip = self.eip + 1;
        StepResult::Normal
    }

    /// JMP rel8 (0xEB).
    pub fn short_jump(&mut self) -> (r: StepResult)
        requires
            old(self).wf(),
            old(self)@.eip < old(self)@.mem.len(),
        ensures
            final(self).wf(),
            final(self)@ == short_jump_res(old(self)@).0,
            r == short_jump_res(old(self)@).1,
    {
        if !self.code_len_ok(2) {
            return StepResult::Faulted(Fault::OutOfBounds);
        }
        let diff: u32 = sign_extend8(self.get_code8(1));
        self.eip = self.eip.wrapping_add(diff).wrapping_add(2);
        StepResult::Normal
    }

    /// JMP rel32 (0xE9).
    pub fn near_jump(&mut self) -> (r: StepResult)
        requires
            old(self).wf(),
            old(self)@.eip < old(self)@.mem.len(),
        ensures
            final(self).wf(),
            final(self)@ == near_jump_res(old(self)@).0,
            r == near_jump_res(old(self)@).1,
    {
        if !self.code_len_ok(5) {
            return StepResult::Faulted(Fault::OutOfBounds);
        }
        let diff: u32 = self.get_code32(1);
        self.eip = self.eip.wrapping_add(diff).wrapping_add(5);
        StepResult::Normal
    }

    /// The short-jump helper: adds the sign-extended displacement exactly
    /// when the condition holds, and the fixed 2-byte length always.
    pub fn conditional_jump(&mut self, condition: bool) -> (r: StepResult)
        requires
            old(self).wf(),
            old(self)@.eip < old(self)@.mem.len(),
        ensures
            final(self).wf(),
            final(self)@ == cond_jump_res(old(self)@, condition).0,
            r == cond_jump_res(old(self)@, condition).1,
    {
        if !self.code_len_ok(2) {
            return StepResult::Faulted(Fault::OutOfBounds);
        }
        if condition {
            let diff: u32 = sign_extend8(self.get_code8(1));
            self.eip = self.eip.wrapping_add(diff).wrapping_add(2);
        } else {
            self.eip = self.eip.wrapping_add(2);
        }
        StepResult::Normal
    }

    /// JC rel8 (0x72): taken when CF is set.
    pub fn jc(&mut self) -> (r: StepResult)
        requires
            old(self).wf(),
            old(self)@.eip < old(self)@.mem.len(),
        ensures
            final(self).wf(),
            final(self)@ == cond_jump_res(old(self)@, cf(old(self)@.eflags)).0,
            r == cond_jump_res(old(self)@, cf(old(self)@.eflags)).1,
    {
        let c: bool = self.is_carry();
        self.conditional_jump(c)
    }

    /// JNC rel8 (0x73): taken when CF is clear.
    pub fn jnc(&mut self) -> (r: StepResult)
        requires
            old(self).wf(),
            old(self)@.eip < old(self)@.mem.len(),
        ensures
            final(self).wf(),
            final(self)@ == cond_jump_res(old(self)@, !cf(old(self)@.eflags)).0,
            r == cond_jump_res(old(self)@, !cf(old(self)@.eflags)).1,
    {
        let c: bool = self.is_carry();
        self.conditional_jump(!c)
    }

    /// JZ rel8 (0x74): taken when ZF is set.
    pub fn jz(&mut self) -> (r: StepResult)
        requires
            old(self).wf(),
            old(self)@.eip < old(self)@.mem.len(),
        ensures
            final(self).wf(),
            final(self)@ == cond_jump_res(old(self)@, zf(old(self)@.eflags)).0,
            r == cond_jump_res(old(self)@, zf(old(self)@.eflags)).1,
    {
        let c: bool = self.is_zero();
        self.conditional_jump(c)
    }

    /// JNZ rel8 (0x75): taken when ZF is clear.
    pub fn jnz(&mut self) -> (r: StepResult)
        requires
            old(self).wf(),
            old(self)@.eip < old(self)@.mem.len(),
        ensures
            final(self).wf(),
            final(self)@ == cond_jump_res(old(self)@, !zf(old(self)@.eflags)).0,
            r == cond_jump_res(old(self)@, !zf(old(self)@.eflags)).1,
    {
        let c: bool = self.is_zero();
        self.conditional_jump(!c)
    }

    /// JS rel8 (0x78): taken when SF is set.
    pub fn js(&mut self) -> (r: StepResult)
        requires
            old(self).wf(),
            old(self)@.eip < old(self)@.mem.len(),
        ensures
            final(self).wf(),
            final(self)@ == cond_jump_res(old(self)@, sf(old(self)@.eflags)).0,
            r == cond_jump_res(old(self)@, sf(old(self)@.eflags)).1,
    {
        let c: bool = self.is_sign();
        self.conditional_jump(c)
    }

    /// JNS rel8 (0x79): taken when SF is clear.
    pub fn jns(&mut self) -> (r: StepResult)
        requires
            old(self).wf(),
            old(self)@.eip < old(self)@.mem.len(),
        ensures
            final(self).wf(),
            final(self)@ == cond_jump_res(old(self)@, !sf(old(self)@.eflags)).0,
            r == cond_jump_res(old(self)@, !sf(old(self)@.eflags)).1,
    {
        let c: bool = self.is_sign();
        self.conditional_jump(!c)
    }

    /// JO rel8 (0x70): taken when OF is set.
    pub fn jo(&mut self) -> (r: StepResult)
        requires
            old(self).wf(),
            old(self)@.eip < old(self)@.mem.len(),
        ensures
            final(self).wf(),
            final(self)@ == cond_jump_res(old(self)@, of(old(self)@.eflags)).0,
            r == cond_jump_res(old(self)@, of(old(self)@.eflags)).1,
    {
        let c: bool = self.is_overflow();
        self.conditional_jump(c)
    }

    /// JNO rel8 (0x71): taken when OF is clear.
    pub fn jno(&mut self) -> (r: StepResult)
        requires
            old(self).wf(),
            old(self)@.eip < old(self)@.mem.len(),
        ensures
            final(self).wf(),
            final(self)@ == cond_jump_res(old(self)@, !of(old(self)@.eflags)).0,
            r == cond_jump_res(old(self)@, !of(old(self)@.eflags)).1,
    {
        let c: bool = self.is_overflow();
        self.conditional_jump(!c)
    }

    /// JL rel8 (0x7C): taken when SF differs from OF.
    pub fn jl(&mut self) -> (r: StepResult)
        requires
            old(self).wf(),
            old(self)@.eip < old(self)@.mem.len(),
        ensures
            final(self).wf(),
            final(self)@ == cond_jump_res(
                old(self)@,
                sf(old(self)@.eflags) != of(old(self)@.eflags),
            ).0,
            r == cond_jump_res(old(self)@, sf(old(self)@.eflags) != of(old(self)@.eflags)).1,
    {
        let c: bool = self.is_sign() != self.is_overflow();
        self.conditional_jump(c)
    }

    /// JLE rel8 (0x7E): taken when ZF is set or SF differs from OF.
    pub fn jle(&mut self) -> (r: StepResult)
        requires
            old(self).wf(),
            old(self)@.eip < old(self)@.mem.len(),
        ensures
            final(self).wf(),
            final(self)@ == cond_jump_res(
                old(self)@,
                zf(old(self)@.eflags) || sf(old(self)@.eflags) != of(old(self)@.eflags),
            ).0,
            r == cond_jump_res(
                old(self)@,
                zf(old(self)@.eflags) || sf(old(self)@.eflags) != of(old(self)@.eflags),
            ).1,
    {
        let c: bool = self.is_zero() || (self.is_sign() != self.is_overflow());
        self.conditional_jump(c)
    }

    /// CMP AL, imm8 (0x3C).
    pub fn cmp_al_imm8(&mut self) -> (r: StepResult)
        requires
            old(self).wf(),
            old(self)@.eip < old(self)@.mem.len(),
        ensures
            final(self).wf(),
            final(self)@ == cmp_al_imm8_res(old(self)@).0,
            r == cmp_al_imm8_res(old(self)@).1,
    {
        if !self.code_len_ok(2) {
            return StepResult::Faulted(Fault::OutOfBounds);
        }
        let value: u8 = self.get_code8(1);
        let al: u8 = self.get_register8(Register8::Al);
        let result: u64 = (al as u64).wrapping_sub(value as u64);
        self.update_eflags_sub(al as u32, value as u32, result);
        self.eip = self.eip + 2;
        StepResult::Normal
    }

    /// CMP EAX, imm32 (0x3D).
    pub fn cmp_eax_imm32(&mut self) -> (r: StepResult)
        requires
            old(self).wf(),
            old(self)@.eip < old(self)@.mem.len(),
        ensures
            final(self).wf(),
            final(self)@ == cmp_eax_imm32_res(old(self)@).0,
            r == cmp_eax_imm32_res(old(self)@).1,
    {
        if !self.code_len_ok(5) {
            return StepResult::Faulted(Fault::OutOfBounds);
        }
        let value: u32 = self.get_code32(1);
        let eax: u32 = self.get_register32(Register::EAX.as_usize());
        let result: u64 = (eax as u64).wrapping_sub(value as u64);
        self.update_eflags_sub(eax, value, result);
        self.eip = self.eip + 5;
        StepResult::Normal
    }

    /// IN AL, DX (0xEC): reads one byte from the port in DX's low 16
    /// bits. On COM1 with nothing queued the step asks for input and
    /// changes nothing.
    pub fn in_al_dx(&mut self) -> (r: StepResult)
        requires
            old(self).wf(),
            old(self)@.eip < old(self)@.mem.len(),
        ensures
            final(self).wf(),
            final(self)@ == in_al_dx_res(old(self)@).0,
            r == in_al_dx_res(old(self)@).1,
    {
        let masked: u32 = self.get_register32(Register::EDX.as_usize()) & 0xFFFF;
        proof {
            assert(forall|x: u32| #[trigger] (x & 0xFFFF) < 0x10000) by (bit_vector);
        }
        let port: u16 = masked as u16;
        match crate::io::io_in8(self, port) {
            Option::Some(value) => {
                self.set_register8(Register8::Al, value);
                self.eip = self.eip + 1;
                StepResult::Normal
            },
            Option::None => StepResult::InputRequested,
        }
    }

    /// OUT DX, AL (0xEE): writes AL to the port in DX's low 16 bits.
    pub fn out_dx_al(&mut self) -> (r: StepResult)
        requires
            old(self).wf(),
            old(self)@.eip < old(self)@.mem.len(),
        ensures
            final(self).wf(),
            final(self)@ == out_dx_al_res(old(self)@).0,
            r == out_dx_al_res(old(self)@).1,
    {
        let masked: u32 = self.get_register32(Register::EDX.as_usize()) & 0xFFFF;
        proof {
            assert(forall|x: u32| #[trigger] (x & 0xFFFF) < 0x10000) by (bit_vector);
        }
        let port: u16 = masked as u16;
        let value: u8 = self.get_register8(Register8::Al);
        crate::io::io_out8(self, port, value);
        self.eip = self.eip + 1;
        StepResult::Normal
    }

    /// MOV r8, r/m8 (0x8A).
    pub fn mov_r8_rm8(&mut self) -> (r: StepResult)
        requires
            old(self).wf(),
            old(self)@.eip < old(self)@.mem.len(),
        ensures
            final(self).wf(),
            final(self)@ == mov_r8_rm8_res(old(self)@).0,
            r == mov_r8_rm8_res(old(self)@).1,
    {
        let m = match self.parse_modrm(1) {
            Option::Some(m) => m,
            Option::None => {
                return StepResult::Faulted(Fault::OutOfBounds);
            },
        };
        if m.mod_val != 3 && m.rm == 4 {
            return StepResult::Faulted(Fault::SibUnsupported);
        }
        if !m.rm8_in_bounds(self) {
            return StepResult::Faulted(Fault::OutOfBounds);
        }
        let rm8: u8 = m.get_rm8(self);
        m.set_r8(self, rm8);
        self.eip = self.eip + 1 + m.length();
        StepResult::Normal
    }

    /// MOV r32, r/m32 (0x8B).
    pub fn mov_r32_rm32(&mut self) -> (r: StepResult)
        requires
            old(self).wf(),
            old(self)@.eip < old(self)@.mem.len(),
        ensures
            final(self).wf(),
            final(self)@ == mov_r32_rm32_res(old(self)@).0,
            r == mov_r32_rm32_res(old(self)@).1,
    {
        let m = match self.parse_modrm(1) {
            Option::Some(m) => m,
            Option::None => {
                return StepResult::Faulted(Fault::OutOfBounds);
            },
        };
        if m.mod_val != 3 && m.rm == 4 {
            return StepResult::Faulted(Fault::SibUnsupported);
        }
        if !m.rm32_in_bounds(self) {
            return StepResult::Faulted(Fault::OutOfBounds);
        }
        let rm32: u32 = m.get_rm32(self);
        m.set_r32(self, rm32);
        self.eip = self.eip + 1 + m.length();
        StepResult::Normal
    }

    /// MOV r/m8, r8 (0x88).
    pub fn mov_rm8_r8(&mut self) -> (r: StepResult)
        requires
            old(self).wf(),
            old(self)@.eip < old(self)@.mem.len(),
        ensures
            final(self).wf(),
            final(self)@ == mov_rm8_r8_res(old(self)@).0,
            r == mov_rm8_r8_res(old(self)@).1,
    {
        let m = match self.parse_modrm(1) {
            Option::Some(m) => m,
            Option::None => {
                return StepResult::Faulted(Fault::OutOfBounds);
            },
        };
        if m.mod_val != 3 && m.rm == 4 {
            return StepResult::Faulted(Fault::SibUnsupported);
        }
        if !m.rm8_in_bounds(self) {
            return StepResult::Faulted(Fault::OutOfBounds);
        }
        let r8: u8 = m.get_r8(self);
        m.set_rm8(self, r8);
        self.eip = self.eip + 1 + m.length();
        StepResult::Normal
    }

    /// MOV r/m32, r32 (0x89).
    pub fn mov_rm32_r32(&mut self) -> (r: StepResult)
        requires
            old(self).wf(),
            old(self)@.eip < old(self)@.mem.len(),
        ensures
            final(self).wf(),
            final(self)@ == mov_rm32_r32_res(old(self)@).0,
            r == mov_rm32_r32_res(old(self)@).1,
    {
        let m = match self.parse_modrm(1) {
            Option::Some(m) => m,
            Option::None => {
                return StepResult::Faulted(Fault::OutOfBounds);
            },
        };
        if m.mod_val != 3 && m.rm == 4 {
            return StepResult::Faulted(Fault::SibUnsupported);
        }
        if !m.rm32_in_bounds(self) {
            return StepResult::Faulted(Fault::OutOfBounds);
        }
        let r32: u32 = m.get_r32(self);
        m.set_rm32(self, r32);
        self.eip = self.eip + 1 + m.length();
        StepResult::Normal
    }

    /// ADD r/m32, r32 (0x01): wrapping, no flag update.
    pub fn add_rm32_r32(&mut self) -> (r: StepResult)
        requires
            old(self).wf(),
            old(self)@.eip < old(self)@.mem.len(),
        ensures
            final(self).wf(),
            final(self)@ == add_rm32_r32_res(old(self)@).0,
            r == add_rm32_r32_res(old(self)@).1,
    {
        let m = match self.parse_modrm(1) {
            Option::Some(m) => m,
            Option::None => {
                return StepResult::Faulted(Fault::OutOfBounds);
            },
        };
        if m.mod_val != 3 && m.rm == 4 {
            return StepResult::Faulted(Fault::SibUnsupported);
        }
        if !m.rm32_in_bounds(self) {
            return StepResult::Faulted(Fault::OutOfBounds);
        }
        let r32: u32 = m.get_r32(self);
        let rm32: u32 = m.get_rm32(self);
        m.set_rm32(self, rm32.wrapping_add(r32));
        self.eip = self.eip + 1 + m.length();
        StepResult::Normal
    }

    /// CMP r32, r/m32 (0x3B).
    pub fn cmp_r32_rm32(&mut self) -> (r: StepResult)
        requires
            old(self).wf(),
            old(self)@.eip < old(self)@.mem.len(),
        ensures
            final(self).wf(),
            final(self)@ == cmp_r32_rm32_res(old(self)@).0,
            r == cmp_r32_rm32_res(old(self)@).1,
    {
        let m = match self.parse_modrm(1) {
            Option::Some(m) => m,
            Option::None => {
                return StepResult::Faulted(Fault::OutOfBounds);
            },
        };
        if m.mod_val != 3 && m.rm == 4 {
            return StepResult::Faulted(Fault::SibUnsupported);
        }
        if !m.rm32_in_bounds(self) {
            return StepResult::Faulted(Fault::OutOfBounds);
        }
        let r32: u32 = m.get_r32(self);
        let rm32: u32 = m.get_rm32(self);
        let result: u64 = (r32 as u64).wrapping_sub(rm32 as u64);
        self.update_eflags_sub(r32, rm32, result);
        self.eip = self.eip + 1 + m.length();
        StepResult::Normal
    }

    /// The 0x83 group: ADD (/0), SUB (/5) and CMP (/7) of a sign-extended
    /// imm8 against r/m32.
    pub fn code_83(&mut self) -> (r: StepResult)
        requires
            old(self).wf(),
            old(self)@.eip < old(self)@.mem.len(),
        ensures
            final(self).wf(),
            final(self)@ == code_83_res(old(self)@).0,
            r == code_83_res(old(self)@).1,
    {
        let m = match self.parse_modrm(1) {
            Option::Some(m) => m,
            Option::None => {
                return StepResult::Faulted(Fault::OutOfBounds);
            },
        };
        if m.opecode != 0 && m.opecode != 5 && m.opecode != 7 {
            return StepResult::Faulted(Fault::UnsupportedGroupOp);
        }
        if m.mod_val != 3 && m.rm == 4 {
            return StepResult::Faulted(Fault::SibUnsupported);
        }
        let mlen: u32 = m.length();
        if !self.code_len_ok(1 + mlen + 1) || !m.rm32_in_bounds(self) {
            return StepResult::Faulted(Fault::OutOfBounds);
        }
        let imm: u32 = sign_extend8(self.get_code8((1 + mlen) as usize));
        let rm32: u32 = m.get_rm32(self);
        let nip: u32 = self.eip + 1 + mlen + 1;
        if m.opecode == 0 {
            m.set_rm32(self, rm32.wrapping_add(imm));
        } else if m.opecode == 5 {
            let result: u64 = (rm32 as u64).wrapping_sub(imm as u64);
            m.set_rm32(self, rm32.wrapping_sub(imm));
            self.update_eflags_sub(rm32, imm, result);
        } else {
            let result: u64 = (rm32 as u64).wrapping_sub(imm as u64);
            self.update_eflags_sub(rm32, imm, result);
        }
        self.eip = nip;
        StepResult::Normal
    }

    /// The 0xFF group: only INC r/m32 (/0) is implemented.
    pub fn code_ff(&mut self) -> (r: StepResult)
        requires
            old(self).wf(),
            old(self)@.eip < old(self)@.mem.len(),
        ensures
            final(self).wf(),
            final(self)@ == code_ff_res(old(self)@).0,
            r == code_ff_res(old(self)@).1,
    {
        let m = match self.parse_modrm(1) {
            Option::Some(m) => m,
            Option::None => {
                return StepResult::Faulted(Fault::OutOfBounds);
            },
        };
        if m.opecode != 0 {
            return StepResult::Faulted(Fault::UnsupportedGroupOp);
        }
        if m.mod_val != 3 && m.rm == 4 {
            return StepResult::Faulted(Fault::SibUnsupported);
        }
        if !m.rm32_in_bounds(self) {
            return StepResult::Faulted(Fault::OutOfBounds);
        }
        let value: u32 = m.get_rm32(self);
        m.set_rm32(self, value.wrapping_add(1));
        self.eip = self.eip + 1 + m.length();
        StepResult::Normal
    }

    /// MOV r/m32, imm32 (0xC7): the 4-byte immediate follows the ModR/M
    /// bytes.
    pub fn mov_rm32_imm32(&mut self) -> (r: StepResult)
        requires
            old(self).wf(),
            old(self)@.eip < old(self)@.mem.len(),
        ensures
            final(self).wf(),
            final(self)@ == mov_rm32_imm32_res(old(self)@).0,
            r == mov_rm32_imm32_res(old(self)@).1,
    {
        let m = match self.parse_modrm(1) {
            Option::Some(m) => m,
            Option::None => {
                return StepResult::Faulted(Fault::OutOfBounds);
            },
        };
        if m.mod_val != 3 && m.rm == 4 {
            return StepResult::Faulted(Fault::SibUnsupported);
        }
        let mlen: u32 = m.length();
        if !self.code_len_ok(1 + mlen + 4) || !m.rm32_in_bounds(self) {
            return StepResult::Faulted(Fault::OutOfBounds);
        }
        let value: u32 = self.get_code32((1 + mlen) as usize);
        m.set_rm32(self, value);
        self.eip = self.eip + 1 + mlen + 4;
        StepResult::Normal
    }

    /// INT imm8 (0xCD): EIP moves past the two bytes first; 0x10 enters
    /// the BIOS video service, anything else is reported and skipped.
    pub fn swi(&mut self) -> (r: StepResult)
        requires
            old(self).wf(),
            old(self)@.eip < old(self)@.mem.len(),
        ensures
            final(self).wf(),
            final(self)@ == swi_res(old(self)@).0,
            r == swi_res(old(self)@).1,
    {
        if !self.code_len_ok(2) {
            return StepResult::Faulted(Fault::OutOfBounds);
        }
        let int_index: u8 = self.get_code8(1);
        self.eip = self.eip + 2;
        if int_index == 0x10 {
            crate::bios::bios_video(self)
        } else {
            StepResult::UnknownInterrupt(int_index)
        }
    }

    /// Runs the handler the mnemonic names. The caller must have decoded
    /// the opcode byte at EIP to exactly this mnemonic.
    pub fn execute_instruction(&mut self, instruction: &Instruction) -> (r: StepResult)
        requires
            old(self).wf(),
            old(self)@.eip < old(self)@.mem.len(),
            decode(old(self)@.code8(0)) == Some(*instruction),
        ensures
            final(self).wf(),
            final(self)@ == instr_res(*instruction, old(self)@).0,
            r == instr_res(*instruction, old(self)@).1,
    {
        match instruction {
            Instruction::MovR8Imm8 => self.mov_r8_imm8(),
            Instruction::MovR32Imm32 => self.mov_r32_imm32(),
            Instruction::MovR8Rm8 => self.mov_r8_rm8(),
            Instruction::MovR32Rm32 => self.mov_r32_rm32(),
            Instruction::AddRm32R32 => self.add_rm32_r32(),
            Instruction::MovRm8R8 => self.mov_rm8_r8(),
            Instruction::MovRm32R32 => self.mov_rm32_r32(),
            Instruction::IncR32 => self.inc_r32(),
            Instruction::PushR32 => self.push_r32(),
            Instruction::PopR32 => self.pop_r32(),
            Instruction::PushImm32 => self.push_imm32(),
            Instruction::PushImm8 => self.push_imm8(),
            Instruction::Code83 => self.code_83(),
            Instruction::MovRm32Imm32 => self.mov_rm32_imm32(),
            Instruction::InAlDx => self.in_al_dx(),
            Instruction::OutDxAl => self.out_dx_al(),
            Instruction::CodeFf => self.code_ff(),
            Instruction::CallRel32 => self.call_rel32(),
            Instruction::Ret => self.ret(),
            Instruction::Leave => self.leave(),
            Instruction::ShortJump => self.short_jump(),
            Instruction::NearJump => self.near_jump(),
            Instruction::CmpAlImm8 => self.cmp_al_imm8(),
            Instruction::CmpEaxImm32 => self.cmp_eax_imm32(),
            Instruction::CmpR32Rm32 => self.cmp_r32_rm32(),
            Instruction::Jc => self.jc(),
            Instruction::Jnc => self.jnc(),
            Instruction::Jz => self.jz(),
            Instruction::Jnz => self.jnz(),
            Instruction::Js => self.js(),
            Instruction::Jns => self.jns(),
            Instruction::Jo => self.jo(),
            Instruction::Jno => self.jno(),
            Instruction::Jl => self.jl(),
            Instruction::Jle => self.jle(),
            Instruction::Swi => self.swi(),
        }
    }

    /// One fetch/decode/execute step: faults when EIP is outside memory
    /// or the opcode byte has no table entry, else runs the instruction.
    pub fn step(&mut self) -> (r: StepResult)
        requires
            old(self).wf(),
        ensures
            final(self).wf(),
            final(self)@ == step_res(old(self)@).0,
            r == step_res(old(self)@).1,
    {
        if !self.code_len_ok(1) {
            return StepResult::Faulted(Fault::OutOfBounds);
        }
        let code: u8 = self.get_code8(0);
        let entry: Option<Instruction> = self.instructions[code as usize];
        match entry {
            Option::Some(instruction) => self.execute_instruction(&instruction),
            Option::None => StepResult::Faulted(Fault::UnknownOpcode),
        }
    }

    /// Steps until EIP reaches 0 after an instruction (the end-of-program
    /// convention), EIP leaves memory before a fetch, a step faults or
    /// asks for input, or `fuel` further steps have run.
    pub fn run(&mut self, fuel: u64) -> (r: RunStatus)
        requires
            old(self).wf(),
        ensures
            final(self).wf(),
            final(self)@ == run_res(old(self)@, fuel as nat).0,
            r == run_res(old(self)@, fuel as nat).1,
    {
        let mut remaining: u64 = fuel;
        loop
            invariant
                self.wf(),
                remaining <= fuel,
                run_res(old(self)@, fuel as nat) == run_res(self@, remaining as nat),
            decreases remaining,
        {
            if !self.code_len_ok(1) {
                return RunStatus::EipOutOfRange;
            }
            let sr: StepResult = self.step();
            match sr {
                StepResult::Faulted(f) => {
                    return RunStatus::Stopped(f);
                },
                StepResult::InputRequested => {
                    return RunStatus::AwaitingInput;
                },
                _ => {},
            }
            if self.get_eip() == 0 {
                return RunStatus::EndOfProgram;
            }
            if remaining == 0 {
                return RunStatus::OutOfFuel;
            }
            remaining = remaining - 1;
        }
    }
}

} // verus!
