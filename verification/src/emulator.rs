//! The executable machine: registers, flags, memory, EIP, the dispatch
//! table, and the COM1 byte queues. Every method is proved against the
//! model in `semantics`.

use vstd::prelude::*;

use crate::modrm::{parse_modrm_at, parse_modrm_ok, ModRM};
use crate::register::{Register, Register8};
use crate::semantics::{
    cf, eflags_after_sub, of, read32, sf, sub_result, with_flag, zf, Instruction, MachineView,
    CARRY_FLAG, OVERFLOW_FLAG, SIGN_FLAG, ZERO_FLAG,
};

verus! {

/// The machine. The view (`self@`) is the `MachineView` the model speaks
/// of; the dispatch table is not part of the view, since `wf` pins it to
/// the opcode decoder.
pub struct Emulator {
    pub registers: Vec<u32>,
    pub eflags: u32,
    pub memory: Vec<u8>,
    pub eip: u32,
    pub instructions: Vec<Option<Instruction>>,
    pub com1_input: Vec<u8>,
    pub com1_output: Vec<u8>,
}

impl View for Emulator {
    type V = MachineView;

    open spec fn view(&self) -> MachineView {
        MachineView {
            regs: self.registers@,
            eflags: self.eflags,
            mem: self.memory@,
            eip: self.eip,
            input: self.com1_input@,
            output: self.com1_output@,
        }
    }
}

impl Emulator {
    /// The machine invariant: the view is well formed and the dispatch
    /// table is the decoder, one slot per opcode byte.
    pub open spec fn wf(&self) -> bool {
        &&& self@.wf()
        &&& self.instructions@.len() == 256
        &&& forall|i: int|
            0 <= i < 256 ==> #[trigger] self.instructions@[i] == crate::semantics::decode(i as u8)
    }

    /// A fresh machine: zeroed registers and memory of the given size,
    /// EIP and ESP as given, flags clear, the dispatch table filled,
    /// both COM1 queues empty.
    pub fn new(memory_size: usize, eip: u32, esp: u32) -> (r: Emulator)
        requires
            memory_size <= 0xFFFFFFFF,
        ensures
            r.wf(),
            r@.regs == seq![0u32, 0, 0, 0, esp, 0, 0, 0],
            r@.eflags == 0,
            r@.mem.len() == memory_size,
            forall|i: int| 0 <= i < memory_size ==> r@.mem[i] == 0,
            r@.eip == eip,
            r@.input == Seq::<u8>::empty(),
            r@.output == Seq::<u8>::empty(),
    {
        let mut memory: Vec<u8> = Vec::new();
        while memory.len() < memory_size
            invariant
                memory@.len() <= memory_size,
                forall|i: int| 0 <= i < memory@.len() ==> memory@[i] == 0,
            decreases memory_size - memory@.len(),
        {
            memory.push(0);
        }
        let mut registers: Vec<u32> = Vec::new();
        registers.push(0);
        registers.push(0);
        registers.push(0);
        registers.push(0);
        registers.push(esp);
        registers.push(0);
        registers.push(0);
        registers.push(0);
        let mut emu = Emulator {
            registers,
            eflags: 0,
            memory,
            eip,
            instructions: Vec::new(),
            com1_input: Vec::new(),
            com1_output: Vec::new(),
        };
        emu.init_instructions();
        assert(emu@.regs =~= seq![0u32, 0, 0, 0, esp, 0, 0, 0]);
        emu
    }

    /// Rebuilds the dispatch table: slot `op` holds `decode(op)`.
    pub fn init_instructions(&mut self)
        ensures
            final(self)@ == old(self)@,
            final(self).instructions@.len() == 256,
            forall|i: int|
                0 <= i < 256 ==> #[trigger] final(self).instructions@[i] == crate::semantics::decode(
                    i as u8,
                ),
    {
        let mut table: Vec<Option<Instruction>> = Vec::new();
        let mut op: usize = 0;
        while op < 256
            invariant
                op <= 256,
                table@.len() == op,
                forall|i: int|
                    0 <= i < op ==> #[trigger] table@[i] == crate::semantics::decode(i as u8),
            decreases 256 - op,
        {
            table.push(Self::decode_opcode(op as u8));
            op = op + 1;
        }
        self.instructions = table;
    }

    /// The instruction pointer.
    pub fn get_eip(&self) -> (r: u32)
        ensures
            r == self@.eip,
    {
        self.eip
    }

    /// The memory size fixed at construction.
    pub fn memory_len(&self) -> (r: usize)
        ensures
            r == self@.mem.len(),
    {
        self.memory.len()
    }

    /// `n` code bytes starting at EIP lie inside memory.
    pub fn code_len_ok(&self, n: u32) -> (r: bool)
        ensures
            r == self@.code_ok(n as int),
    {
        (n as usize) <= self.memory.len() && (self.eip as usize) <= self.memory.len() - (n as usize)
    }

    /// The byte address `a` lies inside memory.
    pub fn addr8_ok(&self, a: u32) -> (r: bool)
        ensures
            r == (a < self@.mem.len()),
    {
        (a as usize) < self.memory.len()
    }

    /// Four bytes starting at `a` lie inside memory.
    pub fn addr32_ok(&self, a: u32) -> (r: bool)
        ensures
            r == (a + 4 <= self@.mem.len()),
    {
        self.memory.len() >= 4 && (a as usize) <= self.memory.len() - 4
    }

    /// The code byte at EIP + `index`.
    pub fn get_code8(&self, index: usize) -> (r: u8)
        requires
            self@.wf(),
            self@.eip + index < self@.mem.len(),
        ensures
            r == self@.code8(index as int),
    {
        self.memory[self.eip as usize + index]
    }

    /// The code byte at EIP + `index` as a signed 8-bit value.
    pub fn get_sign_code8(&self, index: usize) -> (r: i8)
        requires
            self@.wf(),
            self@.eip + index < self@.mem.len(),
        ensures
            r == self@.code8(index as int) as i8,
    {
        self.get_code8(index) as i8
    }

    /// The 32-bit little-endian code value at EIP + `index`.
    pub fn get_code32(&self, index: usize) -> (r: u32)
        requires
            self@.wf(),
            self@.code_ok(index + 4),
        ensures
            r == self@.code32(index as int),
    {
        let b0 = self.get_code8(index);
        let b1 = self.get_code8(index + 1);
        let b2 = self.get_code8(index + 2);
        let b3 = self.get_code8(index + 3);
        (b0 as u32) | ((b1 as u32) << 8u32) | ((b2 as u32) << 16u32) | ((b3 as u32) << 24u32)
    }

    /// The 32-bit code value at EIP + `index` as a signed value.
    pub fn get_sign_code32(&self, index: usize) -> (r: i32)
        requires
            self@.wf(),
            self@.code_ok(index + 4),
        ensures
            r == self@.code32(index as int) as i32,
    {
        self.get_code32(index) as i32
    }

    /// Register `index` of the register file.
    pub fn get_register32(&self, index: usize) -> (r: u32)
        requires
            self@.wf(),
            index < 8,
        ensures
            r == self@.regs[index as int],
    {
        self.registers[index]
    }

    pub fn set_register32(&mut self, index: usize, value: u32)
        requires
            old(self)@.wf(),
            index < 8,
        ensures
            final(self)@ == old(self)@.with_reg32(index as int, value),
            final(self).instructions@ == old(self).instructions@,
    {
        self.registers.set(index, value);
    }

    /// The 8-bit register operand: AL/CL/DL/BL are the low bytes of
    /// registers 0..3, AH/CH/DH/BH their bits 8..15.
    pub fn get_register8(&self, reg: Register8) -> (r: u8)
        requires
            self@.wf(),
        ensures
            r == self@.reg8(reg.idx()),
    {
        let i: usize = reg.index();
        if i < 4 {
            (self.registers[i] & 0xFF) as u8
        } else {
            ((self.registers[i - 4] >> 8u32) & 0xFF) as u8
        }
    }

    /// Writes an 8-bit register operand, preserving the other three bytes
    /// of the enclosing 32-bit register.
    pub fn set_register8(&mut self, reg: Register8, value: u8)
        requires
            old(self)@.wf(),
        ensures
            final(self)@ == old(self)@.with_reg8(reg.idx(), value),
            final(self).instructions@ == old(self).instructions@,
    {
        let i: usize = reg.index();
        if i < 4 {
            let kept: u32 = self.registers[i] & 0xFFFFFF00;
            self.registers.set(i, kept | (value as u32));
        } else {
            let kept: u32 = self.registers[i - 4] & 0xFFFF00FF;
            self.registers.set(i - 4, kept | ((value as u32) << 8u32));
        }
    }

    /// The memory byte at `address`.
    pub fn get_memory8(&self, address: u32) -> (r: u8)
        requires
            address < self@.mem.len(),
        ensures
            r == self@.mem[address as int],
    {
        self.memory[address as usize]
    }

    pub fn set_memory8(&mut self, address: u32, value: u8)
        requires
            address < old(self)@.mem.len(),
        ensures
            final(self)@ == old(self)@.with_mem8(address as int, value),
            final(self).instructions@ == old(self).instructions@,
    {
        self.memory.set(address as usize, value);
    }

    /// The 32-bit little-endian value at `address`.
    pub fn get_memory32(&self, address: u32) -> (r: u32)
        requires
            self@.wf(),
            address + 4 <= self@.mem.len(),
        ensures
            r == read32(self@.mem, address as int),
    {
        let b0 = self.get_memory8(address);
        let b1 = self.get_memory8(address + 1);
        let b2 = self.get_memory8(address + 2);
        let b3 = self.get_memory8(address + 3);
        (b0 as u32) | ((b1 as u32) << 8u32) | ((b2 as u32) << 16u32) | ((b3 as u32) << 24u32)
    }

    /// Stores `value` little-endian at `address`.
    pub fn set_memory32(&mut self, address: u32, value: u32)
        requires
            old(self)@.wf(),
            address + 4 <= old(self)@.mem.len(),
        ensures
            final(self)@ == old(self)@.with_mem32(address as int, value),
            final(self).instructions@ == old(self).instructions@,
    {
        self.set_memory8(address, (value & 0xFF) as u8);
        self.set_memory8(address + 1, ((value >> 8u32) & 0xFF) as u8);
        self.set_memory8(address + 2, ((value >> 16u32) & 0xFF) as u8);
        self.set_memory8(address + 3, ((value >> 24u32) & 0xFF) as u8);
    }

    /// Decrements ESP by 4, then stores `value` at the new ESP.
    pub fn push32(&mut self, value: u32)
        requires
            old(self)@.wf(),
            old(self)@.can_push(),
        ensures
            final(self)@ == old(self)@.pushed32(value),
            final(self).instructions@ == old(self).instructions@,
    {
        let address: u32 = self.get_register32(Register::ESP.as_usize()) - 4;
        self.set_register32(Register::ESP.as_usize(), address);
        self.set_memory32(address, value);
    }

    /// Reads the 32-bit value at ESP, then increments ESP by 4.
    pub fn pop32(&mut self) -> (r: u32)
        requires
            old(self)@.wf(),
            old(self)@.can_pop(),
        ensures
            r == old(self)@.pop32_value(),
            final(self)@ == old(self)@.popped32(),
            final(self).instructions@ == old(self).instructions@,
    {
        let address: u32 = self.get_register32(Register::ESP.as_usize());
        let ret: u32 = self.get_memory32(address);
        self.set_register32(Register::ESP.as_usize(), address + 4);
        ret
    }

    pub fn set_carry(&mut self, is_carry: bool)
        ensures
            final(self)@ == old(self)@.with_eflags(
                with_flag(old(self)@.eflags, CARRY_FLAG, is_carry),
            ),
            final(self).instructions@ == old(self).instructions@,
    {
        if is_carry {
            self.eflags = self.eflags | CARRY_FLAG;
        } else {
            self.eflags = self.eflags & !CARRY_FLAG;
        }
    }

    pub fn set_zero(&mut self, is_zero: bool)
        ensures
            final(self)@ == old(self)@.with_eflags(
                with_flag(old(self)@.eflags, ZERO_FLAG, is_zero),
            ),
            final(self).instructions@ == old(self).instructions@,
    {
        if is_zero {
            self.eflags = self.eflags | ZERO_FLAG;
        } else {
            self.eflags = self.eflags & !ZERO_FLAG;
        }
    }

    pub fn set_sign(&mut self, is_sign: bool)
        ensures
            final(self)@ == old(self)@.with_eflags(
                with_flag(old(self)@.eflags, SIGN_FLAG, is_sign),
            ),
            final(self).instructions@ == old(self).instructions@,
    {
        if is_sign {
            self.eflags = self.eflags | SIGN_FLAG;
        } else {
            self.eflags = self.eflags & !SIGN_FLAG;
        }
    }

    pub fn set_overflow(&mut self, is_overflow: bool)
        ensures
            final(self)@ == old(self)@.with_eflags(
                with_flag(old(self)@.eflags, OVERFLOW_FLAG, is_overflow),
            ),
            final(self).instructions@ == old(self).instructions@,
    {
        if is_overflow {
            self.eflags = self.eflags | OVERFLOW_FLAG;
        } else {
            self.eflags = self.eflags & !OVERFLOW_FLAG;
        }
    }

    pub fn is_carry(&self) -> (r: bool)
        ensures
            r == cf(self@.eflags),
    {
        self.eflags & CARRY_FLAG != 0
    }

    pub fn is_zero(&self) -> (r: bool)
        ensures
            r == zf(self@.eflags),
    {
        self.eflags & ZERO_FLAG != 0
    }

    pub fn is_sign(&self) -> (r: bool)
        ensures
            r == sf(self@.eflags),
    {
        self.eflags & SIGN_FLAG != 0
    }

    pub fn is_overflow(&self) -> (r: bool)
        ensures
            r == of(self@.eflags),
    {
        self.eflags & OVERFLOW_FLAG != 0
    }

    /// Sets CF, ZF, SF and OF from a 64-bit subtraction result as the
    /// flags unit defines them; the CMP family and SUB call this.
    pub fn update_eflags_sub(&mut self, v1: u32, v2: u32, result: u64)
        requires
            result == sub_result(v1, v2),
        ensures
            final(self)@ == old(self)@.with_eflags(eflags_after_sub(old(self)@.eflags, v1, v2)),
            final(self).instructions@ == old(self).instructions@,
    {
        let sign1: u32 = v1 >> 31u32;
        let sign2: u32 = v2 >> 31u32;
        let signr: u64 = (result >> 31u64) & 1;
        self.set_carry((result >> 32u64) != 0);
        self.set_zero((result & 0xFFFFFFFF) == 0);
        self.set_sign(signr != 0);
        self.set_overflow(sign1 != sign2 && (sign1 as u64) != signr);
    }

    /// Queues one byte for `IN AL, DX` on COM1 to read.
    pub fn push_input(&mut self, value: u8)
        ensures
            final(self)@ == (MachineView { input: old(self)@.input.push(value), ..old(self)@ }),
            final(self).instructions@ == old(self).instructions@,
    {
        self.com1_input.push(value);
    }

    /// Hands over everything written to COM1 so far and clears the queue.
    pub fn take_output(&mut self) -> (r: Vec<u8>)
        ensures
            r@ == old(self)@.output,
            final(self)@ == (MachineView { output: Seq::<u8>::empty(), ..old(self)@ }),
            final(self).instructions@ == old(self).instructions@,
    {
        let mut taken: Vec<u8> = Vec::new();
        core::mem::swap(&mut taken, &mut self.com1_output);
        taken
    }

    /// Copies a binary image into memory at the load address, at most
    /// `LOAD_LIMIT` bytes; everything else is untouched.
    pub fn load_binary(&mut self, image: &Vec<u8>)
        requires
            old(self)@.wf(),
            image@.len() <= crate::semantics::LOAD_LIMIT,
            crate::semantics::LOAD_ADDRESS + crate::semantics::LOAD_LIMIT <= old(
                self,
            )@.mem.len(),
        ensures
            final(self)@.mem.len() == old(self)@.mem.len(),
            forall|i: int|
                0 <= i < image@.len() ==> final(self)@.mem[crate::semantics::LOAD_ADDRESS + i]
                    == image@[i],
            forall|a: int|
                0 <= a < old(self)@.mem.len() && !(crate::semantics::LOAD_ADDRESS <= a
                    < crate::semantics::LOAD_ADDRESS + image@.len()) ==> final(self)@.mem[a] == old(
                    self,
                )@.mem[a],
            final(self)@ == (MachineView { mem: final(self)@.mem, ..old(self)@ }),
            final(self).instructions@ == old(self).instructions@,
    {
        let mut i: usize = 0;
        while i < image.len()
            invariant
                old(self)@.wf(),
                i <= image@.len(),
                image@.len() <= crate::semantics::LOAD_LIMIT,
                crate::semantics::LOAD_ADDRESS + crate::semantics::LOAD_LIMIT <= old(
                    self,
                )@.mem.len(),
                self@.mem.len() == old(self)@.mem.len(),
                forall|j: int|
                    0 <= j < i ==> self@.mem[crate::semantics::LOAD_ADDRESS + j] == image@[j],
                forall|a: int|
                    0 <= a < old(self)@.mem.len() && !(crate::semantics::LOAD_ADDRESS <= a
                        < crate::semantics::LOAD_ADDRESS + i) ==> self@.mem[a] == old(
                        self,
                    )@.mem[a],
                self@ == (MachineView { mem: self@.mem, ..old(self)@ }),
                self.instructions@ == old(self).instructions@,
            decreases image@.len() - i,
        {
            self.set_memory8(crate::semantics::LOAD_ADDRESS + (i as u32), image[i]);
            i = i + 1;
        }
    }

    /// The stack can take a 32-bit push.
    pub fn stack_push_ok(&self) -> (r: bool)
        requires
            self@.wf(),
        ensures
            r == self@.can_push(),
    {
        let esp: u32 = self.get_register32(Register::ESP.as_usize());
        4 <= esp && (esp as usize) <= self.memory.len()
    }

    /// The stack can give a 32-bit pop.
    pub fn stack_pop_ok(&self) -> (r: bool)
        requires
            self@.wf(),
        ensures
            r == self@.can_pop(),
    {
        let esp: u32 = self.get_register32(Register::ESP.as_usize());
        self.addr32_ok(esp)
    }

    /// Decodes the ModR/M byte at EIP + `offset` together with its SIB
    /// byte and displacement; `None` when any of those bytes would lie
    /// outside memory.
    pub fn parse_modrm(&self, offset: u32) -> (r: Option<ModRM>)
        requires
            self@.wf(),
            offset <= 8,
        ensures
            r is Some <==> parse_modrm_ok(self@.mem, self@.eip + offset),
            r is Some ==> r->Some_0 == parse_modrm_at(self@.mem, self@.eip + offset),
            r is Some ==> r->Some_0.wf(),
            r is Some ==> self@.eip + offset + r->Some_0.size() <= self@.mem.len(),
    {
        if !self.code_len_ok(offset + 1) {
            return None;
        }
        let b: u8 = self.get_code8(offset as usize);
        let mod_val: u8 = (b >> 6u8) & 3;
        let opecode: u8 = (b >> 3u8) & 7;
        let rm: u8 = b & 7;
        let has_sib: bool = mod_val != 3 && rm == 4;
        let has_disp8: bool = mod_val == 1;
        let has_disp32: bool = mod_val == 2 || (mod_val == 0 && rm == 5);
        let mut size: u32 = 1;
        if has_sib {
            size = size + 1;
        }
        if has_disp8 {
            size = size + 1;
        }
        if has_disp32 {
            size = size + 4;
        }
        if !self.code_len_ok(offset + size) {
            return None;
        }
        let sib: Option<u8> = if has_sib {
            Some(self.get_code8(offset as usize + 1))
        } else {
            None
        };
        let sib_len: usize = if has_sib {
            1
        } else {
            0
        };
        let dpos: usize = offset as usize + 1 + sib_len;
        let disp8: Option<u8> = if has_disp8 {
            Some(self.get_code8(dpos))
        } else {
            None
        };
        let disp32: Option<u32> = if has_disp32 {
            Some(self.get_code32(dpos))
        } else {
            None
        };
        let m = ModRM { mod_val, opecode, rm, sib, disp8, disp32 };
        proof {
            crate::modrm::lemma_parse_modrm_wf(self@.mem, self@.eip + offset);
            assert(m == parse_modrm_at(self@.mem, self@.eip + offset));
        }
        Some(m)
    }

    /// The opcode decoder: the executable twin of `semantics::decode`.
    pub fn decode_opcode(op: u8) -> (r: Option<Instruction>)
        ensures
            r == crate::semantics::decode(op),
    {
        if op == 0x01 {
            Some(Instruction::AddRm32R32)
        } else if op == 0x3B {
            Some(Instruction::CmpR32Rm32)
        } else if op == 0x3C {
            Some(Instruction::CmpAlImm8)
        } else if op == 0x3D {
            Some(Instruction::CmpEaxImm32)
        } else if 0x40 <= op && op < 0x48 {
            Some(Instruction::IncR32)
        } else if 0x50 <= op && op < 0x58 {
            Some(Instruction::PushR32)
        } else if 0x58 <= op && op < 0x60 {
            Some(Instruction::PopR32)
        } else if op == 0x68 {
            Some(Instruction::PushImm32)
        } else if op == 0x6A {
            Some(Instruction::PushImm8)
        } else if op == 0x70 {
            Some(Instruction::Jo)
        } else if op == 0x71 {
            Some(Instruction::Jno)
        } else if op == 0x72 {
            Some(Instruction::Jc)
        } else if op == 0x73 {
            Some(Instruction::Jnc)
        } else if op == 0x74 {
            Some(Instruction::Jz)
        } else if op == 0x75 {
            Some(Instruction::Jnz)
        } else if op == 0x78 {
            Some(Instruction::Js)
        } else if op == 0x79 {
            Some(Instruction::Jns)
        } else if op == 0x7C {
            Some(Instruction::Jl)
        } else if op == 0x7E {
            Some(Instruction::Jle)
        } else if op == 0x83 {
            Some(Instruction::Code83)
        } else if op == 0x88 {
            Some(Instruction::MovRm8R8)
        } else if op == 0x89 {
            Some(Instruction::MovRm32R32)
        } else if op == 0x8A {
            Some(Instruction::MovR8Rm8)
        } else if op == 0x8B {
            Some(Instruction::MovR32Rm32)
        } else if 0xB0 <= op && op < 0xB8 {
            Some(Instruction::MovR8Imm8)
        } else if 0xB8 <= op && op < 0xC0 {
            Some(Instruction::MovR32Imm32)
        } else if op == 0xC3 {
            Some(Instruction::Ret)
        } else if op == 0xC7 {
            Some(Instruction::MovRm32Imm32)
        } else if op == 0xC9 {
            Some(Instruction::Leave)
        } else if op == 0xCD {
            Some(Instruction::Swi)
        } else if op == 0xE8 {
            Some(Instruction::CallRel32)
        } else if op == 0xE9 {
            Some(Instruction::NearJump)
        } else if op == 0xEB {
            Some(Instruction::ShortJump)
        } else if op == 0xEC {
            Some(Instruction::InAlDx)
        } else if op == 0xEE {
            Some(Instruction::OutDxAl)
        } else if op == 0xFF {
            Some(Instruction::CodeFf)
        } else {
            None
        }
    }
}

} // verus!
