//! The ModR/M byte: parsing, effective addresses, and the four operand
//! accessors (8- and 32-bit r/m, 8- and 32-bit reg).
//!
//! A `ModRM` value is ephemeral: a handler decodes it, uses it to reach its
//! operands, and discards it. When `mod != 3` and `rm == 4` the operand would
//! need the SIB byte; the byte is captured but never interpreted, and every
//! handler rejects that form as a fault.

use vstd::prelude::*;

use crate::emulator::Emulator;
use crate::register::Register8;
use crate::semantics::{read32, sx8, wadd, write32, MachineView};

verus! {

/// The decoded ModR/M byte and its displacement, if any.
pub struct ModRM {
    /// Bits 7..6: the addressing mode.
    pub mod_val: u8,
    /// Bits 5..3: a register selector, or a group opcode's sub-opcode.
    pub opecode: u8,
    /// Bits 2..0: the register or memory operand selector.
    pub rm: u8,
    /// The SIB byte, present when `mod != 3` and `rm == 4`; never decoded.
    pub sib: Option<u8>,
    /// The raw displacement byte, present when `mod == 1`; sign-extended
    /// where it is used.
    pub disp8: Option<u8>,
    /// The raw 32-bit displacement, present when `mod == 2`, or when
    /// `mod == 0` and `rm == 5` (the absolute mode).
    pub disp32: Option<u32>,
}

/// The `mod` field of a ModR/M byte.
pub open spec fn modrm_mod(b: u8) -> u8 {
    (b >> 6u8) & 3
}

/// The `reg` field of a ModR/M byte.
pub open spec fn modrm_reg(b: u8) -> u8 {
    (b >> 3u8) & 7
}

/// The `rm` field of a ModR/M byte.
pub open spec fn modrm_rm(b: u8) -> u8 {
    b & 7
}

/// How many bytes the ModR/M byte `b` occupies together with its SIB byte
/// and displacement.
pub open spec fn modrm_size_of(b: u8) -> int {
    1 + (if modrm_mod(b) != 3 && modrm_rm(b) == 4 {
        1int
    } else {
        0int
    }) + (if modrm_mod(b) == 1 {
        1int
    } else {
        0int
    }) + (if modrm_mod(b) == 2 || (modrm_mod(b) == 0 && modrm_rm(b) == 5) {
        4int
    } else {
        0int
    })
}

/// The ModR/M byte at `pos` and all the bytes it calls for lie in memory.
pub open spec fn parse_modrm_ok(mem: Seq<u8>, pos: int) -> bool {
    &&& 0 <= pos < mem.len()
    &&& pos + modrm_size_of(mem[pos]) <= mem.len()
}

/// The decoded form of the ModR/M byte at `pos`.
pub open spec fn parse_modrm_at(mem: Seq<u8>, pos: int) -> ModRM {
    let b = mem[pos];
    let has_sib = modrm_mod(b) != 3 && modrm_rm(b) == 4;
    let dpos = pos + 1 + (if has_sib {
        1int
    } else {
        0int
    });
    ModRM {
        mod_val: modrm_mod(b),
        opecode: modrm_reg(b),
        rm: modrm_rm(b),
        sib: if has_sib {
            Some(mem[pos + 1])
        } else {
            None
        },
        disp8: if modrm_mod(b) == 1 {
            Some(mem[dpos])
        } else {
            None
        },
        disp32: if modrm_mod(b) == 2 || (modrm_mod(b) == 0 && modrm_rm(b) == 5) {
            Some(read32(mem, dpos))
        } else {
            None
        },
    }
}

impl ModRM {
    /// What parsing guarantees: the three fields are in range and each
    /// optional part is present exactly when its mode calls for it.
    pub open spec fn wf(self) -> bool {
        &&& self.mod_val < 4
        &&& self.opecode < 8
        &&& self.rm < 8
        &&& (self.sib is Some <==> self.mod_val != 3 && self.rm == 4)
        &&& (self.disp8 is Some <==> self.mod_val == 1)
        &&& (self.disp32 is Some <==> self.mod_val == 2 || (self.mod_val == 0 && self.rm == 5))
    }

    /// How many code bytes this decoded form occupied.
    pub open spec fn size(self) -> int {
        1 + (if self.sib is Some {
            1int
        } else {
            0int
        }) + (if self.disp8 is Some {
            1int
        } else {
            0int
        }) + (if self.disp32 is Some {
            4int
        } else {
            0int
        })
    }

    /// The r/m operand is a register, not memory.
    pub open spec fn rm_is_reg(self) -> bool {
        self.mod_val == 3
    }

    /// The operand form that would need SIB decoding; always a fault.
    pub open spec fn needs_sib(self) -> bool {
        self.mod_val != 3 && self.rm == 4
    }

    /// The effective address of the memory operand (meaningful when
    /// `mod != 3` and `rm != 4`): the absolute displacement when `mod == 0`
    /// and `rm == 5`, else register `rm` plus the displacement the mode
    /// calls for, with 32-bit wraparound.
    pub open spec fn ea(self, s: MachineView) -> u32 {
        if self.mod_val == 0 {
            if self.rm == 5 {
                self.disp32->Some_0
            } else {
                s.regs[self.rm as int]
            }
        } else if self.mod_val == 1 {
            wadd(s.regs[self.rm as int], sx8(self.disp8->Some_0))
        } else {
            wadd(s.regs[self.rm as int], self.disp32->Some_0)
        }
    }

    /// The 8-bit r/m operand can be read or written: a register always,
    /// a memory byte when its address is in bounds.
    pub open spec fn rm8_ok(self, s: MachineView) -> bool {
        self.rm_is_reg() || (!self.needs_sib() && self.ea(s) < s.mem.len())
    }

    /// The 8-bit r/m operand's value.
    pub open spec fn rm8_val(self, s: MachineView) -> u8 {
        if self.rm_is_reg() {
            s.reg8(self.rm as int)
        } else {
            s.mem[self.ea(s) as int]
        }
    }

    /// The state with the 8-bit r/m operand set to `v`.
    pub open spec fn with_rm8(self, s: MachineView, v: u8) -> MachineView {
        if self.rm_is_reg() {
            s.with_reg8(self.rm as int, v)
        } else {
            s.with_mem8(self.ea(s) as int, v)
        }
    }

    /// The 32-bit r/m operand can be read or written.
    pub open spec fn rm32_ok(self, s: MachineView) -> bool {
        self.rm_is_reg() || (!self.needs_sib() && self.ea(s) + 4 <= s.mem.len())
    }

    /// The 32-bit r/m operand's value.
    pub open spec fn rm32_val(self, s: MachineView) -> u32 {
        if self.rm_is_reg() {
            s.regs[self.rm as int]
        } else {
            read32(s.mem, self.ea(s) as int)
        }
    }

    /// The state with the 32-bit r/m operand set to `v`.
    pub open spec fn with_rm32(self, s: MachineView, v: u32) -> MachineView {
        if self.rm_is_reg() {
            s.with_reg32(self.rm as int, v)
        } else {
            MachineView { mem: write32(s.mem, self.ea(s) as int, v), ..s }
        }
    }
}

/// A byte sign-extended to 32 bits, as displacements and the imm8 of the
/// 0x83 group are.
pub fn sign_extend8(b: u8) -> (r: u32)
    ensures
        r == sx8(b),
{
    if b < 0x80 {
        b as u32
    } else {
        (b as u32) | 0xFFFFFF00
    }
}

impl ModRM {
    /// An empty decoded form: register-direct mode, everything zero.
    pub fn new() -> (r: ModRM)
        ensures
            r.mod_val == 0 && r.opecode == 0 && r.rm == 0,
            r.sib is None && r.disp8 is None && r.disp32 is None,
    {
        ModRM { mod_val: 0, opecode: 0, rm: 0, sib: None, disp8: None, disp32: None }
    }

    /// How many code bytes this decoded form occupied.
    pub fn length(&self) -> (r: u32)
        ensures
            r == self.size(),
    {
        let mut n: u32 = 1;
        if self.sib.is_some() {
            n = n + 1;
        }
        if self.disp8.is_some() {
            n = n + 1;
        }
        if self.disp32.is_some() {
            n = n + 4;
        }
        n
    }

    /// The effective address of the memory operand.
    pub fn calc_memory_address(&self, emu: &Emulator) -> (r: u32)
        requires
            emu@.wf(),
            self.wf(),
            self.mod_val != 3,
            !self.needs_sib(),
        ensures
            r == self.ea(emu@),
    {
        if self.mod_val == 0 {
            if self.rm == 5 {
                self.disp32.unwrap()
            } else {
                emu.get_register32(self.rm as usize)
            }
        } else if self.mod_val == 1 {
            let disp: u32 = sign_extend8(self.disp8.unwrap());
            emu.get_register32(self.rm as usize).wrapping_add(disp)
        } else {
            emu.get_register32(self.rm as usize).wrapping_add(self.disp32.unwrap())
        }
    }

    /// Whether the 8-bit r/m operand can be reached (a register, or an
    /// in-bounds memory byte).
    pub fn rm8_in_bounds(&self, emu: &Emulator) -> (r: bool)
        requires
            emu@.wf(),
            self.wf(),
            !self.needs_sib(),
        ensures
            r == self.rm8_ok(emu@),
    {
        if self.mod_val == 3 {
            true
        } else {
            let address: u32 = self.calc_memory_address(emu);
            emu.addr8_ok(address)
        }
    }

    /// Whether the 32-bit r/m operand can be reached.
    pub fn rm32_in_bounds(&self, emu: &Emulator) -> (r: bool)
        requires
            emu@.wf(),
            self.wf(),
            !self.needs_sib(),
        ensures
            r == self.rm32_ok(emu@),
    {
        if self.mod_val == 3 {
            true
        } else {
            let address: u32 = self.calc_memory_address(emu);
            emu.addr32_ok(address)
        }
    }

    /// Reads the 8-bit r/m operand.
    pub fn get_rm8(&self, emu: &Emulator) -> (r: u8)
        requires
            emu@.wf(),
            self.wf(),
            !self.needs_sib(),
            self.rm8_ok(emu@),
        ensures
            r == self.rm8_val(emu@),
    {
        if self.mod_val == 3 {
            let reg = Register8::from_usize(self.rm as usize).unwrap();
            emu.get_register8(reg)
        } else {
            let address: u32 = self.calc_memory_address(emu);
            emu.get_memory8(address)
        }
    }

    /// Writes the 8-bit r/m operand.
    pub fn set_rm8(&self, emu: &mut Emulator, value: u8)
        requires
            old(emu)@.wf(),
            self.wf(),
            !self.needs_sib(),
            self.rm8_ok(old(emu)@),
        ensures
            final(emu)@ == self.with_rm8(old(emu)@, value),
            final(emu).instructions@ == old(emu).instructions@,
    {
        if self.mod_val == 3 {
            let reg = Register8::from_usize(self.rm as usize).unwrap();
            emu.set_register8(reg, value);
        } else {
            let address: u32 = self.calc_memory_address(emu);
            emu.set_memory8(address, value);
        }
    }

    /// Reads the 32-bit r/m operand.
    pub fn get_rm32(&self, emu: &Emulator) -> (r: u32)
        requires
            emu@.wf(),
            self.wf(),
            !self.needs_sib(),
            self.rm32_ok(emu@),
        ensures
            r == self.rm32_val(emu@),
    {
        if self.mod_val == 3 {
            emu.get_register32(self.rm as usize)
        } else {
            let address: u32 = self.calc_memory_address(emu);
            emu.get_memory32(address)
        }
    }

    /// Writes the 32-bit r/m operand.
    pub fn set_rm32(&self, emu: &mut Emulator, value: u32)
        requires
            old(emu)@.wf(),
            self.wf(),
            !self.needs_sib(),
            self.rm32_ok(old(emu)@),
        ensures
            final(emu)@ == self.with_rm32(old(emu)@, value),
            final(emu).instructions@ == old(emu).instructions@,
    {
        if self.mod_val == 3 {
            emu.set_register32(self.rm as usize, value);
        } else {
            let address: u32 = self.calc_memory_address(emu);
            emu.set_memory32(address, value);
        }
    }

    /// Reads the `reg` field as an 8-bit register operand.
    pub fn get_r8(&self, emu: &Emulator) -> (r: u8)
        requires
            emu@.wf(),
            self.wf(),
        ensures
            r == emu@.reg8(self.opecode as int),
    {
        let reg = Register8::from_usize(self.opecode as usize).unwrap();
        emu.get_register8(reg)
    }

    /// Writes the `reg` field as an 8-bit register operand.
    pub fn set_r8(&self, emu: &mut Emulator, value: u8)
        requires
            old(emu)@.wf(),
            self.wf(),
        ensures
            final(emu)@ == old(emu)@.with_reg8(self.opecode as int, value),
            final(emu).instructions@ == old(emu).instructions@,
    {
        let reg = Register8::from_usize(self.opecode as usize).unwrap();
        emu.set_register8(reg, value);
    }

    /// Reads the `reg` field as a 32-bit register.
    pub fn get_r32(&self, emu: &Emulator) -> (r: u32)
        requires
            emu@.wf(),
            self.wf(),
        ensures
            r == emu@.regs[self.opecode as int],
    {
        emu.get_register32(self.opecode as usize)
    }

    /// Writes the `reg` field as a 32-bit register.
    pub fn set_r32(&self, emu: &mut Emulator, value: u32)
        requires
            old(emu)@.wf(),
            self.wf(),
        ensures
            final(emu)@ == old(emu)@.with_reg32(self.opecode as int, value),
            final(emu).instructions@ == old(emu).instructions@,
    {
        emu.set_register32(self.opecode as usize, value);
    }
}

/// Parsing yields a well-formed value of the size `modrm_size_of` gives.
pub proof fn lemma_parse_modrm_wf(mem: Seq<u8>, pos: int)
    requires
        0 <= pos < mem.len(),
    ensures
        parse_modrm_at(mem, pos).wf(),
        parse_modrm_at(mem, pos).size() == modrm_size_of(mem[pos]),
{
    let b = mem[pos];
    assert((b >> 6u8) & 3 < 4 && (b >> 3u8) & 7 < 8 && b & 7 < 8) by (bit_vector);
}

} // verus!
