//! The eight 32-bit general-purpose registers in canonical x86 order, and
//! the eight 8-bit register operands layered over the first four of them.

use vstd::prelude::*;

verus! {

/// A 32-bit register, numbered 0..7 in the canonical x86 order.
#[derive(Clone, Copy, PartialEq, Eq, Structural, Debug)]
pub enum Register {
    EAX,
    ECX,
    EDX,
    EBX,
    ESP,
    EBP,
    ESI,
    EDI,
}

impl Register {
    /// The register's slot in the register file.
    pub open spec fn idx(self) -> int {
        match self {
            Register::EAX => 0,
            Register::ECX => 1,
            Register::EDX => 2,
            Register::EBX => 3,
            Register::ESP => 4,
            Register::EBP => 5,
            Register::ESI => 6,
            Register::EDI => 7,
        }
    }

    pub fn as_usize(&self) -> (r: usize)
        ensures
            r == self.idx(),
            r < 8,
    {
        match self {
            Register::EAX => 0,
            Register::ECX => 1,
            Register::EDX => 2,
            Register::EBX => 3,
            Register::ESP => 4,
            Register::EBP => 5,
            Register::ESI => 6,
            Register::EDI => 7,
        }
    }
}

/// An 8-bit register operand. Indexes 0..3 name the low byte of registers
/// 0..3 (AL, CL, DL, BL); indexes 4..7 name bits 8..15 of the same
/// registers (AH, CH, DH, BH).
#[derive(Clone, Copy, PartialEq, Eq, Structural, Debug)]
pub enum Register8 {
    Al,
    Cl,
    Dl,
    Bl,
    Ah,
    Ch,
    Dh,
    Bh,
}

impl Register8 {
    /// The operand's index in the 8-bit register numbering 0..7.
    pub open spec fn idx(self) -> int {
        match self {
            Register8::Al => 0,
            Register8::Cl => 1,
            Register8::Dl => 2,
            Register8::Bl => 3,
            Register8::Ah => 4,
            Register8::Ch => 5,
            Register8::Dh => 6,
            Register8::Bh => 7,
        }
    }

    /// The 8-bit register operand with the given index, and `None` outside
    /// the range 0..7.
    pub fn from_usize(value: usize) -> (r: Option<Self>)
        ensures
            value < 8 <==> r is Some,
            value < 8 ==> r->Some_0.idx() == value,
    {
        match value {
            0 => Some(Register8::Al),
            1 => Some(Register8::Cl),
            2 => Some(Register8::Dl),
            3 => Some(Register8::Bl),
            4 => Some(Register8::Ah),
            5 => Some(Register8::Ch),
            6 => Some(Register8::Dh),
            7 => Some(Register8::Bh),
            _ => None,
        }
    }

    pub fn index(&self) -> (r: usize)
        ensures
            r == self.idx(),
            r < 8,
    {
        match self {
            Register8::Al => 0,
            Register8::Cl => 1,
            Register8::Dl => 2,
            Register8::Bl => 3,
            Register8::Ah => 4,
            Register8::Ch => 5,
            Register8::Dh => 6,
            Register8::Bh => 7,
        }
    }
}

} // verus!
