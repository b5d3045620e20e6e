//! The mathematical model of the machine.
//!
//! `MachineView` is the abstract state: the eight registers, the flags word,
//! the flat memory, the instruction pointer, and the two COM1 byte queues.
//! For every instruction of the subset there is a spec function giving the
//! exact state it steps to and the outcome it reports; `step_res` ties them
//! together through the opcode decoder, and `run_res` iterates it. The
//! executable machine in `emulator` is proved to follow these functions.

use vstd::prelude::*;

verus! {

pub const CARRY_FLAG: u32 = 1;

pub const ZERO_FLAG: u32 = 2;

pub const SIGN_FLAG: u32 = 4;

pub const OVERFLOW_FLAG: u32 = 8;

/// The one wired I/O port: COM1.
pub const COM1_PORT: u16 = 0x03F8;

/// Where the loader places the binary image, and the initial EIP and ESP.
pub const LOAD_ADDRESS: u32 = 0x7C00;

/// How many bytes of the image the loader takes at most.
pub const LOAD_LIMIT: usize = 512;

/// The abstract machine state.
#[verifier::ext_equal]
pub ghost struct MachineView {
    /// The eight 32-bit registers, indexed 0..7 in canonical x86 order
    /// (EAX, ECX, EDX, EBX, ESP, EBP, ESI, EDI).
    pub regs: Seq<u32>,
    /// The flags word; only the CF, ZF, SF and OF bits are defined.
    pub eflags: u32,
    /// The flat byte-addressed memory.
    pub mem: Seq<u8>,
    /// The instruction pointer.
    pub eip: u32,
    /// Bytes waiting to be read from COM1, front first.
    pub input: Seq<u8>,
    /// Bytes written to COM1 so far, oldest first.
    pub output: Seq<u8>,
}

/// A condition that halts the emulation.
#[derive(Clone, Copy, PartialEq, Eq, Structural, Debug)]
pub enum Fault {
    /// A code fetch, memory operand or stack access fell outside memory.
    OutOfBounds,
    /// A memory operand would need the SIB byte, which this subset rejects.
    SibUnsupported,
    /// A group opcode carried a sub-opcode outside the subset.
    UnsupportedGroupOp,
    /// The opcode byte is not in the dispatch table.
    UnknownOpcode,
}

/// What one instruction step reports.
#[derive(Clone, Copy, PartialEq, Eq, Structural, Debug)]
pub enum StepResult {
    /// The instruction completed.
    Normal,
    /// `IN AL, DX` on COM1 found the input queue empty; the state is
    /// unchanged, and the step can be retried once a byte is queued.
    InputRequested,
    /// `INT` with a number other than 0x10; reported and skipped.
    UnknownInterrupt(u8),
    /// `INT 0x10` with an AH other than 0x0E; reported and skipped.
    UnknownBiosFunction(u8),
    /// The emulation must halt.
    Faulted(Fault),
}

/// Why a run of consecutive steps ended.
#[derive(Clone, Copy, PartialEq, Eq, Structural, Debug)]
pub enum RunStatus {
    /// EIP reached 0 after an instruction: the end-of-program convention.
    EndOfProgram,
    /// EIP left the memory bounds before a fetch.
    EipOutOfRange,
    /// The next instruction reads COM1 and no input byte is queued.
    AwaitingInput,
    /// A step faulted.
    Stopped(Fault),
    /// The step budget ran out first.
    OutOfFuel,
}

/// The closed set of instruction mnemonics of the subset.
#[derive(Clone, Copy, PartialEq, Eq, Structural, Debug)]
pub enum Instruction {
    MovR8Imm8,
    MovR32Imm32,
    MovR8Rm8,
    MovR32Rm32,
    AddRm32R32,
    MovRm8R8,
    MovRm32R32,
    IncR32,
    PushR32,
    PopR32,
    PushImm32,
    PushImm8,
    Code83,
    MovRm32Imm32,
    InAlDx,
    OutDxAl,
    CodeFf,
    CallRel32,
    Ret,
    Leave,
    ShortJump,
    NearJump,
    CmpAlImm8,
    CmpEaxImm32,
    CmpR32Rm32,
    Jc,
    Jnc,
    Jz,
    Jnz,
    Js,
    Jns,
    Jo,
    Jno,
    Jl,
    Jle,
    Swi,
}

/// The opcode dispatch: which instruction, if any, the opcode byte selects.
pub open spec fn decode(op: u8) -> Option<Instruction> {
    if op == 0x01 {
        Some(Instruction::AddRm32R32)
    } else if op == 0x3B {
        Some(Instruction::CmpR32Rm32)
    } else if op == 0x3C {
        Some(Instruction::CmpAlImm8)
    } else if op == 0x3D {
        Some(Instruction::CmpEaxImm32)
    } else if 0x40 <= op && op < 0x48 {
        Some(Instruction::IncR32)
    } else if 0x50 <= op && op < 0x58 {
        Some(Instruction::PushR32)
    } else if 0x58 <= op && op < 0x60 {
        Some(Instruction::PopR32)
    } else if op == 0x68 {
        Some(Instruction::PushImm32)
    } else if op == 0x6A {
        Some(Instruction::PushImm8)
    } else if op == 0x70 {
        Some(Instruction::Jo)
    } else if op == 0x71 {
        Some(Instruction::Jno)
    } else if op == 0x72 {
        Some(Instruction::Jc)
    } else if op == 0x73 {
        Some(Instruction::Jnc)
    } else if op == 0x74 {
        Some(Instruction::Jz)
    } else if op == 0x75 {
        Some(Instruction::Jnz)
    } else if op == 0x78 {
        Some(Instruction::Js)
    } else if op == 0x79 {
        Some(Instruction::Jns)
    } else if op == 0x7C {
        Some(Instruction::Jl)
    } else if op == 0x7E {
        Some(Instruction::Jle)
    } else if op == 0x83 {
        Some(Instruction::Code83)
    } else if op == 0x88 {
        Some(Instruction::MovRm8R8)
    } else if op == 0x89 {
        Some(Instruction::MovRm32R32)
    } else if op == 0x8A {
        Some(Instruction::MovR8Rm8)
    } else if op == 0x8B {
        Some(Instruction::MovR32Rm32)
    } else if 0xB0 <= op && op < 0xB8 {
        Some(Instruction::MovR8Imm8)
    } else if 0xB8 <= op && op < 0xC0 {
        Some(Instruction::MovR32Imm32)
    } else if op == 0xC3 {
        Some(Instruction::Ret)
    } else if op == 0xC7 {
        Some(Instruction::MovRm32Imm32)
    } else if op == 0xC9 {
        Some(Instruction::Leave)
    } else if op == 0xCD {
        Some(Instruction::Swi)
    } else if op == 0xE8 {
        Some(Instruction::CallRel32)
    } else if op == 0xE9 {
        Some(Instruction::NearJump)
    } else if op == 0xEB {
        Some(Instruction::ShortJump)
    } else if op == 0xEC {
        Some(Instruction::InAlDx)
    } else if op == 0xEE {
        Some(Instruction::OutDxAl)
    } else if op == 0xFF {
        Some(Instruction::CodeFf)
    } else {
        None
    }
}

/// 32-bit addition with wraparound.
pub open spec fn wadd(a: u32, b: u32) -> u32 {
    vstd::wrapping::u32_specs::wrapping_add(a, b)
}

/// 32-bit subtraction with wraparound.
pub open spec fn wsub(a: u32, b: u32) -> u32 {
    vstd::wrapping::u32_specs::wrapping_sub(a, b)
}

/// Four bytes assembled little-endian.
pub open spec fn le32(b0: u8, b1: u8, b2: u8, b3: u8) -> u32 {
    (b0 as u32) | ((b1 as u32) << 8u32) | ((b2 as u32) << 16u32) | ((b3 as u32) << 24u32)
}

/// Byte `i` (0 = least significant) of a 32-bit value.
pub open spec fn u32_byte(v: u32, i: int) -> u8 {
    if i == 0 {
        (v & 0xFF) as u8
    } else if i == 1 {
        ((v >> 8u32) & 0xFF) as u8
    } else if i == 2 {
        ((v >> 16u32) & 0xFF) as u8
    } else {
        ((v >> 24u32) & 0xFF) as u8
    }
}

/// A byte sign-extended to 32 bits.
pub open spec fn sx8(b: u8) -> u32 {
    if b < 0x80 {
        b as u32
    } else {
        (b as u32) | 0xFFFFFF00u32
    }
}

/// The 32-bit little-endian value at `a`.
pub open spec fn read32(mem: Seq<u8>, a: int) -> u32 {
    le32(mem[a], mem[a + 1], mem[a + 2], mem[a + 3])
}

/// The memory with `v` stored little-endian at `a`.
pub open spec fn write32(mem: Seq<u8>, a: int, v: u32) -> Seq<u8> {
    mem.update(a, u32_byte(v, 0)).update(a + 1, u32_byte(v, 1)).update(a + 2, u32_byte(v, 2)).update(
        a + 3,
        u32_byte(v, 3),
    )
}

/// Whether the flag selected by `mask` is set.
pub open spec fn flag_set(e: u32, mask: u32) -> bool {
    e & mask != 0
}

/// The flags word with the flag selected by `mask` forced to `on`.
pub open spec fn with_flag(e: u32, mask: u32, on: bool) -> u32 {
    if on {
        e | mask
    } else {
        e & !mask
    }
}

pub open spec fn cf(e: u32) -> bool {
    flag_set(e, CARRY_FLAG)
}

pub open spec fn zf(e: u32) -> bool {
    flag_set(e, ZERO_FLAG)
}

pub open spec fn sf(e: u32) -> bool {
    flag_set(e, SIGN_FLAG)
}

pub open spec fn of(e: u32) -> bool {
    flag_set(e, OVERFLOW_FLAG)
}

/// `v1 - v2` computed in 64 bits with wraparound; bit 32 is the borrow.
pub open spec fn sub_result(v1: u32, v2: u32) -> u64 {
    vstd::wrapping::u64_specs::wrapping_sub(v1 as u64, v2 as u64)
}

/// The flags word after comparing or subtracting `v2` from `v1`:
/// CF is the borrow, ZF tests the low 32 bits of the result for zero,
/// SF is bit 31 of the result, and OF is the signed-overflow condition
/// for subtraction.
pub open spec fn eflags_after_sub(e: u32, v1: u32, v2: u32) -> u32 {
    let r = sub_result(v1, v2);
    let e1 = with_flag(e, CARRY_FLAG, (r >> 32u64) != 0);
    let e2 = with_flag(e1, ZERO_FLAG, r & 0xFFFFFFFF == 0);
    let e3 = with_flag(e2, SIGN_FLAG, (r >> 31u64) & 1 != 0);
    with_flag(
        e3,
        OVERFLOW_FLAG,
        (v1 >> 31u32) != (v2 >> 31u32) && ((v1 >> 31u32) as u64) != (r >> 31u64) & 1,
    )
}

impl MachineView {
    /// The structural invariant of the state: eight registers, and a memory
    /// whose length and addresses fit in 32 bits.
    pub open spec fn wf(self) -> bool {
        &&& self.regs.len() == 8
        &&& self.mem.len() <= 0xFFFFFFFFint
    }

    /// `n` code bytes starting at EIP lie inside memory.
    pub open spec fn code_ok(self, n: int) -> bool {
        self.eip + n <= self.mem.len()
    }

    /// The code byte at EIP + `off`.
    pub open spec fn code8(self, off: int) -> u8 {
        self.mem[self.eip + off]
    }

    /// The 32-bit little-endian code value at EIP + `off`.
    pub open spec fn code32(self, off: int) -> u32 {
        read32(self.mem, self.eip + off)
    }

    /// The 8-bit register operand `i`: the low byte of register `i` for
    /// `i` in 0..4, bits 8..15 of register `i - 4` for `i` in 4..8.
    pub open spec fn reg8(self, i: int) -> u8 {
        if i < 4 {
            (self.regs[i] & 0xFF) as u8
        } else {
            ((self.regs[i - 4] >> 8u32) & 0xFF) as u8
        }
    }

    pub open spec fn with_reg32(self, i: int, v: u32) -> MachineView {
        MachineView { regs: self.regs.update(i, v), ..self }
    }

    /// Writing an 8-bit register operand preserves the other three bytes of
    /// the enclosing 32-bit register.
    pub open spec fn with_reg8(self, i: int, v: u8) -> MachineView {
        if i < 4 {
            self.with_reg32(i, (self.regs[i] & 0xFFFFFF00) | (v as u32))
        } else {
            self.with_reg32(i - 4, (self.regs[i - 4] & 0xFFFF00FF) | ((v as u32) << 8u32))
        }
    }

    pub open spec fn with_eip(self, e: u32) -> MachineView {
        MachineView { eip: e, ..self }
    }

    pub open spec fn with_eflags(self, e: u32) -> MachineView {
        MachineView { eflags: e, ..self }
    }

    pub open spec fn with_mem8(self, a: int, b: u8) -> MachineView {
        MachineView { mem: self.mem.update(a, b), ..self }
    }

    pub open spec fn with_mem32(self, a: int, v: u32) -> MachineView {
        MachineView { mem: write32(self.mem, a, v), ..self }
    }

    pub open spec fn esp(self) -> u32 {
        self.regs[4]
    }

    /// A 32-bit push must have four bytes of stack below ESP.
    pub open spec fn can_push(self) -> bool {
        4 <= self.esp() && self.esp() <= self.mem.len()
    }

    /// ESP is decremented by 4 before the store.
    pub open spec fn pushed32(self, v: u32) -> MachineView {
        self.with_reg32(4, (self.esp() - 4) as u32).with_mem32(self.esp() - 4, v)
    }

    /// A 32-bit pop must have four readable bytes at ESP.
    pub open spec fn can_pop(self) -> bool {
        self.esp() + 4 <= self.mem.len()
    }

    /// The value a pop returns: the four bytes at ESP, little-endian.
    pub open spec fn pop32_value(self) -> u32 {
        read32(self.mem, self.esp() as int)
    }

    /// The state after the pop's side effect: ESP moved up by 4.
    pub open spec fn popped32(self) -> MachineView {
        self.with_reg32(4, (self.esp() + 4) as u32)
    }
}

/// MOV r8, imm8 (0xB0..0xB7): the operand index is the opcode minus 0xB0.
pub open spec fn mov_r8_imm8_res(s: MachineView) -> (MachineView, StepResult) {
    if !s.code_ok(2) {
        (s, StepResult::Faulted(Fault::OutOfBounds))
    } else {
        (
            s.with_reg8(s.code8(0) - 0xB0, s.code8(1)).with_eip((s.eip + 2) as u32),
            StepResult::Normal,
        )
    }
}

/// MOV r32, imm32 (0xB8..0xBF): the register index is the opcode minus 0xB8.
pub open spec fn mov_r32_imm32_res(s: MachineView) -> (MachineView, StepResult) {
    if !s.code_ok(5) {
        (s, StepResult::Faulted(Fault::OutOfBounds))
    } else {
        (
            s.with_reg32(s.code8(0) - 0xB8, s.code32(1)).with_eip((s.eip + 5) as u32),
            StepResult::Normal,
        )
    }
}

/// INC r32 (0x40..0x47): wrapping increment, flags untouched.
pub open spec fn inc_r32_res(s: MachineView) -> (MachineView, StepResult) {
    let i = s.code8(0) - 0x40;
    (s.with_reg32(i, wadd(s.regs[i], 1)).with_eip((s.eip + 1) as u32), StepResult::Normal)
}

/// PUSH r32 (0x50..0x57).
pub open spec fn push_r32_res(s: MachineView) -> (MachineView, StepResult) {
    if !s.can_push() {
        (s, StepResult::Faulted(Fault::OutOfBounds))
    } else {
        (s.pushed32(s.regs[s.code8(0) - 0x50]).with_eip((s.eip + 1) as u32), StepResult::Normal)
    }
}

/// POP r32 (0x58..0x5F).
pub open spec fn pop_r32_res(s: MachineView) -> (MachineView, StepResult) {
    if !s.can_pop() {
        (s, StepResult::Faulted(Fault::OutOfBounds))
    } else {
        (
            s.popped32().with_reg32(s.code8(0) - 0x58, s.pop32_value()).with_eip(
                (s.eip + 1) as u32,
            ),
            StepResult::Normal,
        )
    }
}

/// PUSH imm32 (0x68).
pub open spec fn push_imm32_res(s: MachineView) -> (MachineView, StepResult) {
    if !s.code_ok(5) || !s.can_push() {
        (s, StepResult::Faulted(Fault::OutOfBounds))
    } else {
        (s.pushed32(s.code32(1)).with_eip((s.eip + 5) as u32), StepResult::Normal)
    }
}

/// PUSH imm8 (0x6A): the byte is zero-extended.
pub open spec fn push_imm8_res(s: MachineView) -> (MachineView, StepResult) {
    if !s.code_ok(2) || !s.can_push() {
        (s, StepResult::Faulted(Fault::OutOfBounds))
    } else {
        (s.pushed32(s.code8(1) as u32).with_eip((s.eip + 2) as u32), StepResult::Normal)
    }
}

/// CALL rel32 (0xE8): pushes the return address EIP + 5, then jumps by the
/// raw displacement plus 5 with wraparound.
pub open spec fn call_rel32_res(s: MachineView) -> (MachineView, StepResult) {
    if !s.code_ok(5) || !s.can_push() {
        (s, StepResult::Faulted(Fault::OutOfBounds))
    } else {
        (
            s.pushed32((s.eip + 5) as u32).with_eip(wadd(wadd(s.eip, s.code32(1)), 5)),
            StepResult::Normal,
        )
    }
}

/// RET (0xC3): EIP is popped from the stack.
pub open spec fn ret_res(s: MachineView) -> (MachineView, StepResult) {
    if !s.can_pop() {
        (s, StepResult::Faulted(Fault::OutOfBounds))
    } else {
        (s.popped32().with_eip(s.pop32_value()), StepResult::Normal)
    }
}

/// LEAVE (0xC9): ESP := EBP, then EBP is popped from the new stack top.
pub open spec fn leave_res(s: MachineView) -> (MachineView, StepResult) {
    let ebp = s.regs[5];
    if !(ebp + 4 <= s.mem.len()) {
        (s, StepResult::Faulted(Fault::OutOfBounds))
    } else {
        (
            s.with_reg32(4, (ebp + 4) as u32).with_reg32(5, read32(s.mem, ebp as int)).with_eip(
                (s.eip + 1) as u32,
            ),
            StepResult::Normal,
        )
    }
}

/// JMP rel8 (0xEB): sign-extended displacement plus the 2-byte length,
/// added with wraparound.
pub open spec fn short_jump_res(s: MachineView) -> (MachineView, StepResult) {
    if !s.code_ok(2) {
        (s, StepResult::Faulted(Fault::OutOfBounds))
    } else {
        (s.with_eip(wadd(wadd(s.eip, sx8(s.code8(1))), 2)), StepResult::Normal)
    }
}

/// JMP rel32 (0xE9): raw displacement plus the 5-byte length, with
/// wraparound.
pub open spec fn near_jump_res(s: MachineView) -> (MachineView, StepResult) {
    if !s.code_ok(5) {
        (s, StepResult::Faulted(Fault::OutOfBounds))
    } else {
        (s.with_eip(wadd(wadd(s.eip, s.code32(1)), 5)), StepResult::Normal)
    }
}

/// A short conditional jump: the displacement is taken exactly when the
/// condition holds; the fixed 2-byte length is always added.
pub open spec fn cond_jump_res(s: MachineView, c: bool) -> (MachineView, StepResult) {
    if !s.code_ok(2) {
        (s, StepResult::Faulted(Fault::OutOfBounds))
    } else {
        (
            s.with_eip(
                if c {
                    wadd(wadd(s.eip, sx8(s.code8(1))), 2)
                } else {
                    wadd(s.eip, 2)
                },
            ),
            StepResult::Normal,
        )
    }
}

/// CMP AL, imm8 (0x3C).
pub open spec fn cmp_al_imm8_res(s: MachineView) -> (MachineView, StepResult) {
    if !s.code_ok(2) {
        (s, StepResult::Faulted(Fault::OutOfBounds))
    } else {
        (
            s.with_eflags(eflags_after_sub(s.eflags, s.reg8(0) as u32, s.code8(1) as u32)).with_eip(
                (s.eip + 2) as u32,
            ),
            StepResult::Normal,
        )
    }
}

/// CMP EAX, imm32 (0x3D).
pub open spec fn cmp_eax_imm32_res(s: MachineView) -> (MachineView, StepResult) {
    if !s.code_ok(5) {
        (s, StepResult::Faulted(Fault::OutOfBounds))
    } else {
        (
            s.with_eflags(eflags_after_sub(s.eflags, s.regs[0], s.code32(1))).with_eip(
                (s.eip + 5) as u32,
            ),
            StepResult::Normal,
        )
    }
}

/// IN AL, DX (0xEC): on COM1 the front of the input queue moves into AL,
/// or the step reports `InputRequested` and changes nothing if the queue
/// is empty; on any other port AL becomes 0.
pub open spec fn in_al_dx_res(s: MachineView) -> (MachineView, StepResult) {
    let port = s.regs[2] & 0xFFFF;
    if port == COM1_PORT as u32 {
        if s.input.len() == 0 {
            (s, StepResult::InputRequested)
        } else {
            (
                MachineView { input: s.input.drop_first(), ..s.with_reg8(0, s.input[0]) }.with_eip(
                    (s.eip + 1) as u32,
                ),
                StepResult::Normal,
            )
        }
    } else {
        (s.with_reg8(0, 0).with_eip((s.eip + 1) as u32), StepResult::Normal)
    }
}

/// OUT DX, AL (0xEE): on COM1 AL is appended to the output queue; any
/// other port swallows the byte.
pub open spec fn out_dx_al_res(s: MachineView) -> (MachineView, StepResult) {
    let port = s.regs[2] & 0xFFFF;
    if port == COM1_PORT as u32 {
        (
            MachineView { output: s.output.push(s.reg8(0)), ..s }.with_eip((s.eip + 1) as u32),
            StepResult::Normal,
        )
    } else {
        (s.with_eip((s.eip + 1) as u32), StepResult::Normal)
    }
}

/// INT imm8 (0xCD): EIP first moves past the two bytes; interrupt 0x10
/// enters the BIOS video service, any other number is reported and
/// skipped.
pub open spec fn swi_res(s: MachineView) -> (MachineView, StepResult) {
    if !s.code_ok(2) {
        (s, StepResult::Faulted(Fault::OutOfBounds))
    } else {
        let n = s.code8(1);
        let s1 = s.with_eip((s.eip + 2) as u32);
        if n == 0x10 {
            crate::bios::bios_video_res(s1)
        } else {
            (s1, StepResult::UnknownInterrupt(n))
        }
    }
}

/// MOV r8, r/m8 (0x8A).
pub open spec fn mov_r8_rm8_res(s: MachineView) -> (MachineView, StepResult) {
    if !crate::modrm::parse_modrm_ok(s.mem, s.eip + 1) {
        (s, StepResult::Faulted(Fault::OutOfBounds))
    } else {
        let m = crate::modrm::parse_modrm_at(s.mem, s.eip + 1);
        let nip = (s.eip + 1 + m.size()) as u32;
        if m.needs_sib() {
            (s, StepResult::Faulted(Fault::SibUnsupported))
        } else if !m.rm8_ok(s) {
            (s, StepResult::Faulted(Fault::OutOfBounds))
        } else {
            (s.with_reg8(m.opecode as int, m.rm8_val(s)).with_eip(nip), StepResult::Normal)
        }
    }
}

/// MOV r32, r/m32 (0x8B).
pub open spec fn mov_r32_rm32_res(s: MachineView) -> (MachineView, StepResult) {
    if !crate::modrm::parse_modrm_ok(s.mem, s.eip + 1) {
        (s, StepResult::Faulted(Fault::OutOfBounds))
    } else {
        let m = crate::modrm::parse_modrm_at(s.mem, s.eip + 1);
        let nip = (s.eip + 1 + m.size()) as u32;
        if m.needs_sib() {
            (s, StepResult::Faulted(Fault::SibUnsupported))
        } else if !m.rm32_ok(s) {
            (s, StepResult::Faulted(Fault::OutOfBounds))
        } else {
            (s.with_reg32(m.opecode as int, m.rm32_val(s)).with_eip(nip), StepResult::Normal)
        }
    }
}

/// MOV r/m8, r8 (0x88).
pub open spec fn mov_rm8_r8_res(s: MachineView) -> (MachineView, StepResult) {
    if !crate::modrm::parse_modrm_ok(s.mem, s.eip + 1) {
        (s, StepResult::Faulted(Fault::OutOfBounds))
    } else {
        let m = crate::modrm::parse_modrm_at(s.mem, s.eip + 1);
        let nip = (s.eip + 1 + m.size()) as u32;
        if m.needs_sib() {
            (s, StepResult::Faulted(Fault::SibUnsupported))
        } else if !m.rm8_ok(s) {
            (s, StepResult::Faulted(Fault::OutOfBounds))
        } else {
            (m.with_rm8(s, s.reg8(m.opecode as int)).with_eip(nip), StepResult::Normal)
        }
    }
}

/// MOV r/m32, r32 (0x89).
pub open spec fn mov_rm32_r32_res(s: MachineView) -> (MachineView, StepResult) {
    if !crate::modrm::parse_modrm_ok(s.mem, s.eip + 1) {
        (s, StepResult::Faulted(Fault::OutOfBounds))
    } else {
        let m = crate::modrm::parse_modrm_at(s.mem, s.eip + 1);
        let nip = (s.eip + 1 + m.size()) as u32;
        if m.needs_sib() {
            (s, StepResult::Faulted(Fault::SibUnsupported))
        } else if !m.rm32_ok(s) {
            (s, StepResult::Faulted(Fault::OutOfBounds))
        } else {
            (m.with_rm32(s, s.regs[m.opecode as int]).with_eip(nip), StepResult::Normal)
        }
    }
}

/// ADD r/m32, r32 (0x01): wrapping addition, flags untouched.
pub open spec fn add_rm32_r32_res(s: MachineView) -> (MachineView, StepResult) {
    if !crate::modrm::parse_modrm_ok(s.mem, s.eip + 1) {
        (s, StepResult::Faulted(Fault::OutOfBounds))
    } else {
        let m = crate::modrm::parse_modrm_at(s.mem, s.eip + 1);
        let nip = (s.eip + 1 + m.size()) as u32;
        if m.needs_sib() {
            (s, StepResult::Faulted(Fault::SibUnsupported))
        } else if !m.rm32_ok(s) {
            (s, StepResult::Faulted(Fault::OutOfBounds))
        } else {
            (
                m.with_rm32(s, wadd(m.rm32_val(s), s.regs[m.opecode as int])).with_eip(nip),
                StepResult::Normal,
            )
        }
    }
}

/// CMP r32, r/m32 (0x3B).
pub open spec fn cmp_r32_rm32_res(s: MachineView) -> (MachineView, StepResult) {
    if !crate::modrm::parse_modrm_ok(s.mem, s.eip + 1) {
        (s, StepResult::Faulted(Fault::OutOfBounds))
    } else {
        let m = crate::modrm::parse_modrm_at(s.mem, s.eip + 1);
        let nip = (s.eip + 1 + m.size()) as u32;
        if m.needs_sib() {
            (s, StepResult::Faulted(Fault::SibUnsupported))
        } else if !m.rm32_ok(s) {
            (s, StepResult::Faulted(Fault::OutOfBounds))
        } else {
            (
                s.with_eflags(
                    eflags_after_sub(s.eflags, s.regs[m.opecode as int], m.rm32_val(s)),
                ).with_eip(nip),
                StepResult::Normal,
            )
        }
    }
}

/// The 0x83 group: ADD (/0), SUB (/5) and CMP (/7) of a sign-extended
/// imm8 against r/m32; any other sub-opcode is a fault. Only SUB and CMP
/// update the flags.
pub open spec fn code_83_res(s: MachineView) -> (MachineView, StepResult) {
    if !crate::modrm::parse_modrm_ok(s.mem, s.eip + 1) {
        (s, StepResult::Faulted(Fault::OutOfBounds))
    } else {
        let m = crate::modrm::parse_modrm_at(s.mem, s.eip + 1);
        let ipos = s.eip + 1 + m.size();
        if m.opecode != 0 && m.opecode != 5 && m.opecode != 7 {
            (s, StepResult::Faulted(Fault::UnsupportedGroupOp))
        } else if m.needs_sib() {
            (s, StepResult::Faulted(Fault::SibUnsupported))
        } else if !(ipos + 1 <= s.mem.len()) || !m.rm32_ok(s) {
            (s, StepResult::Faulted(Fault::OutOfBounds))
        } else {
            let imm = sx8(s.mem[ipos]);
            let nip = (ipos + 1) as u32;
            if m.opecode == 0 {
                (m.with_rm32(s, wadd(m.rm32_val(s), imm)).with_eip(nip), StepResult::Normal)
            } else if m.opecode == 5 {
                (
                    m.with_rm32(s, wsub(m.rm32_val(s), imm)).with_eflags(
                        eflags_after_sub(s.eflags, m.rm32_val(s), imm),
                    ).with_eip(nip),
                    StepResult::Normal,
                )
            } else {
                (
                    s.with_eflags(eflags_after_sub(s.eflags, m.rm32_val(s), imm)).with_eip(nip),
                    StepResult::Normal,
                )
            }
        }
    }
}

/// The 0xFF group: only INC r/m32 (/0) is implemented.
pub open spec fn code_ff_res(s: MachineView) -> (MachineView, StepResult) {
    if !crate::modrm::parse_modrm_ok(s.mem, s.eip + 1) {
        (s, StepResult::Faulted(Fault::OutOfBounds))
    } else {
        let m = crate::modrm::parse_modrm_at(s.mem, s.eip + 1);
        let nip = (s.eip + 1 + m.size()) as u32;
        if m.opecode != 0 {
            (s, StepResult::Faulted(Fault::UnsupportedGroupOp))
        } else if m.needs_sib() {
            (s, StepResult::Faulted(Fault::SibUnsupported))
        } else if !m.rm32_ok(s) {
            (s, StepResult::Faulted(Fault::OutOfBounds))
        } else {
            (m.with_rm32(s, wadd(m.rm32_val(s), 1)).with_eip(nip), StepResult::Normal)
        }
    }
}

/// MOV r/m32, imm32 (0xC7): the 4-byte immediate follows the ModR/M
/// bytes.
pub open spec fn mov_rm32_imm32_res(s: MachineView) -> (MachineView, StepResult) {
    if !crate::modrm::parse_modrm_ok(s.mem, s.eip + 1) {
        (s, StepResult::Faulted(Fault::OutOfBounds))
    } else {
        let m = crate::modrm::parse_modrm_at(s.mem, s.eip + 1);
        let ipos = s.eip + 1 + m.size();
        if m.needs_sib() {
            (s, StepResult::Faulted(Fault::SibUnsupported))
        } else if !(ipos + 4 <= s.mem.len()) || !m.rm32_ok(s) {
            (s, StepResult::Faulted(Fault::OutOfBounds))
        } else {
            (
                m.with_rm32(s, read32(s.mem, ipos)).with_eip((ipos + 4) as u32),
                StepResult::Normal,
            )
        }
    }
}

/// One instruction's transition, selected by the mnemonic. Meaningful when
/// `decode(s.code8(0))` selects that mnemonic.
pub open spec fn instr_res(i: Instruction, s: MachineView) -> (MachineView, StepResult) {
    match i {
        Instruction::MovR8Imm8 => mov_r8_imm8_res(s),
        Instruction::MovR32Imm32 => mov_r32_imm32_res(s),
        Instruction::MovR8Rm8 => mov_r8_rm8_res(s),
        Instruction::MovR32Rm32 => mov_r32_rm32_res(s),
        Instruction::AddRm32R32 => add_rm32_r32_res(s),
        Instruction::MovRm8R8 => mov_rm8_r8_res(s),
        Instruction::MovRm32R32 => mov_rm32_r32_res(s),
        Instruction::IncR32 => inc_r32_res(s),
        Instruction::PushR32 => push_r32_res(s),
        Instruction::PopR32 => pop_r32_res(s),
        Instruction::PushImm32 => push_imm32_res(s),
        Instruction::PushImm8 => push_imm8_res(s),
        Instruction::Code83 => code_83_res(s),
        Instruction::MovRm32Imm32 => mov_rm32_imm32_res(s),
        Instruction::InAlDx => in_al_dx_res(s),
        Instruction::OutDxAl => out_dx_al_res(s),
        Instruction::CodeFf => code_ff_res(s),
        Instruction::CallRel32 => call_rel32_res(s),
        Instruction::Ret => ret_res(s),
        Instruction::Leave => leave_res(s),
        Instruction::ShortJump => short_jump_res(s),
        Instruction::NearJump => near_jump_res(s),
        Instruction::CmpAlImm8 => cmp_al_imm8_res(s),
        Instruction::CmpEaxImm32 => cmp_eax_imm32_res(s),
        Instruction::CmpR32Rm32 => cmp_r32_rm32_res(s),
        Instruction::Jc => cond_jump_res(s, cf(s.eflags)),
        Instruction::Jnc => cond_jump_res(s, !cf(s.eflags)),
        Instruction::Jz => cond_jump_res(s, zf(s.eflags)),
        Instruction::Jnz => cond_jump_res(s, !zf(s.eflags)),
        Instruction::Js => cond_jump_res(s, sf(s.eflags)),
        Instruction::Jns => cond_jump_res(s, !sf(s.eflags)),
        Instruction::Jo => cond_jump_res(s, of(s.eflags)),
        Instruction::Jno => cond_jump_res(s, !of(s.eflags)),
        Instruction::Jl => cond_jump_res(s, sf(s.eflags) != of(s.eflags)),
        Instruction::Jle => cond_jump_res(s, zf(s.eflags) || sf(s.eflags) != of(s.eflags)),
        Instruction::Swi => swi_res(s),
    }
}

/// One fetch/decode/execute step: a fault when EIP is outside memory or
/// the opcode is unknown, else the selected instruction's transition.
pub open spec fn step_res(s: MachineView) -> (MachineView, StepResult) {
    if !(s.eip < s.mem.len()) {
        (s, StepResult::Faulted(Fault::OutOfBounds))
    } else {
        match decode(s.code8(0)) {
            Option::None => (s, StepResult::Faulted(Fault::UnknownOpcode)),
            Option::Some(i) => instr_res(i, s),
        }
    }
}

/// Up to `fuel` further steps: stops before a fetch outside memory, after
/// a fault, when input is wanted, or when EIP reaches 0 after a step.
pub open spec fn run_res(s: MachineView, fuel: nat) -> (MachineView, RunStatus)
    decreases fuel,
{
    if !(s.eip < s.mem.len()) {
        (s, RunStatus::EipOutOfRange)
    } else {
        let p = step_res(s);
        match p.1 {
            StepResult::Faulted(f) => (p.0, RunStatus::Stopped(f)),
            StepResult::InputRequested => (p.0, RunStatus::AwaitingInput),
            _ => if p.0.eip == 0 {
                (p.0, RunStatus::EndOfProgram)
            } else if fuel == 0 {
                (p.0, RunStatus::OutOfFuel)
            } else {
                run_res(p.0, (fuel - 1) as nat)
            },
        }
    }
}

} // verus!
