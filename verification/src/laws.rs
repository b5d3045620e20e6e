//! The general laws of the machine, proved once over the model: partial
//! register writes preserve the untouched bytes, 32-bit memory access
//! round-trips little-endian, a push followed by a pop restores the state
//! and returns the pushed value, a CALL answered by a RET restores every
//! register and flag, and the subtraction flags mean what they should.

use vstd::prelude::*;

use crate::semantics::{
    cf, eflags_after_sub, le32, of, read32, sf, step_res, sub_result, u32_byte, wadd, with_flag,
    write32, wsub, zf, MachineView, StepResult, CARRY_FLAG, OVERFLOW_FLAG, SIGN_FLAG, ZERO_FLAG,
};

verus! {

/// Writing an 8-bit register operand changes exactly its own byte:
/// a low-byte write (operand 0..3) sets bits 0..7 and keeps bits 8..31;
/// a high-byte write (operand 4..7) sets bits 8..15 and keeps bits 0..7
/// and 16..31; every other register keeps its value.
pub proof fn lemma_reg8_partial_write(s: MachineView, i: int, b: u8)
    requires
        s.wf(),
        0 <= i < 8,
    ensures
        i < 4 ==> s.with_reg8(i, b).regs[i] & 0xFF == b,
        i < 4 ==> s.with_reg8(i, b).regs[i] >> 8u32 == s.regs[i] >> 8u32,
        i >= 4 ==> s.with_reg8(i, b).regs[i - 4] & 0xFF == s.regs[i - 4] & 0xFF,
        i >= 4 ==> (s.with_reg8(i, b).regs[i - 4] >> 8u32) & 0xFF == b,
        i >= 4 ==> s.with_reg8(i, b).regs[i - 4] >> 16u32 == s.regs[i - 4] >> 16u32,
        s.with_reg8(i, b).reg8(i) == b,
        forall|j: int|
            0 <= j < 8 && j != (if i < 4 {
                i
            } else {
                i - 4
            }) ==> s.with_reg8(i, b).regs[j] == s.regs[j],
        s.with_reg8(i, b).eflags == s.eflags,
        s.with_reg8(i, b).mem == s.mem,
        s.with_reg8(i, b).eip == s.eip,
{
    if i < 4 {
        let v = s.regs[i];
        assert(((v & 0xFFFFFF00) | (b as u32)) & 0xFF == b as u32) by (bit_vector);
        assert(((v & 0xFFFFFF00) | (b as u32)) >> 8u32 == v >> 8u32) by (bit_vector);
    } else {
        let v = s.regs[i - 4];
        assert(((v & 0xFFFF00FF) | ((b as u32) << 8u32)) & 0xFF == v & 0xFF) by (bit_vector);
        assert((((v & 0xFFFF00FF) | ((b as u32) << 8u32)) >> 8u32) & 0xFF == b as u32)
            by (bit_vector);
        assert(((v & 0xFFFF00FF) | ((b as u32) << 8u32)) >> 16u32 == v >> 16u32) by (bit_vector);
    }
}

/// Splitting a 32-bit value into its four bytes and reassembling them
/// little-endian gives the value back.
pub proof fn lemma_le32_round_trip(v: u32)
    ensures
        le32(u32_byte(v, 0), u32_byte(v, 1), u32_byte(v, 2), u32_byte(v, 3)) == v,
{
    assert(((v & 0xFF) as u8 as u32) | ((((v >> 8u32) & 0xFF) as u8 as u32) << 8u32) | ((((v
        >> 16u32) & 0xFF) as u8 as u32) << 16u32) | ((((v >> 24u32) & 0xFF) as u8 as u32)
        << 24u32) == v) by (bit_vector);
}

/// Reading 32 bits where `v` was just written yields `v`; the write
/// touches exactly its four bytes.
pub proof fn lemma_read32_write32(mem: Seq<u8>, a: int, v: u32)
    requires
        0 <= a,
        a + 4 <= mem.len(),
    ensures
        read32(write32(mem, a, v), a) == v,
        write32(mem, a, v).len() == mem.len(),
        forall|x: int| 0 <= x < mem.len() && !(a <= x < a + 4) ==> write32(mem, a, v)[x] == mem[x],
{
    lemma_le32_round_trip(v);
}

/// A 32-bit push followed by a 32-bit pop returns the pushed value and
/// restores every register (ESP included), the flags, EIP and the I/O
/// queues; only the four stack bytes may differ.
pub proof fn lemma_push_pop(s: MachineView, v: u32)
    requires
        s.wf(),
        s.can_push(),
    ensures
        s.pushed32(v).can_pop(),
        s.pushed32(v).pop32_value() == v,
        s.pushed32(v).popped32().regs == s.regs,
        s.pushed32(v).popped32().eflags == s.eflags,
        s.pushed32(v).popped32().eip == s.eip,
        s.pushed32(v).popped32().input == s.input,
        s.pushed32(v).popped32().output == s.output,
{
    lemma_read32_write32(s.mem, s.esp() - 4, v);
    assert(s.pushed32(v).popped32().regs =~= s.regs);
}

/// The branch target of the CALL rel32 at EIP.
pub open spec fn call_target(s: MachineView) -> u32 {
    wadd(wadd(s.eip, s.code32(1)), 5)
}

/// A CALL whose target instruction is a lone RET comes straight back:
/// after the two steps every register (ESP included) and every flag bit
/// is as before the CALL, and EIP rests on the instruction after it.
/// The target must hold the RET opcode and lie outside the four stack
/// bytes the CALL writes.
pub proof fn lemma_call_ret(s: MachineView)
    requires
        s.wf(),
        s.code_ok(5),
        s.can_push(),
        s.mem[s.eip as int] == 0xE8,
        call_target(s) < s.mem.len(),
        s.mem[call_target(s) as int] == 0xC3,
        !(s.esp() - 4 <= call_target(s) < s.esp()),
    ensures
        step_res(s).1 == StepResult::Normal,
        step_res(s).0.eip == call_target(s),
        step_res(step_res(s).0).1 == StepResult::Normal,
        step_res(step_res(s).0).0.regs == s.regs,
        step_res(step_res(s).0).0.eflags == s.eflags,
        step_res(step_res(s).0).0.eip == s.eip + 5,
        step_res(step_res(s).0).0.input == s.input,
        step_res(step_res(s).0).0.output == s.output,
{
    let s1 = step_res(s).0;
    lemma_read32_write32(s.mem, s.esp() - 4, (s.eip + 5) as u32);
    assert(s1.mem[call_target(s) as int] == 0xC3);
    assert(step_res(s1).0.regs =~= s.regs);
}

/// What the four flags mean after comparing or subtracting `v2` from
/// `v1`: CF says the subtraction borrowed (`v1 < v2`), ZF says the
/// operands were equal, SF is the sign bit of the wrapped difference,
/// and OF says the operands' sign bits differed and the result's sign
/// does not match the first operand's.
pub proof fn lemma_sub_flags(e: u32, v1: u32, v2: u32)
    ensures
        cf(eflags_after_sub(e, v1, v2)) == (v1 < v2),
        zf(eflags_after_sub(e, v1, v2)) == (v1 == v2),
        sf(eflags_after_sub(e, v1, v2)) == (wsub(v1, v2) >= 0x80000000),
        of(eflags_after_sub(e, v1, v2)) == (((v1 >= 0x80000000) != (v2 >= 0x80000000)) && ((v1
            >= 0x80000000) != (wsub(v1, v2) >= 0x80000000))),
{
    let r = sub_result(v1, v2);
    let w = wsub(v1, v2);
    assert(r == if v1 >= v2 {
        (v1 - v2) as u64
    } else {
        (0x10000000000000000 - (v2 - v1)) as u64
    });
    assert(w == if v1 >= v2 {
        (v1 - v2) as u32
    } else {
        (0x100000000 - (v2 - v1)) as u32
    });
    lemma_flag_pack(
        e,
        (r >> 32u64) != 0,
        r & 0xFFFFFFFF == 0,
        (r >> 31u64) & 1 != 0,
        (v1 >> 31u32) != (v2 >> 31u32) && ((v1 >> 31u32) as u64) != (r >> 31u64) & 1,
    );
    if v1 >= v2 {
        let d: u64 = (v1 - v2) as u64;
        assert(((d >> 32u64) == 0 && (d & 0xFFFFFFFF == d) && ((d >> 31u64) & 1 != 0 <==> d
            >= 0x80000000)) && (d < 0x100000000 ==> (d as u32) >= 0x80000000 <==> d >= 0x80000000))
            by (bit_vector)
            requires
                d < 0x100000000,
        ;
    } else {
        let d: u64 = (v2 - v1) as u64;
        let r2: u64 = (0x10000000000000000 - (v2 - v1)) as u64;
        let w2: u32 = (0x100000000 - (v2 - v1)) as u32;
        assert(((r2 >> 32u64) != 0 && (r2 & 0xFFFFFFFF != 0) && ((r2 >> 31u64) & 1 != 0 <==> w2
            >= 0x80000000)) && (w2 >= 0x80000000 <==> (r2 >> 31u64) & 1 == 1)) by (bit_vector)
            requires
                1 <= d <= 0xFFFFFFFF,
                r2 == (0x10000000000000000 - d) as u64,
                w2 == (0x100000000 - d) as u32,
        ;
    }
    assert((v1 >> 31u32 != 0) <==> v1 >= 0x80000000) by (bit_vector);
    assert((v2 >> 31u32 != 0) <==> v2 >= 0x80000000) by (bit_vector);
    assert(((v1 >> 31u32) as u64) <= 1 && ((v2 >> 31u32) as u64) <= 1) by (bit_vector);
    assert((r >> 31u64) & 1 <= 1) by (bit_vector);
    assert((v1 >> 31u32) as u64 != (r >> 31u64) & 1 <==> ((v1 >> 31u32 != 0) != ((r >> 31u64) & 1
        != 0)));
}

/// Forcing the four flags in the order the flags unit uses yields a word
/// where each of the four reads back as what was forced.
proof fn lemma_flag_pack(e: u32, c: bool, z: bool, s: bool, o: bool)
    ensures
        cf(
            with_flag(
                with_flag(with_flag(with_flag(e, CARRY_FLAG, c), ZERO_FLAG, z), SIGN_FLAG, s),
                OVERFLOW_FLAG,
                o,
            ),
        ) == c,
        zf(
            with_flag(
                with_flag(with_flag(with_flag(e, CARRY_FLAG, c), ZERO_FLAG, z), SIGN_FLAG, s),
                OVERFLOW_FLAG,
                o,
            ),
        ) == z,
        sf(
            with_flag(
                with_flag(with_flag(with_flag(e, CARRY_FLAG, c), ZERO_FLAG, z), SIGN_FLAG, s),
                OVERFLOW_FLAG,
                o,
            ),
        ) == s,
        of(
            with_flag(
                with_flag(with_flag(with_flag(e, CARRY_FLAG, c), ZERO_FLAG, z), SIGN_FLAG, s),
                OVERFLOW_FLAG,
                o,
            ),
        ) == o,
{
    let e1 = with_flag(e, CARRY_FLAG, c);
    let e2 = with_flag(e1, ZERO_FLAG, z);
    let e3 = with_flag(e2, SIGN_FLAG, s);
    let e4 = with_flag(e3, OVERFLOW_FLAG, o);
    assert((e4 & 1 != 0 <==> e1 & 1 != 0) && (e4 & 2 != 0 <==> e2 & 2 != 0) && (e4 & 4 != 0 <==> e3
        & 4 != 0)) by (bit_vector)
        requires
            e2 == (if z {
                e1 | 2u32
            } else {
                e1 & !2u32
            }),
            e3 == (if s {
                e2 | 4u32
            } else {
                e2 & !4u32
            }),
            e4 == (if o {
                e3 | 8u32
            } else {
                e3 & !8u32
            }),
    ;
    assert(((if c {
        e | 1u32
    } else {
        e & !1u32
    }) & 1 != 0) == c) by (bit_vector);
    assert(((if z {
        e1 | 2u32
    } else {
        e1 & !2u32
    }) & 2 != 0) == z) by (bit_vector);
    assert(((if s {
        e2 | 4u32
    } else {
        e2 & !4u32
    }) & 4 != 0) == s) by (bit_vector);
    assert(((if o {
        e3 | 8u32
    } else {
        e3 & !8u32
    }) & 8 != 0) == o) by (bit_vector);
}

} // verus!
