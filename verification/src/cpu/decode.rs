//! Decoding: which handler serves which instruction.
//!
//! Both instruction sets are decoded through a table indexed by a slice of
//! the instruction word. A table entry is found by testing an ordered list
//! of mask-and-pattern rules against the index; the first rule that
//! matches decides.
use vstd::prelude::*;

verus! {

/// The handlers of the full-width instruction set.
#[derive(Clone, Copy, PartialEq, Eq, Structural, Debug)]
pub enum ArmOp {
    Undefined,
    Swi,
    Bx,
    BranchLink,
    MulMla,
    SmullSmlal,
    UmullUmlal,
    Swp,
    Ldm,
    Stm,
    Ldrhsb,
    Strhsb,
    Ldr,
    Str,
    Mrs,
    Msr,
    And,
    Eor,
    Sub,
    Rsb,
    Add,
    Adc,
    Sbc,
    Rsc,
    Tst,
    Teq,
    Compare,
    CompareNegative,
    Orr,
    Mov,
    Bic,
    Mvn,
}

/// The handlers of the compact instruction set.
#[derive(Clone, Copy, PartialEq, Eq, Structural, Debug)]
pub enum ThumbOp {
    Undefined,
    Swi,
    Pop,
    Push,
    Ldmia,
    Stmia,
    CondBranch,
    Branch,
    LongBranchLink,
    And,
    Eor,
    Lsl,
    Lsr,
    Asr,
    Adc,
    Sbc,
    Ror,
    Tst,
    Neg,
    Compare,
    CompareNegative,
    Orr,
    Mul,
    Bic,
    Mvn,
    HiLoAdd,
    HiLoCompare,
    HiLoMov,
    HiLoBx,
    Strh,
    Ldsb,
    Ldrh,
    Ldsh,
    AddSub,
    LdrStrImmOff,
    LdrhStrhImmOff,
    LdrPcRelImm,
    LdStrRegOff,
    LdrStrSpRel,
    SpOff,
    LdPcSp,
    MovImm,
    CompareImm,
    AddImm,
    SubImm,
    Movs,
}

/// Number of entries of the full-width table.
pub const ARM_TABLE_SIZE: usize = 4096;

/// Number of entries of the compact table.
pub const THUMB_TABLE_SIZE: usize = 1024;

/// The table index of a full-width instruction: bits 27..20 above bits
/// 7..4.
pub open spec fn arm_index(instr: u32) -> u32 {
    ((instr & 0xF0) >> 4) | ((instr & 0xFF00000) >> 16)
}

/// The table index of a compact instruction: its top ten bits.
pub open spec fn thumb_index(instr: u32) -> u32 {
    (instr >> 6) & 0x3FF
}

/// Both indices stay inside their tables.
pub proof fn lemma_index_bounds(instr: u32)
    ensures
        arm_index(instr) < 4096,
        thumb_index(instr) < 1024,
{
    assert((((instr & 0xF0) >> 4) | ((instr & 0xFF00000) >> 16)) < 4096 && ((instr >> 6) & 0x3FF)
        < 1024) by (bit_vector);
}

/// The data-processing handler selected by the four opcode bits of index
/// `i`.
pub open spec fn arm_data_processing_op(i: u32) -> ArmOp {
    if i & 0xDE0 == 0x000 {
        ArmOp::And
    } else if i & 0xDE0 == 0x020 {
        ArmOp::Eor
    } else if i & 0xDE0 == 0x040 {
        ArmOp::Sub
    } else if i & 0xDE0 == 0x060 {
        ArmOp::Rsb
    } else if i & 0xDE0 == 0x080 {
        ArmOp::Add
    } else if i & 0xDE0 == 0x0A0 {
        ArmOp::Adc
    } else if i & 0xDE0 == 0x0C0 {
        ArmOp::Sbc
    } else if i & 0xDE0 == 0x0E0 {
        ArmOp::Rsc
    } else if i & 0xDE0 == 0x100 {
        ArmOp::Tst
    } else if i & 0xDE0 == 0x120 {
        ArmOp::Teq
    } else if i & 0xDE0 == 0x140 {
        ArmOp::Compare
    } else if i & 0xDE0 == 0x160 {
        ArmOp::CompareNegative
    } else if i & 0xDE0 == 0x180 {
        ArmOp::Orr
    } else if i & 0xDE0 == 0x1A0 {
        ArmOp::Mov
    } else if i & 0xDE0 == 0x1C0 {
        ArmOp::Bic
    } else if i & 0xDE0 == 0x1E0 {
        ArmOp::Mvn
    } else {
        ArmOp::Undefined
    }
}

/// The handler of every full-width instruction whose table index is `i`.
/// The rules are tried in this order: software interrupt, branch and
/// exchange, branch, multiply, long multiply, swap, block transfer,
/// half-word and signed transfer, single transfer, status-register
/// transfer, and data processing last.
pub open spec fn arm_decode(i: u32) -> ArmOp {
    if i & 0xF00 == 0xF00 {
        ArmOp::Swi
    } else if i == 0x121 {
        ArmOp::Bx
    } else if i & 0xE00 == 0xA00 {
        ArmOp::BranchLink
    } else if i & 0xFCF == 0x009 {
        ArmOp::MulMla
    } else if i & 0xF8F == 0x089 {
        if i & 0x040 != 0 {
            ArmOp::SmullSmlal
        } else {
            ArmOp::UmullUmlal
        }
    } else if i & 0xFBF == 0x109 {
        ArmOp::Swp
    } else if i & 0xE10 == 0x810 {
        ArmOp::Ldm
    } else if i & 0xE10 == 0x800 {
        ArmOp::Stm
    } else if i & 0xE09 == 0x009 {
        if i & 0x010 != 0 {
            ArmOp::Ldrhsb
        } else {
            ArmOp::Strhsb
        }
    } else if i & 0xC10 == 0x410 {
        ArmOp::Ldr
    } else if i & 0xC10 == 0x400 {
        ArmOp::Str
    } else if i & 0xFBF == 0x100 {
        ArmOp::Mrs
    } else if i & 0xFBF == 0x120 || i & 0xFB0 == 0x320 {
        ArmOp::Msr
    } else {
        arm_data_processing_op(i)
    }
}

/// The register-to-register operation selected by the low four bits of
/// index `i`.
pub open spec fn thumb_alu_op(i: u32) -> ThumbOp {
    let k = i & 0xF;
    if k == 0 {
        ThumbOp::And
    } else if k == 1 {
        ThumbOp::Eor
    } else if k == 2 {
        ThumbOp::Lsl
    } else if k == 3 {
        ThumbOp::Lsr
    } else if k == 4 {
        ThumbOp::Asr
    } else if k == 5 {
        ThumbOp::Adc
    } else if k == 6 {
        ThumbOp::Sbc
    } else if k == 7 {
        ThumbOp::Ror
    } else if k == 8 {
        ThumbOp::Tst
    } else if k == 9 {
        ThumbOp::Neg
    } else if k == 10 {
        ThumbOp::Compare
    } else if k == 11 {
        ThumbOp::CompareNegative
    } else if k == 12 {
        ThumbOp::Orr
    } else if k == 13 {
        ThumbOp::Mul
    } else if k == 14 {
        ThumbOp::Bic
    } else {
        ThumbOp::Mvn
    }
}

/// One of four handlers picked by a two-bit sub-index.
pub open spec fn pick4(k: u32, a: ThumbOp, b: ThumbOp, c: ThumbOp, d: ThumbOp) -> ThumbOp {
    if k == 0 {
        a
    } else if k == 1 {
        b
    } else if k == 2 {
        c
    } else {
        d
    }
}

/// The handler of every compact instruction whose table index is `i`.
pub open spec fn thumb_decode(i: u32) -> ThumbOp {
    if i & 0x3FC == 0x37C {
        ThumbOp::Swi
    } else if i & 0x3D8 == 0x2D0 {
        if i & 0x020 != 0 {
            ThumbOp::Pop
        } else {
            ThumbOp::Push
        }
    } else if i & 0x3C0 == 0x300 {
        if i & 0x020 != 0 {
            ThumbOp::Ldmia
        } else {
            ThumbOp::Stmia
        }
    } else if i & 0x3C0 == 0x340 {
        ThumbOp::CondBranch
    } else if i & 0x3E0 == 0x380 {
        ThumbOp::Branch
    } else if i & 0x3C0 == 0x3C0 {
        ThumbOp::LongBranchLink
    } else if i & 0x3F0 == 0x100 {
        thumb_alu_op(i)
    } else if i & 0x3F0 == 0x110 {
        pick4(
            (i >> 2) & 0x3,
            ThumbOp::HiLoAdd,
            ThumbOp::HiLoCompare,
            ThumbOp::HiLoMov,
            ThumbOp::HiLoBx,
        )
    } else if i & 0x3C8 == 0x148 {
        pick4((i >> 4) & 0x3, ThumbOp::Strh, ThumbOp::Ldsb, ThumbOp::Ldrh, ThumbOp::Ldsh)
    } else if i & 0x3E0 == 0x060 {
        ThumbOp::AddSub
    } else if i & 0x380 == 0x180 {
        ThumbOp::LdrStrImmOff
    } else if i & 0x3C0 == 0x200 {
        ThumbOp::LdrhStrhImmOff
    } else if i & 0x3E0 == 0x120 {
        ThumbOp::LdrPcRelImm
    } else if i & 0x3C8 == 0x140 {
        ThumbOp::LdStrRegOff
    } else if i & 0x3C0 == 0x240 {
        ThumbOp::LdrStrSpRel
    } else if i & 0x3FC == 0x2C0 {
        ThumbOp::SpOff
    } else if i & 0x3C0 == 0x280 {
        ThumbOp::LdPcSp
    } else if i & 0x380 == 0x080 {
        pick4(
            (i >> 5) & 0x3,
            ThumbOp::MovImm,
            ThumbOp::CompareImm,
            ThumbOp::AddImm,
            ThumbOp::SubImm,
        )
    } else if i & 0x380 == 0x000 {
        ThumbOp::Movs
    } else {
        ThumbOp::Undefined
    }
}

/// The indices of the full-width table that no rule claims are those of
/// the coprocessor instructions, from 0xC00 up to 0xEFF.
pub proof fn lemma_arm_undefined(i: u32)
    requires
        i < 4096,
    ensures
        arm_decode(i) == ArmOp::Undefined <==> 0xC00 <= i < 0xF00,
{
    assert(i < 4096 ==> ((0xC00 <= i && i < 0xF00) <==> (i & 0xC00 == 0xC00 && i & 0xF00 != 0xF00))
        && (i & 0xC00 == 0xC00 ==> i != 0x121 && i & 0xE00 != 0xA00 && i & 0xFCF != 0x009 && i
        & 0xF8F != 0x089 && i & 0xFBF != 0x109 && i & 0xE10 != 0x810 && i & 0xE10 != 0x800 && i
        & 0xE09 != 0x009 && i & 0xC10 != 0x410 && i & 0xC10 != 0x400 && i & 0xFBF != 0x100 && i
        & 0xFBF != 0x120 && i & 0xFB0 != 0x320 && i & 0xDE0 != 0x000 && i & 0xDE0 != 0x020 && i
        & 0xDE0 != 0x040 && i & 0xDE0 != 0x060 && i & 0xDE0 != 0x080 && i & 0xDE0 != 0x0A0 && i
        & 0xDE0 != 0x0C0 && i & 0xDE0 != 0x0E0 && i & 0xDE0 != 0x100 && i & 0xDE0 != 0x120 && i
        & 0xDE0 != 0x140 && i & 0xDE0 != 0x160 && i & 0xDE0 != 0x180 && i & 0xDE0 != 0x1A0 && i
        & 0xDE0 != 0x1C0 && i & 0xDE0 != 0x1E0) && (i & 0xC00 == 0x800 ==> i & 0xE00 == 0xA00 || i
        & 0xE10 == 0x810 || i & 0xE10 == 0x800) && (i & 0xC00 == 0x400 ==> i & 0xC10 == 0x410 || i
        & 0xC10 == 0x400) && (i & 0xC00 == 0x000 ==> i & 0xDE0 == 0x000 || i & 0xDE0 == 0x020 || i
        & 0xDE0 == 0x040 || i & 0xDE0 == 0x060 || i & 0xDE0 == 0x080 || i & 0xDE0 == 0x0A0 || i
        & 0xDE0 == 0x0C0 || i & 0xDE0 == 0x0E0 || i & 0xDE0 == 0x100 || i & 0xDE0 == 0x120 || i
        & 0xDE0 == 0x140 || i & 0xDE0 == 0x160 || i & 0xDE0 == 0x180 || i & 0xDE0 == 0x1A0 || i
        & 0xDE0 == 0x1C0 || i & 0xDE0 == 0x1E0) && (i & 0xC00 == 0x000 || i & 0xC00 == 0x400 || i
        & 0xC00 == 0x800 || i & 0xC00 == 0xC00)) by (bit_vector);
}

/// The indices of the compact table that no rule claims lie in two
/// blocks: around the stack operations, and between the unconditional
/// branch and the long branch.
pub proof fn lemma_thumb_undefined(i: u32)
    requires
        i < 1024,
    ensures
        thumb_decode(i) == ThumbOp::Undefined <==> (0x2C4 <= i < 0x2D0) || (0x2D8 <= i < 0x2F0) || (
        0x2F8 <= i < 0x300) || (0x3A0 <= i < 0x3C0),
{
    let gap = (0x2C4 <= i < 0x2D0) || (0x2D8 <= i < 0x2F0) || (0x2F8 <= i < 0x300) || (0x3A0 <= i
        < 0x3C0);
    assert(i < 1024 ==> (gap ==> i & 0x3FC != 0x37C && i & 0x3D8 != 0x2D0 && i & 0x3C0 != 0x300 && i
        & 0x3C0 != 0x340 && i & 0x3E0 != 0x380 && i & 0x3C0 != 0x3C0 && i & 0x3F0 != 0x100 && i
        & 0x3F0 != 0x110 && i & 0x3C8 != 0x148 && i & 0x3E0 != 0x060 && i & 0x380 != 0x180 && i
        & 0x3C0 != 0x200 && i & 0x3E0 != 0x120 && i & 0x3C8 != 0x140 && i & 0x3C0 != 0x240 && i
        & 0x3FC != 0x2C0 && i & 0x3C0 != 0x280 && i & 0x380 != 0x080 && i & 0x380 != 0x000) && (
    !gap ==> i & 0x3FC == 0x37C || i & 0x3D8 == 0x2D0 || i & 0x3C0 == 0x300 || i & 0x3C0 == 0x340
        || i & 0x3E0 == 0x380 || i & 0x3C0 == 0x3C0 || i & 0x3F0 == 0x100 || i & 0x3F0 == 0x110 || i
        & 0x3C8 == 0x148 || i & 0x3E0 == 0x060 || i & 0x380 == 0x180 || i & 0x3C0 == 0x200 || i
        & 0x3E0 == 0x120 || i & 0x3C8 == 0x140 || i & 0x3C0 == 0x240 || i & 0x3FC == 0x2C0 || i
        & 0x3C0 == 0x280 || i & 0x380 == 0x080 || i & 0x380 == 0x000)) by (bit_vector)
        requires
            gap == ((0x2C4 <= i && i < 0x2D0) || (0x2D8 <= i && i < 0x2F0) || (0x2F8 <= i && i
                < 0x300) || (0x3A0 <= i && i < 0x3C0)),
    ;
}

/// The full-width table.
pub open spec fn arm_table() -> Seq<ArmOp> {
    Seq::new(4096, |i: int| arm_decode(i as u32))
}

/// The compact table.
pub open spec fn thumb_table() -> Seq<ThumbOp> {
    Seq::new(1024, |i: int| thumb_decode(i as u32))
}

/// Looks up the data-processing handler for index `i`.
pub fn arm_data_processing_entry(i: u32) -> (r: ArmOp)
    ensures
        r == arm_data_processing_op(i),
{
    if i & 0xDE0 == 0x000 {
        ArmOp::And
    } else if i & 0xDE0 == 0x020 {
        ArmOp::Eor
    } else if i & 0xDE0 == 0x040 {
        ArmOp::Sub
    } else if i & 0xDE0 == 0x060 {
        ArmOp::Rsb
    } else if i & 0xDE0 == 0x080 {
        ArmOp::Add
    } else if i & 0xDE0 == 0x0A0 {
        ArmOp::Adc
    } else if i & 0xDE0 == 0x0C0 {
        ArmOp::Sbc
    } else if i & 0xDE0 == 0x0E0 {
        ArmOp::Rsc
    } else if i & 0xDE0 == 0x100 {
        ArmOp::Tst
    } else if i & 0xDE0 == 0x120 {
        ArmOp::Teq
    } else if i & 0xDE0 == 0x140 {
        ArmOp::Compare
    } else if i & 0xDE0 == 0x160 {
        ArmOp::CompareNegative
    } else if i & 0xDE0 == 0x180 {
        ArmOp::Orr
    } else if i & 0xDE0 == 0x1A0 {
        ArmOp::Mov
    } else if i & 0xDE0 == 0x1C0 {
        ArmOp::Bic
    } else if i & 0xDE0 == 0x1E0 {
        ArmOp::Mvn
    } else {
        ArmOp::Undefined
    }
}

/// Looks up the handler for index `i` of the full-width table.
pub fn arm_entry(i: u32) -> (r: ArmOp)
    ensures
        r == arm_decode(i),
{
    if i & 0xF00 == 0xF00 {
        ArmOp::Swi
    } else if i == 0x121 {
        ArmOp::Bx
    } else if i & 0xE00 == 0xA00 {
        ArmOp::BranchLink
    } else if i & 0xFCF == 0x009 {
        ArmOp::MulMla
    } else if i & 0xF8F == 0x089 {
        if i & 0x040 != 0 {
            ArmOp::SmullSmlal
        } else {
            ArmOp::UmullUmlal
        }
    } else if i & 0xFBF == 0x109 {
        ArmOp::Swp
    } else if i & 0xE10 == 0x810 {
        ArmOp::Ldm
    } else if i & 0xE10 == 0x800 {
        ArmOp::Stm
    } else if i & 0xE09 == 0x009 {
        if i & 0x010 != 0 {
            ArmOp::Ldrhsb
        } else {
            ArmOp::Strhsb
        }
    } else if i & 0xC10 == 0x410 {
        ArmOp::Ldr
    } else if i & 0xC10 == 0x400 {
        ArmOp::Str
    } else if i & 0xFBF == 0x100 {
        ArmOp::Mrs
    } else if i & 0xFBF == 0x120 || i & 0xFB0 == 0x320 {
        ArmOp::Msr
    } else {
        arm_data_processing_entry(i)
    }
}

/// Looks up the register-to-register operation for index `i`.
pub fn thumb_alu_entry(i: u32) -> (r: ThumbOp)
    ensures
        r == thumb_alu_op(i),
{
    let k = i & 0xF;
    if k == 0 {
        ThumbOp::And
    } else if k == 1 {
        ThumbOp::Eor
    } else if k == 2 {
        ThumbOp::Lsl
    } else if k == 3 {
        ThumbOp::Lsr
    } else if k == 4 {
        ThumbOp::Asr
    } else if k == 5 {
        ThumbOp::Adc
    } else if k == 6 {
        ThumbOp::Sbc
    } else if k == 7 {
        ThumbOp::Ror
    } else if k == 8 {
        ThumbOp::Tst
    } else if k == 9 {
        ThumbOp::Neg
    } else if k == 10 {
        ThumbOp::Compare
    } else if k == 11 {
        ThumbOp::CompareNegative
    } else if k == 12 {
        ThumbOp::Orr
    } else if k == 13 {
        ThumbOp::Mul
    } else if k == 14 {
        ThumbOp::Bic
    } else {
        ThumbOp::Mvn
    }
}

/// Looks up the handler for index `i` of the compact table.
pub fn thumb_entry(i: u32) -> (r: ThumbOp)
    ensures
        r == thumb_decode(i),
{
    if i & 0x3FC == 0x37C {
        ThumbOp::Swi
    } else if i & 0x3D8 == 0x2D0 {
        if i & 0x020 != 0 {
            ThumbOp::Pop
        } else {
            ThumbOp::Push
        }
    } else if i & 0x3C0 == 0x300 {
        if i & 0x020 != 0 {
            ThumbOp::Ldmia
        } else {
            ThumbOp::Stmia
        }
    } else if i & 0x3C0 == 0x340 {
        ThumbOp::CondBranch
    } else if i & 0x3E0 == 0x380 {
        ThumbOp::Branch
    } else if i & 0x3C0 == 0x3C0 {
        ThumbOp::LongBranchLink
    } else if i & 0x3F0 == 0x100 {
        thumb_alu_entry(i)
    } else if i & 0x3F0 == 0x110 {
        pick(
            (i >> 2) & 0x3,
            ThumbOp::HiLoAdd,
            ThumbOp::HiLoCompare,
            ThumbOp::HiLoMov,
            ThumbOp::HiLoBx,
        )
    } else if i & 0x3C8 == 0x148 {
        pick((i >> 4) & 0x3, ThumbOp::Strh, ThumbOp::Ldsb, ThumbOp::Ldrh, ThumbOp::Ldsh)
    } else if i & 0x3E0 == 0x060 {
        ThumbOp::AddSub
    } else if i & 0x380 == 0x180 {
        ThumbOp::LdrStrImmOff
    } else if i & 0x3C0 == 0x200 {
        ThumbOp::LdrhStrhImmOff
    } else if i & 0x3E0 == 0x120 {
        ThumbOp::LdrPcRelImm
    } else if i & 0x3C8 == 0x140 {
        ThumbOp::LdStrRegOff
    } else if i & 0x3C0 == 0x240 {
        ThumbOp::LdrStrSpRel
    } else if i & 0x3FC == 0x2C0 {
        ThumbOp::SpOff
    } else if i & 0x3C0 == 0x280 {
        ThumbOp::LdPcSp
    } else if i & 0x380 == 0x080 {
        pick(
            (i >> 5) & 0x3,
            ThumbOp::MovImm,
            ThumbOp::CompareImm,
            ThumbOp::AddImm,
            ThumbOp::SubImm,
        )
    } else if i & 0x380 == 0x000 {
        ThumbOp::Movs
    } else {
        ThumbOp::Undefined
    }
}

/// Picks one of four handlers by a two-bit sub-index.
pub fn pick(k: u32, a: ThumbOp, b: ThumbOp, c: ThumbOp, d: ThumbOp) -> (r: ThumbOp)
    ensures
        r == pick4(k, a, b, c, d),
{
    if k == 0 {
        a
    } else if k == 1 {
        b
    } else if k == 2 {
        c
    } else {
        d
    }
}

} // verus!
