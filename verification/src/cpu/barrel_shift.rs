//! The barrel shifter: every shifted operand with its carry-out.
use crate::cpu::cpu::{CpuState, Flag, CPU};
use crate::utils::{bit, is_bit_set};
use vstd::arithmetic::power2::pow2;
use vstd::prelude::*;

verus! {

/// Logical shift left. By zero the value passes through with the carry
/// that came in; by 1 to 31 the carry is the last bit shifted out; by 32
/// the result is zero and the carry is bit 0; beyond that both are zero.
pub open spec fn lsl(val: u32, amount: u32, carry_in: bool) -> (u32, bool) {
    if amount > 31 {
        (0u32, amount == 32 && val & 0x1 != 0)
    } else if amount == 0 {
        (val, carry_in)
    } else {
        (val << amount, bit(val, (32 - amount) as nat))
    }
}

/// Logical shift right. By zero the value passes through with the carry
/// that came in; by 1 to 31 the carry is the last bit shifted out; by 32
/// the result is zero and the carry is bit 31; beyond that both are zero.
pub open spec fn lsr(val: u32, amount: u32, carry_in: bool) -> (u32, bool) {
    if amount > 31 {
        (0u32, amount == 32 && val & 0x80000000 != 0)
    } else if amount == 0 {
        (val, carry_in)
    } else {
        (val >> amount, bit(val, (amount - 1) as nat))
    }
}

/// A word made of copies of the sign bit of `val`.
pub open spec fn sign_fill(val: u32) -> u32 {
    if val & 0x80000000 != 0 {
        0xFFFFFFFF
    } else {
        0
    }
}

/// `val` shifted right by `amount`, between 1 and 31, with copies of its
/// sign bit coming in from the left.
pub open spec fn sign_shift(val: u32, amount: u32) -> u32 {
    (val >> amount) | (sign_fill(val) << ((32 - amount) as u32))
}

/// Arithmetic shift right. By zero the value passes through with the
/// carry that came in; by 1 to 31 the carry is the last bit shifted out;
/// by 32 or more the result is all sign bits and the carry is the sign.
pub open spec fn asr(val: u32, amount: u32, carry_in: bool) -> (u32, bool) {
    if amount > 31 {
        (sign_fill(val), val & 0x80000000 != 0)
    } else if amount == 0 {
        (val, carry_in)
    } else {
        (sign_shift(val, amount), bit(val, (amount - 1) as nat))
    }
}

/// `val` rotated right by `amount` modulo 32.
pub open spec fn rotate_right(val: u32, amount: u32) -> u32 {
    let by = amount & 31;
    if by == 0 {
        val
    } else {
        (val >> by) | (val << ((32 - by) as u32))
    }
}

/// Rotate right. By zero the value passes through with the carry that
/// came in; otherwise the carry is bit 31 of the result.
pub open spec fn ror(val: u32, amount: u32, carry_in: bool) -> (u32, bool) {
    if amount == 0 {
        (val, carry_in)
    } else {
        (rotate_right(val, amount), rotate_right(val, amount) & 0x80000000 != 0)
    }
}

/// Rotate right extended: one place to the right through the carry. The
/// carry that came in becomes bit 31, bit 0 becomes the carry.
pub open spec fn rrx(val: u32, carry_in: bool) -> (u32, bool) {
    (
        (val >> 1) | (if carry_in {
            0x80000000u32
        } else {
            0u32
        }),
        val & 0x1 != 0,
    )
}

/// The shift of kind `kind`: 0 logical left, 1 logical right, 2
/// arithmetic right, 3 rotate right, 4 rotate right extended.
pub open spec fn shift(kind: u32, val: u32, amount: u32, carry_in: bool) -> (u32, bool) {
    if kind == 0 {
        lsl(val, amount, carry_in)
    } else if kind == 1 {
        lsr(val, amount, carry_in)
    } else if kind == 2 {
        asr(val, amount, carry_in)
    } else if kind == 3 {
        ror(val, amount, carry_in)
    } else {
        rrx(val, carry_in)
    }
}

/// The kind of shift that a shifter operand field asks for. An immediate
/// amount of zero turns a rotate into a rotate right extended.
pub open spec fn operand_kind(operand: u32) -> u32 {
    let kind = (operand & 0x6) >> 1;
    if !bit(operand, 0) && (operand & 0xF8) >> 3 == 0 && kind == 3 {
        4
    } else {
        kind
    }
}

/// Rotating is the same modulo 32, and the kind field has two bits.
pub proof fn lemma_shift_fields(operand: u32, val: u32, amount: u32)
    ensures
        (operand & 0x6) >> 1 <= 3,
        (operand & 0xF0) >> 4 < 16,
        (operand & 0xF8) >> 3 < 32,
        amount & 31 < 32,
        (amount & 31) & 31 == amount & 31,
{
    assert((operand & 0x6) >> 1 <= 3 && (operand & 0xF0) >> 4 < 16 && (operand & 0xF8) >> 3 < 32
        && (amount & 31) < 32 && (amount & 31) & 31 == amount & 31) by (bit_vector);
}

impl CpuState {
    /// The amount that a shifter operand field asks for: the low byte of
    /// a register, or a five-bit immediate in which zero stands for 32
    /// when the shift goes right.
    pub open spec fn operand_amount(self, operand: u32) -> u32 {
        if bit(operand, 0) {
            self.register[((operand & 0xF0) >> 4) as int] & 0xFF
        } else {
            let imm = (operand & 0xF8) >> 3;
            let kind = (operand & 0x6) >> 1;
            if imm == 0 && (kind == 1 || kind == 2) {
                32
            } else {
                imm
            }
        }
    }

    /// The value and carry that the shifter yields for `val` under the
    /// operand field `operand`.
    pub open spec fn shifter_operand(self, operand: u32, val: u32) -> (u32, bool) {
        shift(operand_kind(operand), val, self.operand_amount(operand), self.flag(Flag::C))
    }
}

/// A logical shift right by 1 to 31 places divides by that power of two,
/// and a logical shift left multiplies by it modulo 2^32.
pub proof fn lemma_shifts_scale(val: u32, amount: u32, carry_in: bool)
    requires
        0 < amount < 32,
    ensures
        lsr(val, amount, carry_in).0 == val as nat / pow2(amount as nat),
        lsl(val, amount, carry_in).0 == (val as nat * pow2(amount as nat)) % 0x1_0000_0000,
{
    vstd::bits::lemma_u32_shr_is_div(val, amount);
    let wide = (val as u64) << (amount as u64);
    assert(val << amount == (((val as u64) << (amount as u64)) % 0x1_0000_0000) as u32
        && (val as u64) <= 0xFFFF_FFFF) by (bit_vector)
        requires
            0 < amount < 32,
    ;
    vstd::arithmetic::power2::lemma2_to64();
    vstd::arithmetic::power2::lemma_pow2_strictly_increases(amount as nat, 32);
    assert(val as nat * pow2(amount as nat) <= 0xFFFF_FFFF * 0x1_0000_0000) by (nonlinear_arith)
        requires
            val <= 0xFFFF_FFFF,
            pow2(amount as nat) < 0x1_0000_0000,
    ;
    vstd::bits::lemma_u64_shl_is_mul(val as u64, amount as u64);
}

/// Rotating right by a multiple of 32 changes nothing, and rotating by
/// `amount` and then by what is missing to 32 gives the value back.
pub proof fn lemma_rotation_round_trip(val: u32, amount: u32)
    requires
        amount < 32,
    ensures
        rotate_right(val, 0) == val,
        rotate_right(val, 32) == val,
        rotate_right(rotate_right(val, amount), (32 - amount) as u32) == val,
{
    assert(0u32 & 31 == 0 && 32u32 & 31 == 0) by (bit_vector);
    let back = (32 - amount) as u32;
    assert(amount & 31 == amount && (amount != 0 ==> back & 31 == back && back != 0 && ((((val
        >> amount) | (val << back)) >> back) | (((val >> amount) | (val << back)) << amount))
        == val)) by (bit_vector)
        requires
            amount < 32,
            back == 32 - amount,
    ;
}

/// What an immediate amount of zero means for each kind of shift: a
/// logical shift left passes the value and the carry through; a logical
/// shift right is a shift by 32, which leaves zero and carries bit 31; an
/// arithmetic shift right is a shift by 32, which leaves all sign bits and
/// carries the sign; a rotate is a rotate right extended. A register
/// amount of zero, by contrast, passes value and carry through whatever
/// the kind.
pub proof fn lemma_amount_zero(s: CpuState, operand: u32, val: u32)
    requires
        s.wf(),
    ensures
        !bit(operand, 0) && (operand & 0xF8) >> 3 == 0 ==> s.shifter_operand(operand, val) == (if (
        operand & 0x6) >> 1 == 0 {
            (val, s.flag(Flag::C))
        } else if (operand & 0x6) >> 1 == 1 {
            (0u32, val & 0x80000000 != 0)
        } else if (operand & 0x6) >> 1 == 2 {
            (sign_fill(val), val & 0x80000000 != 0)
        } else {
            rrx(val, s.flag(Flag::C))
        }),
        bit(operand, 0) && s.register[((operand & 0xF0) >> 4) as int] & 0xFF == 0
            ==> s.shifter_operand(operand, val) == (val, s.flag(Flag::C)),
{
    lemma_shift_fields(operand, val, 0);
}

/// Rotates a word right.
pub fn rotate(val: u32, amount: u32) -> (r: u32)
    ensures
        r == rotate_right(val, amount),
{
    proof {
        lemma_shift_fields(0, val, amount);
    }
    let by = amount & 31;
    if by == 0 {
        val
    } else {
        (val >> by) | (val << (32 - by))
    }
}

impl CPU {
    /// Shifts `val` as the shifter operand field `operand` says.
    #[inline]
    pub fn barrel_shifter_operand(&self, operand: u32, val: u32) -> (r: (u32, bool))
        ensures
            r == self@.shifter_operand(operand, val),
    {
        proof {
            lemma_shift_fields(operand, val, 0);
        }
        let kind = (operand & 0x6) >> 1;
        if is_bit_set(operand, 0) {
            let amount = self.register[((operand & 0xF0) >> 4) as usize] & 0xFF;
            match kind {
                0 => self.barrel_shifter_logical_left(val, amount),
                1 => self.barrel_shifter_logical_right(val, amount),
                2 => self.barrel_shifter_arithmethic_right(val, amount),
                _ => self.barrel_shifter_rotate_right(val, amount),
            }
        } else {
            let imm = (operand & 0xF8) >> 3;
            match kind {
                0 => self.barrel_shifter_logical_left(val, imm),
                1 => self.barrel_shifter_logical_right(
                    val,
                    if imm == 0 {
                        32
                    } else {
                        imm
                    },
                ),
                2 => self.barrel_shifter_arithmethic_right(
                    val,
                    if imm == 0 {
                        32
                    } else {
                        imm
                    },
                ),
                _ => {
                    if imm == 0 {
                        self.barrel_shifter_rotate_right_extended(val, imm)
                    } else {
                        self.barrel_shifter_rotate_right(val, imm)
                    }
                },
            }
        }
    }

    #[inline]
    pub fn barrel_shifter_logical_left(&self, val: u32, amount: u32) -> (r: (u32, bool))
        ensures
            r == lsl(val, amount, self@.flag(Flag::C)),
    {
        if amount > 31 {
            (0, (amount == 32) && (val & 0x1 != 0))
        } else if amount == 0 {
            (val, self.flag(Flag::C))
        } else {
            (val << amount, is_bit_set(val, (32 - amount) as usize))
        }
    }

    #[inline]
    pub fn barrel_shifter_logical_right(&self, val: u32, amount: u32) -> (r: (u32, bool))
        ensures
            r == lsr(val, amount, self@.flag(Flag::C)),
    {
        if amount > 31 {
            (0, (amount == 32) && (val & 0x80000000 != 0))
        } else if amount == 0 {
            (val, self.flag(Flag::C))
        } else {
            (val >> amount, is_bit_set(val, (amount - 1) as usize))
        }
    }

    #[inline]
    pub fn barrel_shifter_arithmethic_right(&self, val: u32, amount: u32) -> (r: (u32, bool))
        ensures
            r == asr(val, amount, self@.flag(Flag::C)),
    {
        let fill: u32 = if val & 0x80000000 != 0 {
            0xFFFFFFFF
        } else {
            0
        };
        if amount > 31 {
            (fill, val & 0x80000000 != 0)
        } else if amount == 0 {
            (val, self.flag(Flag::C))
        } else {
            ((val >> amount) | (fill << (32 - amount)), is_bit_set(val, (amount - 1) as usize))
        }
    }

    #[inline]
    pub fn barrel_shifter_rotate_right(&self, val: u32, amount: u32) -> (r: (u32, bool))
        ensures
            r == ror(val, amount, self@.flag(Flag::C)),
    {
        if amount == 0 {
            (val, self.flag(Flag::C))
        } else {
            let tmp = rotate(val, amount);
            (tmp, tmp & 0x80000000 != 0)
        }
    }

    /// `amount` plays no part in a rotate right extended.
    #[inline]
    pub fn barrel_shifter_rotate_right_extended(&self, val: u32, amount: u32) -> (r: (u32, bool))
        ensures
            r == rrx(val, self@.flag(Flag::C)),
    {
        let carry_in: u32 = if self.flag(Flag::C) {
            0x80000000
        } else {
            0
        };
        ((val >> 1) | carry_in, val & 0x1 != 0)
    }
}

} // verus!
