//! The arithmetic and logic unit of the full-width instruction set:
//! sixteen operations, each with its result, carry and overflow.
use vstd::prelude::*;

verus! {

/// The sixteen data-processing operations.
#[derive(Clone, Copy, PartialEq, Eq, Structural, Debug)]
pub enum AluOp {
    And,
    Eor,
    Sub,
    Rsb,
    Add,
    Adc,
    Sbc,
    Rsc,
    Tst,
    Teq,
    Compare,
    CompareNegative,
    Orr,
    Mov,
    Bic,
    Mvn,
}

impl AluOp {
    /// Whether the operation is an addition or a subtraction, which
    /// makes its own carry and sets the overflow flag.
    pub open spec fn spec_is_arithmetic(self) -> bool {
        match self {
            AluOp::Sub | AluOp::Rsb | AluOp::Add | AluOp::Adc | AluOp::Sbc | AluOp::Rsc
            | AluOp::Compare | AluOp::CompareNegative => true,
            _ => false,
        }
    }

    /// Whether the operation stores its result in the destination
    /// register; the four tests and comparisons only set flags.
    pub open spec fn spec_writes_result(self) -> bool {
        match self {
            AluOp::Tst | AluOp::Teq | AluOp::Compare | AluOp::CompareNegative => false,
            _ => true,
        }
    }

    #[verifier::when_used_as_spec(spec_is_arithmetic)]
    pub fn is_arithmetic(self) -> (r: bool)
        ensures
            r == self.spec_is_arithmetic(),
    {
        match self {
            AluOp::Sub | AluOp::Rsb | AluOp::Add | AluOp::Adc | AluOp::Sbc | AluOp::Rsc
            | AluOp::Compare | AluOp::CompareNegative => true,
            _ => false,
        }
    }

    #[verifier::when_used_as_spec(spec_writes_result)]
    pub fn writes_result(self) -> (r: bool)
        ensures
            r == self.spec_writes_result(),
    {
        match self {
            AluOp::Tst | AluOp::Teq | AluOp::Compare | AluOp::CompareNegative => false,
            _ => true,
        }
    }
}

/// The value of a word read as a two's complement number.
pub open spec fn signed(x: u32) -> int {
    if x >= 0x8000_0000 {
        x - 0x1_0000_0000
    } else {
        x as int
    }
}

/// Whether an integer lies outside the range of a signed word.
pub open spec fn out_of_signed_range(x: int) -> bool {
    x < -0x8000_0000 || x > 0x7FFF_FFFF
}

/// Whether a word is negative when read as a two's complement number.
pub open spec fn is_negative(x: u32) -> bool {
    x >= 0x8000_0000
}

/// What an operation yields: its result, the carry flag and the overflow
/// flag that it asks for.
#[derive(Clone, Copy, PartialEq, Eq, Structural, Debug)]
pub struct AluResult {
    pub value: u32,
    pub carry: bool,
    pub overflow: bool,
}

/// `a + b`: the carry is set when the unsigned sum does not fit a word,
/// the overflow when the signed sum does not.
pub open spec fn addition(a: u32, b: u32) -> AluResult {
    AluResult {
        value: a.wrapping_add(b),
        carry: a + b > 0xFFFF_FFFF,
        overflow: out_of_signed_range(signed(a) + signed(b)),
    }
}

/// `a - b`: the carry is set when no borrow occurs, the overflow when
/// the signed difference does not fit a word.
pub open spec fn subtraction(a: u32, b: u32) -> AluResult {
    AluResult {
        value: a.wrapping_sub(b),
        carry: a >= b,
        overflow: out_of_signed_range(signed(a) - signed(b)),
    }
}

/// `a + b + carry_in`: the carry is set when the unsigned sum does not
/// fit a word, the overflow when the signed sum does not.
pub open spec fn addition_with_carry(a: u32, b: u32, carry_in: u32) -> AluResult {
    AluResult {
        value: a.wrapping_add(b).wrapping_add(carry_in),
        carry: a + b + carry_in > 0xFFFF_FFFF,
        overflow: out_of_signed_range(signed(a) + signed(b) + carry_in),
    }
}

/// `a - b - 1 + carry_in`: a clear carry flag coming in is a borrow. The
/// carry is set when no borrow occurs, the overflow when the signed
/// difference does not fit a word.
pub open spec fn subtraction_with_carry(a: u32, b: u32, carry_in: u32) -> AluResult {
    AluResult {
        value: a.wrapping_sub(b).wrapping_sub((1 - carry_in) as u32),
        carry: a >= b + 1 - carry_in,
        overflow: out_of_signed_range(signed(a) - signed(b) - 1 + carry_in),
    }
}

/// A bitwise result, which passes the carry of the shifter on and asks
/// for no overflow.
pub open spec fn logical(value: u32, shifter_carry: bool) -> AluResult {
    AluResult { value, carry: shifter_carry, overflow: false }
}

/// The outcome of `op` on the operands `op1` and `op2`, where
/// `shifter_carry` is the carry that came with `op2` out of the barrel
/// shifter and `carry_in` is the carry flag as 0 or 1.
pub open spec fn arm_alu(
    op: AluOp,
    op1: u32,
    op2: u32,
    shifter_carry: bool,
    carry_in: u32,
) -> AluResult {
    match op {
        AluOp::And | AluOp::Tst => logical(op1 & op2, shifter_carry),
        AluOp::Eor | AluOp::Teq => logical(op1 ^ op2, shifter_carry),
        AluOp::Orr => logical(op1 | op2, shifter_carry),
        AluOp::Bic => logical(op1 & !op2, shifter_carry),
        AluOp::Mov => logical(op2, shifter_carry),
        AluOp::Mvn => logical(!op2, shifter_carry),
        AluOp::Sub | AluOp::Compare => subtraction(op1, op2),
        AluOp::Rsb => subtraction(op2, op1),
        AluOp::Add | AluOp::CompareNegative => addition(op1, op2),
        AluOp::Adc => addition_with_carry(op1, op2, carry_in),
        AluOp::Sbc => subtraction_with_carry(op1, op2, carry_in),
        AluOp::Rsc => subtraction_with_carry(op2, op1, carry_in),
    }
}

/// Reads a word as a two's complement number.
pub fn to_signed(x: u32) -> (r: i64)
    ensures
        r == signed(x),
{
    if x >= 0x8000_0000 {
        x as i64 - 0x1_0000_0000
    } else {
        x as i64
    }
}

/// Whether a word has its sign bit set.
pub fn negative(x: u32) -> (r: bool)
    ensures
        r == is_negative(x),
{
    x >= 0x8000_0000
}

/// Adds two words.
pub fn add_words(a: u32, b: u32) -> (r: AluResult)
    ensures
        r == addition(a, b),
{
    let sum = to_signed(a) + to_signed(b);
    AluResult {
        value: a.wrapping_add(b),
        carry: a as u64 + b as u64 > 0xFFFF_FFFF,
        overflow: sum < -0x8000_0000 || sum > 0x7FFF_FFFF,
    }
}

/// Subtracts one word from another.
pub fn sub_words(a: u32, b: u32) -> (r: AluResult)
    ensures
        r == subtraction(a, b),
{
    let diff = to_signed(a) - to_signed(b);
    AluResult {
        value: a.wrapping_sub(b),
        carry: a >= b,
        overflow: diff < -0x8000_0000 || diff > 0x7FFF_FFFF,
    }
}

/// Adds two words and a carry.
pub fn add_words_with_carry(a: u32, b: u32, carry_in: u32) -> (r: AluResult)
    requires
        carry_in <= 1,
    ensures
        r == addition_with_carry(a, b, carry_in),
{
    let sum = to_signed(a) + to_signed(b) + carry_in as i64;
    AluResult {
        value: a.wrapping_add(b).wrapping_add(carry_in),
        carry: a as u64 + b as u64 + carry_in as u64 > 0xFFFF_FFFF,
        overflow: sum < -0x8000_0000 || sum > 0x7FFF_FFFF,
    }
}

/// Subtracts a word and a borrow from another word.
pub fn sub_words_with_carry(a: u32, b: u32, carry_in: u32) -> (r: AluResult)
    requires
        carry_in <= 1,
    ensures
        r == subtraction_with_carry(a, b, carry_in),
{
    let diff = to_signed(a) - to_signed(b) - 1 + carry_in as i64;
    AluResult {
        value: a.wrapping_sub(b).wrapping_sub(1 - carry_in),
        carry: a as u64 + carry_in as u64 >= b as u64 + 1,
        overflow: diff < -0x8000_0000 || diff > 0x7FFF_FFFF,
    }
}

/// Carries out one data-processing operation.
pub fn alu(op: AluOp, op1: u32, op2: u32, shifter_carry: bool, carry_in: u32) -> (r: AluResult)
    requires
        carry_in <= 1,
    ensures
        r == arm_alu(op, op1, op2, shifter_carry, carry_in),
{
    match op {
        AluOp::And | AluOp::Tst => AluResult {
            value: op1 & op2,
            carry: shifter_carry,
            overflow: false,
        },
        AluOp::Eor | AluOp::Teq => AluResult {
            value: op1 ^ op2,
            carry: shifter_carry,
            overflow: false,
        },
        AluOp::Orr => AluResult { value: op1 | op2, carry: shifter_carry, overflow: false },
        AluOp::Bic => AluResult { value: op1 & !op2, carry: shifter_carry, overflow: false },
        AluOp::Mov => AluResult { value: op2, carry: shifter_carry, overflow: false },
        AluOp::Mvn => AluResult { value: !op2, carry: shifter_carry, overflow: false },
        AluOp::Sub | AluOp::Compare => sub_words(op1, op2),
        AluOp::Rsb => sub_words(op2, op1),
        AluOp::Add | AluOp::CompareNegative => add_words(op1, op2),
        AluOp::Adc => add_words_with_carry(op1, op2, carry_in),
        AluOp::Sbc => sub_words_with_carry(op1, op2, carry_in),
        AluOp::Rsc => sub_words_with_carry(op2, op1, carry_in),
    }
}


/// A byte widened to a word with its sign bit copied upwards.
pub open spec fn sign_extend8(b: u8) -> u32 {
    if b >= 0x80 {
        (b + 0xFFFF_FF00) as u32
    } else {
        b as u32
    }
}

/// A half-word widened to a word with its sign bit copied upwards.
pub open spec fn sign_extend16(h: u16) -> u32 {
    if h >= 0x8000 {
        (h + 0xFFFF_0000) as u32
    } else {
        h as u32
    }
}

/// A word widened to a double word with its sign bit copied upwards.
pub open spec fn sign_extend32(x: u32) -> u64 {
    if x >= 0x8000_0000 {
        (x + 0xFFFF_FFFF_0000_0000) as u64
    } else {
        x as u64
    }
}

/// Widens a byte, keeping its sign.
pub fn extend8(b: u8) -> (r: u32)
    ensures
        r == sign_extend8(b),
{
    if b >= 0x80 {
        b as u32 + 0xFFFF_FF00
    } else {
        b as u32
    }
}

/// Widens a half-word, keeping its sign.
pub fn extend16(h: u16) -> (r: u32)
    ensures
        r == sign_extend16(h),
{
    if h >= 0x8000 {
        h as u32 + 0xFFFF_0000
    } else {
        h as u32
    }
}

/// Widens a word, keeping its sign.
pub fn extend32(x: u32) -> (r: u64)
    ensures
        r == sign_extend32(x),
{
    if x >= 0x8000_0000 {
        x as u64 + 0xFFFF_FFFF_0000_0000
    } else {
        x as u64
    }
}

/// What the flags of an addition and a subtraction mean: without carry
/// the result of an addition is the exact sum, with carry it is 2^32
/// short of it; a subtraction yields the exact difference exactly when
/// its carry is set, and is 2^32 above it otherwise; and without overflow
/// the results, read as two's complement numbers, are the exact sum and
/// difference of the operands so read.
pub proof fn lemma_flags_tell_the_truth(a: u32, b: u32)
    ensures
        addition(a, b).value == (a + b) % 0x1_0000_0000,
        addition(a, b).carry <==> addition(a, b).value == a + b - 0x1_0000_0000,
        !addition(a, b).carry <==> addition(a, b).value == a + b,
        !addition(a, b).overflow <==> signed(addition(a, b).value) == signed(a) + signed(b),
        subtraction(a, b).value == (a - b) % 0x1_0000_0000,
        subtraction(a, b).carry <==> subtraction(a, b).value == a - b,
        !subtraction(a, b).carry <==> subtraction(a, b).value == a - b + 0x1_0000_0000,
        !subtraction(a, b).overflow <==> signed(subtraction(a, b).value) == signed(a) - signed(b),
        subtraction(a, b).value == 0 <==> a == b,
        is_negative(a) <==> signed(a) < 0,
        forall|c: u32|
            c <= 1 ==> (#[trigger] addition_with_carry(a, b, c)).value == (a + b + c)
                % 0x1_0000_0000 && (!addition_with_carry(a, b, c).overflow <==> signed(
                addition_with_carry(a, b, c).value,
            ) == signed(a) + signed(b) + c),
        forall|c: u32|
            c <= 1 ==> (#[trigger] subtraction_with_carry(a, b, c)).value == (a - b - 1 + c)
                % 0x1_0000_0000 && (!subtraction_with_carry(a, b, c).overflow <==> signed(
                subtraction_with_carry(a, b, c).value,
            ) == signed(a) - signed(b) - 1 + c),
        addition_with_carry(a, b, 0) == addition(a, b),
        subtraction_with_carry(a, b, 1) == subtraction(a, b),
{
}

/// The result of a long multiply is the exact product of its operands
/// plus the accumulator, modulo 2^64: of the operands as they are when
/// unsigned, of the operands read as two's complement numbers when
/// signed.
pub proof fn lemma_long_products(a: u32, b: u32, acc: u64)
    ensures
        (a as u64).wrapping_mul(b as u64).wrapping_add(acc) as int == (a * b + acc)
            % 0x1_0000_0000_0000_0000,
        sign_extend32(a).wrapping_mul(sign_extend32(b)).wrapping_add(acc) as int == (signed(a)
            * signed(b) + acc) % 0x1_0000_0000_0000_0000,
{
    let m = 0x1_0000_0000_0000_0000int;
    // Unsigned: the product fits, so only the sum can wrap.
    let p = a as int * b as int;
    assert(0 <= p < m) by (nonlinear_arith)
        requires
            p == a as int * b as int,
            0 <= a <= 0xFFFF_FFFF,
            0 <= b <= 0xFFFF_FFFF,
            m == 0x1_0000_0000_0000_0000int,
    ;
    vstd::arithmetic::div_mod::lemma_small_mod(p as nat, m as nat);
    if p + acc >= m {
        vstd::arithmetic::div_mod::lemma_mod_multiples_vanish(1, p + acc - m, m);
        vstd::arithmetic::div_mod::lemma_small_mod((p + acc - m) as nat, m as nat);
    } else {
        vstd::arithmetic::div_mod::lemma_small_mod((p + acc) as nat, m as nat);
    }
    // Signed: each widened operand is its signed value plus a multiple
    // of 2^64, and so is their product.
    let x = sign_extend32(a) as int;
    let y = sign_extend32(b) as int;
    let sa = signed(a);
    let sb = signed(b);
    let ka: int = if a >= 0x8000_0000 {
        1
    } else {
        0
    };
    let kb: int = if b >= 0x8000_0000 {
        1
    } else {
        0
    };
    let k = ka * sb + kb * sa + ka * kb * m;
    assert(x * y == m * k + sa * sb) by (nonlinear_arith)
        requires
            x == sa + ka * m,
            y == sb + kb * m,
            k == ka * sb + kb * sa + ka * kb * m,
    ;
    vstd::arithmetic::div_mod::lemma_mod_multiples_vanish(k, sa * sb, m);
    let q = (x * y) % m;
    assert(0 <= x * y) by (nonlinear_arith)
        requires
            0 <= x,
            0 <= y,
    ;
    vstd::arithmetic::div_mod::lemma_add_mod_noop_right(acc as int, sa * sb, m);
    if q + acc >= m {
        vstd::arithmetic::div_mod::lemma_mod_multiples_vanish(1, q + acc - m, m);
        vstd::arithmetic::div_mod::lemma_small_mod((q + acc - m) as nat, m as nat);
    } else {
        vstd::arithmetic::div_mod::lemma_small_mod((q + acc) as nat, m as nat);
    }
}

} // verus!
