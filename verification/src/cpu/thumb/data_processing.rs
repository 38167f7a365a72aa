//! Register-to-register operations of the compact instruction set. Each
//! takes its destination, which is also its first operand, from bits 2..0
//! and its second operand from bits 5..3.
use crate::bus::Bus;
use crate::cpu::alu::{
    add_words, add_words_with_carry, addition, addition_with_carry, is_negative, negative,
    sub_words, sub_words_with_carry, subtraction, subtraction_with_carry, AluResult,
};
use crate::cpu::barrel_shift::{asr, lsl, lsr, ror};
use crate::cpu::cpu::{CpuState, Flag, CPU};
use crate::fault::Fault;
use crate::utils::{field3, low_reg_field};
use vstd::prelude::*;

verus! {

impl CpuState {
    /// The state with carry, zero and negative set.
    pub open spec fn set_czn(self, carry: bool, zero: bool, negative: bool) -> CpuState {
        self.set_flag(Flag::C, carry).set_flag(Flag::Z, zero).set_flag(Flag::N, negative)
    }

    /// The state with all four condition flags set.
    pub open spec fn set_cznv(
        self,
        carry: bool,
        zero: bool,
        negative: bool,
        overflow: bool,
    ) -> CpuState {
        self.set_czn(carry, zero, negative).set_flag(Flag::V, overflow)
    }

    /// The low register named by the three bits of `instr` from bit
    /// `shift` on.
    pub open spec fn low_reg(self, instr: u16, shift: u16) -> u32 {
        self.register[field3(instr, shift)]
    }

    /// The state after `value` is stored in the destination and the zero
    /// and negative flags are set from it.
    pub open spec fn thumb_store_zn(self, instr: u16, value: u32) -> CpuState {
        self.set_reg(field3(instr, 0), value).set_zn(value == 0, is_negative(value))
    }

    /// The state after the outcome of a shift is stored in the
    /// destination and carry, zero and negative are set from it.
    pub open spec fn thumb_store_shift(self, instr: u16, out: (u32, bool)) -> CpuState {
        self.set_reg(field3(instr, 0), out.0).set_czn(out.1, out.0 == 0, is_negative(out.0))
    }

    /// Conjunction.
    pub open spec fn thumb_and(self, instr: u16) -> CpuState {
        self.thumb_store_zn(instr, self.low_reg(instr, 0) & self.low_reg(instr, 3))
    }

    /// Exclusive disjunction.
    pub open spec fn thumb_eor(self, instr: u16) -> CpuState {
        self.thumb_store_zn(instr, self.low_reg(instr, 0) ^ self.low_reg(instr, 3))
    }

    /// Disjunction.
    pub open spec fn thumb_orr(self, instr: u16) -> CpuState {
        self.thumb_store_zn(instr, self.low_reg(instr, 0) | self.low_reg(instr, 3))
    }

    /// Multiplication modulo 2^32.
    pub open spec fn thumb_mul(self, instr: u16) -> CpuState {
        self.thumb_store_zn(instr, self.low_reg(instr, 0).wrapping_mul(self.low_reg(instr, 3)))
    }

    /// Conjunction with the complement of the operand.
    pub open spec fn thumb_bic(self, instr: u16) -> CpuState {
        self.thumb_store_zn(instr, self.low_reg(instr, 0) & !self.low_reg(instr, 3))
    }

    /// Logical shift left by the whole value of the operand.
    pub open spec fn thumb_lsl(self, instr: u16) -> CpuState {
        self.thumb_store_shift(
            instr,
            lsl(self.low_reg(instr, 0), self.low_reg(instr, 3), self.flag(Flag::C)),
        )
    }

    /// Logical shift right by the whole value of the operand.
    pub open spec fn thumb_lsr(self, instr: u16) -> CpuState {
        self.thumb_store_shift(
            instr,
            lsr(self.low_reg(instr, 0), self.low_reg(instr, 3), self.flag(Flag::C)),
        )
    }

    /// Arithmetic shift right by the whole value of the operand.
    pub open spec fn thumb_asr(self, instr: u16) -> CpuState {
        self.thumb_store_shift(
            instr,
            asr(self.low_reg(instr, 0), self.low_reg(instr, 3), self.flag(Flag::C)),
        )
    }

    /// Rotation right by the whole value of the operand.
    pub open spec fn thumb_ror(self, instr: u16) -> CpuState {
        self.thumb_store_shift(
            instr,
            ror(self.low_reg(instr, 0), self.low_reg(instr, 3), self.flag(Flag::C)),
        )
    }

    /// Test: the flags of the conjunction, which is not stored.
    pub open spec fn thumb_tst(self, instr: u16) -> CpuState {
        self.set_zn(
            self.low_reg(instr, 3) & self.low_reg(instr, 0) == 0,
            is_negative(self.low_reg(instr, 3) & self.low_reg(instr, 0)),
        )
    }

    /// Comparison: the flags of destination minus operand.
    pub open spec fn thumb_compare(self, instr: u16) -> CpuState {
        self.set_subtraction_flags(self.low_reg(instr, 0), self.low_reg(instr, 3))
    }

    /// Comparison with the negated operand: the flags of operand plus
    /// destination.
    pub open spec fn thumb_compare_negative(self, instr: u16) -> CpuState {
        self.set_addition_flags(self.low_reg(instr, 3), self.low_reg(instr, 0))
    }

    /// Negation modulo 2^32. Carry and overflow are left alone.
    pub open spec fn thumb_neg(self, instr: u16) -> CpuState {
        self.thumb_store_zn(instr, 0u32.wrapping_sub(self.low_reg(instr, 3)))
    }

    /// Complement.
    pub open spec fn thumb_mvn(self, instr: u16) -> CpuState {
        self.thumb_store_zn(instr, !self.low_reg(instr, 3))
    }

    /// The state after the outcome of an addition or subtraction is
    /// stored in the destination and all four flags are set from it.
    pub open spec fn thumb_store_arithmetic(self, instr: u16, out: AluResult) -> CpuState {
        self.set_reg(field3(instr, 0), out.value).set_cznv(
            out.carry,
            out.value == 0,
            is_negative(out.value),
            out.overflow,
        )
    }

    /// Add with carry.
    pub open spec fn thumb_adc(self, instr: u16) -> CpuState {
        self.thumb_store_arithmetic(
            instr,
            addition_with_carry(self.low_reg(instr, 0), self.low_reg(instr, 3), self.carry()),
        )
    }

    /// Subtract with carry: the operand is taken from the destination,
    /// and one more when the carry flag is clear.
    pub open spec fn thumb_sbc(self, instr: u16) -> CpuState {
        self.thumb_store_arithmetic(
            instr,
            subtraction_with_carry(self.low_reg(instr, 0), self.low_reg(instr, 3), self.carry()),
        )
    }

    /// The state with the flags of the subtraction `a - b`.
    pub open spec fn set_subtraction_flags(self, a: u32, b: u32) -> CpuState {
        self.set_cznv(
            subtraction(a, b).carry,
            subtraction(a, b).value == 0,
            is_negative(subtraction(a, b).value),
            subtraction(a, b).overflow,
        )
    }

    /// The state with the flags of the addition `a + b`.
    pub open spec fn set_addition_flags(self, a: u32, b: u32) -> CpuState {
        self.set_cznv(
            addition(a, b).carry,
            addition(a, b).value == 0,
            is_negative(addition(a, b).value),
            addition(a, b).overflow,
        )
    }
}

/// The register-to-register operations leave the processor as sound as it was.
pub proof fn lemma_thumb_alu_stays_sound(s: CpuState, instr: u16)
    ensures
        forall|v: u32| #[trigger] s.thumb_store_zn(instr, v).stays_sound(s),
        forall|out: (u32, bool)| #[trigger] s.thumb_store_shift(instr, out).stays_sound(s),
        forall|z: bool, n: bool| #[trigger] s.set_zn(z, n).stays_sound(s),
        s.thumb_adc(instr).stays_sound(s),
        s.thumb_sbc(instr).stays_sound(s),
        s.thumb_and(instr).stays_sound(s),
        s.thumb_eor(instr).stays_sound(s),
        s.thumb_orr(instr).stays_sound(s),
        s.thumb_mul(instr).stays_sound(s),
        s.thumb_bic(instr).stays_sound(s),
        s.thumb_lsl(instr).stays_sound(s),
        s.thumb_lsr(instr).stays_sound(s),
        s.thumb_asr(instr).stays_sound(s),
        s.thumb_ror(instr).stays_sound(s),
        s.thumb_tst(instr).stays_sound(s),
        s.thumb_compare(instr).stays_sound(s),
        s.thumb_compare_negative(instr).stays_sound(s),
        s.thumb_neg(instr).stays_sound(s),
        s.thumb_mvn(instr).stays_sound(s),
{
    crate::cpu::cpu::lemma_status_steps();
    crate::utils::lemma_fields(0, instr);
}

impl CPU {
    /// Sets carry, zero and negative.
    pub fn set_czn(&mut self, carry: bool, zero: bool, negative: bool)
        ensures
            final(self)@ == old(self)@.set_czn(carry, zero, negative),
    {
        self.set_flag(Flag::C, carry);
        self.set_flag(Flag::Z, zero);
        self.set_flag(Flag::N, negative);
    }

    /// Sets all four condition flags.
    pub fn set_cznv(&mut self, carry: bool, zero: bool, negative: bool, overflow: bool)
        ensures
            final(self)@ == old(self)@.set_cznv(carry, zero, negative, overflow),
    {
        self.set_czn(carry, zero, negative);
        self.set_flag(Flag::V, overflow);
    }

    /// Sets the flags of the subtraction `a - b`.
    pub fn set_subtraction_flags(&mut self, a: u32, b: u32)
        ensures
            final(self)@ == old(self)@.set_subtraction_flags(a, b),
    {
        let out = sub_words(a, b);
        self.set_cznv(out.carry, out.value == 0, negative(out.value), out.overflow);
    }

    /// Sets the flags of the addition `a + b`.
    pub fn set_addition_flags(&mut self, a: u32, b: u32)
        ensures
            final(self)@ == old(self)@.set_addition_flags(a, b),
    {
        let out = add_words(a, b);
        self.set_cznv(out.carry, out.value == 0, negative(out.value), out.overflow);
    }

    /// Reads a low register named by a three-bit field.
    pub fn low_reg(&self, instr: u16, shift: u16) -> (r: u32)
        requires
            shift < 16,
        ensures
            r == self@.low_reg(instr, shift),
    {
        self.register[low_reg_field(instr, shift)]
    }

    /// Stores `value` in the destination and sets zero and negative.
    fn thumb_store_zn(&mut self, instr: u16, value: u32)
        ensures
            final(self)@ == old(self)@.thumb_store_zn(instr, value),
    {
        self.set_reg(low_reg_field(instr, 0), value);
        self.set_zn(value == 0, negative(value));
    }

    /// Stores the outcome of a shift and sets carry, zero and negative.
    fn thumb_store_shift(&mut self, instr: u16, out: (u32, bool))
        ensures
            final(self)@ == old(self)@.thumb_store_shift(instr, out),
    {
        self.set_reg(low_reg_field(instr, 0), out.0);
        self.set_czn(out.1, out.0 == 0, negative(out.0));
    }

    pub fn THUMB_AND(&mut self, bus: &mut Bus, instr: u16) -> (r: Result<(), Fault>)
        ensures
            r is Ok,
            final(self)@ == old(self)@.thumb_and(instr),
            final(bus)@ == old(bus)@,
    {
        let tmp = self.low_reg(instr, 0) & self.low_reg(instr, 3);
        self.thumb_store_zn(instr, tmp);
        Ok(())
    }

    pub fn THUMB_EOR(&mut self, bus: &mut Bus, instr: u16) -> (r: Result<(), Fault>)
        ensures
            r is Ok,
            final(self)@ == old(self)@.thumb_eor(instr),
            final(bus)@ == old(bus)@,
    {
        let tmp = self.low_reg(instr, 0) ^ self.low_reg(instr, 3);
        self.thumb_store_zn(instr, tmp);
        Ok(())
    }

    pub fn THUMB_ORR(&mut self, bus: &mut Bus, instr: u16) -> (r: Result<(), Fault>)
        ensures
            r is Ok,
            final(self)@ == old(self)@.thumb_orr(instr),
            final(bus)@ == old(bus)@,
    {
        let tmp = self.low_reg(instr, 0) | self.low_reg(instr, 3);
        self.thumb_store_zn(instr, tmp);
        Ok(())
    }

    /// Multiplication modulo 2^32.
    pub fn THUMB_MUL(&mut self, bus: &mut Bus, instr: u16) -> (r: Result<(), Fault>)
        ensures
            r is Ok,
            final(self)@ == old(self)@.thumb_mul(instr),
            final(bus)@ == old(bus)@,
    {
        let tmp = self.low_reg(instr, 0).wrapping_mul(self.low_reg(instr, 3));
        self.thumb_store_zn(instr, tmp);
        Ok(())
    }

    pub fn THUMB_BIC(&mut self, bus: &mut Bus, instr: u16) -> (r: Result<(), Fault>)
        ensures
            r is Ok,
            final(self)@ == old(self)@.thumb_bic(instr),
            final(bus)@ == old(bus)@,
    {
        let tmp = self.low_reg(instr, 0) & !self.low_reg(instr, 3);
        self.thumb_store_zn(instr, tmp);
        Ok(())
    }

    /// Logical shift left by the whole value of the second register.
    pub fn THUMB_LSL(&mut self, bus: &mut Bus, instr: u16) -> (r: Result<(), Fault>)
        ensures
            r is Ok,
            final(self)@ == old(self)@.thumb_lsl(instr),
            final(bus)@ == old(bus)@,
    {
        let out = self.barrel_shifter_logical_left(self.low_reg(instr, 0), self.low_reg(instr, 3));
        self.thumb_store_shift(instr, out);
        Ok(())
    }

    /// Logical shift right by the whole value of the second register.
    pub fn THUMB_LSR(&mut self, bus: &mut Bus, instr: u16) -> (r: Result<(), Fault>)
        ensures
            r is Ok,
            final(self)@ == old(self)@.thumb_lsr(instr),
            final(bus)@ == old(bus)@,
    {
        let out = self.barrel_shifter_logical_right(self.low_reg(instr, 0), self.low_reg(instr, 3));
        self.thumb_store_shift(instr, out);
        Ok(())
    }

    /// Arithmetic shift right by the whole value of the second register.
    pub fn THUMB_ASR(&mut self, bus: &mut Bus, instr: u16) -> (r: Result<(), Fault>)
        ensures
            r is Ok,
            final(self)@ == old(self)@.thumb_asr(instr),
            final(bus)@ == old(bus)@,
    {
        let out = self.barrel_shifter_arithmethic_right(
            self.low_reg(instr, 0),
            self.low_reg(instr, 3),
        );
        self.thumb_store_shift(instr, out);
        Ok(())
    }

    /// Rotation right by the whole value of the second register.
    pub fn THUMB_ROR(&mut self, bus: &mut Bus, instr: u16) -> (r: Result<(), Fault>)
        ensures
            r is Ok,
            final(self)@ == old(self)@.thumb_ror(instr),
            final(bus)@ == old(bus)@,
    {
        let out = self.barrel_shifter_rotate_right(self.low_reg(instr, 0), self.low_reg(instr, 3));
        self.thumb_store_shift(instr, out);
        Ok(())
    }

    pub fn THUMB_ADC(&mut self, bus: &mut Bus, instr: u16) -> (r: Result<(), Fault>)
        ensures
            r is Ok,
            final(self)@ == old(self)@.thumb_adc(instr),
            final(bus)@ == old(bus)@,
    {
        let out = add_words_with_carry(
            self.low_reg(instr, 0),
            self.low_reg(instr, 3),
            self.carry(),
        );
        self.set_reg(low_reg_field(instr, 0), out.value);
        self.set_cznv(out.carry, out.value == 0, negative(out.value), out.overflow);
        Ok(())
    }

    pub fn THUMB_SBC(&mut self, bus: &mut Bus, instr: u16) -> (r: Result<(), Fault>)
        ensures
            r is Ok,
            final(self)@ == old(self)@.thumb_sbc(instr),
            final(bus)@ == old(bus)@,
    {
        let out = sub_words_with_carry(
            self.low_reg(instr, 0),
            self.low_reg(instr, 3),
            self.carry(),
        );
        self.set_reg(low_reg_field(instr, 0), out.value);
        self.set_cznv(out.carry, out.value == 0, negative(out.value), out.overflow);
        Ok(())
    }

    /// Test: the flags of the conjunction, which is not stored.
    pub fn THUMB_TST(&mut self, bus: &mut Bus, instr: u16) -> (r: Result<(), Fault>)
        ensures
            r is Ok,
            final(self)@ == old(self)@.thumb_tst(instr),
            final(bus)@ == old(bus)@,
    {
        let tmp = self.low_reg(instr, 3) & self.low_reg(instr, 0);
        self.set_zn(tmp == 0, negative(tmp));
        Ok(())
    }

    /// Comparison: the flags of destination minus operand.
    pub fn THUMB_CMP(&mut self, bus: &mut Bus, instr: u16) -> (r: Result<(), Fault>)
        ensures
            r is Ok,
            final(self)@ == old(self)@.thumb_compare(instr),
            final(bus)@ == old(bus)@,
    {
        let rd = self.low_reg(instr, 0);
        let rs = self.low_reg(instr, 3);
        self.set_subtraction_flags(rd, rs);
        Ok(())
    }

    /// Comparison with the negated operand: the flags of operand plus
    /// destination.
    pub fn THUMB_CMN(&mut self, bus: &mut Bus, instr: u16) -> (r: Result<(), Fault>)
        ensures
            r is Ok,
            final(self)@ == old(self)@.thumb_compare_negative(instr),
            final(bus)@ == old(bus)@,
    {
        let rd = self.low_reg(instr, 0);
        let rs = self.low_reg(instr, 3);
        self.set_addition_flags(rs, rd);
        Ok(())
    }

    /// Negation modulo 2^32. Carry and overflow are left alone.
    pub fn THUMB_NEG(&mut self, bus: &mut Bus, instr: u16) -> (r: Result<(), Fault>)
        ensures
            r is Ok,
            final(self)@ == old(self)@.thumb_neg(instr),
            final(bus)@ == old(bus)@,
    {
        let tmp = 0u32.wrapping_sub(self.low_reg(instr, 3));
        self.thumb_store_zn(instr, tmp);
        Ok(())
    }

    pub fn THUMB_MVN(&mut self, bus: &mut Bus, instr: u16) -> (r: Result<(), Fault>)
        ensures
            r is Ok,
            final(self)@ == old(self)@.thumb_mvn(instr),
            final(bus)@ == old(bus)@,
    {
        let tmp = !self.low_reg(instr, 3);
        self.thumb_store_zn(instr, tmp);
        Ok(())
    }
}

} // verus!
