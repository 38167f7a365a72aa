//! Data processing and status-register transfer.
use crate::bus::{Bus, BusState};
use crate::cpu::alu::{alu, arm_alu, is_negative, negative, AluOp, AluResult};
use crate::cpu::barrel_shift::{ror, rotate, rotate_right};
use crate::cpu::cpu::{mode_of, Bank, CPU_mode, CpuState, Flag, CPU};
use crate::fault::Fault;
use crate::utils::{bit, field4, is_bit_set, reg_field};
use vstd::prelude::*;

verus! {

/// The byte lanes of a status word that the four field-select bits of a
/// status-register write pick.
pub open spec fn field_mask(instr: u32) -> u32 {
    (if bit(instr, 16) {
        0xFFu32
    } else {
        0u32
    }) | (if bit(instr, 17) {
        0xFF00u32
    } else {
        0u32
    }) | (if bit(instr, 18) {
        0xFF0000u32
    } else {
        0u32
    }) | (if bit(instr, 19) {
        0xFF000000u32
    } else {
        0u32
    })
}

/// `old` with the bits under `mask` taken from `src`.
pub open spec fn merge(old: u32, src: u32, mask: u32) -> u32 {
    (old & !mask) | (src & mask)
}

impl CpuState {
    /// The state with the program counter moved back by `delta`, modulo
    /// 2^32.
    pub open spec fn rewind_pc(self, delta: u32) -> CpuState {
        self.set_reg(15, self.register[15].wrapping_sub(delta))
    }

    /// The second operand of a data-processing instruction with the
    /// carry that comes with it: an eight-bit immediate rotated right by
    /// twice its four-bit rotate field, or a register through the barrel
    /// shifter.
    pub open spec fn arm_second_operand(self, instr: u32) -> (u32, bool) {
        if bit(instr, 25) {
            ror(instr & 0xFF, (instr & 0xF00) >> 7, self.flag(Flag::C))
        } else {
            self.shifter_operand(instr >> 4, self.register[field4(instr, 0)])
        }
    }

    /// Whether the operands of `instr` are read with the program counter
    /// one instruction further on: a shift by register takes a cycle
    /// more, in which the counter has moved.
    pub open spec fn reads_ahead(instr: u32) -> bool {
        !bit(instr, 25) && bit(instr, 4)
    }

    /// Both operands of a data-processing instruction.
    pub open spec fn arm_operands(self, instr: u32) -> (u32, (u32, bool)) {
        let seen = if Self::reads_ahead(instr) {
            self.bump_pc(4)
        } else {
            self
        };
        (seen.register[field4(instr, 16)], seen.arm_second_operand(instr))
    }

    /// The state with the flags that `op` sets from its outcome: carry,
    /// zero and negative always, overflow after an addition or a
    /// subtraction.
    pub open spec fn set_alu_flags(self, op: AluOp, out: AluResult) -> CpuState {
        let s = self.set_flag(Flag::C, out.carry).set_flag(Flag::Z, out.value == 0).set_flag(
            Flag::N,
            is_negative(out.value),
        );
        if op.spec_is_arithmetic() {
            s.set_flag(Flag::V, out.overflow)
        } else {
            s
        }
    }

    /// Whether `instr` carried out as `op` returns from an exception: a
    /// flag-setting subtraction into the program counter, in a mode that
    /// has a saved status word, goes back to the mode saved there.
    pub open spec fn returns_from_exception(self, instr: u32, op: AluOp) -> bool {
        op == AluOp::Sub && bit(instr, 20) && field4(instr, 12) == 15
            && !self.mode.is_unprivileged_bank()
    }

    /// The fault that a data-processing instruction meets, if any: a
    /// return from an exception whose saved status word names no mode.
    pub open spec fn arm_data_processing_fault(self, instr: u32, op: AluOp) -> Option<Fault> {
        if self.returns_from_exception(instr, op) && mode_of(self.spsr()) is None {
            Some(Fault::InvalidMode { bits: self.spsr() & 0x1F })
        } else {
            None
        }
    }

    /// The state after the data-processing instruction `instr` is carried
    /// out as `op`: the result goes to the destination register unless
    /// `op` only tests, and the flags follow when the instruction sets
    /// them.
    #[verifier::opaque]
    pub open spec fn arm_data_processing(self, bus: BusState, instr: u32, op: AluOp) -> CpuState {
        let (op1, (op2, shifter_carry)) = self.arm_operands(instr);
        let out = arm_alu(op, op1, op2, shifter_carry, self.carry());
        let written = if op.spec_writes_result() {
            self.write_register(bus, field4(instr, 12), out.value)
        } else {
            self
        };
        let back = if self.returns_from_exception(instr, op) {
            written.set_mode(mode_of(self.spsr()).unwrap())
        } else {
            written
        };
        if bit(instr, 20) {
            back.set_alu_flags(op, out)
        } else {
            back
        }
    }

    /// The state after a status word is copied to a register: the saved
    /// one of the current mode when bit 22 is set, the live one
    /// otherwise.
    #[verifier::opaque]
    pub open spec fn arm_mrs(self, bus: BusState, instr: u32) -> CpuState {
        let psr = if bit(instr, 22) {
            self.spsr()
        } else {
            self.cpsr
        };
        self.write_register(bus, field4(instr, 12), psr)
    }

    /// The value that a status-register write takes its bits from.
    pub open spec fn arm_msr_source(self, instr: u32) -> u32 {
        if bit(instr, 25) {
            rotate_right(instr & 0xFF, (instr & 0xF00) >> 7)
        } else {
            self.register[field4(instr, 0)]
        }
    }

    /// The bits that a status-register write may change: the four flags
    /// in user mode, the selected byte lanes otherwise.
    pub open spec fn arm_msr_mask(self, instr: u32) -> u32 {
        if self.mode == CPU_mode::usr {
            0xF0000000
        } else {
            field_mask(instr)
        }
    }

    /// The live status word as a status-register write would leave it.
    pub open spec fn arm_msr_word(self, instr: u32) -> u32 {
        merge(self.cpsr, self.arm_msr_source(instr), self.arm_msr_mask(instr))
    }

    /// The fault that a status-register write meets, if any: a write to
    /// the live status word that leaves no legal mode in it.
    pub open spec fn arm_msr_fault(self, instr: u32) -> Option<Fault> {
        if !bit(instr, 22) && mode_of(self.arm_msr_word(instr)) is None {
            Some(Fault::InvalidMode { bits: self.arm_msr_word(instr) & 0x1F })
        } else {
            None
        }
    }

    /// The state after a status-register write. With bit 22 set the
    /// saved status word of the current mode takes the bits, and nothing
    /// happens in the modes that have none. Otherwise the live status
    /// word takes them and the processor switches to the mode it then
    /// names.
    #[verifier::opaque]
    pub open spec fn arm_msr(self, instr: u32) -> CpuState {
        let src = self.arm_msr_source(instr);
        let mask = self.arm_msr_mask(instr);
        if bit(instr, 22) {
            if self.mode.is_unprivileged_bank() {
                self
            } else if self.mode == CPU_mode::fiq {
                CpuState { fiq_spsr: merge(self.fiq_spsr, src, mask), ..self }
            } else {
                let k = self.mode.spec_bank();
                CpuState {
                    bank_reg: self.bank_reg.update(
                        k,
                        Bank {
                            sp: self.bank_reg[k].sp,
                            lr: self.bank_reg[k].lr,
                            spsr: merge(self.bank_reg[k].spsr, src, mask),
                        },
                    ),
                    ..self
                }
            }
        } else {
            (CpuState { cpsr: self.arm_msr_word(instr), ..self }).set_mode(
                mode_of(self.arm_msr_word(instr)).unwrap(),
            )
        }
    }
}

/// Without the set-flags bit a data-processing instruction leaves the
/// status word as it was.
pub proof fn lemma_flags_need_the_set_flags_bit(s: CpuState, bus: BusState, instr: u32, op: AluOp)
    requires
        s.wf(),
        !bit(instr, 20),
    ensures
        s.arm_data_processing_fault(instr, op) is None,
        s.arm_data_processing(bus, instr, op).cpsr == s.cpsr,
        s.arm_data_processing(bus, instr, op).mode == s.mode,
{
    reveal(CpuState::arm_data_processing);
}

/// A test or comparison changes nothing but the status word.
pub proof fn lemma_tests_only_set_flags(s: CpuState, bus: BusState, instr: u32, op: AluOp)
    requires
        s.wf(),
        !op.spec_writes_result(),
    ensures
        s.arm_data_processing(bus, instr, op) == (CpuState {
            cpsr: s.arm_data_processing(bus, instr, op).cpsr,
            ..s
        }),
{
    reveal(CpuState::arm_data_processing);
}

/// In user mode a write to the live status word changes the four
/// condition flags at most: the mode, the instruction-set bit and the
/// interrupt masks stay as they were. The status word is taken to name
/// the current mode.
pub proof fn lemma_user_mode_writes_flags_only(s: CpuState, instr: u32)
    requires
        s.wf(),
        s.mode == CPU_mode::usr,
        mode_of(s.cpsr) == Some(CPU_mode::usr),
        !bit(instr, 22),
    ensures
        s.arm_msr_fault(instr) is None,
        s.arm_msr(instr).mode == CPU_mode::usr,
        s.arm_msr(instr).cpsr & 0x0FFFFFFF == s.cpsr & 0x0FFFFFFF,
        s.arm_msr(instr).register == s.register,
{
    reveal(CpuState::arm_msr);
    let c = s.cpsr;
    let v = s.arm_msr_source(instr);
    assert(((c & !0xF0000000u32) | (v & 0xF0000000u32)) & 0x0FFFFFFF == c & 0x0FFFFFFF && ((c
        & !0xF0000000u32) | (v & 0xF0000000u32)) & 0x1F == c & 0x1F) by (bit_vector);
}

/// Data processing and status-register transfers that do not fault
/// leave the processor as sound as it was.
pub proof fn lemma_data_processing_stays_sound(s: CpuState, bus: BusState, instr: u32, op: AluOp)
    ensures
        s.arm_data_processing_fault(instr, op) is None ==> s.arm_data_processing(
            bus,
            instr,
            op,
        ).stays_sound(s),
        s.arm_mrs(bus, instr).stays_sound(s),
        s.arm_msr_fault(instr) is None ==> s.arm_msr(instr).stays_sound(s),
{
    crate::cpu::cpu::lemma_status_steps();
    reveal(CpuState::arm_data_processing);
    reveal(CpuState::arm_mrs);
    reveal(CpuState::arm_msr);
    crate::utils::lemma_fields(instr, 0);
}

/// Computes the byte lanes that the field-select bits pick.
fn lanes(instr: u32) -> (r: u32)
    ensures
        r == field_mask(instr),
{
    let a: u32 = if is_bit_set(instr, 16) {
        0xFF
    } else {
        0
    };
    let b: u32 = if is_bit_set(instr, 17) {
        0xFF00
    } else {
        0
    };
    let c: u32 = if is_bit_set(instr, 18) {
        0xFF0000
    } else {
        0
    };
    let d: u32 = if is_bit_set(instr, 19) {
        0xFF000000
    } else {
        0
    };
    a | b | c | d
}

impl CPU {
    /// Moves the program counter back by `delta`, modulo 2^32.
    pub fn rewind_pc(&mut self, delta: u32)
        ensures
            final(self)@ == old(self)@.rewind_pc(delta),
    {
        self.register[15] = self.register[15].wrapping_sub(delta);
    }

    #[inline]
    fn ARM_get_2nd_operand(&self, instr: u32) -> (r: (u32, bool))
        ensures
            r == self@.arm_second_operand(instr),
    {
        if is_bit_set(instr, 25) {
            self.barrel_shifter_rotate_right(instr & 0xFF, (instr & 0xF00) >> 7)
        } else {
            self.barrel_shifter_operand(instr >> 4, self.register[reg_field(instr, 0)])
        }
    }

    /// Reads both operands of a data-processing instruction.
    #[inline(always)]
    pub fn ARM_get_operands(&mut self, instr: u32) -> (r: (u32, (u32, bool)))
        ensures
            r == old(self)@.arm_operands(instr),
            final(self)@ == old(self)@,
    {
        if !is_bit_set(instr, 25) && is_bit_set(instr, 4) {
            self.bump_pc(4);
            let ops = (self.register[reg_field(instr, 16)], self.ARM_get_2nd_operand(instr));
            self.rewind_pc(4);
            ops
        } else {
            (self.register[reg_field(instr, 16)], self.ARM_get_2nd_operand(instr))
        }
    }

    /// Sets the flags that `op` asks for from its outcome.
    fn set_alu_flags(&mut self, op: AluOp, out: AluResult)
        ensures
            final(self)@ == old(self)@.set_alu_flags(op, out),
    {
        self.set_flag(Flag::C, out.carry);
        self.set_flag(Flag::Z, out.value == 0);
        self.set_flag(Flag::N, negative(out.value));
        if op.is_arithmetic() {
            self.set_flag(Flag::V, out.overflow);
        }
    }

    /// Carries out the data-processing instruction `instr` as `op`.
    pub fn data_processing(&mut self, bus: &mut Bus, instr: u32, op: AluOp) -> (r: Result<
        (),
        Fault,
    >)
        ensures
            match old(self)@.arm_data_processing_fault(instr, op) {
                Some(fault) => r == Err::<(), Fault>(fault) && final(self)@ == old(self)@,
                None => r is Ok && final(self)@ == old(self)@.arm_data_processing(
                    old(bus)@,
                    instr,
                    op,
                ),
            },
            final(bus)@ == old(bus)@,
    {
        reveal(CpuState::arm_data_processing);
        let (op1, (op2, shifter_carry)) = self.ARM_get_operands(instr);
        let out = alu(op, op1, op2, shifter_carry, self.carry());
        let d = reg_field(instr, 12);
        let sets_flags = is_bit_set(instr, 20);
        let unprivileged = match self.mode {
            CPU_mode::sys | CPU_mode::usr => true,
            _ => false,
        };
        let is_sub = match op {
            AluOp::Sub => true,
            _ => false,
        };
        let mut back: Option<CPU_mode> = None;
        if is_sub && sets_flags && d == 15 && !unprivileged {
            match CPU_mode::from(self.spsr()) {
                Ok(mode) => {
                    back = Some(mode);
                },
                Err(fault) => {
                    return Err(fault);
                },
            }
        }
        if op.writes_result() {
            self.register_write(d, out.value, bus);
        }
        match back {
            Some(mode) => {
                self.set_mode(mode);
            },
            None => {},
        }
        if sets_flags {
            self.set_alu_flags(op, out);
        }
        Ok(())
    }

    #[inline]
    pub fn ARM_AND(&mut self, bus: &mut Bus, instr: u32) -> (r: Result<(), Fault>)
        ensures
            r is Ok,
            final(self)@ == old(self)@.arm_data_processing(old(bus)@, instr, AluOp::And),
            final(bus)@ == old(bus)@,
    {
        self.data_processing(bus, instr, AluOp::And)
    }

    #[inline]
    pub fn ARM_EOR(&mut self, bus: &mut Bus, instr: u32) -> (r: Result<(), Fault>)
        ensures
            r is Ok,
            final(self)@ == old(self)@.arm_data_processing(old(bus)@, instr, AluOp::Eor),
            final(bus)@ == old(bus)@,
    {
        self.data_processing(bus, instr, AluOp::Eor)
    }

    /// Subtraction. With the flags set and the program counter as
    /// destination it also returns from an exception, which fails when
    /// the saved status word names no mode.
    #[inline]
    pub fn ARM_SUB(&mut self, bus: &mut Bus, instr: u32) -> (r: Result<(), Fault>)
        ensures
            match old(self)@.arm_data_processing_fault(instr, AluOp::Sub) {
                Some(fault) => r == Err::<(), Fault>(fault) && final(self)@ == old(self)@,
                None => r is Ok && final(self)@ == old(self)@.arm_data_processing(
                    old(bus)@,
                    instr,
                    AluOp::Sub,
                ),
            },
            final(bus)@ == old(bus)@,
    {
        self.data_processing(bus, instr, AluOp::Sub)
    }

    #[inline]
    pub fn ARM_RSB(&mut self, bus: &mut Bus, instr: u32) -> (r: Result<(), Fault>)
        ensures
            r is Ok,
            final(self)@ == old(self)@.arm_data_processing(old(bus)@, instr, AluOp::Rsb),
            final(bus)@ == old(bus)@,
    {
        self.data_processing(bus, instr, AluOp::Rsb)
    }

    #[inline]
    pub fn ARM_ADD(&mut self, bus: &mut Bus, instr: u32) -> (r: Result<(), Fault>)
        ensures
            r is Ok,
            final(self)@ == old(self)@.arm_data_processing(old(bus)@, instr, AluOp::Add),
            final(bus)@ == old(bus)@,
    {
        self.data_processing(bus, instr, AluOp::Add)
    }

    #[inline]
    pub fn ARM_ADC(&mut self, bus: &mut Bus, instr: u32) -> (r: Result<(), Fault>)
        ensures
            r is Ok,
            final(self)@ == old(self)@.arm_data_processing(old(bus)@, instr, AluOp::Adc),
            final(bus)@ == old(bus)@,
    {
        self.data_processing(bus, instr, AluOp::Adc)
    }

    #[inline]
    pub fn ARM_SBC(&mut self, bus: &mut Bus, instr: u32) -> (r: Result<(), Fault>)
        ensures
            r is Ok,
            final(self)@ == old(self)@.arm_data_processing(old(bus)@, instr, AluOp::Sbc),
            final(bus)@ == old(bus)@,
    {
        self.data_processing(bus, instr, AluOp::Sbc)
    }

    #[inline]
    pub fn ARM_RSC(&mut self, bus: &mut Bus, instr: u32) -> (r: Result<(), Fault>)
        ensures
            r is Ok,
            final(self)@ == old(self)@.arm_data_processing(old(bus)@, instr, AluOp::Rsc),
            final(bus)@ == old(bus)@,
    {
        self.data_processing(bus, instr, AluOp::Rsc)
    }

    #[inline]
    pub fn ARM_TST(&mut self, bus: &mut Bus, instr: u32) -> (r: Result<(), Fault>)
        ensures
            r is Ok,
            final(self)@ == old(self)@.arm_data_processing(old(bus)@, instr, AluOp::Tst),
            final(bus)@ == old(bus)@,
    {
        self.data_processing(bus, instr, AluOp::Tst)
    }

    #[inline]
    pub fn ARM_TEQ(&mut self, bus: &mut Bus, instr: u32) -> (r: Result<(), Fault>)
        ensures
            r is Ok,
            final(self)@ == old(self)@.arm_data_processing(old(bus)@, instr, AluOp::Teq),
            final(bus)@ == old(bus)@,
    {
        self.data_processing(bus, instr, AluOp::Teq)
    }

    #[inline]
    pub fn ARM_CMP(&mut self, bus: &mut Bus, instr: u32) -> (r: Result<(), Fault>)
        ensures
            r is Ok,
            final(self)@ == old(self)@.arm_data_processing(old(bus)@, instr, AluOp::Compare),
            final(bus)@ == old(bus)@,
    {
        self.data_processing(bus, instr, AluOp::Compare)
    }

    #[inline]
    pub fn ARM_CMN(&mut self, bus: &mut Bus, instr: u32) -> (r: Result<(), Fault>)
        ensures
            r is Ok,
            final(self)@ == old(self)@.arm_data_processing(
                old(bus)@,
                instr,
                AluOp::CompareNegative,
            ),
            final(bus)@ == old(bus)@,
    {
        self.data_processing(bus, instr, AluOp::CompareNegative)
    }

    #[inline]
    pub fn ARM_ORR(&mut self, bus: &mut Bus, instr: u32) -> (r: Result<(), Fault>)
        ensures
            r is Ok,
            final(self)@ == old(self)@.arm_data_processing(old(bus)@, instr, AluOp::Orr),
            final(bus)@ == old(bus)@,
    {
        self.data_processing(bus, instr, AluOp::Orr)
    }

    #[inline]
    pub fn ARM_MOV(&mut self, bus: &mut Bus, instr: u32) -> (r: Result<(), Fault>)
        ensures
            r is Ok,
            final(self)@ == old(self)@.arm_data_processing(old(bus)@, instr, AluOp::Mov),
            final(bus)@ == old(bus)@,
    {
        self.data_processing(bus, instr, AluOp::Mov)
    }

    #[inline]
    pub fn ARM_BIC(&mut self, bus: &mut Bus, instr: u32) -> (r: Result<(), Fault>)
        ensures
            r is Ok,
            final(self)@ == old(self)@.arm_data_processing(old(bus)@, instr, AluOp::Bic),
            final(bus)@ == old(bus)@,
    {
        self.data_processing(bus, instr, AluOp::Bic)
    }

    #[inline]
    pub fn ARM_MVN(&mut self, bus: &mut Bus, instr: u32) -> (r: Result<(), Fault>)
        ensures
            r is Ok,
            final(self)@ == old(self)@.arm_data_processing(old(bus)@, instr, AluOp::Mvn),
            final(bus)@ == old(bus)@,
    {
        self.data_processing(bus, instr, AluOp::Mvn)
    }

    /// Copies a status word to a register.
    #[inline]
    pub fn ARM_MRS(&mut self, bus: &mut Bus, instr: u32) -> (r: Result<(), Fault>)
        ensures
            r is Ok,
            final(self)@ == old(self)@.arm_mrs(old(bus)@, instr),
            final(bus)@ == old(bus)@,
    {
        reveal(CpuState::arm_mrs);
        let dest = reg_field(instr, 12);
        let psr = if is_bit_set(instr, 22) {
            self.spsr()
        } else {
            self.cpsr
        };
        self.register_write(dest, psr, bus);
        Ok(())
    }

    /// Writes a status word, as far as the mode and the field-select bits
    /// allow.
    #[inline]
    pub fn ARM_MSR(&mut self, bus: &mut Bus, instr: u32) -> (r: Result<(), Fault>)
        ensures
            match old(self)@.arm_msr_fault(instr) {
                Some(fault) => r == Err::<(), Fault>(fault) && final(self)@ == old(self)@,
                None => r is Ok && final(self)@ == old(self)@.arm_msr(instr),
            },
            final(bus)@ == old(bus)@,
    {
        reveal(CpuState::arm_msr);
        let src = if is_bit_set(instr, 25) {
            rotate(instr & 0xFF, (instr & 0xF00) >> 7)
        } else {
            self.register[reg_field(instr, 0)]
        };
        let mask = match self.mode {
            CPU_mode::usr => 0xF0000000,
            _ => lanes(instr),
        };
        if is_bit_set(instr, 22) {
            match self.mode {
                CPU_mode::sys | CPU_mode::usr => {},
                CPU_mode::fiq => {
                    self.fiq_spsr = (self.fiq_spsr & !mask) | (src & mask);
                },
                _ => {
                    let k = self.mode.bank();
                    let bank = self.bank_reg[k];
                    self.bank_reg[k] = Bank {
                        sp: bank.sp,
                        lr: bank.lr,
                        spsr: (bank.spsr & !mask) | (src & mask),
                    };
                },
            }
            Ok(())
        } else {
            let word = (self.cpsr & !mask) | (src & mask);
            match CPU_mode::from(word) {
                Ok(mode) => {
                    self.cpsr = word;
                    self.set_mode(mode);
                    Ok(())
                },
                Err(fault) => Err(fault),
            }
        }
    }
}

} // verus!
