//! Fetching and retiring full-width instructions.
use crate::bus::{Bus, BusState};
use crate::cpu::alu::AluOp;
use crate::cpu::arm::data_processing::lemma_data_processing_stays_sound;
use crate::cpu::cpu::{condition_passes, CPU_state, CpuState, CPU};
use crate::cpu::decode::{arm_index, lemma_index_bounds, ArmOp};
use crate::fault::Fault;
use vstd::prelude::*;

verus! {

/// What carrying out an instruction leads to: the processor and memory
/// afterwards or, with a fault, as they were.
pub struct Outcome {
    pub cpu: CpuState,
    pub bus: BusState,
    pub fault: Option<Fault>,
}

impl Outcome {
    /// The outcome of an instruction that faults with `fault`, if that
    /// is one, and otherwise leads from `cpu0` and `bus0` to `cpu` and
    /// `bus`.
    pub open spec fn of(
        fault: Option<Fault>,
        cpu0: CpuState,
        bus0: BusState,
        cpu: CpuState,
        bus: BusState,
    ) -> Outcome {
        if fault is Some {
            Outcome { cpu: cpu0, bus: bus0, fault }
        } else {
            Outcome { cpu, bus, fault: None }
        }
    }

    /// The outcome of an instruction that cannot fault.
    pub open spec fn done(cpu: CpuState, bus: BusState) -> Outcome {
        Outcome { cpu, bus, fault: None }
    }

    /// The outcome followed by one step of the pipeline, in the
    /// instruction set that is then in use, unless it is a fault.
    pub open spec fn then_step(self) -> Outcome {
        if self.fault is Some {
            self
        } else if self.cpu.state == CPU_state::THUMB {
            Outcome { cpu: self.cpu.thumb_step(self.bus), ..self }
        } else {
            Outcome { cpu: self.cpu.arm_step(self.bus), ..self }
        }
    }
}

/// The condition field of a full-width instruction.
pub open spec fn condition_of(instr: u32) -> u8 {
    (instr >> 28) as u8
}

impl CpuState {
    /// The outcome of the full-width instruction `instr` when the
    /// handler `op` carries it out.
    #[verifier::opaque]
    pub open spec fn arm_execute(self, bus: BusState, instr: u32, op: ArmOp) -> Outcome {
        match op {
            ArmOp::Undefined => Outcome::of(
                Some(self.undefined_fault(instr)),
                self,
                bus,
                self,
                bus,
            ),
            ArmOp::Swi => Outcome::done(self.arm_swi(bus), bus),
            ArmOp::Bx => Outcome::done(self.arm_bx(bus, instr), bus),
            ArmOp::BranchLink => Outcome::done(self.arm_b_bl(bus, instr), bus),
            ArmOp::MulMla => Outcome::done(self.arm_mul_mla(bus, instr), bus),
            ArmOp::SmullSmlal => Outcome::done(
                self.arm_long_store(bus, instr, self.arm_smull_value(instr)),
                bus,
            ),
            ArmOp::UmullUmlal => Outcome::done(
                self.arm_long_store(bus, instr, self.arm_umull_value(instr)),
                bus,
            ),
            ArmOp::Swp => Outcome::of(
                self.arm_swp_fault(bus, instr),
                self,
                bus,
                self.arm_swp(bus, instr),
                self.arm_swp_bus(bus, instr),
            ),
            ArmOp::Ldm => Outcome::done(self.arm_ldm(bus, instr), bus),
            ArmOp::Stm => Outcome::done(self.arm_stm(bus, instr), self.arm_stm_bus(bus, instr)),
            ArmOp::Ldrhsb => Outcome::of(
                self.arm_ldrhsb_fault(instr),
                self,
                bus,
                self.arm_ldrhsb(bus, instr),
                bus,
            ),
            ArmOp::Strhsb => Outcome::of(
                self.arm_strhsb_fault(bus, instr),
                self,
                bus,
                self.arm_strhsb(bus, instr),
                self.arm_strhsb_bus(bus, instr),
            ),
            ArmOp::Ldr => Outcome::done(self.arm_ldr(bus, instr), bus),
            ArmOp::Str => Outcome::of(
                self.arm_str_fault(bus, instr),
                self,
                bus,
                self.arm_str(bus, instr),
                self.arm_str_bus(bus, instr),
            ),
            ArmOp::Mrs => Outcome::done(self.arm_mrs(bus, instr), bus),
            ArmOp::Msr => Outcome::of(
                self.arm_msr_fault(instr),
                self,
                bus,
                self.arm_msr(instr),
                bus,
            ),
            ArmOp::And => Outcome::done(self.arm_data_processing(bus, instr, AluOp::And), bus),
            ArmOp::Eor => Outcome::done(self.arm_data_processing(bus, instr, AluOp::Eor), bus),
            ArmOp::Sub => Outcome::of(
                self.arm_data_processing_fault(instr, AluOp::Sub),
                self,
                bus,
                self.arm_data_processing(bus, instr, AluOp::Sub),
                bus,
            ),
            ArmOp::Rsb => Outcome::done(self.arm_data_processing(bus, instr, AluOp::Rsb), bus),
            ArmOp::Add => Outcome::done(self.arm_data_processing(bus, instr, AluOp::Add), bus),
            ArmOp::Adc => Outcome::done(self.arm_data_processing(bus, instr, AluOp::Adc), bus),
            ArmOp::Sbc => Outcome::done(self.arm_data_processing(bus, instr, AluOp::Sbc), bus),
            ArmOp::Rsc => Outcome::done(self.arm_data_processing(bus, instr, AluOp::Rsc), bus),
            ArmOp::Tst => Outcome::done(self.arm_data_processing(bus, instr, AluOp::Tst), bus),
            ArmOp::Teq => Outcome::done(self.arm_data_processing(bus, instr, AluOp::Teq), bus),
            ArmOp::Compare => Outcome::done(
                self.arm_data_processing(bus, instr, AluOp::Compare),
                bus,
            ),
            ArmOp::CompareNegative => Outcome::done(
                self.arm_data_processing(bus, instr, AluOp::CompareNegative),
                bus,
            ),
            ArmOp::Orr => Outcome::done(self.arm_data_processing(bus, instr, AluOp::Orr), bus),
            ArmOp::Mov => Outcome::done(self.arm_data_processing(bus, instr, AluOp::Mov), bus),
            ArmOp::Bic => Outcome::done(self.arm_data_processing(bus, instr, AluOp::Bic), bus),
            ArmOp::Mvn => Outcome::done(self.arm_data_processing(bus, instr, AluOp::Mvn), bus),
        }
    }

    /// Retiring one full-width instruction: the instruction in the
    /// retiring slot is carried out by the handler that the decode table
    /// gives for it, if its condition passes, and the pipeline moves on
    /// by one step.
    pub open spec fn tick_arm(self, bus: BusState) -> Outcome {
        let instr = self.pipeline[2];
        if condition_passes(condition_of(instr), self.cpsr) {
            self.arm_execute(bus, instr, self.lut_arm[arm_index(instr) as int]).then_step()
        } else {
            Outcome { cpu: self.arm_step(bus), bus, fault: None }
        }
    }
}

/// Extracts the condition field of a full-width instruction.
pub fn condition_field(instr: u32) -> (r: u8)
    ensures
        r == condition_of(instr),
        r <= 0xF,
{
    assert(instr >> 28 <= 0xF) by (bit_vector);
    (instr >> 28) as u8
}

/// Computes the table index of a full-width instruction.
pub fn arm_slot(instr: u32) -> (r: usize)
    ensures
        r == arm_index(instr),
        r < 4096,
{
    proof {
        lemma_index_bounds(instr);
    }
    (((instr & 0xF0) >> 4) | ((instr & 0xFF00000) >> 16)) as usize
}

impl CpuState {
    /// One step of the pipeline: the decoded slot retires, the fetched
    /// slot is decoded, the program counter moves on by four and the word
    /// it then names is fetched.
    pub open spec fn arm_step(self, bus: BusState) -> CpuState {
        let pc = self.register[15].wrapping_add(4);
        self.set_reg(15, pc).set_pipeline(bus.read32(pc), self.pipeline[0], self.pipeline[1])
    }

    /// Refill after a change of control flow: the pipeline is emptied,
    /// the program counter is rounded down to a multiple of four, and the
    /// two words from there on are fetched into the decoded and fetched
    /// slots. The retiring slot stays empty until the next step.
    pub open spec fn arm_refill(self, bus: BusState) -> CpuState {
        let target = self.register[15] & 0xFFFFFFFC;
        let next = target.wrapping_add(4);
        self.set_reg(15, next).set_pipeline(bus.read32(next), bus.read32(target), 0)
    }

    /// Full fill: the three words from the program counter on are fetched
    /// into the retiring, decoded and fetched slots.
    pub open spec fn arm_fill(self, bus: BusState) -> CpuState {
        let first = self.register[15];
        let second = first.wrapping_add(4);
        let third = second.wrapping_add(4);
        self.set_reg(15, third).set_pipeline(
            bus.read32(third),
            bus.read32(second),
            bus.read32(first),
        )
    }
}

impl ArmOp {
    /// Whether the handler is one of the sixteen data-processing
    /// operations.
    pub open spec fn is_data_processing(self) -> bool {
        match self {
            ArmOp::And
            | ArmOp::Eor
            | ArmOp::Sub
            | ArmOp::Rsb
            | ArmOp::Add
            | ArmOp::Adc
            | ArmOp::Sbc
            | ArmOp::Rsc
            | ArmOp::Tst
            | ArmOp::Teq
            | ArmOp::Compare
            | ArmOp::CompareNegative
            | ArmOp::Orr
            | ArmOp::Mov
            | ArmOp::Bic
            | ArmOp::Mvn => true,
            _ => false,
        }
    }
}

/// Whatever a data-processing instruction does, the processor stays as
/// sound as it was.
proof fn lemma_data_processing_ops_stay_sound(s: CpuState, bus: BusState, instr: u32, op: ArmOp)
    requires
        op.is_data_processing(),
    ensures
        s.arm_execute(bus, instr, op).cpu.stays_sound(s),
{
    crate::cpu::cpu::lemma_status_steps();
    lemma_data_processing_stays_sound(s, bus, instr, AluOp::And);
    lemma_data_processing_stays_sound(s, bus, instr, AluOp::Eor);
    lemma_data_processing_stays_sound(s, bus, instr, AluOp::Sub);
    lemma_data_processing_stays_sound(s, bus, instr, AluOp::Rsb);
    lemma_data_processing_stays_sound(s, bus, instr, AluOp::Add);
    lemma_data_processing_stays_sound(s, bus, instr, AluOp::Adc);
    lemma_data_processing_stays_sound(s, bus, instr, AluOp::Sbc);
    lemma_data_processing_stays_sound(s, bus, instr, AluOp::Rsc);
    lemma_data_processing_stays_sound(s, bus, instr, AluOp::Tst);
    lemma_data_processing_stays_sound(s, bus, instr, AluOp::Teq);
    lemma_data_processing_stays_sound(s, bus, instr, AluOp::Compare);
    lemma_data_processing_stays_sound(s, bus, instr, AluOp::CompareNegative);
    lemma_data_processing_stays_sound(s, bus, instr, AluOp::Orr);
    lemma_data_processing_stays_sound(s, bus, instr, AluOp::Mov);
    lemma_data_processing_stays_sound(s, bus, instr, AluOp::Bic);
    lemma_data_processing_stays_sound(s, bus, instr, AluOp::Mvn);
    reveal(CpuState::arm_execute);
}

/// Whatever another instruction does, the processor stays as sound as
/// it was.
proof fn lemma_other_ops_stay_sound(s: CpuState, bus: BusState, instr: u32, op: ArmOp)
    requires
        !op.is_data_processing(),
    ensures
        s.arm_execute(bus, instr, op).cpu.stays_sound(s),
{
    crate::cpu::cpu::lemma_status_steps();
    crate::cpu::arm::data_transfer::lemma_ldm_stays_sound(s, bus, instr);
    crate::cpu::arm::data_transfer::lemma_stm_stays_sound(s, bus, instr);
    crate::cpu::arm::opcodes::lemma_arm_opcodes_stay_sound(s, bus, instr);
    crate::cpu::arm::opcodes::lemma_ldr_stays_sound(s, bus, instr);
    crate::cpu::arm::opcodes::lemma_str_stays_sound(s, bus, instr);
    crate::cpu::arm::opcodes::lemma_ldrhsb_stays_sound(s, bus, instr);
    crate::cpu::arm::opcodes::lemma_strhsb_stays_sound(s, bus, instr);
    crate::cpu::arm::data_processing::lemma_data_processing_stays_sound(s, bus, instr, AluOp::And);
    reveal(CpuState::arm_execute);
}

/// Whatever a full-width instruction does, the processor stays as sound
/// as it was.
pub proof fn lemma_arm_execute_stays_sound(s: CpuState, bus: BusState, instr: u32, op: ArmOp)
    ensures
        s.arm_execute(bus, instr, op).cpu.stays_sound(s),
        s.arm_execute(bus, instr, op).then_step().cpu.stays_sound(s),
{
    crate::cpu::cpu::lemma_status_steps();
    if op.is_data_processing() {
        lemma_data_processing_ops_stay_sound(s, bus, instr, op);
    } else {
        lemma_other_ops_stay_sound(s, bus, instr, op);
    }
}

/// Retiring a full-width instruction leaves the processor as sound as it was.
pub proof fn lemma_tick_arm_stays_sound(s: CpuState, bus: BusState)
    ensures
        s.tick_arm(bus).cpu.stays_sound(s),
{
    crate::cpu::cpu::lemma_status_steps();
    lemma_arm_execute_stays_sound(
        s,
        bus,
        s.pipeline[2],
        s.lut_arm[arm_index(s.pipeline[2]) as int],
    );
}

/// After a full fill the program counter is eight bytes past the address
/// it was filled from, and twelve after one more step; the retiring slot
/// holds the word at that address.
pub proof fn lemma_arm_fill_then_step(s: CpuState, bus: BusState)
    requires
        s.wf(),
    ensures
        s.arm_fill(bus).register[15] == s.register[15].wrapping_add(8),
        s.arm_fill(bus).pipeline[2] == bus.read32(s.register[15]),
        s.arm_fill(bus).arm_step(bus).register[15] == s.register[15].wrapping_add(12),
        s.arm_fill(bus).arm_step(bus).pipeline[2] == bus.read32(s.register[15].wrapping_add(4)),
{
}

/// After a refill and the step that follows it the program counter is
/// eight bytes past the refill target, rounded down to a word, and the
/// word at the target retires; one step later the counter is twelve
/// bytes past it. The refill itself leaves the retiring slot empty.
pub proof fn lemma_arm_refill_then_step(s: CpuState, bus: BusState)
    requires
        s.wf(),
    ensures
        s.arm_refill(bus).pipeline[2] == 0,
        s.arm_refill(bus).arm_step(bus).register[15] == (s.register[15] & 0xFFFFFFFC).wrapping_add(
            8,
        ),
        s.arm_refill(bus).arm_step(bus).pipeline[2] == bus.read32(s.register[15] & 0xFFFFFFFC),
        s.arm_refill(bus).arm_step(bus).arm_step(bus).register[15] == (s.register[15]
            & 0xFFFFFFFC).wrapping_add(12),
{
}

impl CPU {
    #[inline]
    pub fn arm_step_pipeline(&mut self, bus: &mut Bus)
        ensures
            final(self)@ == old(self)@.arm_step(old(bus)@),
            final(bus)@ == old(bus)@,
    {
        let pc = self.register[15].wrapping_add(4);
        let fetched = bus.read32(pc);
        let decoded = self.pipeline[0];
        let retiring = self.pipeline[1];
        self.set_reg(15, pc);
        self.set_pipeline(fetched, decoded, retiring);
    }

    #[inline]
    pub fn arm_refill_pipeline(&mut self, bus: &mut Bus)
        ensures
            final(self)@ == old(self)@.arm_refill(old(bus)@),
            final(bus)@ == old(bus)@,
    {
        let target = self.register[15] & 0xFFFFFFFC;
        let next = target.wrapping_add(4);
        let decoded = bus.read32(target);
        let fetched = bus.read32(next);
        self.set_reg(15, next);
        self.set_pipeline(fetched, decoded, 0);
    }

    #[inline]
    pub fn arm_fill_pipeline(&mut self, bus: &mut Bus)
        ensures
            final(self)@ == old(self)@.arm_fill(old(bus)@),
            final(bus)@ == old(bus)@,
    {
        let first = self.register[15];
        let second = first.wrapping_add(4);
        let third = second.wrapping_add(4);
        let retiring = bus.read32(first);
        let decoded = bus.read32(second);
        let fetched = bus.read32(third);
        self.set_reg(15, third);
        self.set_pipeline(fetched, decoded, retiring);
    }

    /// Carries out the instruction `instr` with the handler `op`.
    pub fn arm_execute(&mut self, bus: &mut Bus, instr: u32, op: ArmOp) -> (r: Result<(), Fault>)
        ensures
            old(self)@.arm_execute(old(bus)@, instr, op).fault matches Some(fault) ==> r == Err::<
                (),
                Fault,
            >(fault),
            old(self)@.arm_execute(old(bus)@, instr, op).fault is None ==> r is Ok,
            final(self)@ == old(self)@.arm_execute(old(bus)@, instr, op).cpu,
            final(bus)@ == old(self)@.arm_execute(old(bus)@, instr, op).bus,
            final(bus)@.keeps_frame(old(bus)@),
            r is Err ==> final(self)@ == old(self)@ && final(bus)@ == old(bus)@,
    {
        reveal(CpuState::arm_execute);
        match op {
            ArmOp::Undefined => self.undefined_opcode(bus, instr),
            ArmOp::Swi => self.ARM_SWI(bus, instr),
            ArmOp::Bx => self.ARM_bx(bus, instr),
            ArmOp::BranchLink => self.ARM_b_bl(bus, instr),
            ArmOp::MulMla => self.ARM_MUL_MLA(bus, instr),
            ArmOp::SmullSmlal => self.ARM_SMULL_SMLAL(bus, instr),
            ArmOp::UmullUmlal => self.ARM_UMULL_UMLAL(bus, instr),
            ArmOp::Swp => self.ARM_SWP(bus, instr),
            ArmOp::Ldm => self.ARM_LDM(bus, instr),
            ArmOp::Stm => self.ARM_STM(bus, instr),
            ArmOp::Ldrhsb => self.ARM_LDRHSB(bus, instr),
            ArmOp::Strhsb => self.ARM_STRHSB(bus, instr),
            ArmOp::Ldr => self.ARM_LDR(bus, instr),
            ArmOp::Str => self.ARM_STR(bus, instr),
            ArmOp::Mrs => self.ARM_MRS(bus, instr),
            ArmOp::Msr => self.ARM_MSR(bus, instr),
            ArmOp::And => self.ARM_AND(bus, instr),
            ArmOp::Eor => self.ARM_EOR(bus, instr),
            ArmOp::Sub => self.ARM_SUB(bus, instr),
            ArmOp::Rsb => self.ARM_RSB(bus, instr),
            ArmOp::Add => self.ARM_ADD(bus, instr),
            ArmOp::Adc => self.ARM_ADC(bus, instr),
            ArmOp::Sbc => self.ARM_SBC(bus, instr),
            ArmOp::Rsc => self.ARM_RSC(bus, instr),
            ArmOp::Tst => self.ARM_TST(bus, instr),
            ArmOp::Teq => self.ARM_TEQ(bus, instr),
            ArmOp::Compare => self.ARM_CMP(bus, instr),
            ArmOp::CompareNegative => self.ARM_CMN(bus, instr),
            ArmOp::Orr => self.ARM_ORR(bus, instr),
            ArmOp::Mov => self.ARM_MOV(bus, instr),
            ArmOp::Bic => self.ARM_BIC(bus, instr),
            ArmOp::Mvn => self.ARM_MVN(bus, instr),
        }
    }

    /// Retires one full-width instruction.
    #[inline]
    pub fn tick_ARM(&mut self, bus: &mut Bus) -> (r: Result<(), Fault>)
        ensures
            old(self)@.tick_arm(old(bus)@).fault matches Some(fault) ==> r == Err::<(), Fault>(
                fault,
            ),
            old(self)@.tick_arm(old(bus)@).fault is None ==> r is Ok,
            final(self)@ == old(self)@.tick_arm(old(bus)@).cpu,
            final(bus)@ == old(self)@.tick_arm(old(bus)@).bus,
            final(bus)@.keeps_frame(old(bus)@),
            r is Err ==> final(self)@ == old(self)@ && final(bus)@ == old(bus)@,
    {
        let instr = self.pipeline[2];
        if self.is_condition(condition_field(instr)) {
            let op = self.lut_arm[arm_slot(instr)];
            match self.arm_execute(bus, instr, op) {
                Ok(()) => {},
                Err(fault) => {
                    return Err(fault);
                },
            }
            match self.state {
                CPU_state::THUMB => {
                    self.thumb_step_pipeline(bus);
                    return Ok(());
                },
                CPU_state::ARM => {},
            }
        }
        self.arm_step_pipeline(bus);
        Ok(())
    }
}

} // verus!
