//! Fetching and retiring compact instructions.
use crate::bus::{Bus, BusState};
use crate::cpu::arm::arm::Outcome;
use crate::cpu::cpu::{CPU_state, CpuState, Flag, CPU};
use crate::cpu::decode::{lemma_index_bounds, thumb_decode, thumb_index, thumb_table, ThumbOp};
use crate::cpu::thumb::opcodes::imm8;
use crate::utils::field3;
use crate::fault::Fault;
use vstd::prelude::*;

verus! {

/// The low half of a pipeline slot, which holds a compact instruction.
pub open spec fn low_half(word: u32) -> u16 {
    word as u16
}

impl CpuState {
    /// The outcome of the compact instruction `instr` when the handler
    /// `op` carries it out.
    #[verifier::opaque]
    pub open spec fn thumb_execute(self, bus: BusState, instr: u16, op: ThumbOp) -> Outcome {
        match op {
            ThumbOp::Undefined => Outcome::of(
                Some(self.undefined_fault(instr as u32)),
                self,
                bus,
                self,
                bus,
            ),
            ThumbOp::Swi => Outcome::done(self.thumb_swi(bus), bus),
            ThumbOp::Pop => Outcome::done(self.thumb_pop(bus, instr), bus),
            ThumbOp::Push => Outcome::done(
                self.thumb_push(bus, instr),
                self.thumb_push_walk(bus, instr).bus,
            ),
            ThumbOp::Ldmia => Outcome::done(self.thumb_ldmia(bus, instr), bus),
            ThumbOp::Stmia => Outcome::done(
                self.thumb_stmia(bus, instr),
                self.thumb_stmia_walk(bus, instr).bus,
            ),
            ThumbOp::CondBranch => Outcome::done(self.thumb_cond_branch(bus, instr), bus),
            ThumbOp::Branch => Outcome::done(self.thumb_branch(bus, instr), bus),
            ThumbOp::LongBranchLink => Outcome::done(self.thumb_long_branch_link(bus, instr), bus),
            ThumbOp::And => Outcome::done(self.thumb_and(instr), bus),
            ThumbOp::Eor => Outcome::done(self.thumb_eor(instr), bus),
            ThumbOp::Lsl => Outcome::done(self.thumb_lsl(instr), bus),
            ThumbOp::Lsr => Outcome::done(self.thumb_lsr(instr), bus),
            ThumbOp::Asr => Outcome::done(self.thumb_asr(instr), bus),
            ThumbOp::Adc => Outcome::done(self.thumb_adc(instr), bus),
            ThumbOp::Sbc => Outcome::done(self.thumb_sbc(instr), bus),
            ThumbOp::Ror => Outcome::done(self.thumb_ror(instr), bus),
            ThumbOp::Tst => Outcome::done(self.thumb_tst(instr), bus),
            ThumbOp::Neg => Outcome::done(self.thumb_neg(instr), bus),
            ThumbOp::Compare => Outcome::done(self.thumb_compare(instr), bus),
            ThumbOp::CompareNegative => Outcome::done(self.thumb_compare_negative(instr), bus),
            ThumbOp::Orr => Outcome::done(self.thumb_orr(instr), bus),
            ThumbOp::Mul => Outcome::done(self.thumb_mul(instr), bus),
            ThumbOp::Bic => Outcome::done(self.thumb_bic(instr), bus),
            ThumbOp::Mvn => Outcome::done(self.thumb_mvn(instr), bus),
            ThumbOp::HiLoAdd => Outcome::done(self.thumb_hilo_add(bus, instr), bus),
            ThumbOp::HiLoCompare => Outcome::done(self.thumb_hilo_compare(instr), bus),
            ThumbOp::HiLoMov => Outcome::done(self.thumb_hilo_mov(bus, instr), bus),
            ThumbOp::HiLoBx => Outcome::done(self.thumb_hilo_bx(bus, instr), bus),
            ThumbOp::Strh => Outcome::done(self, self.thumb_strh_bus(bus, instr)),
            ThumbOp::Ldsb => Outcome::done(self.thumb_ldsb(bus, instr), bus),
            ThumbOp::Ldrh => Outcome::done(self.thumb_ldrh(bus, instr), bus),
            ThumbOp::Ldsh => Outcome::done(self.thumb_ldsh(bus, instr), bus),
            ThumbOp::AddSub => Outcome::done(self.thumb_add_sub(instr), bus),
            ThumbOp::LdrStrImmOff => Outcome::of(
                self.thumb_ldr_str_imm_off_fault(bus, instr),
                self,
                bus,
                self.thumb_ldr_str_imm_off(bus, instr),
                self.thumb_ldr_str_imm_off_bus(bus, instr),
            ),
            ThumbOp::LdrhStrhImmOff => Outcome::done(
                self.thumb_ldrh_strh_imm_off(bus, instr),
                self.thumb_ldrh_strh_imm_off_bus(bus, instr),
            ),
            ThumbOp::LdrPcRelImm => Outcome::done(self.thumb_ldr_pcrel(bus, instr), bus),
            ThumbOp::LdStrRegOff => Outcome::of(
                self.thumb_ldstr_reg_off_fault(bus, instr),
                self,
                bus,
                self.thumb_ldstr_reg_off(bus, instr),
                self.thumb_ldstr_reg_off_bus(bus, instr),
            ),
            ThumbOp::LdrStrSpRel => Outcome::done(
                self.thumb_ldr_str_sp_rel(bus, instr),
                self.thumb_ldr_str_sp_rel_bus(bus, instr),
            ),
            ThumbOp::SpOff => Outcome::done(self.thumb_sp_off(instr), bus),
            ThumbOp::LdPcSp => Outcome::done(self.thumb_ld_pc_sp(instr), bus),
            ThumbOp::MovImm => Outcome::done(self.thumb_movimm(instr), bus),
            ThumbOp::CompareImm => Outcome::done(self.thumb_compare_imm(instr), bus),
            ThumbOp::AddImm => Outcome::done(self.thumb_addimm(instr), bus),
            ThumbOp::SubImm => Outcome::done(self.thumb_subimm(instr), bus),
            ThumbOp::Movs => Outcome::done(self.thumb_movs(instr), bus),
        }
    }

    /// Retiring one compact instruction: the instruction in the retiring
    /// slot is carried out by the handler that the decode table gives for
    /// it, and the pipeline moves on by one step.
    pub open spec fn tick_thumb(self, bus: BusState) -> Outcome {
        let instr = self.pipeline[2];
        self.thumb_execute(
            bus,
            low_half(instr),
            self.lut_thumb[thumb_index(instr) as int],
        ).then_step()
    }
}

/// Cuts a pipeline slot down to the compact instruction it holds.
pub fn half(word: u32) -> (r: u16)
    ensures
        r == low_half(word),
{
    #[verifier::truncate]
    (word as u16)
}

/// Widens a compact instruction to a word.
pub fn widen(instr: u16) -> (r: u32)
    ensures
        r == instr as u32,
{
    instr as u32
}

/// Computes the table index of a compact instruction.
pub fn thumb_slot(instr: u32) -> (r: usize)
    ensures
        r == thumb_index(instr),
        r < 1024,
{
    proof {
        lemma_index_bounds(instr);
    }
    ((instr >> 6) & 0x3FF) as usize
}

impl CpuState {
    /// One step of the pipeline: the decoded slot retires, the fetched
    /// slot is decoded, the program counter moves on by two and the
    /// half-word it then names is fetched.
    pub open spec fn thumb_step(self, bus: BusState) -> CpuState {
        let pc = self.register[15].wrapping_add(2);
        self.set_reg(15, pc).set_pipeline(
            bus.read16(pc) as u32,
            self.pipeline[0],
            self.pipeline[1],
        )
    }

    /// Refill after a change of control flow: the pipeline is emptied,
    /// the program counter is rounded down to an even address, and the
    /// two half-words from there on are fetched into the decoded and
    /// fetched slots. The retiring slot stays empty until the next step.
    pub open spec fn thumb_refill(self, bus: BusState) -> CpuState {
        let target = self.register[15] & 0xFFFFFFFE;
        let next = target.wrapping_add(2);
        self.set_reg(15, next).set_pipeline(
            bus.read16(next) as u32,
            bus.read16(target) as u32,
            0,
        )
    }

    /// Full fill: the three half-words from the program counter on are
    /// fetched into the retiring, decoded and fetched slots.
    pub open spec fn thumb_fill(self, bus: BusState) -> CpuState {
        let first = self.register[15];
        let second = first.wrapping_add(2);
        let third = second.wrapping_add(2);
        self.set_reg(15, third).set_pipeline(
            bus.read16(third) as u32,
            bus.read16(second) as u32,
            bus.read16(first) as u32,
        )
    }
}

/// Whatever a compact instruction does, the processor stays as sound as
/// it was.
pub proof fn lemma_thumb_execute_stays_sound(
    s: CpuState,
    bus: BusState,
    instr: u16,
    op: ThumbOp,
)
    ensures
        s.thumb_execute(bus, instr, op).cpu.stays_sound(s),
        s.thumb_execute(bus, instr, op).then_step().cpu.stays_sound(s),
{
    crate::cpu::cpu::lemma_status_steps();
    crate::cpu::thumb::opcodes::lemma_low_loads_stay_sound(s, bus, instr);
    crate::cpu::thumb::opcodes::lemma_thumb_opcodes_stay_sound(s, bus, instr);
    crate::cpu::thumb::data_processing::lemma_thumb_alu_stays_sound(s, instr);
    crate::cpu::thumb::hi_lo_ops::lemma_hi_lo_stays_sound(s, bus, instr);
    let out = s.thumb_execute(bus, instr, op);
    assert(out.cpu.stays_sound(s)) by {
        reveal(CpuState::thumb_execute);
    }
}

/// Retiring an instruction leaves the processor as sound as it was: once built, they
/// never change.
pub proof fn lemma_tick_stays_sound(s: CpuState, bus: BusState)
    ensures
        s.tick(bus).cpu.stays_sound(s),
        s.decodes() ==> s.tick(bus).cpu.decodes(),
        s.status_ok() ==> s.tick(bus).cpu.status_ok(),
{
    crate::cpu::cpu::lemma_status_steps();
    crate::cpu::arm::arm::lemma_tick_arm_stays_sound(s, bus);
    lemma_thumb_execute_stays_sound(
        s,
        bus,
        low_half(s.pipeline[2]),
        s.lut_thumb[thumb_index(s.pipeline[2]) as int],
    );
}

/// Retiring a move of an immediate, from the pipeline to the registers:
/// on a processor in the compact instruction set whose decode table is
/// in place, a retiring slot that decodes to that move puts the
/// immediate into its destination, leaves carry and overflow as they
/// were, stays in the compact instruction set without a fault, and moves
/// the pipeline on by one half-word.
pub proof fn lemma_tick_move_immediate(s: CpuState, bus: BusState)
    requires
        s.wf(),
        s.lut_thumb == thumb_table(),
        s.state == CPU_state::THUMB,
        s.pipeline[2] != 0,
        thumb_decode(thumb_index(s.pipeline[2])) == ThumbOp::MovImm,
    ensures
        s.tick(bus) == s.tick_thumb(bus),
        s.tick(bus).fault is None,
        s.tick(bus).bus == bus,
        s.tick(bus).cpu == s.thumb_movimm(low_half(s.pipeline[2])).thumb_step(bus),
        s.tick(bus).cpu.register[field3(low_half(s.pipeline[2]), 8)] == imm8(
            low_half(s.pipeline[2]),
        ),
        s.tick(bus).cpu.flag(Flag::C) == s.flag(Flag::C),
        s.tick(bus).cpu.flag(Flag::V) == s.flag(Flag::V),
        s.tick(bus).cpu.state == CPU_state::THUMB,
        s.tick(bus).cpu.register[15] == s.register[15].wrapping_add(2),
        s.tick(bus).cpu.pipeline == seq![
            bus.read16(s.register[15].wrapping_add(2)) as u32,
            s.pipeline[0],
            s.pipeline[1],
        ],
{
    reveal(CpuState::thumb_execute);
    let instr = low_half(s.pipeline[2]);
    lemma_index_bounds(s.pipeline[2]);
    crate::utils::lemma_fields(0, instr);
    crate::cpu::thumb::opcodes::lemma_movimm_keeps_carry(s, instr);
    assert(s.lut_thumb[thumb_index(s.pipeline[2]) as int] == ThumbOp::MovImm);
}

/// The move of 0xFF into register 0, whose encoding is 0x20FF, retires
/// as every move of an immediate does: register 0 holds 0xFF afterwards
/// and the carry flag is as it was.
pub proof fn lemma_tick_move_ff_to_r0(s: CpuState, bus: BusState)
    requires
        s.wf(),
        s.lut_thumb == thumb_table(),
        s.state == CPU_state::THUMB,
        s.pipeline[2] == 0x20FF,
    ensures
        s.tick(bus).fault is None,
        s.tick(bus).bus == bus,
        s.tick(bus).cpu.register[0] == 0xFF,
        s.tick(bus).cpu.flag(Flag::C) == s.flag(Flag::C),
        s.tick(bus).cpu.state == CPU_state::THUMB,
        s.tick(bus).cpu.register[15] == s.register[15].wrapping_add(2),
        s.tick(bus).cpu.pipeline == seq![
            bus.read16(s.register[15].wrapping_add(2)) as u32,
            s.pipeline[0],
            s.pipeline[1],
        ],
{
    let i = thumb_index(0x20FF);
    assert((0x20FFu32 >> 6) & 0x3FF == 0x83 && 0x83u32 & 0x3FC != 0x37C && 0x83u32 & 0x3D8 != 0x2D0
        && 0x83u32 & 0x3C0 != 0x300 && 0x83u32 & 0x3C0 != 0x340 && 0x83u32 & 0x3E0 != 0x380
        && 0x83u32 & 0x3C0 != 0x3C0 && 0x83u32 & 0x3F0 != 0x100 && 0x83u32 & 0x3F0 != 0x110
        && 0x83u32 & 0x3C8 != 0x148 && 0x83u32 & 0x3E0 != 0x060 && 0x83u32 & 0x380 != 0x180
        && 0x83u32 & 0x3C0 != 0x200 && 0x83u32 & 0x3E0 != 0x120 && 0x83u32 & 0x3C8 != 0x140
        && 0x83u32 & 0x3C0 != 0x240 && 0x83u32 & 0x3FC != 0x2C0 && 0x83u32 & 0x3C0 != 0x280
        && 0x83u32 & 0x380 == 0x080 && (0x83u32 >> 5) & 0x3 == 0 && 0x20FFu32 as u16 == 0x20FFu16
        && (0x20FFu16 >> 8) & 0x7 == 0 && 0x20FFu16 & 0xFF == 0xFF) by (bit_vector);
    assert(thumb_decode(i) == ThumbOp::MovImm);
    lemma_tick_move_immediate(s, bus);
}

/// After a full fill the program counter is four bytes past the address
/// it was filled from, and six after one more step. After a refill and
/// the step that follows it the counter is four bytes past the refill
/// target, rounded down to a half-word, and the half-word at the target
/// retires.
pub proof fn lemma_thumb_fill_and_refill(s: CpuState, bus: BusState)
    requires
        s.wf(),
    ensures
        s.thumb_fill(bus).register[15] == s.register[15].wrapping_add(4),
        s.thumb_fill(bus).thumb_step(bus).register[15] == s.register[15].wrapping_add(6),
        s.thumb_refill(bus).pipeline[2] == 0,
        s.thumb_refill(bus).thumb_step(bus).register[15] == (s.register[15]
            & 0xFFFFFFFE).wrapping_add(4),
        s.thumb_refill(bus).thumb_step(bus).pipeline[2] == bus.read16(s.register[15] & 0xFFFFFFFE),
{
}

impl CPU {
    #[inline]
    pub fn thumb_step_pipeline(&mut self, bus: &mut Bus)
        ensures
            final(self)@ == old(self)@.thumb_step(old(bus)@),
            final(bus)@ == old(bus)@,
    {
        let pc = self.register[15].wrapping_add(2);
        let fetched = bus.read16(pc) as u32;
        let decoded = self.pipeline[0];
        let retiring = self.pipeline[1];
        self.set_reg(15, pc);
        self.set_pipeline(fetched, decoded, retiring);
    }

    #[inline]
    pub fn thumb_refill_pipeline(&mut self, bus: &mut Bus)
        ensures
            final(self)@ == old(self)@.thumb_refill(old(bus)@),
            final(bus)@ == old(bus)@,
    {
        let target = self.register[15] & 0xFFFFFFFE;
        let next = target.wrapping_add(2);
        let decoded = bus.read16(target) as u32;
        let fetched = bus.read16(next) as u32;
        self.set_reg(15, next);
        self.set_pipeline(fetched, decoded, 0);
    }

    pub fn thumb_fill_pipeline(&mut self, bus: &mut Bus)
        ensures
            final(self)@ == old(self)@.thumb_fill(old(bus)@),
            final(bus)@ == old(bus)@,
    {
        let first = self.register[15];
        let second = first.wrapping_add(2);
        let third = second.wrapping_add(2);
        let retiring = bus.read16(first) as u32;
        let decoded = bus.read16(second) as u32;
        let fetched = bus.read16(third) as u32;
        self.set_reg(15, third);
        self.set_pipeline(fetched, decoded, retiring);
    }

    /// Carries out the instruction `instr` with the handler `op`.
    pub fn thumb_execute(&mut self, bus: &mut Bus, instr: u16, op: ThumbOp) -> (r: Result<
        (),
        Fault,
    >)
        ensures
            old(self)@.thumb_execute(old(bus)@, instr, op).fault matches Some(fault) ==> r == Err::<
                (),
                Fault,
            >(fault),
            old(self)@.thumb_execute(old(bus)@, instr, op).fault is None ==> r is Ok,
            final(self)@ == old(self)@.thumb_execute(old(bus)@, instr, op).cpu,
            final(bus)@ == old(self)@.thumb_execute(old(bus)@, instr, op).bus,
            final(bus)@.keeps_frame(old(bus)@),
            r is Err ==> final(self)@ == old(self)@ && final(bus)@ == old(bus)@,
    {
        reveal(CpuState::thumb_execute);
        match op {
            ThumbOp::Undefined => self.undefined_opcode(bus, widen(instr)),
            ThumbOp::Swi => self.THUMB_SWI(bus, instr),
            ThumbOp::Pop => self.THUMB_POP(bus, instr),
            ThumbOp::Push => self.THUMB_PUSH(bus, instr),
            ThumbOp::Ldmia => self.THUMB_LDMIA(bus, instr),
            ThumbOp::Stmia => self.THUMB_STMIA(bus, instr),
            ThumbOp::CondBranch => self.THUMB_COND_BRANCH(bus, instr),
            ThumbOp::Branch => self.THUMB_BRANCH(bus, instr),
            ThumbOp::LongBranchLink => self.THUMB_LONG_BRANCH_LINK(bus, instr),
            ThumbOp::And => self.THUMB_AND(bus, instr),
            ThumbOp::Eor => self.THUMB_EOR(bus, instr),
            ThumbOp::Lsl => self.THUMB_LSL(bus, instr),
            ThumbOp::Lsr => self.THUMB_LSR(bus, instr),
            ThumbOp::Asr => self.THUMB_ASR(bus, instr),
            ThumbOp::Adc => self.THUMB_ADC(bus, instr),
            ThumbOp::Sbc => self.THUMB_SBC(bus, instr),
            ThumbOp::Ror => self.THUMB_ROR(bus, instr),
            ThumbOp::Tst => self.THUMB_TST(bus, instr),
            ThumbOp::Neg => self.THUMB_NEG(bus, instr),
            ThumbOp::Compare => self.THUMB_CMP(bus, instr),
            ThumbOp::CompareNegative => self.THUMB_CMN(bus, instr),
            ThumbOp::Orr => self.THUMB_ORR(bus, instr),
            ThumbOp::Mul => self.THUMB_MUL(bus, instr),
            ThumbOp::Bic => self.THUMB_BIC(bus, instr),
            ThumbOp::Mvn => self.THUMB_MVN(bus, instr),
            ThumbOp::HiLoAdd => self.THUMB_HILO_ADD(bus, instr),
            ThumbOp::HiLoCompare => self.THUMB_HILO_CMP(bus, instr),
            ThumbOp::HiLoMov => self.THUMB_HILO_MOV(bus, instr),
            ThumbOp::HiLoBx => self.THUMB_HILO_BX(bus, instr),
            ThumbOp::Strh => self.THUMB_STRH(bus, instr),
            ThumbOp::Ldsb => self.THUMB_LDSB(bus, instr),
            ThumbOp::Ldrh => self.THUMB_LDRH(bus, instr),
            ThumbOp::Ldsh => self.THUMB_LDSH(bus, instr),
            ThumbOp::AddSub => self.THUMB_ADD_SUB(bus, instr),
            ThumbOp::LdrStrImmOff => self.THUMB_LDR_STR_IMM_OFF(bus, instr),
            ThumbOp::LdrhStrhImmOff => self.THUMB_LDRH_STRH_IMM_OFF(bus, instr),
            ThumbOp::LdrPcRelImm => self.THUMB_LDR_PCREL_IMM(bus, instr),
            ThumbOp::LdStrRegOff => self.THUMB_LDSTR_REG_OFF(bus, instr),
            ThumbOp::LdrStrSpRel => self.THUMB_LDR_STR_SP_REL(bus, instr),
            ThumbOp::SpOff => self.THUMB_SP_OFF(bus, instr),
            ThumbOp::LdPcSp => self.THUMB_LD_PC_SP(bus, instr),
            ThumbOp::MovImm => self.THUMB_MOVIMM(bus, instr),
            ThumbOp::CompareImm => self.THUMB_CMPIMM(bus, instr),
            ThumbOp::AddImm => self.THUMB_ADDIMM(bus, instr),
            ThumbOp::SubImm => self.THUMB_SUBIMM(bus, instr),
            ThumbOp::Movs => self.THUMB_MOVS(bus, instr),
        }
    }

    /// Retires one compact instruction.
    #[inline]
    pub fn tick_THUMB(&mut self, bus: &mut Bus) -> (r: Result<(), Fault>)
        ensures
            old(self)@.tick_thumb(old(bus)@).fault matches Some(fault) ==> r == Err::<(), Fault>(
                fault,
            ),
            old(self)@.tick_thumb(old(bus)@).fault is None ==> r is Ok,
            final(self)@ == old(self)@.tick_thumb(old(bus)@).cpu,
            final(bus)@ == old(self)@.tick_thumb(old(bus)@).bus,
            final(bus)@.keeps_frame(old(bus)@),
            r is Err ==> final(self)@ == old(self)@ && final(bus)@ == old(bus)@,
    {
        let instr = self.pipeline[2];
        let op = self.lut_thumb[thumb_slot(instr)];
        match self.thumb_execute(bus, half(instr), op) {
            Ok(()) => {},
            Err(fault) => {
                return Err(fault);
            },
        }
        match self.state {
            CPU_state::ARM => {
                self.arm_step_pipeline(bus);
            },
            CPU_state::THUMB => {
                self.thumb_step_pipeline(bus);
            },
        }
        Ok(())
    }
}

} // verus!
