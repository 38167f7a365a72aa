use spangb::bus::Bus;
use spangb::cpu::cpu::{CPU_mode, CPU_state, Flag, CPU};
use spangb::cpu::arm::data_transfer::reglist;
use spangb::cpu::decode::{arm_entry, thumb_entry, ArmOp, ThumbOp};
use spangb::fault::Fault;

const N: u32 = 0x8000_0000;
const Z: u32 = 0x4000_0000;
const C: u32 = 0x2000_0000;
const V: u32 = 0x1000_0000;

fn machine() -> (CPU, Bus) {
    let mut bus = Bus::new();
    let mut cpu = CPU::new();
    cpu.init(&mut bus);
    (cpu, bus)
}

#[test]
fn condition_codes_follow_the_truth_table() {
    let mut cpu = CPU::new();
    for bits in 0..16u32 {
        cpu.cpsr = (bits << 28) | 0x1F;
        let n = bits & 8 != 0;
        let z = bits & 4 != 0;
        let c = bits & 2 != 0;
        let v = bits & 1 != 0;
        let expected = [
            z,
            !z,
            c,
            !c,
            n,
            !n,
            v,
            !v,
            c && !z,
            !c || z,
            n == v,
            n != v,
            !z && n == v,
            z || n != v,
            true,
            true,
        ];
        for cond in 0..16u8 {
            let passes = cpu.is_condition(cond);
            assert_eq!(passes, expected[cond as usize], "cond {cond} flags {bits:x}");
        }
    }
}

#[test]
fn flags_are_set_and_cleared_one_at_a_time() {
    let mut cpu = CPU::new();
    cpu.cpsr = 0x0000_001F;
    cpu.set_flag(Flag::C, true);
    assert_eq!(cpu.cpsr, 0x2000_001F);
    cpu.set_flag(Flag::N, true);
    cpu.set_flag(Flag::T, true);
    assert_eq!(cpu.cpsr, 0xA000_003F);
    assert!(cpu.flag(Flag::N) && cpu.flag(Flag::C) && cpu.flag(Flag::T));
    assert!(!cpu.flag(Flag::Z) && !cpu.flag(Flag::V) && !cpu.flag(Flag::I) && !cpu.flag(Flag::F));
    cpu.set_flag(Flag::C, false);
    assert_eq!(cpu.cpsr, 0x8000_003F);
    cpu.set_flag(Flag::C, false);
    assert_eq!(cpu.cpsr, 0x8000_003F);
    assert_eq!(Flag::Z.mask(), Z);
    assert_eq!(Flag::V.mask(), V);
    assert_eq!(Flag::I.mask(), 0x80);
    assert_eq!(Flag::F.mask(), 0x40);
}

#[test]
fn barrel_shifter_scenarios() {
    let mut cpu = CPU::new();
    cpu.cpsr = C | 0x1F;
    // rotate right by an immediate of zero is a rotate right extended
    assert_eq!(cpu.barrel_shifter_operand(0x6, 0x8000_0001), (0xC000_0000, true));
    // arithmetic shift right by an immediate of zero is a shift by 32
    assert_eq!(cpu.barrel_shifter_operand(0x4, 0x8000_0000), (0xFFFF_FFFF, true));
    assert_eq!(cpu.barrel_shifter_logical_left(0x1, 32), (0, true));
    cpu.cpsr = 0x1F;
    assert_eq!(cpu.barrel_shifter_operand(0x6, 0x8000_0001), (0x4000_0000, true));
    assert_eq!(cpu.barrel_shifter_rotate_right_extended(0x2, 0), (0x1, false));
}

#[test]
fn logical_shift_edge_cases() {
    let mut cpu = CPU::new();
    cpu.cpsr = C;
    assert_eq!(cpu.barrel_shifter_logical_left(0x1234, 0), (0x1234, true));
    assert_eq!(cpu.barrel_shifter_logical_right(0x1234, 0), (0x1234, true));
    cpu.cpsr = 0;
    assert_eq!(cpu.barrel_shifter_logical_left(0x1234, 0), (0x1234, false));
    assert_eq!(cpu.barrel_shifter_logical_left(0x8000_0001, 1), (0x2, true));
    assert_eq!(cpu.barrel_shifter_logical_left(0x4000_0000, 1), (0x8000_0000, false));
    assert_eq!(cpu.barrel_shifter_logical_left(0x3, 31), (0x8000_0000, true));
    assert_eq!(cpu.barrel_shifter_logical_left(0x2, 32), (0, false));
    assert_eq!(cpu.barrel_shifter_logical_left(0xFFFF_FFFF, 33), (0, false));
    assert_eq!(cpu.barrel_shifter_logical_right(0x8000_0001, 1), (0x4000_0000, true));
    assert_eq!(cpu.barrel_shifter_logical_right(0x8000_0000, 31), (0x1, false));
    assert_eq!(cpu.barrel_shifter_logical_right(0x8000_0000, 32), (0, true));
    assert_eq!(cpu.barrel_shifter_logical_right(0x7FFF_FFFF, 32), (0, false));
    assert_eq!(cpu.barrel_shifter_logical_right(0xFFFF_FFFF, 200), (0, false));
    // an immediate of zero stands for 32 when shifting right
    assert_eq!(cpu.barrel_shifter_operand(0x2, 0x8000_0000), (0, true));
    // and is a plain zero when shifting left
    assert_eq!(cpu.barrel_shifter_operand(0x0, 0x8000_0000), (0x8000_0000, false));
}

#[test]
fn arithmetic_shift_and_rotate_edge_cases() {
    let mut cpu = CPU::new();
    cpu.cpsr = 0;
    assert_eq!(cpu.barrel_shifter_arithmethic_right(0x8000_0000, 4), (0xF800_0000, false));
    assert_eq!(cpu.barrel_shifter_arithmethic_right(0x4000_0008, 4), (0x0400_0000, true));
    assert_eq!(cpu.barrel_shifter_arithmethic_right(0x8000_0000, 31), (0xFFFF_FFFF, false));
    assert_eq!(cpu.barrel_shifter_arithmethic_right(0x8000_0000, 32), (0xFFFF_FFFF, true));
    assert_eq!(cpu.barrel_shifter_arithmethic_right(0x7000_0000, 99), (0, false));
    assert_eq!(cpu.barrel_shifter_arithmethic_right(0x8000_0000, 0), (0x8000_0000, false));
    assert_eq!(cpu.barrel_shifter_rotate_right(0x0000_00F1, 4), (0x1000_000F, false));
    assert_eq!(cpu.barrel_shifter_rotate_right(0x0000_0001, 1), (0x8000_0000, true));
    assert_eq!(cpu.barrel_shifter_rotate_right(0x8000_0001, 32), (0x8000_0001, true));
    assert_eq!(cpu.barrel_shifter_rotate_right(0x0000_00F1, 36), (0x1000_000F, false));
    assert_eq!(cpu.barrel_shifter_rotate_right(0x8000_0001, 0), (0x8000_0001, false));
    // a register-specified amount uses the low byte of the register
    cpu.register[3] = 0x0000_0104;
    assert_eq!(cpu.barrel_shifter_operand(0x31, 0xF0), (0xF00, false));
    assert_eq!(cpu.barrel_shifter_operand(0x33, 0xF0), (0xF, false));
}

#[test]
fn add_sets_carry_and_zero() {
    let (mut cpu, mut bus) = machine();
    cpu.cpsr = 0x1F;
    cpu.register[0] = 0xFFFF_FFFF;
    cpu.register[1] = 0x0000_0001;
    // ADDS r2, r0, r1
    assert_eq!(cpu.ARM_ADD(&mut bus, 0xE090_2001), Ok(()));
    assert_eq!(cpu.register[2], 0);
    assert_eq!(cpu.cpsr & (N | Z | C | V), Z | C);
}

#[test]
fn sub_borrows_and_goes_negative() {
    let (mut cpu, mut bus) = machine();
    cpu.cpsr = C | 0x1F;
    cpu.register[0] = 0x0000_0000;
    cpu.register[1] = 0x0000_0001;
    // SUBS r2, r0, r1
    assert_eq!(cpu.ARM_SUB(&mut bus, 0xE050_2001), Ok(()));
    assert_eq!(cpu.register[2], 0xFFFF_FFFF);
    assert_eq!(cpu.cpsr & (N | Z | C | V), N);
}

#[test]
fn flags_are_left_alone_without_the_set_flags_bit() {
    let (mut cpu, mut bus) = machine();
    cpu.cpsr = V | 0x1F;
    cpu.register[0] = 0xFFFF_FFFF;
    cpu.register[1] = 0x0000_0001;
    // ADD r2, r0, r1
    assert_eq!(cpu.ARM_ADD(&mut bus, 0xE080_2001), Ok(()));
    assert_eq!(cpu.register[2], 0);
    assert_eq!(cpu.cpsr, V | 0x1F);
}

#[test]
fn signed_overflow_is_detected() {
    let (mut cpu, mut bus) = machine();
    cpu.cpsr = 0x1F;
    cpu.register[0] = 0x7FFF_FFFF;
    cpu.register[1] = 1;
    assert_eq!(cpu.ARM_ADD(&mut bus, 0xE090_2001), Ok(()));
    assert_eq!(cpu.register[2], 0x8000_0000);
    assert_eq!(cpu.cpsr & (N | Z | C | V), N | V);
    cpu.register[0] = 0x8000_0000;
    cpu.register[1] = 1;
    assert_eq!(cpu.ARM_SUB(&mut bus, 0xE050_2001), Ok(()));
    assert_eq!(cpu.register[2], 0x7FFF_FFFF);
    assert_eq!(cpu.cpsr & (N | Z | C | V), C | V);
    // CMP r0, r1 leaves the registers alone
    cpu.register[0] = 5;
    cpu.register[1] = 5;
    assert_eq!(cpu.ARM_CMP(&mut bus, 0xE150_0001), Ok(()));
    assert_eq!(cpu.register[0], 5);
    assert_eq!(cpu.cpsr & (N | Z | C | V), Z | C);
    // CMN r0, r1
    cpu.register[0] = 0xFFFF_FFFB;
    assert_eq!(cpu.ARM_CMN(&mut bus, 0xE170_0001), Ok(()));
    assert_eq!(cpu.cpsr & (N | Z | C | V), Z | C);
}

#[test]
fn carry_feeds_adc_sbc_and_rsc() {
    let (mut cpu, mut bus) = machine();
    cpu.cpsr = C | 0x1F;
    cpu.register[0] = 0xFFFF_FFFF;
    cpu.register[1] = 0;
    // ADCS r2, r0, r1
    assert_eq!(cpu.ARM_ADC(&mut bus, 0xE0B0_2001), Ok(()));
    assert_eq!(cpu.register[2], 0);
    assert_eq!(cpu.cpsr & (N | Z | C | V), Z | C);
    // SBCS r2, r0, r1 with carry set: 10 - 3
    cpu.register[0] = 10;
    cpu.register[1] = 3;
    assert_eq!(cpu.ARM_SBC(&mut bus, 0xE0D0_2001), Ok(()));
    assert_eq!(cpu.register[2], 7);
    assert_eq!(cpu.cpsr & (N | Z | C | V), C);
    // with carry clear: 10 - 3 - 1
    cpu.cpsr = 0x1F;
    assert_eq!(cpu.ARM_SBC(&mut bus, 0xE0D0_2001), Ok(()));
    assert_eq!(cpu.register[2], 6);
    assert_eq!(cpu.cpsr & (N | Z | C | V), C);
    // RSCS r2, r0, r1 with carry clear: 3 - 10 - 1
    cpu.cpsr = 0x1F;
    assert_eq!(cpu.ARM_RSC(&mut bus, 0xE0F0_2001), Ok(()));
    assert_eq!(cpu.register[2], 0xFFFF_FFF8);
    assert_eq!(cpu.cpsr & (N | Z | C | V), N);
    // RSBS r2, r0, r1: 3 - 10
    assert_eq!(cpu.ARM_RSB(&mut bus, 0xE070_2001), Ok(()));
    assert_eq!(cpu.register[2], 0xFFFF_FFF9);
    // the carry coming in can tip a sum over the signed range
    cpu.cpsr = C | 0x1F;
    cpu.register[0] = 0;
    cpu.register[1] = 0x7FFF_FFFF;
    assert_eq!(cpu.ARM_ADC(&mut bus, 0xE0B0_2001), Ok(()));
    assert_eq!(cpu.register[2], 0x8000_0000);
    assert_eq!(cpu.cpsr & (N | Z | C | V), N | V);
    // and the borrow a difference: -2^31 - 0 - 1
    cpu.cpsr = 0x1F;
    cpu.register[0] = 0x8000_0000;
    cpu.register[1] = 0;
    assert_eq!(cpu.ARM_SBC(&mut bus, 0xE0D0_2001), Ok(()));
    assert_eq!(cpu.register[2], 0x7FFF_FFFF);
    assert_eq!(cpu.cpsr & (N | Z | C | V), C | V);
    // 0 - 0xFFFFFFFF - 1 borrows and stays in range
    cpu.cpsr = 0x1F;
    cpu.register[0] = 0;
    cpu.register[1] = 0xFFFF_FFFF;
    assert_eq!(cpu.ARM_SBC(&mut bus, 0xE0D0_2001), Ok(()));
    assert_eq!(cpu.register[2], 0);
    assert_eq!(cpu.cpsr & (N | Z | C | V), Z);
}

#[test]
fn logical_operations_take_the_shifter_carry() {
    let (mut cpu, mut bus) = machine();
    cpu.cpsr = 0x1F;
    cpu.register[0] = 0xF0F0_F0F0;
    cpu.register[1] = 0x8000_00FF;
    // ANDS r2, r0, r1, LSL #1
    assert_eq!(cpu.ARM_AND(&mut bus, 0xE010_2081), Ok(()));
    assert_eq!(cpu.register[2], 0xF0);
    assert_eq!(cpu.cpsr & (N | Z | C | V), C);
    // EORS r2, r0, r1
    assert_eq!(cpu.ARM_EOR(&mut bus, 0xE030_2001), Ok(()));
    assert_eq!(cpu.register[2], 0x70F0_F00F);
    // ORRS r2, r0, r1
    assert_eq!(cpu.ARM_ORR(&mut bus, 0xE190_2001), Ok(()));
    assert_eq!(cpu.register[2], 0xF0F0_F0FF);
    assert_eq!(cpu.cpsr & (N | Z), N);
    // BICS r2, r0, r1
    assert_eq!(cpu.ARM_BIC(&mut bus, 0xE1D0_2001), Ok(()));
    assert_eq!(cpu.register[2], 0x70F0_F000);
    // MVNS r2, r1
    assert_eq!(cpu.ARM_MVN(&mut bus, 0xE1F0_2001), Ok(()));
    assert_eq!(cpu.register[2], 0x7FFF_FF00);
    // MOVS r2, #0xFF000000 (0xFF rotated right by 8)
    assert_eq!(cpu.ARM_MOV(&mut bus, 0xE3B0_24FF), Ok(()));
    assert_eq!(cpu.register[2], 0xFF00_0000);
    assert_eq!(cpu.cpsr & (N | Z | C), N | C);
    // TSTS / TEQS leave the destination alone
    cpu.register[2] = 0x55;
    assert_eq!(cpu.ARM_TST(&mut bus, 0xE110_2001), Ok(()));
    assert_eq!(cpu.ARM_TEQ(&mut bus, 0xE130_2000), Ok(()));
    assert_eq!(cpu.register[2], 0x55);
    assert_eq!(cpu.cpsr & Z, Z);
}

#[test]
fn register_shifts_see_the_program_counter_one_instruction_on() {
    let (mut cpu, mut bus) = machine();
    let pc = cpu.register[15];
    cpu.register[1] = 0;
    cpu.register[2] = 0;
    // MOV r0, pc
    assert_eq!(cpu.ARM_MOV(&mut bus, 0xE1A0_000F), Ok(()));
    assert_eq!(cpu.register[0], pc);
    // MOV r0, pc, LSL r2
    assert_eq!(cpu.ARM_MOV(&mut bus, 0xE1A0_021F), Ok(()));
    assert_eq!(cpu.register[0], pc + 4);
    assert_eq!(cpu.register[15], pc);
    // a shift by a register holding zero passes the carry flag through
    assert_eq!(cpu.ARM_get_operands(0xE08F_0211), (pc + 4, (0, true)));
}

#[test]
fn banked_registers_survive_a_round_trip() {
    let modes = [
        CPU_mode::irq,
        CPU_mode::svc,
        CPU_mode::abt,
        CPU_mode::und,
        CPU_mode::fiq,
        CPU_mode::usr,
        CPU_mode::sys,
    ];
    let unbanked = |m: &CPU_mode| *m == CPU_mode::usr || *m == CPU_mode::sys;
    for a in modes.iter() {
        for b in modes.iter() {
            let mut cpu = CPU::new();
            cpu.cpsr = 0x1F;
            cpu.set_mode(*a);
            cpu.register[13] = 0xDEAD_0000 | a.bits();
            cpu.register[14] = 0xBEEF_0000 | a.bits();
            cpu.set_mode(*b);
            if !(a == b || (unbanked(a) && unbanked(b))) {
                // the two modes have banks of their own
                cpu.register[13] = 0x1111_1111;
                cpu.register[14] = 0x2222_2222;
            }
            cpu.set_mode(*a);
            assert_eq!(cpu.register[13], 0xDEAD_0000 | a.bits());
            assert_eq!(cpu.register[14], 0xBEEF_0000 | a.bits());
            assert!(cpu.mode == *a);
        }
    }
}

#[test]
fn user_and_system_mode_share_their_registers() {
    let mut cpu = CPU::new();
    cpu.cpsr = 0x1F;
    cpu.set_mode(CPU_mode::usr);
    cpu.register[13] = 1;
    cpu.set_mode(CPU_mode::sys);
    assert_eq!(cpu.register[13], 1);
    cpu.register[13] = 2;
    cpu.set_mode(CPU_mode::usr);
    assert_eq!(cpu.register[13], 2);
}

#[test]
fn mode_switch_rewrites_the_mode_field() {
    let mut cpu = CPU::new();
    cpu.cpsr = 0x6000_001F;
    cpu.set_mode(CPU_mode::sys);
    assert_eq!(cpu.cpsr, 0x6000_001F);
    cpu.set_mode(CPU_mode::irq);
    assert_eq!(cpu.cpsr, 0x6000_0012);
    assert_eq!(cpu.bank_reg[0].spsr, 0x6000_001F);
    cpu.set_mode(CPU_mode::fiq);
    assert_eq!(cpu.cpsr & 0x1F, 0x11);
    assert_eq!(CPU_mode::from(0xFFFF_FFF3), Ok(CPU_mode::svc));
    assert_eq!(CPU_mode::from(0x17), Ok(CPU_mode::abt));
    assert_eq!(CPU_mode::from(0x1B), Ok(CPU_mode::und));
    assert_eq!(CPU_mode::from(0x10), Ok(CPU_mode::usr));
    assert_eq!(CPU_mode::from(0x14), Err(Fault::InvalidMode { bits: 0x14 }));
    assert_eq!(CPU_mode::from(0x20), Err(Fault::InvalidMode { bits: 0 }));
    assert!(CPU_state::from(0x0800_0001) == CPU_state::THUMB);
    assert!(CPU_state::from(0x0800_0002) == CPU_state::ARM);
}

#[test]
fn fast_interrupt_mode_has_its_own_window() {
    let mut cpu = CPU::new();
    cpu.cpsr = 0x1F;
    for i in 8..15 {
        cpu.register[i] = i as u32;
    }
    cpu.set_mode(CPU_mode::fiq);
    for i in 8..15 {
        assert_eq!(cpu.register[i], 0);
        cpu.register[i] = 100 + i as u32;
    }
    cpu.set_mode(CPU_mode::sys);
    for i in 8..15 {
        assert_eq!(cpu.register[i], i as u32);
    }
    cpu.set_mode(CPU_mode::fiq);
    for i in 8..15 {
        assert_eq!(cpu.register[i], 100 + i as u32);
    }
}

#[test]
fn pipeline_runs_two_instructions_ahead() {
    let mut bus = Bus::new();
    for i in 0..8u32 {
        bus.write32(0x0300_0000 + 4 * i, 0xE1A0_0000 + i);
    }
    let mut cpu = CPU::new();
    cpu.register[15] = 0x0300_0000;
    cpu.arm_fill_pipeline(&mut bus);
    assert_eq!(cpu.register[15], 0x0300_0008);
    assert_eq!(cpu.pipeline, [0xE1A0_0002, 0xE1A0_0001, 0xE1A0_0000]);
    cpu.arm_step_pipeline(&mut bus);
    assert_eq!(cpu.register[15], 0x0300_000C);
    assert_eq!(cpu.pipeline, [0xE1A0_0003, 0xE1A0_0002, 0xE1A0_0001]);
    cpu.register[15] = 0x0300_0013;
    cpu.arm_refill_pipeline(&mut bus);
    assert_eq!(cpu.register[15], 0x0300_0014);
    assert_eq!(cpu.pipeline, [0xE1A0_0005, 0xE1A0_0004, 0]);
    cpu.arm_step_pipeline(&mut bus);
    assert_eq!(cpu.register[15], 0x0300_0018);
    assert_eq!(cpu.pipeline[2], 0xE1A0_0004);
    cpu.arm_step_pipeline(&mut bus);
    assert_eq!(cpu.register[15], 0x0300_001C);
    cpu.flush_pipeline();
    assert_eq!(cpu.pipeline, [0, 0, 0]);
}

#[test]
fn compact_pipeline_fetches_half_words() {
    let mut bus = Bus::new();
    for i in 0..8u32 {
        bus.write16(0x0300_0000 + 2 * i, 0x2000 + i as u16);
    }
    let mut cpu = CPU::new();
    cpu.register[15] = 0x0300_0000;
    cpu.thumb_fill_pipeline(&mut bus);
    assert_eq!(cpu.register[15], 0x0300_0004);
    assert_eq!(cpu.pipeline, [0x2002, 0x2001, 0x2000]);
    cpu.thumb_step_pipeline(&mut bus);
    assert_eq!(cpu.register[15], 0x0300_0006);
    cpu.register[15] = 0x0300_0009;
    cpu.thumb_refill_pipeline(&mut bus);
    assert_eq!(cpu.register[15], 0x0300_000A);
    assert_eq!(cpu.pipeline, [0x2005, 0x2004, 0]);
}

#[test]
fn writing_the_program_counter_is_a_jump() {
    let (mut cpu, mut bus) = machine();
    bus.write32(0x0300_0100, 0x1111_1111);
    bus.write32(0x0300_0104, 0x2222_2222);
    cpu.register_write(3, 77, &mut bus);
    assert_eq!(cpu.register[3], 77);
    cpu.register_write(15, 0x0300_0102, &mut bus);
    assert_eq!(cpu.register[15], 0x0300_0104);
    assert_eq!(cpu.pipeline, [0x2222_2222, 0x1111_1111, 0]);
    bus.write16(0x0300_0200, 0xAAAA);
    bus.write16(0x0300_0202, 0xBBBB);
    cpu.register[15] = 0x0300_0201;
    cpu.switch_state(&mut bus, 0x0300_0201);
    assert!(cpu.state == CPU_state::THUMB);
    assert_eq!(cpu.cpsr & 0x20, 0x20);
    assert_eq!(cpu.register[15], 0x0300_0202);
    assert_eq!(cpu.pipeline, [0xBBBB, 0xAAAA, 0]);
    cpu.register[15] = 0x0300_0100;
    cpu.switch_state(&mut bus, 0x0300_0100);
    assert!(cpu.state == CPU_state::ARM);
    assert_eq!(cpu.cpsr & 0x20, 0);
}

#[test]
fn init_sets_the_starting_state() {
    let mut bus = Bus::new();
    let mut cpu = CPU::new();
    assert_eq!(cpu.register, [0; 16]);
    assert!(cpu.mode == CPU_mode::sys);
    assert!(cpu.state == CPU_state::ARM);
    cpu.init(&mut bus);
    assert_eq!(cpu.register[0], 0x0800_0000);
    assert_eq!(cpu.register[1], 0xEA);
    assert_eq!(cpu.register[13], 0x0300_7F00);
    assert_eq!(cpu.register[15], 0x0800_0008);
    assert_eq!(cpu.cpsr, 0x6000_001F);
}

#[test]
fn block_store_with_an_empty_list_stores_the_program_counter() {
    let (mut cpu, mut bus) = machine();
    let pc = cpu.register[15];
    cpu.register[0] = 0x0300_0100;
    // STMIA r0!, {}
    assert_eq!(cpu.ARM_STM(&mut bus, 0xE8A0_0000), Ok(()));
    assert_eq!(bus.read32(0x0300_0100), pc + 4);
    assert_eq!(bus.read32(0x0300_0104), 0);
    assert_eq!(cpu.register[0], 0x0300_0140);
    assert_eq!(cpu.register[15], pc);
    // STMDA r0!, {}
    assert_eq!(cpu.ARM_STM(&mut bus, 0xE820_0000), Ok(()));
    assert_eq!(bus.read32(0x0300_0140), pc + 4);
    assert_eq!(cpu.register[0], 0x0300_0100);
    // STMIB r0!, {}
    assert_eq!(cpu.ARM_STM(&mut bus, 0xE9A0_0000), Ok(()));
    assert_eq!(bus.read32(0x0300_0104), pc + 4);
    assert_eq!(cpu.register[0], 0x0300_0140);
}

#[test]
fn block_load_with_an_empty_list_loads_the_program_counter() {
    let (mut cpu, mut bus) = machine();
    bus.write32(0x0300_0100, 0x0300_0200);
    bus.write32(0x0300_0200, 0xAAAA_AAAA);
    bus.write32(0x0300_0204, 0xBBBB_BBBB);
    cpu.register[0] = 0x0300_0100;
    for i in 1..15 {
        cpu.register[i] = i as u32;
    }
    // LDMIA r0!, {}
    assert_eq!(cpu.ARM_LDM(&mut bus, 0xE8B0_0000), Ok(()));
    assert_eq!(cpu.register[15], 0x0300_0204);
    assert_eq!(cpu.pipeline, [0xBBBB_BBBB, 0xAAAA_AAAA, 0]);
    assert_eq!(cpu.register[0], 0x0300_0140);
    for i in 1..15 {
        assert_eq!(cpu.register[i], i as u32);
    }
    // LDMDA r0!, {}
    cpu.register[0] = 0x0300_0100;
    assert_eq!(cpu.ARM_LDM(&mut bus, 0xE830_0000), Ok(()));
    assert_eq!(cpu.register[0], 0x0300_00C0);
}

#[test]
fn block_transfers_walk_the_register_list() {
    let (mut cpu, mut bus) = machine();
    cpu.register[0] = 0x0300_0100;
    cpu.register[1] = 0x11;
    cpu.register[2] = 0x22;
    cpu.register[5] = 0x55;
    // STMIA r0!, {r1, r2, r5}
    assert_eq!(cpu.ARM_STM(&mut bus, 0xE8A0_0026), Ok(()));
    assert_eq!(bus.read32(0x0300_0100), 0x11);
    assert_eq!(bus.read32(0x0300_0104), 0x22);
    assert_eq!(bus.read32(0x0300_0108), 0x55);
    assert_eq!(cpu.register[0], 0x0300_010C);
    // LDMDB r0!, {r3, r4, r6}
    assert_eq!(cpu.ARM_LDM(&mut bus, 0xE930_0058), Ok(()));
    assert_eq!(cpu.register[6], 0x55);
    assert_eq!(cpu.register[4], 0x22);
    assert_eq!(cpu.register[3], 0x11);
    assert_eq!(cpu.register[0], 0x0300_0100);
    // without write-back the base stays
    assert_eq!(cpu.ARM_LDM(&mut bus, 0xE890_0080), Ok(()));
    assert_eq!(cpu.register[7], 0x11);
    assert_eq!(cpu.register[0], 0x0300_0100);
    let (regs, first) = reglist(0x0000_0058);
    assert_eq!(first, 3);
    assert_eq!(regs[3], (true, 3));
    assert_eq!(regs[5], (false, 5));
    assert_eq!(regs[6], (true, 6));
    assert_eq!(reglist(0xFFFF_0000).1, -1);
    assert_eq!(reglist(0x8000).1, 15);
}

#[test]
fn block_store_patches_a_base_that_is_not_first() {
    let (mut cpu, mut bus) = machine();
    cpu.register[1] = 0x0300_0100;
    cpu.register[0] = 0xAA;
    // STMIA r1!, {r0, r1}
    assert_eq!(cpu.ARM_STM(&mut bus, 0xE8A1_0003), Ok(()));
    assert_eq!(bus.read32(0x0300_0100), 0xAA);
    assert_eq!(bus.read32(0x0300_0104), 0x0300_0108);
    assert_eq!(cpu.register[1], 0x0300_0108);
    // STMIA r1!, {r1, r2}: a base that is first is stored as it was
    cpu.register[2] = 0xBB;
    assert_eq!(cpu.ARM_STM(&mut bus, 0xE8A1_0006), Ok(()));
    assert_eq!(bus.read32(0x0300_0108), 0x0300_0108);
    assert_eq!(bus.read32(0x0300_010C), 0xBB);
    assert_eq!(cpu.register[1], 0x0300_0110);
}

#[test]
fn single_transfers_index_and_write_back() {
    let (mut cpu, mut bus) = machine();
    bus.write32(0x0300_0010, 0x1122_3344);
    cpu.register[0] = 0x0300_0000;
    // LDR r1, [r0, #0x10]
    assert_eq!(cpu.ARM_LDR(&mut bus, 0xE590_1010), Ok(()));
    assert_eq!(cpu.register[1], 0x1122_3344);
    assert_eq!(cpu.register[0], 0x0300_0000);
    // LDR r1, [r0, #0x11]: the word is rotated
    assert_eq!(cpu.ARM_LDR(&mut bus, 0xE590_1011), Ok(()));
    assert_eq!(cpu.register[1], 0x4411_2233);
    // LDRB r1, [r0, #0x12]!
    assert_eq!(cpu.ARM_LDR(&mut bus, 0xE5F0_1012), Ok(()));
    assert_eq!(cpu.register[1], 0x22);
    assert_eq!(cpu.register[0], 0x0300_0012);
    // LDR r1, [r0], #-2
    assert_eq!(cpu.ARM_LDR(&mut bus, 0xE410_1002), Ok(()));
    assert_eq!(cpu.register[1], 0x3344_1122);
    assert_eq!(cpu.register[0], 0x0300_0010);
    // STR r1, [r0, #4]!
    assert_eq!(cpu.ARM_STR(&mut bus, 0xE5A0_1004), Ok(()));
    assert_eq!(bus.read32(0x0300_0014), 0x3344_1122);
    assert_eq!(cpu.register[0], 0x0300_0014);
    // STRB r1, [r0], #1
    assert_eq!(cpu.ARM_STR(&mut bus, 0xE4C0_1001), Ok(()));
    assert_eq!(bus.read32(0x0300_0014), 0x3344_1122);
    assert_eq!(cpu.register[0], 0x0300_0015);
    // STR r1, [r0, r2, LSL #2]
    cpu.register[2] = 3;
    assert_eq!(cpu.ARM_STR(&mut bus, 0xE780_1102), Ok(()));
    assert_eq!(bus.read32(0x0300_0020), 0x3344_1122);
    assert_eq!(cpu.register[0], 0x0300_0015);
    // LDR r3, [r0, r2, LSL #2]: rotated by the misalignment
    assert_eq!(cpu.ARM_LDR(&mut bus, 0xE790_3102), Ok(()));
    assert_eq!(cpu.register[3], 0x2233_4411);
    // STR pc, [r0, #3] stores the program counter one instruction on
    let pc = cpu.register[15];
    assert_eq!(cpu.ARM_STR(&mut bus, 0xE580_F003), Ok(()));
    assert_eq!(bus.read32(0x0300_0018), pc + 4);
    assert_eq!(cpu.register[15], pc);
}

#[test]
fn half_word_and_signed_transfers() {
    let (mut cpu, mut bus) = machine();
    bus.write32(0x0300_0020, 0x80FF_8001);
    cpu.register[0] = 0x0300_0020;
    // LDRH r1, [r0]
    assert_eq!(cpu.ARM_LDRHSB(&mut bus, 0xE1D0_10B0), Ok(()));
    assert_eq!(cpu.register[1], 0x8001);
    // LDRH r1, [r0, #1]: rotated by a byte
    assert_eq!(cpu.ARM_LDRHSB(&mut bus, 0xE1D0_10B1), Ok(()));
    assert_eq!(cpu.register[1], 0x0100_0080);
    // LDRSB r1, [r0, #1]
    assert_eq!(cpu.ARM_LDRHSB(&mut bus, 0xE1D0_10D1), Ok(()));
    assert_eq!(cpu.register[1], 0xFFFF_FF80);
    // LDRSB r1, [r0]
    assert_eq!(cpu.ARM_LDRHSB(&mut bus, 0xE1D0_10D0), Ok(()));
    assert_eq!(cpu.register[1], 0x01);
    // LDRSH r1, [r0]
    assert_eq!(cpu.ARM_LDRHSB(&mut bus, 0xE1D0_10F0), Ok(()));
    assert_eq!(cpu.register[1], 0xFFFF_8001);
    // LDRSH r1, [r0, #1]: shifted right by a byte, sign included
    assert_eq!(cpu.ARM_LDRHSB(&mut bus, 0xE1D0_10F1), Ok(()));
    assert_eq!(cpu.register[1], 0xFFFF_FF80);
    // LDRSH r1, [r0, #2]
    assert_eq!(cpu.ARM_LDRHSB(&mut bus, 0xE1D0_10F2), Ok(()));
    assert_eq!(cpu.register[1], 0xFFFF_80FF);
    // a load with a kind field of zero does not exist
    assert_eq!(
        cpu.ARM_LDRHSB(&mut bus, 0xE1D0_0090),
        Err(Fault::UnsupportedTransfer { instr: 0xE1D0_0090 })
    );
    // STRH r2, [r0, #4]!
    cpu.register[2] = 0xABCD_1234;
    assert_eq!(cpu.ARM_STRHSB(&mut bus, 0xE1E0_20B4), Ok(()));
    assert_eq!(bus.read32(0x0300_0024), 0x1234);
    assert_eq!(cpu.register[0], 0x0300_0024);
    // STRH r2, [r0], -r3
    cpu.register[3] = 4;
    assert_eq!(cpu.ARM_STRHSB(&mut bus, 0xE000_20B3), Ok(()));
    assert_eq!(cpu.register[0], 0x0300_0020);
}

#[test]
fn byte_stores_to_refusing_registers_fault_and_change_nothing() {
    let (mut cpu, mut bus) = machine();
    cpu.register[0] = 0x0400_0200;
    cpu.register[1] = 0xFF;
    let before = cpu.register;
    // STRB r1, [r0], #4
    assert_eq!(
        cpu.ARM_STR(&mut bus, 0xE4C0_1004),
        Err(Fault::UnsupportedByteWrite { addr: 0x200 })
    );
    assert_eq!(cpu.register, before);
    assert_eq!(bus.read16(0x0400_0200), 0);
    // SWPB r2, r1, [r0]
    assert_eq!(
        cpu.ARM_SWP(&mut bus, 0xE140_2091),
        Err(Fault::UnsupportedByteWrite { addr: 0x200 })
    );
    assert_eq!(cpu.register, before);
}

#[test]
fn swap_exchanges_register_and_memory() {
    let (mut cpu, mut bus) = machine();
    bus.write32(0x0300_0030, 0x0102_0304);
    cpu.register[0] = 0x0300_0030;
    cpu.register[1] = 0xAABB_CCDD;
    // SWP r2, r1, [r0]
    assert_eq!(cpu.ARM_SWP(&mut bus, 0xE100_2091), Ok(()));
    assert_eq!(cpu.register[2], 0x0102_0304);
    assert_eq!(bus.read32(0x0300_0030), 0xAABB_CCDD);
    // SWPB r2, r1, [r0]
    assert_eq!(cpu.ARM_SWP(&mut bus, 0xE140_2091), Ok(()));
    assert_eq!(cpu.register[2], 0xDD);
    assert_eq!(bus.read32(0x0300_0030), 0xAABB_CCDD);
}

#[test]
fn multiplication_and_long_multiplication() {
    let (mut cpu, mut bus) = machine();
    cpu.cpsr = C | V | 0x1F;
    cpu.register[1] = 0x0001_0001;
    cpu.register[2] = 0x0001_0000;
    cpu.register[3] = 5;
    // MULS r0, r1, r2
    assert_eq!(cpu.ARM_MUL_MLA(&mut bus, 0xE010_0291), Ok(()));
    assert_eq!(cpu.register[0], 0x0001_0000);
    assert_eq!(cpu.cpsr & (N | Z | C | V), C | V);
    // MLA r0, r1, r2, r3
    assert_eq!(cpu.ARM_MUL_MLA(&mut bus, 0xE020_3291), Ok(()));
    assert_eq!(cpu.register[0], 0x0001_0005);
    // UMULLS r4, r5, r1, r2
    cpu.register[1] = 0xFFFF_FFFF;
    cpu.register[2] = 0xFFFF_FFFF;
    assert_eq!(cpu.ARM_UMULL_UMLAL(&mut bus, 0xE095_4291), Ok(()));
    assert_eq!(cpu.register[4], 0x0000_0001);
    assert_eq!(cpu.register[5], 0xFFFF_FFFE);
    assert_eq!(cpu.cpsr & (N | Z), N);
    // UMLAL r4, r5, r1, r2: (2^32-1)^2 + 0xFFFFFFFE00000001 wraps
    assert_eq!(cpu.ARM_UMULL_UMLAL(&mut bus, 0xE0A5_4291), Ok(()));
    assert_eq!(cpu.register[4], 0x0000_0002);
    assert_eq!(cpu.register[5], 0xFFFF_FFFC);
    // SMULLS r4, r5, r1, r2: (-1) * (-1)
    assert_eq!(cpu.ARM_SMULL_SMLAL(&mut bus, 0xE0D5_4291), Ok(()));
    assert_eq!(cpu.register[4], 1);
    assert_eq!(cpu.register[5], 0);
    // SMULLS r4, r5, r1, r2: (-1) * 2
    cpu.register[2] = 2;
    assert_eq!(cpu.ARM_SMULL_SMLAL(&mut bus, 0xE0D5_4291), Ok(()));
    assert_eq!(cpu.register[4], 0xFFFF_FFFE);
    assert_eq!(cpu.register[5], 0xFFFF_FFFF);
    assert_eq!(cpu.cpsr & (N | Z), N);
    // SMLAL r4, r5, r1, r2: -2 + (-1) * 2
    assert_eq!(cpu.ARM_SMULL_SMLAL(&mut bus, 0xE0E5_4291), Ok(()));
    assert_eq!(cpu.register[4], 0xFFFF_FFFC);
    assert_eq!(cpu.register[5], 0xFFFF_FFFF);
}

#[test]
fn branches_move_the_program_counter() {
    let (mut cpu, mut bus) = machine();
    cpu.register[15] = 0x0300_0108;
    // B +0x10
    assert_eq!(cpu.ARM_b_bl(&mut bus, 0xEA00_0004), Ok(()));
    assert_eq!(cpu.register[15], 0x0300_0118 + 4);
    cpu.register[15] = 0x0300_0108;
    cpu.register[14] = 0;
    // BL -8
    assert_eq!(cpu.ARM_b_bl(&mut bus, 0xEBFF_FFFE), Ok(()));
    assert_eq!(cpu.register[15], 0x0300_0100 + 4);
    assert_eq!(cpu.register[14], 0x0300_0104);
    // BX r0 into the compact instruction set
    cpu.register[0] = 0x0300_0201;
    assert_eq!(cpu.ARM_bx(&mut bus, 0xE12F_FF10), Ok(()));
    assert!(cpu.state == CPU_state::THUMB);
    assert_eq!(cpu.register[15], 0x0300_0202);
}

#[test]
fn software_interrupt_enters_supervisor_mode() {
    let (mut cpu, mut bus) = machine();
    let pc = cpu.register[15];
    cpu.register[13] = 0x1234;
    assert_eq!(cpu.ARM_SWI(&mut bus, 0xEF00_0000), Ok(()));
    assert!(cpu.mode == CPU_mode::svc);
    assert_eq!(cpu.cpsr & 0x1F, 0x13);
    assert_eq!(cpu.register[14], pc - 4);
    assert_eq!(cpu.register[15], 0x0C);
    assert_eq!(cpu.bank_reg[1].spsr, 0x6000_001F);
    assert_eq!(cpu.register[13], 0);
    // MOVS pc, lr does not restore; SUBS pc, lr, #0 returns
    cpu.register[14] = 0x0300_0100;
    assert_eq!(cpu.ARM_SUB(&mut bus, 0xE25E_F000), Ok(()));
    assert!(cpu.mode == CPU_mode::sys);
    assert_eq!(cpu.register[13], 0x1234);
    assert_eq!(cpu.register[15], 0x0300_0104);
}

#[test]
fn status_register_transfers() {
    let (mut cpu, mut bus) = machine();
    // MRS r0, CPSR
    assert_eq!(cpu.ARM_MRS(&mut bus, 0xE10F_0000), Ok(()));
    assert_eq!(cpu.register[0], 0x6000_001F);
    // MSR CPSR_f, r1 changes the flags only
    cpu.register[1] = 0x9000_0010;
    assert_eq!(cpu.ARM_MSR(&mut bus, 0xE128_F001), Ok(()));
    assert_eq!(cpu.cpsr, 0x9000_001F);
    // MSR CPSR_c, r1 switches to user mode
    assert_eq!(cpu.ARM_MSR(&mut bus, 0xE121_F001), Ok(()));
    assert!(cpu.mode == CPU_mode::usr);
    assert_eq!(cpu.cpsr, 0x9000_0010);
    // in user mode only the flags can change
    cpu.register[1] = 0x6000_001F;
    assert_eq!(cpu.ARM_MSR(&mut bus, 0xE129_F001), Ok(()));
    assert!(cpu.mode == CPU_mode::usr);
    assert_eq!(cpu.cpsr, 0x6000_0010);
    // MSR SPSR does nothing without a saved status word
    assert_eq!(cpu.ARM_MSR(&mut bus, 0xE169_F001), Ok(()));
    assert_eq!(cpu.cpsr, 0x6000_0010);
    // MSR CPSR_f, #0xF0000000
    assert_eq!(cpu.ARM_MSR(&mut bus, 0xE328_F20F), Ok(()));
    assert_eq!(cpu.cpsr, 0xF000_0010);
}

#[test]
fn status_register_write_with_an_illegal_mode_faults() {
    let (mut cpu, mut bus) = machine();
    cpu.register[0] = 0;
    let before = cpu.cpsr;
    assert_eq!(cpu.ARM_MSR(&mut bus, 0xE121_F000), Err(Fault::InvalidMode { bits: 0 }));
    assert_eq!(cpu.cpsr, before);
    assert!(cpu.mode == CPU_mode::sys);
    // a return from an exception with a corrupt saved status word
    cpu.set_mode(CPU_mode::irq);
    cpu.bank_reg[0].spsr = 0x0000_0005;
    let registers = cpu.register;
    assert_eq!(cpu.ARM_SUB(&mut bus, 0xE25E_F004), Err(Fault::InvalidMode { bits: 5 }));
    assert_eq!(cpu.register, registers);
    assert!(cpu.mode == CPU_mode::irq);
}

#[test]
fn decode_tables_pick_the_first_matching_rule() {
    let cpu = CPU::new();
    for i in 0..4096usize {
        assert!(cpu.lut_arm[i] == arm_entry(i as u32));
        assert_eq!(cpu.lut_arm[i] == ArmOp::Undefined, (0xC00..0xF00).contains(&i), "{i:x}");
    }
    for i in 0..1024usize {
        assert!(cpu.lut_thumb[i] == thumb_entry(i as u32));
        let unassigned = (0x2C4..0x2D0).contains(&i)
            || (0x2D8..0x2F0).contains(&i)
            || (0x2F8..0x300).contains(&i)
            || (0x3A0..0x3C0).contains(&i);
        assert_eq!(cpu.lut_thumb[i] == ThumbOp::Undefined, unassigned, "{i:x}");
    }
    assert!(arm_entry(0xF00) == ArmOp::Swi);
    assert!(arm_entry(0x121) == ArmOp::Bx);
    assert!(arm_entry(0xA00) == ArmOp::BranchLink);
    assert!(arm_entry(0xBFF) == ArmOp::BranchLink);
    assert!(arm_entry(0x009) == ArmOp::MulMla);
    assert!(arm_entry(0x089) == ArmOp::UmullUmlal);
    assert!(arm_entry(0x0C9) == ArmOp::SmullSmlal);
    assert!(arm_entry(0x109) == ArmOp::Swp);
    assert!(arm_entry(0x149) == ArmOp::Swp);
    assert!(arm_entry(0x810) == ArmOp::Ldm);
    assert!(arm_entry(0x800) == ArmOp::Stm);
    assert!(arm_entry(0x1DB) == ArmOp::Ldrhsb);
    assert!(arm_entry(0x1CB) == ArmOp::Strhsb);
    assert!(arm_entry(0x590) == ArmOp::Ldr);
    assert!(arm_entry(0x580) == ArmOp::Str);
    assert!(arm_entry(0x100) == ArmOp::Mrs);
    assert!(arm_entry(0x120) == ArmOp::Msr);
    assert!(arm_entry(0x328) == ArmOp::Msr);
    assert!(arm_entry(0x080) == ArmOp::Add);
    assert!(arm_entry(0x3A0) == ArmOp::Mov);
    assert!(arm_entry(0x150) == ArmOp::Compare);
    assert!(arm_entry(0x3FF) == ArmOp::Mvn);
    assert!(thumb_entry(0x37C) == ThumbOp::Swi);
    assert!(thumb_entry(0x2D0) == ThumbOp::Push);
    assert!(thumb_entry(0x2F4) == ThumbOp::Pop);
    assert!(thumb_entry(0x300) == ThumbOp::Stmia);
    assert!(thumb_entry(0x320) == ThumbOp::Ldmia);
    assert!(thumb_entry(0x340) == ThumbOp::CondBranch);
    assert!(thumb_entry(0x380) == ThumbOp::Branch);
    assert!(thumb_entry(0x3C0) == ThumbOp::LongBranchLink);
    assert!(thumb_entry(0x100) == ThumbOp::And);
    assert!(thumb_entry(0x10A) == ThumbOp::Compare);
    assert!(thumb_entry(0x10F) == ThumbOp::Mvn);
    assert!(thumb_entry(0x11C) == ThumbOp::HiLoBx);
    assert!(thumb_entry(0x114) == ThumbOp::HiLoCompare);
    assert!(thumb_entry(0x148) == ThumbOp::Strh);
    assert!(thumb_entry(0x178) == ThumbOp::Ldsh);
    assert!(thumb_entry(0x060) == ThumbOp::AddSub);
    assert!(thumb_entry(0x083) == ThumbOp::MovImm);
    assert!(thumb_entry(0x0E0) == ThumbOp::SubImm);
    assert!(thumb_entry(0x000) == ThumbOp::Movs);
    assert!(thumb_entry(0x2C0) == ThumbOp::SpOff);
}

#[test]
fn tick_retires_one_instruction() {
    let mut bus = Bus::new();
    // MOV r0, #1; ADDNE r0, r0, #1 (taken: Z clear); ADDEQ r0, r0, #4 (skipped)
    bus.write32(0x0300_0000, 0xE3A0_0001);
    bus.write32(0x0300_0004, 0x1280_0001);
    bus.write32(0x0300_0008, 0x0280_0004);
    bus.write32(0x0300_000C, 0xE1A0_0000);
    bus.write32(0x0300_0010, 0xE1A0_0000);
    let mut cpu = CPU::new();
    cpu.cpsr = 0x1F;
    cpu.register[15] = 0x0300_0000;
    cpu.arm_fill_pipeline(&mut bus);
    assert_eq!(cpu.tick(&mut bus), Ok(()));
    assert_eq!(cpu.register[0], 1);
    assert_eq!(cpu.register[15], 0x0300_000C);
    assert_eq!(cpu.tick(&mut bus), Ok(()));
    assert_eq!(cpu.register[0], 2);
    assert_eq!(cpu.tick(&mut bus), Ok(()));
    assert_eq!(cpu.register[0], 2);
    assert_eq!(cpu.register[15], 0x0300_0014);
}

#[test]
fn tick_reports_faults_and_changes_nothing() {
    let mut bus = Bus::new();
    let mut cpu = CPU::new();
    assert_eq!(cpu.tick(&mut bus), Err(Fault::EmptyPipeline { pc: 0 }));
    bus.write32(0x0300_0000, 0xEC00_0000);
    bus.write32(0x0300_0004, 0xE1A0_0000);
    bus.write32(0x0300_0008, 0xE1A0_0001);
    cpu.register[15] = 0x0300_0000;
    cpu.arm_fill_pipeline(&mut bus);
    let expected = Fault::UndefinedOpcode {
        instr: 0xEC00_0000,
        pc: 0x0300_0000,
        fetched: 0xE1A0_0001,
        decoded: 0xE1A0_0000,
        retiring: 0xEC00_0000,
    };
    assert_eq!(cpu.tick(&mut bus), Err(expected));
    assert_eq!(cpu.register[15], 0x0300_0008);
    assert_eq!(cpu.pipeline[2], 0xEC00_0000);
    assert_eq!(cpu.undefined_opcode(&mut bus, 7), Err(Fault::UndefinedOpcode {
        instr: 7,
        pc: 0x0300_0000,
        fetched: 0xE1A0_0001,
        decoded: 0xE1A0_0000,
        retiring: 0xEC00_0000,
    }));
}

#[test]
fn shifts_scale_by_powers_of_two() {
    let mut cpu = CPU::new();
    cpu.cpsr = 0;
    for amount in 1..32u32 {
        let val = 0x9E37_79B9u32;
        assert_eq!(cpu.barrel_shifter_logical_right(val, amount).0, val / (1 << amount));
        let scaled = ((val as u64) << amount) as u32;
        assert_eq!(cpu.barrel_shifter_logical_left(val, amount).0, scaled);
        let there = cpu.barrel_shifter_rotate_right(val, amount).0;
        assert_eq!(cpu.barrel_shifter_rotate_right(there, 32 - amount).0, val);
        let wide = (val as i32 as i64) >> amount;
        assert_eq!(cpu.barrel_shifter_arithmethic_right(val, amount).0, wide as u32);
    }
}

#[test]
fn decode_tables_never_change() {
    let mut bus = Bus::new();
    // STMIA r0!, {r1-r3}; LDMIA r0!, {r4, pc}
    bus.write32(0x0300_0000, 0xE8A0_000E);
    bus.write32(0x0300_0004, 0xE8B0_8010);
    bus.write32(0x0300_0008, 0xE1A0_0000);
    bus.write32(0x0300_000C, 0xE1A0_0000);
    let mut cpu = CPU::new();
    let arm = cpu.lut_arm;
    let thumb = cpu.lut_thumb;
    cpu.cpsr = 0x1F;
    cpu.register[0] = 0x0300_0100;
    cpu.register[15] = 0x0300_0000;
    cpu.arm_fill_pipeline(&mut bus);
    assert_eq!(cpu.tick(&mut bus), Ok(()));
    assert_eq!(cpu.tick(&mut bus), Ok(()));
    assert!(cpu.lut_arm == arm);
    assert!(cpu.lut_thumb == thumb);
}

#[test]
fn plain_modes_exchange_only_stack_pointer_and_link_register() {
    let mut cpu = CPU::new();
    cpu.cpsr = 0x1F;
    cpu.set_mode(CPU_mode::svc);
    cpu.register[8] = 5;
    cpu.register[12] = 7;
    cpu.set_mode(CPU_mode::sys);
    assert_eq!(cpu.register[8], 5);
    assert_eq!(cpu.register[12], 7);
    let plain = [
        CPU_mode::irq,
        CPU_mode::svc,
        CPU_mode::abt,
        CPU_mode::und,
        CPU_mode::usr,
        CPU_mode::sys,
    ];
    for a in plain.iter() {
        for b in plain.iter() {
            let mut cpu = CPU::new();
            cpu.cpsr = 0x1F;
            cpu.set_mode(*a);
            for i in 0..16 {
                cpu.register[i] = 0x100 + i as u32;
            }
            cpu.set_mode(*b);
            for i in (0..13).chain(15..16) {
                assert_eq!(cpu.register[i], 0x100 + i as u32);
            }
        }
    }
}

#[test]
fn leaving_fast_interrupt_mode_gives_the_shared_registers_back() {
    let mut cpu = CPU::new();
    cpu.cpsr = 0x1F;
    cpu.set_mode(CPU_mode::irq);
    for i in 8..13 {
        cpu.register[i] = 0x20 + i as u32;
    }
    cpu.set_mode(CPU_mode::fiq);
    for i in 8..15 {
        cpu.register[i] = 0xF0 + i as u32;
    }
    cpu.set_mode(CPU_mode::svc);
    for i in 8..13 {
        assert_eq!(cpu.register[i], 0x20 + i as u32);
    }
    cpu.register[9] = 0x99;
    cpu.set_mode(CPU_mode::fiq);
    for i in 8..15 {
        assert_eq!(cpu.register[i], 0xF0 + i as u32);
    }
    cpu.set_mode(CPU_mode::usr);
    assert_eq!(cpu.register[9], 0x99);
    assert_eq!(cpu.register[8], 0x28);
}

#[test]
fn block_transfers_move_the_base_by_a_word_for_each_register() {
    let (mut cpu, mut bus) = machine();
    cpu.register[0] = 0x0300_0200;
    // STMDB r0!, {r1-r7}
    assert_eq!(cpu.ARM_STM(&mut bus, 0xE920_00FE), Ok(()));
    assert_eq!(cpu.register[0], 0x0300_0200 - 28);
    // LDMIB r0!, {r0, r1}: the loaded base is kept
    bus.write32(0x0300_0200 - 24, 0x1234_5678);
    assert_eq!(cpu.ARM_LDM(&mut bus, 0xE9B0_0003), Ok(()));
    assert_eq!(cpu.register[0], 0x1234_5678);
}
