use spangb::bus::Bus;
use spangb::cpu::cpu::{CPU_mode, CPU_state, CPU};
use spangb::fault::Fault;

const N: u32 = 0x8000_0000;
const Z: u32 = 0x4000_0000;
const C: u32 = 0x2000_0000;
const V: u32 = 0x1000_0000;

fn compact_machine(program: &[u16]) -> (CPU, Bus) {
    let mut bus = Bus::new();
    for (i, half) in program.iter().enumerate() {
        bus.write16(0x0300_0000 + 2 * i as u32, *half);
    }
    let mut cpu = CPU::new();
    cpu.cpsr = 0x3F;
    cpu.state = CPU_state::THUMB;
    cpu.register[13] = 0x0300_7F00;
    cpu.register[15] = 0x0300_0000;
    cpu.thumb_fill_pipeline(&mut bus);
    (cpu, bus)
}

#[test]
fn mov_immediate_end_to_end_keeps_the_carry() {
    for carry in [0, C] {
        // MOV r0, #0xFF
        let (mut cpu, mut bus) = compact_machine(&[0x20FF, 0x46C0, 0x46C0, 0x46C0]);
        cpu.cpsr |= carry;
        cpu.register[0] = 0x1234_5678;
        assert_eq!(cpu.tick(&mut bus), Ok(()));
        assert_eq!(cpu.register[0], 0xFF);
        assert_eq!(cpu.cpsr & C, carry);
        assert_eq!(cpu.cpsr & Z, 0);
        assert_eq!(cpu.register[15], 0x0300_0006);
    }
}

#[test]
fn mov_immediate_sets_zero() {
    let (mut cpu, mut bus) = compact_machine(&[]);
    cpu.cpsr |= C | V;
    cpu.register[3] = 9;
    // MOV r3, #0
    assert_eq!(cpu.THUMB_MOVIMM(&mut bus, 0x2300), Ok(()));
    assert_eq!(cpu.register[3], 0);
    assert_eq!(cpu.cpsr & (N | Z | C | V), Z | C | V);
}

#[test]
fn immediate_arithmetic() {
    let (mut cpu, mut bus) = compact_machine(&[]);
    cpu.register[1] = 0xFFFF_FFFF;
    // ADD r1, #1
    assert_eq!(cpu.THUMB_ADDIMM(&mut bus, 0x3101), Ok(()));
    assert_eq!(cpu.register[1], 0);
    assert_eq!(cpu.cpsr & (N | Z | C | V), Z | C);
    // SUB r1, #1
    assert_eq!(cpu.THUMB_SUBIMM(&mut bus, 0x3901), Ok(()));
    assert_eq!(cpu.register[1], 0xFFFF_FFFF);
    assert_eq!(cpu.cpsr & (N | Z | C | V), N);
    // CMP r1, #0xFF
    assert_eq!(cpu.THUMB_CMPIMM(&mut bus, 0x29FF), Ok(()));
    assert_eq!(cpu.register[1], 0xFFFF_FFFF);
    assert_eq!(cpu.cpsr & (N | Z | C | V), N | C);
    // ADD r0, r1, r2 and SUB r0, r1, #3
    cpu.register[1] = 10;
    cpu.register[2] = 5;
    assert_eq!(cpu.THUMB_ADD_SUB(&mut bus, 0x1888), Ok(()));
    assert_eq!(cpu.register[0], 15);
    assert_eq!(cpu.THUMB_ADD_SUB(&mut bus, 0x1EC8), Ok(()));
    assert_eq!(cpu.register[0], 7);
    assert_eq!(cpu.cpsr & (N | Z | C | V), C);
}

#[test]
fn shifted_moves() {
    let (mut cpu, mut bus) = compact_machine(&[]);
    cpu.register[1] = 0x8000_0001;
    // LSL r0, r1, #1
    assert_eq!(cpu.THUMB_MOVS(&mut bus, 0x0048), Ok(()));
    assert_eq!(cpu.register[0], 2);
    assert_eq!(cpu.cpsr & (Z | C), C);
    // LSR r0, r1, #32 (encoded as 0)
    assert_eq!(cpu.THUMB_MOVS(&mut bus, 0x0808), Ok(()));
    assert_eq!(cpu.register[0], 0);
    assert_eq!(cpu.cpsr & (Z | C), Z | C);
    // ASR r0, r1, #4
    assert_eq!(cpu.THUMB_MOVS(&mut bus, 0x1108), Ok(()));
    assert_eq!(cpu.register[0], 0xF800_0000);
    assert_eq!(cpu.cpsr & (Z | C), 0);
    // LSL r0, r1, #0 keeps the carry
    cpu.cpsr |= C;
    assert_eq!(cpu.THUMB_MOVS(&mut bus, 0x0008), Ok(()));
    assert_eq!(cpu.register[0], 0x8000_0001);
    assert_eq!(cpu.cpsr & (Z | C), C);
}

#[test]
fn register_operations() {
    let (mut cpu, mut bus) = compact_machine(&[]);
    cpu.register[0] = 0xF0F0_F0F0;
    cpu.register[1] = 0x0FF0_0FF0;
    assert_eq!(cpu.THUMB_AND(&mut bus, 0x4008), Ok(()));
    assert_eq!(cpu.register[0], 0x00F0_00F0);
    assert_eq!(cpu.THUMB_EOR(&mut bus, 0x4048), Ok(()));
    assert_eq!(cpu.register[0], 0x0F00_0F00);
    assert_eq!(cpu.THUMB_ORR(&mut bus, 0x4308), Ok(()));
    assert_eq!(cpu.register[0], 0x0FF0_0FF0);
    assert_eq!(cpu.THUMB_BIC(&mut bus, 0x4388), Ok(()));
    assert_eq!(cpu.register[0], 0);
    assert_eq!(cpu.cpsr & (N | Z), Z);
    assert_eq!(cpu.THUMB_MVN(&mut bus, 0x43C8), Ok(()));
    assert_eq!(cpu.register[0], 0xF00F_F00F);
    assert_eq!(cpu.cpsr & (N | Z), N);
    assert_eq!(cpu.THUMB_NEG(&mut bus, 0x4248), Ok(()));
    assert_eq!(cpu.register[0], 0xF00F_F010);
    cpu.register[0] = 0x0001_0000;
    cpu.register[1] = 0x0001_0003;
    assert_eq!(cpu.THUMB_MUL(&mut bus, 0x4348), Ok(()));
    assert_eq!(cpu.register[0], 0x0003_0000);
    assert_eq!(cpu.THUMB_TST(&mut bus, 0x4208), Ok(()));
    assert_eq!(cpu.register[0], 0x0003_0000);
    assert_eq!(cpu.cpsr & (N | Z), 0);
    cpu.register[0] = 3;
    cpu.register[1] = 5;
    assert_eq!(cpu.THUMB_CMP(&mut bus, 0x4288), Ok(()));
    assert_eq!(cpu.cpsr & (N | Z | C | V), N);
    cpu.register[1] = 0xFFFF_FFFD;
    assert_eq!(cpu.THUMB_CMN(&mut bus, 0x42C8), Ok(()));
    assert_eq!(cpu.cpsr & (N | Z | C | V), Z | C);
}

#[test]
fn register_shifts_use_the_whole_register() {
    let (mut cpu, mut bus) = compact_machine(&[]);
    cpu.register[0] = 0x0000_00FF;
    cpu.register[1] = 4;
    assert_eq!(cpu.THUMB_LSL(&mut bus, 0x4088), Ok(()));
    assert_eq!(cpu.register[0], 0xFF0);
    assert_eq!(cpu.THUMB_LSR(&mut bus, 0x40C8), Ok(()));
    assert_eq!(cpu.register[0], 0xFF);
    assert_eq!(cpu.THUMB_ROR(&mut bus, 0x41C8), Ok(()));
    assert_eq!(cpu.register[0], 0xF000_000F);
    assert_eq!(cpu.cpsr & (N | C), N | C);
    assert_eq!(cpu.THUMB_ASR(&mut bus, 0x4108), Ok(()));
    assert_eq!(cpu.register[0], 0xFF00_0000);
    assert_eq!(cpu.cpsr & (N | C), N | C);
    cpu.register[1] = 0x100;
    assert_eq!(cpu.THUMB_LSL(&mut bus, 0x4088), Ok(()));
    assert_eq!(cpu.register[0], 0);
    assert_eq!(cpu.cpsr & (Z | C), Z);
}

#[test]
fn carry_arithmetic() {
    let (mut cpu, mut bus) = compact_machine(&[]);
    cpu.cpsr |= C;
    cpu.register[0] = 1;
    cpu.register[1] = 2;
    assert_eq!(cpu.THUMB_ADC(&mut bus, 0x4148), Ok(()));
    assert_eq!(cpu.register[0], 4);
    assert_eq!(cpu.cpsr & (N | Z | C | V), 0);
    // carry clear: 4 - 2 - 1
    assert_eq!(cpu.THUMB_SBC(&mut bus, 0x4188), Ok(()));
    assert_eq!(cpu.register[0], 1);
    assert_eq!(cpu.cpsr & (N | Z | C | V), C);
    // carry set: 1 - 2
    assert_eq!(cpu.THUMB_SBC(&mut bus, 0x4188), Ok(()));
    assert_eq!(cpu.register[0], 0xFFFF_FFFF);
    assert_eq!(cpu.cpsr & (N | Z | C | V), N);
    // a sum that wraps to zero sets zero and carry
    cpu.register[0] = 0xFFFF_FFFF;
    cpu.register[1] = 1;
    assert_eq!(cpu.THUMB_ADC(&mut bus, 0x4148), Ok(()));
    assert_eq!(cpu.register[0], 0);
    assert_eq!(cpu.cpsr & (N | Z | C | V), Z | C);
    // the carry coming in can tip the sum over the signed range
    cpu.register[0] = 0;
    cpu.register[1] = 0x7FFF_FFFF;
    assert_eq!(cpu.THUMB_ADC(&mut bus, 0x4148), Ok(()));
    assert_eq!(cpu.register[0], 0x8000_0000);
    assert_eq!(cpu.cpsr & (N | Z | C | V), N | V);
    // and so can the borrow: -2^31 - 0 - 1
    cpu.register[0] = 0x8000_0000;
    cpu.register[1] = 0;
    assert_eq!(cpu.THUMB_SBC(&mut bus, 0x4188), Ok(()));
    assert_eq!(cpu.register[0], 0x7FFF_FFFF);
    assert_eq!(cpu.cpsr & (N | Z | C | V), C | V);
}

#[test]
fn high_register_operations() {
    let (mut cpu, mut bus) = compact_machine(&[]);
    cpu.register[8] = 0x100;
    cpu.register[1] = 0x23;
    // ADD r1, r8
    assert_eq!(cpu.THUMB_HILO_ADD(&mut bus, 0x4441), Ok(()));
    assert_eq!(cpu.register[1], 0x123);
    // MOV r9, r1
    assert_eq!(cpu.THUMB_HILO_MOV(&mut bus, 0x4689), Ok(()));
    assert_eq!(cpu.register[9], 0x123);
    // CMP r9, r8: no borrow, so carry is set
    assert_eq!(cpu.THUMB_HILO_CMP(&mut bus, 0x45C1), Ok(()));
    assert_eq!(cpu.cpsr & (N | Z | C | V), C);
    // CMP r8, r9: a borrow clears the carry
    assert_eq!(cpu.THUMB_HILO_CMP(&mut bus, 0x45C8), Ok(()));
    assert_eq!(cpu.cpsr & (N | Z | C | V), N);
    // operands see the program counter with bit 1 clear
    cpu.register[15] = 0x0300_0006;
    assert_eq!(cpu.THUMB_HILO_OPERANDS(0x467A), (0, 0x0300_0004, 2));
    assert_eq!(cpu.register[15], 0x0300_0006);
    // BX r8 into the full-width instruction set
    cpu.register[8] = 0x0300_0100;
    assert_eq!(cpu.THUMB_HILO_BX(&mut bus, 0x4740), Ok(()));
    assert!(cpu.state == CPU_state::ARM);
    assert_eq!(cpu.cpsr & 0x20, 0);
    assert_eq!(cpu.register[15], 0x0300_0104);
}

#[test]
fn loads_and_stores() {
    let (mut cpu, mut bus) = compact_machine(&[]);
    bus.write32(0x0300_0100, 0x8899_AABB);
    cpu.register[1] = 0x0300_0100;
    cpu.register[2] = 1;
    // LDR r0, [r1, r2]: rotated
    assert_eq!(cpu.THUMB_LDSTR_REG_OFF(&mut bus, 0x5888), Ok(()));
    assert_eq!(cpu.register[0], 0xBB88_99AA);
    // LDRB r0, [r1, r2]
    assert_eq!(cpu.THUMB_LDSTR_REG_OFF(&mut bus, 0x5C88), Ok(()));
    assert_eq!(cpu.register[0], 0xAA);
    // LDRH, LDSB, LDSH r0, [r1, r2]
    assert_eq!(cpu.THUMB_LDRH(&mut bus, 0x5A88), Ok(()));
    assert_eq!(cpu.register[0], 0xBB00_00AA);
    assert_eq!(cpu.THUMB_LDSB(&mut bus, 0x5688), Ok(()));
    assert_eq!(cpu.register[0], 0xFFFF_FFAA);
    assert_eq!(cpu.THUMB_LDSH(&mut bus, 0x5E88), Ok(()));
    assert_eq!(cpu.register[0], 0xFFFF_FFAA);
    // STR, STRB, STRH r3, [r1, r2] with r2 = 8
    cpu.register[2] = 8;
    cpu.register[3] = 0x1234_5678;
    assert_eq!(cpu.THUMB_LDSTR_REG_OFF(&mut bus, 0x508B), Ok(()));
    assert_eq!(bus.read32(0x0300_0108), 0x1234_5678);
    cpu.register[3] = 0xFF;
    assert_eq!(cpu.THUMB_LDSTR_REG_OFF(&mut bus, 0x548B), Ok(()));
    assert_eq!(bus.read32(0x0300_0108), 0x1234_56FF);
    cpu.register[3] = 0xABCD_EF01;
    assert_eq!(cpu.THUMB_STRH(&mut bus, 0x528B), Ok(()));
    assert_eq!(bus.read32(0x0300_0108), 0x1234_EF01);
    // LDR r0, [r1, #8] and STR r0, [r1, #12]
    assert_eq!(cpu.THUMB_LDR_STR_IMM_OFF(&mut bus, 0x6888), Ok(()));
    assert_eq!(cpu.register[0], 0x1234_EF01);
    assert_eq!(cpu.THUMB_LDR_STR_IMM_OFF(&mut bus, 0x60C8), Ok(()));
    assert_eq!(bus.read32(0x0300_010C), 0x1234_EF01);
    // LDRB r0, [r1, #9] and STRB r0, [r1, #13]
    assert_eq!(cpu.THUMB_LDR_STR_IMM_OFF(&mut bus, 0x7A48), Ok(()));
    assert_eq!(cpu.register[0], 0xEF);
    assert_eq!(cpu.THUMB_LDR_STR_IMM_OFF(&mut bus, 0x7348), Ok(()));
    assert_eq!(bus.read8(0x0300_010D), 0xEF);
    // LDRH r0, [r1, #10] and STRH r0, [r1, #2]
    assert_eq!(cpu.THUMB_LDRH_STRH_IMM_OFF(&mut bus, 0x8948), Ok(()));
    assert_eq!(cpu.register[0], 0x1234);
    assert_eq!(cpu.THUMB_LDRH_STRH_IMM_OFF(&mut bus, 0x8048), Ok(()));
    assert_eq!(bus.read32(0x0300_0100), 0x1234_AABB);
    // STR r0, [sp, #4] and LDR r4, [sp, #4]
    assert_eq!(cpu.THUMB_LDR_STR_SP_REL(&mut bus, 0x9001), Ok(()));
    assert_eq!(bus.read32(0x0300_7F04), 0x1234);
    assert_eq!(cpu.THUMB_LDR_STR_SP_REL(&mut bus, 0x9C01), Ok(()));
    assert_eq!(cpu.register[4], 0x1234);
    // LDR r5, [pc, #4]
    cpu.register[15] = 0x0300_0102;
    assert_eq!(cpu.THUMB_LDR_PCREL_IMM(&mut bus, 0x4D01), Ok(()));
    assert_eq!(cpu.register[5], bus.read32(0x0300_0104));
}

#[test]
fn byte_store_to_a_refusing_register_faults() {
    let (mut cpu, mut bus) = compact_machine(&[]);
    cpu.register[1] = 0x0400_0200;
    cpu.register[2] = 2;
    assert_eq!(
        cpu.THUMB_LDSTR_REG_OFF(&mut bus, 0x548B),
        Err(Fault::UnsupportedByteWrite { addr: 0x202 })
    );
    assert_eq!(
        cpu.THUMB_LDR_STR_IMM_OFF(&mut bus, 0x7008),
        Err(Fault::UnsupportedByteWrite { addr: 0x200 })
    );
}

#[test]
fn address_generation_and_stack_pointer() {
    let (mut cpu, mut bus) = compact_machine(&[]);
    cpu.register[15] = 0x0300_0004;
    // ADD r0, pc, #8 and ADD r1, sp, #16
    assert_eq!(cpu.THUMB_LD_PC_SP(&mut bus, 0xA002), Ok(()));
    assert_eq!(cpu.register[0], 0x0300_000C);
    assert_eq!(cpu.THUMB_LD_PC_SP(&mut bus, 0xA904), Ok(()));
    assert_eq!(cpu.register[1], 0x0300_7F10);
    // ADD sp, #0x7F and ADD sp, #-1
    assert_eq!(cpu.THUMB_SP_OFF(&mut bus, 0xB07F), Ok(()));
    assert_eq!(cpu.register[13], 0x0300_7F7F);
    assert_eq!(cpu.THUMB_SP_OFF(&mut bus, 0xB081), Ok(()));
    assert_eq!(cpu.register[13], 0x0300_7F7E);
}

#[test]
fn compact_branches() {
    let (mut cpu, mut bus) = compact_machine(&[]);
    cpu.register[15] = 0x0300_0104;
    cpu.cpsr |= Z;
    // BEQ +8
    assert_eq!(cpu.THUMB_COND_BRANCH(&mut bus, 0xD004), Ok(()));
    assert_eq!(cpu.register[15], 0x0300_010C + 2);
    // BNE is not taken
    assert_eq!(cpu.THUMB_COND_BRANCH(&mut bus, 0xD104), Ok(()));
    assert_eq!(cpu.register[15], 0x0300_010E);
    // BEQ -4
    cpu.register[15] = 0x0300_0104;
    assert_eq!(cpu.THUMB_COND_BRANCH(&mut bus, 0xD0FE), Ok(()));
    assert_eq!(cpu.register[15], 0x0300_0100 + 2);
    // B +0x7FE and B -2
    cpu.register[15] = 0x0300_0104;
    assert_eq!(cpu.THUMB_BRANCH(&mut bus, 0xE3FF), Ok(()));
    assert_eq!(cpu.register[15], 0x0300_0902 + 2);
    cpu.register[15] = 0x0300_0104;
    assert_eq!(cpu.THUMB_BRANCH(&mut bus, 0xE7FF), Ok(()));
    assert_eq!(cpu.register[15], 0x0300_0102 + 2);
    // BL in two halves: first +0x1000, then +0x10
    cpu.register[15] = 0x0300_0104;
    assert_eq!(cpu.THUMB_LONG_BRANCH_LINK(&mut bus, 0xF001), Ok(()));
    assert_eq!(cpu.register[14], 0x0300_1104);
    assert_eq!(cpu.register[15], 0x0300_0104);
    cpu.register[15] = 0x0300_0106;
    assert_eq!(cpu.THUMB_LONG_BRANCH_LINK(&mut bus, 0xF808), Ok(()));
    assert_eq!(cpu.register[15], 0x0300_1114 + 2);
    assert_eq!(cpu.register[14], 0x0300_0105);
    // the first half with a negative offset
    cpu.register[15] = 0x0300_0104;
    assert_eq!(cpu.THUMB_LONG_BRANCH_LINK(&mut bus, 0xF7FF), Ok(()));
    assert_eq!(cpu.register[14], 0x0300_0104 - 0x1000);
}

#[test]
fn compact_software_interrupt() {
    let (mut cpu, mut bus) = compact_machine(&[]);
    cpu.cpsr = 0x3F;
    cpu.mode = CPU_mode::sys;
    cpu.register[15] = 0x0300_0104;
    assert_eq!(cpu.THUMB_SWI(&mut bus, 0xDF00), Ok(()));
    assert!(cpu.mode == CPU_mode::svc);
    assert_eq!(cpu.register[14], 0x0300_0102);
    assert!(cpu.state == CPU_state::ARM);
    assert_eq!(cpu.cpsr & 0x3F, 0x13);
    assert_eq!(cpu.register[15], 0x0C);
}

#[test]
fn push_and_pop() {
    let (mut cpu, mut bus) = compact_machine(&[]);
    cpu.register[0] = 0xA0;
    cpu.register[1] = 0xA1;
    cpu.register[7] = 0xA7;
    cpu.register[14] = 0xEE;
    // PUSH {r0, r1, r7, lr}
    assert_eq!(cpu.THUMB_PUSH(&mut bus, 0xB583), Ok(()));
    assert_eq!(bus.read32(0x0300_7F00), 0xEE);
    assert_eq!(bus.read32(0x0300_7EFC), 0xA0);
    assert_eq!(bus.read32(0x0300_7EF8), 0xA1);
    assert_eq!(bus.read32(0x0300_7EF4), 0xA7);
    assert_eq!(cpu.register[13], 0x0300_7EF0);
    // POP {r2, r3}
    bus.write32(0x0300_7EF4, 0x33);
    bus.write32(0x0300_7EF8, 0x22);
    assert_eq!(cpu.THUMB_POP(&mut bus, 0xBC0C), Ok(()));
    assert_eq!(cpu.register[3], 0x33);
    assert_eq!(cpu.register[2], 0x22);
    assert_eq!(cpu.register[13], 0x0300_7EF8);
    // POP {pc}
    bus.write32(0x0300_7EF8, 0x0300_0201);
    assert_eq!(cpu.THUMB_POP(&mut bus, 0xBD00), Ok(()));
    assert_eq!(cpu.register[15], 0x0300_0202);
    assert_eq!(cpu.register[13], 0x0300_7EFC);
}

#[test]
fn multiple_store_and_load() {
    let (mut cpu, mut bus) = compact_machine(&[]);
    cpu.register[0] = 0x0300_0100;
    cpu.register[1] = 0x11;
    cpu.register[2] = 0x22;
    // STMIA r0!, {r1, r2}
    assert_eq!(cpu.THUMB_STMIA(&mut bus, 0xC006), Ok(()));
    assert_eq!(bus.read32(0x0300_0100), 0x11);
    assert_eq!(bus.read32(0x0300_0104), 0x22);
    assert_eq!(cpu.register[0], 0x0300_0108);
    // LDMIA r0!, {r3, r4} reads downwards from the base
    bus.write32(0x0300_0108, 0x33);
    assert_eq!(cpu.THUMB_LDMIA(&mut bus, 0xC818), Ok(()));
    assert_eq!(cpu.register[3], 0x33);
    assert_eq!(cpu.register[4], 0x22);
    assert_eq!(cpu.register[0], 0x0300_0100);
}

#[test]
fn compact_tick_follows_a_switch_of_instruction_set() {
    // BX r1 with r1 = 0x0300_0100 (full width), where a MOV r0, #7 waits
    let (mut cpu, mut bus) = compact_machine(&[0x4708, 0x46C0, 0x46C0]);
    bus.write32(0x0300_0100, 0xE3A0_0007);
    bus.write32(0x0300_0104, 0xE1A0_0000);
    bus.write32(0x0300_0108, 0xE1A0_0000);
    bus.write32(0x0300_010C, 0xE1A0_0000);
    cpu.register[1] = 0x0300_0100;
    assert_eq!(cpu.tick(&mut bus), Ok(()));
    assert!(cpu.state == CPU_state::ARM);
    assert_eq!(cpu.register[15], 0x0300_0108);
    assert_eq!(cpu.pipeline[2], 0xE3A0_0007);
    assert_eq!(cpu.tick(&mut bus), Ok(()));
    assert_eq!(cpu.register[0], 7);
}

#[test]
fn undefined_compact_instruction_reports_its_address() {
    let (mut cpu, mut bus) = compact_machine(&[0xB100, 0x46C0, 0x46C1]);
    let expected = Fault::UndefinedOpcode {
        instr: 0xB100,
        pc: 0x0300_0000,
        fetched: 0x46C1,
        decoded: 0x46C0,
        retiring: 0xB100,
    };
    assert_eq!(cpu.tick(&mut bus), Err(expected));
    assert_eq!(cpu.register[15], 0x0300_0004);
}
