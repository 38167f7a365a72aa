use rand::Rng;
use spangb::bus::Bus;
use spangb::cartridge::Cartridge;
use spangb::fault::Fault;
use spangb::io::{Interrupt, InterruptEnable, KeyInput, MemoryMappedRegister};
use spangb::utils::is_bit_set;

#[test]
fn rw_equal_ram_test() {
    const ADDRESS: [[u32; 2]; 2] = [[0x02000000, 0x0203FFFF], [0x03000000, 0x03007FFF]];
    let mut rng = rand::thread_rng();

    for i in ADDRESS.iter() {
        let mut bus = Bus::new();
        for j in i[0]..=i[1] {
            let rval: u8 = rng.gen();
            bus.write8(j, rval).unwrap();
            assert_eq!(bus.read8(j), rval);
        }
    }

    for i in ADDRESS.iter() {
        let mut bus = Bus::new();
        for j in i[0]..=i[1] {
            let rval: u16 = rng.gen();
            bus.write16(j, rval);
            assert_eq!(bus.read16(j), rval);
        }
    }

    for i in ADDRESS.iter() {
        let mut bus = Bus::new();
        for j in i[0]..=i[1] {
            let rval: u32 = rng.gen();
            bus.write32(j, rval);
            assert_eq!(bus.read32(j), rval);
        }
    }
}

#[test]
fn is_bit_set_picks_single_bits() {
    assert!(is_bit_set(0x8000_0000, 31));
    assert!(!is_bit_set(0x7FFF_FFFF, 31));
    assert!(is_bit_set(1, 0));
    assert!(!is_bit_set(2, 0));
    assert!(is_bit_set(0x0010_0000, 20));
}

#[test]
fn words_are_stored_little_endian() {
    let mut bus = Bus::new();
    bus.write32(0x0200_0010, 0x1122_3344);
    assert_eq!(bus.read8(0x0200_0010), 0x44);
    assert_eq!(bus.read8(0x0200_0011), 0x33);
    assert_eq!(bus.read8(0x0200_0012), 0x22);
    assert_eq!(bus.read8(0x0200_0013), 0x11);
    assert_eq!(bus.read16(0x0200_0010), 0x3344);
    assert_eq!(bus.read16(0x0200_0012), 0x1122);
    bus.write16(0x0300_0002, 0xBEEF);
    assert_eq!(bus.read32(0x0300_0000), 0xBEEF_0000);
}

#[test]
fn unaligned_accesses_round_down() {
    let mut bus = Bus::new();
    bus.write32(0x0200_0023, 0xAABB_CCDD);
    assert_eq!(bus.read32(0x0200_0020), 0xAABB_CCDD);
    assert_eq!(bus.read32(0x0200_0021), 0xAABB_CCDD);
    bus.write16(0x0300_0011, 0x1234);
    assert_eq!(bus.read16(0x0300_0010), 0x1234);
}

#[test]
fn work_ram_is_mirrored_and_top_nibble_ignored() {
    let mut bus = Bus::new();
    bus.write8(0x0200_0005, 0x5A).unwrap();
    assert_eq!(bus.read8(0x0204_0005), 0x5A);
    assert_eq!(bus.read8(0xF200_0005), 0x5A);
    bus.write8(0x0300_8001, 0x77).unwrap();
    assert_eq!(bus.read8(0x0300_0001), 0x77);
}

#[test]
fn unmapped_reads_yield_zero_and_writes_are_ignored() {
    let mut bus = Bus::new();
    bus.write32(0x0100_0000, 0xFFFF_FFFF);
    bus.write16(0x0E00_0000, 0xFFFF);
    assert_eq!(bus.write8(0x0100_0000, 0xFF), Ok(()));
    assert_eq!(bus.read32(0x0100_0000), 0);
    assert_eq!(bus.read16(0x0E00_0000), 0);
    assert_eq!(bus.read8(0x0400_03FF), 0);
}

#[test]
fn bios_is_read_only_and_empty_until_loaded() {
    let mut bus = Bus::new();
    assert_eq!(bus.read32(0), 0);
    assert_eq!(bus.read8(0x3FFF), 0);
    let mut image = vec![0u8; 16 * 1024];
    image[0] = 0x78;
    image[1] = 0x56;
    image[2] = 0x34;
    image[3] = 0x12;
    image[0x3FFF] = 0x99;
    assert_eq!(bus.load_bios(image), Ok(()));
    assert_eq!(bus.read32(0), 0x1234_5678);
    assert_eq!(bus.read16(2), 0x1234);
    assert_eq!(bus.read8(0x3FFF), 0x99);
    bus.write32(0, 0xFFFF_FFFF);
    assert_eq!(bus.read32(0), 0x1234_5678);
}

#[test]
fn bios_of_wrong_size_is_refused() {
    let mut bus = Bus::new();
    assert_eq!(bus.load_bios(vec![0u8; 100]), Err(Fault::InvalidBios { len: 100 }));
    assert_eq!(bus.load_bios(vec![0u8; 16385]), Err(Fault::InvalidBios { len: 16385 }));
    assert_eq!(bus.read8(0), 0);
}

fn image_with_title(title: &[u8; 12]) -> Vec<u8> {
    let mut data = vec![0u8; 0x200];
    for (i, b) in title.iter().enumerate() {
        data[0xA0 + i] = *b;
    }
    let mut sum: u8 = 0;
    for i in 0xA0..=0xBC {
        sum = sum.wrapping_sub(data[i]);
    }
    data[0xBD] = sum.wrapping_sub(0x19);
    data
}

#[test]
fn header_checksum_has_the_documented_value() {
    let cartridge = Cartridge::new();
    let zeros = vec![0u8; 0xC0];
    assert_eq!(cartridge.calculate_header_checksum(&zeros), 0xE7);
    let mut ones = vec![0u8; 0xC0];
    for i in 0xA0..=0xBC {
        ones[i] = 1;
    }
    // 29 bytes of 1: -(29 + 0x19) mod 256
    assert_eq!(cartridge.calculate_header_checksum(&ones), 0xCA);
    ones[0x9F] = 0xFF;
    ones[0xBD] = 0xFF;
    assert_eq!(cartridge.calculate_header_checksum(&ones), 0xCA);
    // an image that ends with the last byte covered is long enough
    ones.truncate(0xBD);
    assert_eq!(cartridge.calculate_header_checksum(&ones), 0xCA);
    assert_eq!(cartridge.calculate_header_checksum(&vec![0u8; 0xBD]), 0xE7);
}

#[test]
fn cartridge_with_matching_checksum_is_accepted() {
    let data = image_with_title(b"TESTGAME1234");
    let mut cartridge = Cartridge::new();
    assert_eq!(cartridge.insert(data.clone()), Ok(()));
    assert_eq!(cartridge.title, "TESTGAME1234");
    assert_eq!(cartridge.rom, data);
}

#[test]
fn cartridge_faults_are_reported() {
    let mut cartridge = Cartridge::new();
    assert_eq!(cartridge.insert(vec![0u8; 0xBD]), Err(Fault::RomTooShort { len: 0xBD }));
    let mut data = image_with_title(b"TESTGAME1234");
    let good = data[0xBD];
    data[0xBD] = good.wrapping_add(1);
    assert_eq!(
        cartridge.insert(data.clone()),
        Err(Fault::WrongChecksum { stored: good.wrapping_add(1), computed: good })
    );
    let bad_title = image_with_title(&[0xFF, 0xFE, 0, 0, 0, 0, 0, 0, 0, 0, 0, 0]);
    assert_eq!(cartridge.insert(bad_title), Err(Fault::InvalidTitle));
    assert!(cartridge.rom.is_empty());
    assert_eq!(cartridge.title, "");
}

#[test]
fn cartridge_reads_stop_at_the_end_of_the_image() {
    let mut bus = Bus::new();
    let mut data = image_with_title(b"ABCDEFGHIJKL");
    data.truncate(0x1FE);
    data[0x1FC] = 0xDE;
    data[0x1FD] = 0xAD;
    bus.cartridge.insert(data).unwrap();
    assert_eq!(bus.read8(0x0800_00A0), b'A');
    assert_eq!(bus.read16(0x0800_01FC), 0xADDE);
    assert_eq!(bus.read32(0x0800_01FC), 0);
    assert_eq!(bus.read8(0x0800_01FE), 0);
    assert_eq!(bus.read8(0x0A00_00A1), b'B');
    bus.write32(0x0800_00A0, 0);
    assert_eq!(bus.read8(0x0800_00A0), b'A');
}

#[test]
fn interrupt_registers_are_mapped() {
    let mut bus = Bus::new();
    bus.write16(0x0400_0200, 0x1234);
    assert_eq!(bus.read16(0x0400_0200), 0x1234);
    assert_eq!(bus.read8(0x0400_0200), 0x34);
    assert_eq!(bus.read32(0x0400_0200), 0x1234);
    bus.write32(0x0400_0202, 0xABCD_4321);
    // a word access rounds down to 0x200
    assert_eq!(bus.read16(0x0400_0200), 0x4321);
    bus.write16(0x0400_0202, 0x0F0F);
    assert_eq!(bus.read16(0x0400_0202), 0x0F0F);
    bus.write16(0x0400_0208, 1);
    assert_eq!(bus.read16(0x0400_0208), 1);
    assert_eq!(bus.write8(0x0400_0208, 2), Ok(()));
    assert_eq!(bus.read8(0x0400_0208), 0);
    assert_eq!(bus.read16(0x0400_0130), 0xFFFF);
    bus.write16(0x0400_0130, 0);
    assert_eq!(bus.read16(0x0400_0130), 0xFFFF);
}

#[test]
fn byte_writes_to_half_word_registers_are_refused() {
    let mut bus = Bus::new();
    bus.write16(0x0400_0200, 0x00FF);
    assert_eq!(bus.write8(0x0400_0200, 1), Err(Fault::UnsupportedByteWrite { addr: 0x200 }));
    assert_eq!(bus.write8(0x0400_0203, 1), Err(Fault::UnsupportedByteWrite { addr: 0x202 }));
    assert_eq!(bus.write8(0x0400_0008, 1), Err(Fault::UnsupportedByteWrite { addr: 0x8 }));
    assert_eq!(bus.write8(0x0400_000E, 1), Err(Fault::UnsupportedByteWrite { addr: 0xE }));
    assert_eq!(bus.write8_fault(0x0400_0200), Some(Fault::UnsupportedByteWrite { addr: 0x200 }));
    assert_eq!(bus.write8_fault(0x0400_0000), None);
    assert_eq!(bus.read16(0x0400_0200), 0x00FF);
}

#[test]
fn display_registers_are_mapped() {
    let mut bus = Bus::new();
    assert_eq!(bus.read16(0x0400_0000), 3);
    bus.write16(0x0400_0000, 0x0404);
    assert_eq!(bus.read16(0x0400_0000), 0x0404);
    assert_eq!(bus.ppu.dispcnt.bg_mode, 4);
    assert_eq!(bus.read32(0x0400_0000), 0);
    assert_eq!(bus.write8(0x0400_0000, 0x03), Ok(()));
    assert_eq!(bus.read16(0x0400_0000), 0x0403);
    bus.write16(0x0400_0004, 0x2AFF);
    assert_eq!(bus.read16(0x0400_0004), 0x2AF8);
    bus.write32(0x0400_0004, 0);
    assert_eq!(bus.read32(0x0400_0004), 0x2AF8);
    bus.write16(0x0400_000A, 0xDFCF);
    assert_eq!(bus.read16(0x0400_000A), 0xDFCF);
    let bg = bus.ppu.bgcnt[1];
    assert_eq!(bg.priority, 3);
    assert_eq!(bg.tile_data, 3);
    assert!(bg.mosaic);
    assert!(bg.colors);
    assert_eq!(bg.map_data, 0x1F);
    assert!(!bg.display_area_overflow);
    assert_eq!(bg.size, 3);
    assert_eq!(bg.tile_map_offset, 0x1F * 0x800);
    assert_eq!(bg.tile_data_offset, 3 * 0x4000);
}

#[test]
fn picture_memory_is_mapped_and_mirrored() {
    let mut bus = Bus::new();
    bus.write16(0x0500_0002, 0x7FFF);
    assert_eq!(bus.read16(0x0500_0402), 0x7FFF);
    bus.write32(0x0600_0000, 0x0102_0304);
    assert_eq!(bus.read8(0x0600_0001), 0x03);
    assert_eq!(bus.read32(0x0602_0000), 0x0102_0304);
    bus.write16(0x0601_0000, 0xAAAA);
    assert_eq!(bus.read16(0x0601_8000), 0xAAAA);
    bus.write32(0x0700_03FC, 0xCAFE_F00D);
    assert_eq!(bus.read32(0x0700_07FC), 0xCAFE_F00D);
}

#[test]
fn byte_writes_to_picture_memory_fill_a_half_word() {
    let mut bus = Bus::new();
    assert_eq!(bus.write8(0x0600_0010, 0xAB), Ok(()));
    assert_eq!(bus.read16(0x0600_0010), 0xABAB);
    assert_eq!(bus.write8(0x0500_03FF, 1), Err(Fault::VideoWriteOutOfRange { addr: 0x0500_03FF }));
    assert_eq!(bus.write8(0x0601_7FFF, 1), Err(Fault::VideoWriteOutOfRange { addr: 0x0601_7FFF }));
    assert_eq!(bus.write8(0x0700_03FE, 0x11), Ok(()));
    assert_eq!(bus.read16(0x0700_03FE), 0x1111);
}

#[test]
fn keypad_word_has_one_bit_per_released_key() {
    let mut keys = KeyInput::new();
    assert_eq!(keys.read16(0), 0xFFFF);
    keys.update(&[true; 10]);
    assert_eq!(keys.read16(0), 0x03FF);
    keys.update(&[false; 10]);
    assert_eq!(keys.read16(0), 0);
    let mut some = [true; 10];
    some[0] = false;
    some[9] = false;
    keys.update(&some);
    assert_eq!(keys.read16(0), 0x01FE);
    assert_eq!(keys.read8(0), 0xFE);
    assert_eq!(keys.read8(1), 0x01);
    assert_eq!(keys.read32(0), 0x01FE);
}

#[test]
fn interrupt_masks_are_single_bits() {
    assert_eq!(Interrupt::VBlank.mask(), 0x1);
    assert_eq!(Interrupt::Timer0.mask(), 0x8);
    assert_eq!(Interrupt::DMA3.mask(), 0x800);
    assert_eq!(Interrupt::GamePak.mask(), 0x2000);
    let mut ie = InterruptEnable::new();
    ie.write32(0, 0xFFFF_0003);
    assert_eq!(ie.value, 3);
    assert_eq!(ie.write8(0x200, 1), Err(Fault::UnsupportedByteWrite { addr: 0x200 }));
}

#[test]
fn faults_describe_themselves() {
    let fault = Fault::UndefinedOpcode {
        instr: 0xEC00_0000,
        pc: 0x0800_0000,
        fetched: 0x1,
        decoded: 0xAB,
        retiring: 0xEC00_0000,
    };
    assert_eq!(
        fault.describe(),
        "Undefined opcode: ec000000 at PC: 8000000, pipeline: 1 ab ec000000"
    );
    assert_eq!(Fault::InvalidMode { bits: 0x1A }.describe(), "Invalid mode: 1a");
    assert_eq!(Fault::EmptyPipeline { pc: 0x100 }.describe(), "f8, fc");
    assert_eq!(Fault::WrongChecksum { stored: 1, computed: 2 }.describe(), "Wrong ROM checksum");
    assert_eq!(Fault::InvalidBios { len: 3 }.describe(), "Invalid BIOS file");
    assert_eq!(Fault::InvalidMode { bits: 0 }.describe(), "Invalid mode: 0");
}
