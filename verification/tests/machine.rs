use spangb::bus::Bus;
use spangb::fault::Fault;
use spangb::io::MemoryMappedRegister;
use spangb::ppu::io::{
    BackgroundControl, DisplayControl, DisplayControlFlag, DisplayStat, DisplayStatFlag, VCount,
};
use spangb::ppu::ppu::{u16_to_color, PPU_state, TextTile, PPU};
use spangb::spangb::spAnGB;

#[test]
fn display_registers_decode_their_fields() {
    let mut control = DisplayControl::new();
    assert_eq!(control.bg_mode, 3);
    assert!(!control.is(DisplayControlFlag::DISPLAY_BG2));
    control.write16(0, 0x0403);
    assert!(control.is(DisplayControlFlag::DISPLAY_BG2));
    assert!(!control.is(DisplayControlFlag::FORCED_BLANK));
    control.write8(1, 0x80).unwrap();
    assert!(control.is(DisplayControlFlag::DISPLAY_WIN_OBJ));
    assert_eq!(control.read8(1), 0x80);
    assert_eq!(control.read8(0), 0x03);
    control.write32(0, 0xFFFF_0004);
    assert_eq!(control.read16(0), 4);
    assert_eq!(control.bg_mode, 4);

    let mut stat = DisplayStat::new();
    stat.set(DisplayStatFlag::VBLANK);
    stat.set(DisplayStatFlag::HBLANK_IRQ);
    assert!(stat.is(DisplayStatFlag::VBLANK));
    assert!(stat.is(DisplayStatFlag::HBLANK_IRQ));
    assert!(!stat.is(DisplayStatFlag::HBLANK));
    assert_eq!(stat.read16(0), 0x11);
    stat.unset(DisplayStatFlag::VBLANK);
    assert_eq!(stat.read16(0), 0x10);
    stat.write8(1, 0x42).unwrap();
    assert_eq!(stat.read16(0), 0x4210);
    assert_eq!(stat.read8(1), 0x42);
    stat.write8(0, 0xFF).unwrap();
    assert_eq!(stat.read8(0), 0xF8);

    let count = VCount::new();
    assert_eq!(count.read16(0), 0);
    let mut bg = BackgroundControl::new();
    assert_eq!(bg.read16(0), 0);
    assert_eq!(bg.write8(0, 1), Err(Fault::UnsupportedByteWrite { addr: 0 }));
    bg.write32(0, 0xFFFF_0104);
    assert_eq!(bg.read32(0), 0x0104);
    assert_eq!(bg.tile_data, 1);
    assert_eq!(bg.tile_data_offset, 0x4000);
    assert_eq!(bg.map_data, 1);
    assert_eq!(bg.tile_map_offset, 0x800);
}

#[test]
fn colours_are_scaled_to_eight_bits() {
    assert_eq!(u16_to_color(0x7FFF), [0xF8, 0xF8, 0xF8]);
    assert_eq!(u16_to_color(0x001F), [0xF8, 0, 0]);
    assert_eq!(u16_to_color(0x03E0), [0, 0xF8, 0]);
    assert_eq!(u16_to_color(0x7C00), [0, 0, 0xF8]);
    assert_eq!(u16_to_color(0x8421), [8, 8, 8]);
    let tile = TextTile::new(0xA7FF);
    assert_eq!(tile.tile, 0x3FF);
    assert!(tile.horizontal_flip);
    assert!(!tile.vertical_flip);
    assert_eq!(tile.palette, 0xA);
}

#[test]
fn a_frame_takes_its_number_of_cycles() {
    let mut ppu = PPU::new();
    assert!(ppu.state == PPU_state::new_hdraw());
    let mut ticks = 0u32;
    loop {
        ticks += 1;
        if ppu.tick().unwrap() {
            break;
        }
    }
    assert_eq!(ticks, 160 * (961 + 273) + 68 * 1233);
    assert_eq!(ppu.vcount.ly, 0);
    assert!(ppu.state == PPU_state::new_hdraw());
    assert!(!ppu.dispstat.is(DisplayStatFlag::VBLANK));
}

#[test]
fn blanking_flags_follow_the_phases() {
    let mut ppu = PPU::new();
    for _ in 0..960 {
        assert_eq!(ppu.tick(), Ok(false));
    }
    assert!(ppu.state == PPU_state::HDRAW { cycles_left: 0 });
    assert_eq!(ppu.tick(), Ok(false));
    assert!(ppu.state == PPU_state::new_hblank());
    assert!(ppu.dispstat.is(DisplayStatFlag::HBLANK));
    for _ in 0..273 {
        assert_eq!(ppu.tick(), Ok(false));
    }
    assert!(ppu.state == PPU_state::new_hdraw());
    assert_eq!(ppu.vcount.ly, 1);
    assert!(!ppu.dispstat.is(DisplayStatFlag::HBLANK));
    for _ in 0..(159 * 1234) {
        ppu.tick().unwrap();
    }
    assert_eq!(ppu.vcount.ly, 160);
    assert!(ppu.state == PPU_state::new_vblank());
    assert!(ppu.dispstat.is(DisplayStatFlag::VBLANK));
}

#[test]
fn bitmap_modes_draw_the_current_line() {
    let mut bus = Bus::new();
    // direct colour: pixel 2 of line 0 is red, pixel 0 of line 1 is white
    bus.write16(0x0600_0004, 0x001F);
    bus.write16(0x0600_0000 + 480, 0x7FFF);
    for _ in 0..961 {
        assert_eq!(bus.tick(), Ok(false));
    }
    assert_eq!(&bus.ppu.buffer[0..9], &[0, 0, 0, 0, 0, 0, 0xF8, 0, 0]);
    assert_eq!(bus.ppu.buffer[720], 100);
    for _ in 0..(273 + 961) {
        assert_eq!(bus.tick(), Ok(false));
    }
    assert_eq!(&bus.ppu.buffer[720..726], &[0xF8, 0xF8, 0xF8, 0, 0, 0]);
    assert_eq!(bus.ppu.buffer[1440], 100);
    // paletted: entry 5 is green, pixel 1 of line 2 uses it
    bus.write16(0x0400_0000, 4);
    bus.write16(0x0500_000A, 0x03E0);
    bus.write16(0x0600_0000 + 480, 0x0500);
    for _ in 0..(273 + 961) {
        assert_eq!(bus.tick(), Ok(false));
    }
    assert_eq!(&bus.ppu.buffer[1440..1446], &[0, 0, 0, 0, 0xF8, 0]);
}

#[test]
fn tiled_mode_draws_from_the_map() {
    let mut bus = Bus::new();
    bus.write16(0x0400_0000, 0);
    // background 0: 16 colours, tiles at 0x4000, map at 0x800
    bus.write16(0x0400_0008, 0x0104);
    // map entry 1: tile 2, palette 3
    bus.write16(0x0600_0802, 0x3002);
    // tile 2, row 0: pixels 1 and 2 in its first byte
    bus.write16(0x0600_4000 + 2 * 32, 0x0021);
    // palette 3, entries 1 and 2
    bus.write16(0x0500_0000 + 2 * (3 * 16 + 1), 0x001F);
    bus.write16(0x0500_0000 + 2 * (3 * 16 + 2), 0x7C00);
    for _ in 0..961 {
        assert_eq!(bus.tick(), Ok(false));
    }
    assert_eq!(&bus.ppu.buffer[24..33], &[0xF8, 0, 0, 0, 0, 0xF8, 0, 0, 0]);
    assert_eq!(&bus.ppu.buffer[0..3], &[0, 0, 0]);
    // 256 colours: each byte is a palette entry
    let mut bus = Bus::new();
    bus.write16(0x0400_0000, 0);
    bus.write16(0x0400_0008, 0x0084);
    bus.write16(0x0600_0000, 0x0001);
    bus.write16(0x0600_4000 + 64, 0x0900);
    bus.write16(0x0500_0012, 0x03E0);
    for _ in 0..961 {
        assert_eq!(bus.tick(), Ok(false));
    }
    assert_eq!(&bus.ppu.buffer[0..6], &[0, 0, 0, 0, 0xF8, 0]);
}

#[test]
fn a_tile_outside_video_memory_is_a_fault() {
    let mut bus = Bus::new();
    bus.write16(0x0400_0000, 0);
    bus.write16(0x0400_0008, 0x008C);
    bus.write16(0x0600_0000, 0x03FF);
    for _ in 0..960 {
        assert_eq!(bus.tick(), Ok(false));
    }
    let before = bus.ppu.buffer.clone();
    assert_eq!(bus.tick(), Err(Fault::TileOutOfRange { offset: 0x3FF * 64 + 0xC000 }));
    assert_eq!(bus.tick(), Err(Fault::TileOutOfRange { offset: 0x3FF * 64 + 0xC000 }));
    assert!(bus.ppu.buffer == before);
    assert!(bus.ppu.state == PPU_state::HDRAW { cycles_left: 0 });
}

#[test]
fn the_machine_steps_processor_and_picture_unit_together() {
    let mut gba = spAnGB::new();
    let mut rom = vec![0u8; 0x200];
    // MOV r2, #0x2A; B .
    rom[0..4].copy_from_slice(&0xE3A0_202Au32.to_le_bytes());
    rom[4..8].copy_from_slice(&0xEAFF_FFFEu32.to_le_bytes());
    rom[8..12].copy_from_slice(&0xE1A0_0000u32.to_le_bytes());
    let mut sum: u8 = 0;
    for i in 0xA0..=0xBC {
        sum = sum.wrapping_sub(rom[i]);
    }
    rom[0xBD] = sum.wrapping_sub(0x19);
    gba.bus.cartridge.insert(rom).unwrap();
    gba.init();
    assert_eq!(gba.cpu.pipeline[2], 0xE3A0_202A);
    assert_eq!(gba.step(), Ok(false));
    assert_eq!(gba.cpu.register[2], 0x2A);
    assert!(gba.bus.ppu.state == PPU_state::HDRAW { cycles_left: 959 });
    let mut frames = 0;
    for _ in 0..281283 {
        if gba.step().unwrap() {
            frames += 1;
        }
    }
    assert_eq!(frames, 1);
    assert_eq!(gba.cpu.register[15], 0x0800_000C);
}

#[test]
fn the_machine_stops_on_a_fault() {
    let mut gba = spAnGB::new();
    gba.init();
    // no cartridge: the first instruction reads as zero
    assert_eq!(gba.step(), Err(Fault::EmptyPipeline { pc: 0x0800_0008 }));
    assert!(gba.bus.ppu.state == PPU_state::new_hdraw());
}
