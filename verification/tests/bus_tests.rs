use nes_core::Bus;
use nes_core::Catridge;
use nes_core::PPU;

fn nrom_image(prg_banks: u8, chr_banks: u8) -> Vec<u8> {
    let mut img = vec![0u8; 16 + prg_banks as usize * 0x4000 + chr_banks as usize * 0x2000];
    img[4] = prg_banks;
    img[5] = chr_banks;
    img
}

#[test]
fn ram_is_mirrored_across_the_low_window() {
    let mut bus = Bus::new();
    bus.write_byte(0x0005, 0xab);
    assert_eq!(bus.read_byte(0x0005), 0xab);
    assert_eq!(bus.read_byte(0x0805), 0xab);
    assert_eq!(bus.read_byte(0x1005), 0xab);
    assert_eq!(bus.read_byte(0x1805), 0xab);
    bus.write_byte(0x1fff, 0xcd);
    assert_eq!(bus.read_byte(0x07ff), 0xcd);
}

#[test]
fn video_window_reads_ff_and_drops_writes() {
    let mut bus = Bus::new();
    assert_eq!(bus.read_byte(0x2000), 0xff);
    bus.write_byte(0x2000, 0x55);
    assert_eq!(bus.read_byte(0x2000), 0xff);
    assert_eq!(bus.read_byte(0x3fff), 0xff);
}

#[test]
fn unmapped_reads_yield_open_bus_zero() {
    let mut bus = Bus::new();
    assert_eq!(bus.read_byte(0x4020), 0);
    assert_eq!(bus.read_byte(0x8000), 0);
    bus.write_byte(0x8000, 0x77);
    assert_eq!(bus.read_byte(0x8000), 0);
}

#[test]
fn every_access_costs_exactly_one_cycle() {
    let mut bus = Bus::new();
    assert_eq!(bus.cycles_count, 0);
    bus.read_byte(0x0000);
    assert_eq!(bus.cycles_count, 1);
    bus.write_byte(0x0000, 1);
    assert_eq!(bus.cycles_count, 2);
    bus.read_byte(0x2000);
    assert_eq!(bus.cycles_count, 3);
    bus.write_byte(0x9000, 1);
    assert_eq!(bus.cycles_count, 4);
    bus.read_word(0x0000);
    assert_eq!(bus.cycles_count, 6);
}

#[test]
fn clock_and_clock_multiple_advance_the_counter() {
    let mut bus = Bus::new();
    bus.clock();
    assert_eq!(bus.cycles_count, 1);
    bus.clock_multiple(7);
    assert_eq!(bus.cycles_count, 8);
    bus.clock_multiple(0);
    assert_eq!(bus.cycles_count, 8);
}

#[test]
fn word_round_trip_costs_two_cycles_each_way() {
    let mut bus = Bus::new();
    let before = bus.cycles_count;
    bus.write_word(0x0123, 0xabcd);
    assert_eq!(bus.cycles_count, before + 2);
    let v = bus.read_word(0x0123);
    assert_eq!(v, 0xabcd);
    assert_eq!(bus.cycles_count, before + 4);
}

#[test]
fn words_are_little_endian() {
    let mut bus = Bus::new();
    bus.write_byte(0x0000, 0x34);
    bus.write_byte(0x0001, 0x12);
    assert_eq!(bus.read_word(0x0000), 0x1234);
    bus.write_word(0x0010, 0xbeef);
    assert_eq!(bus.read_byte(0x0010), 0xef);
    assert_eq!(bus.read_byte(0x0011), 0xbe);
}

#[test]
fn cartridge_program_memory_is_read_through_the_mapper() {
    let mut img = nrom_image(1, 0);
    img[16] = 0x11;
    img[16 + 0x3fff] = 0x22;
    let cart = Catridge::new(&img).unwrap();
    let mut bus = Bus::new();
    bus.connect_catridge(cart);
    assert_eq!(bus.read_byte(0x8000), 0x11);
    assert_eq!(bus.read_byte(0xbfff), 0x22);
    // one bank is mirrored across the range
    assert_eq!(bus.read_byte(0xc000), 0x11);
    assert_eq!(bus.read_byte(0xffff), 0x22);
    // below the mapped range the mapper misses
    assert_eq!(bus.read_byte(0x5000), 0);
}

#[test]
fn cartridge_writes_land_in_program_memory_on_a_hit() {
    let img = nrom_image(1, 0);
    let cart = Catridge::new(&img).unwrap();
    let mut bus = Bus::new();
    bus.connect_catridge(cart);
    bus.write_byte(0x8005, 0x99);
    assert_eq!(bus.read_byte(0x8005), 0x99);
    assert_eq!(bus.read_byte(0xc005), 0x99);
    // a miss is dropped silently
    bus.write_byte(0x4100, 0x42);
    assert_eq!(bus.read_byte(0x4100), 0);
}

#[test]
fn two_bank_cartridge_is_not_mirrored() {
    let mut img = nrom_image(2, 0);
    img[16] = 0x11;
    img[16 + 0x4000] = 0x22;
    let cart = Catridge::new(&img).unwrap();
    let mut bus = Bus::new();
    bus.connect_catridge(cart);
    assert_eq!(bus.read_byte(0x8000), 0x11);
    assert_eq!(bus.read_byte(0xc000), 0x22);
}

#[test]
fn cartridge_rejects_unacceptable_headers() {
    // too short for a header
    assert!(Catridge::new(&[0u8; 8]).is_none());
    // unsupported mapper identifier (high nibble of byte 6)
    let mut img = nrom_image(1, 0);
    img[6] = 0x10;
    assert!(Catridge::new(&img).is_none());
    // unsupported mapper identifier (high nibble of byte 7)
    let mut img = nrom_image(1, 0);
    img[7] = 0x20;
    assert!(Catridge::new(&img).is_none());
    // bank count the scheme does not support
    let mut img = nrom_image(1, 0);
    img[4] = 3;
    assert!(Catridge::new(&img).is_none());
    // image shorter than the announced banks
    let mut img = nrom_image(1, 0);
    img[4] = 2;
    assert!(Catridge::new(&img).is_none());
}

#[test]
fn video_register_window_stub_contract() {
    let mut ppu = PPU::new();
    for index in 0..8u16 {
        assert_eq!(ppu.read_register(index), 0xff);
        ppu.write_register(index, 0x12);
        assert_eq!(ppu.read_register(index), 0xff);
    }
}

#[test]
fn cartridge_accepts_a_low_nibble_only_header() {
    // the low nibbles of bytes 6 and 7 do not enter the mapper identifier
    let mut img = nrom_image(1, 1);
    img[6] = 0x0f;
    img[7] = 0x0b;
    assert!(Catridge::new(&img).is_some());
}
