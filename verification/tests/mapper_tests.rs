use nes_core::Mapper;
use nes_core::Mapper0;
use nes_core::MapperInfo;

#[test]
fn mapper0_one_bank_mirrors_program_reads() {
    let m = Mapper0::new(MapperInfo { prg_banks: 1, chr_banks: 1 });
    let mut out: u16 = 0;
    assert!(m.map_prg_read(0x8000, &mut out));
    assert_eq!(out, 0x0000);
    assert!(m.map_prg_read(0xc123, &mut out));
    assert_eq!(out, 0x0123);
    assert!(m.map_prg_read(0xffff, &mut out));
    assert_eq!(out, 0x3fff);
}

#[test]
fn mapper0_two_banks_expose_the_full_range() {
    let m = Mapper0::new(MapperInfo { prg_banks: 2, chr_banks: 1 });
    let mut out: u16 = 0;
    assert!(m.map_prg_read(0xc123, &mut out));
    assert_eq!(out, 0x4123);
    assert!(m.map_prg_read(0xffff, &mut out));
    assert_eq!(out, 0x7fff);
}

#[test]
fn mapper0_misses_below_the_program_range() {
    let m = Mapper0::new(MapperInfo { prg_banks: 1, chr_banks: 1 });
    let mut out: u16 = 0x5555;
    assert!(!m.map_prg_read(0x7fff, &mut out));
    assert_eq!(out, 0x5555);
    assert!(!m.map_prg_write(0x4000, &mut out));
}

#[test]
fn mapper0_program_writes_map_like_reads() {
    let m = Mapper0::new(MapperInfo { prg_banks: 1, chr_banks: 1 });
    let mut out: u16 = 0;
    assert!(m.map_prg_write(0x9001, &mut out));
    assert_eq!(out, 0x1001);
}

#[test]
fn mapper0_character_reads_pass_through_and_writes_miss() {
    let m = Mapper0::new(MapperInfo { prg_banks: 1, chr_banks: 1 });
    let mut out: u16 = 0;
    assert!(m.map_chr_read(0x1abc, &mut out));
    assert_eq!(out, 0x1abc);
    assert!(!m.map_chr_read(0x2000, &mut out));
    assert!(!m.map_chr_write(0x0000, &mut out));
}
