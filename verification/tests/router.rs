use gb_core::mmu::{MemError, MMU};

#[test]
fn fresh_router_reads_zero_everywhere_mapped() {
    let m = MMU::new();
    assert_eq!(m.rb(0x0000), Ok(0));
    assert_eq!(m.rb(0x3fff), Ok(0));
    assert_eq!(m.rb(0x4000), Ok(0));
    assert_eq!(m.rb(0x8000), Ok(0));
    assert_eq!(m.rb(0xa000), Ok(0));
    assert_eq!(m.rb(0xc000), Ok(0));
    assert_eq!(m.rb(0xfe00), Ok(0));
    assert_eq!(m.rb(0xff00), Ok(0));
    assert_eq!(m.rb(0xffff), Ok(0));

    let d = MMU::default();
    assert_eq!(d.rb(0x0000), Ok(0));
    assert_eq!(d.rb(0xffff), Ok(0));
}

#[test]
fn working_ram_mirror_read_and_write() {
    let mut m = MMU::new();
    assert_eq!(m.wb(0xc000, 7), Ok(()));
    assert_eq!(m.rb(0xe000), Ok(7));
    assert_eq!(m.rb(0xc000), Ok(7));

    // The echo works in the other direction as well.
    assert_eq!(m.wb(0xfdff, 9), Ok(()));
    // 0xC000 + ((0xFDFF - 0xC000) % 8192) == 0xDDFF
    assert_eq!(m.rb(0xddff), Ok(9));

    // Distinct bytes modulo 8 KiB stay distinct.
    assert_eq!(m.wb(0xc001, 3), Ok(()));
    assert_eq!(m.rb(0xe001), Ok(3));
    assert_eq!(m.rb(0xe000), Ok(7));
}

#[test]
fn unmapped_hole_faults_on_read_and_write() {
    let mut m = MMU::new();
    assert_eq!(m.rb(0xfea0), Err(MemError::UnmappedAccess));
    assert_eq!(m.rb(0xfecd), Err(MemError::UnmappedAccess));
    assert_eq!(m.rb(0xfeff), Err(MemError::UnmappedAccess));
    assert_eq!(m.wb(0xfea0, 1), Err(MemError::UnmappedAccess));
    assert_eq!(m.wb(0xfeff, 1), Err(MemError::UnmappedAccess));

    // The neighbours of the hole are mapped.
    assert_eq!(m.rb(0xfe9f), Ok(0));
    assert_eq!(m.rb(0xff00), Ok(0));
    assert_eq!(m.wb(0xfe9f, 5), Ok(()));
    assert_eq!(m.wb(0xff00, 6), Ok(()));
}

#[test]
fn boot_overlay_selects_firmware_then_bank0() {
    let mut m = MMU::new();
    let mut bios = [0u8; 256];
    bios[0x50] = 0xab;
    m.load_bios(&bios);
    let mut cart = vec![0u8; 0x150];
    cart[0x50] = 0xcd;
    m.load_cartridge(&cart);

    // Boot overlay active: the firmware byte wins.
    assert_eq!(m.rb(0x0050), Ok(0xab));
    m.set_boot_active(false);
    assert_eq!(m.rb(0x0050), Ok(0xcd));
}

#[test]
fn boot_overlay_covers_exactly_the_low_256_bytes() {
    let mut m = MMU::new();
    let mut bios = [0u8; 256];
    bios[0xff] = 0x11;
    m.load_bios(&bios);
    let mut cart = vec![0u8; 0x150];
    cart[0xff] = 0x22;
    cart[0x100] = 0x33;
    m.load_cartridge(&cart);

    assert_eq!(m.rb(0x00ff), Ok(0x11));
    // One past the overlay, bank 0 shows through even while booting.
    assert_eq!(m.rb(0x0100), Ok(0x33));
    m.set_boot_active(false);
    assert_eq!(m.rb(0x00ff), Ok(0x22));
}

#[test]
fn rom_range_rejects_writes_regardless_of_boot_flag() {
    let mut m = MMU::new();
    assert_eq!(m.wb(0x0000, 1), Err(MemError::ReadOnlyViolation));
    assert_eq!(m.wb(0x00ff, 1), Err(MemError::ReadOnlyViolation));
    assert_eq!(m.wb(0x0150, 1), Err(MemError::ReadOnlyViolation));
    assert_eq!(m.wb(0x3fff, 1), Err(MemError::ReadOnlyViolation));
    assert_eq!(m.wb(0x4000, 1), Err(MemError::ReadOnlyViolation));
    assert_eq!(m.wb(0x7fff, 1), Err(MemError::ReadOnlyViolation));
    m.set_boot_active(false);
    assert_eq!(m.wb(0x0000, 1), Err(MemError::ReadOnlyViolation));
    assert_eq!(m.wb(0x7fff, 1), Err(MemError::ReadOnlyViolation));
    // The first writable byte sits just past the ROM range.
    assert_eq!(m.wb(0x8000, 1), Ok(()));
}

#[test]
fn every_writable_region_reads_back() {
    let mut m = MMU::new();
    assert_eq!(m.wb(0x8000, 0x10), Ok(()));
    assert_eq!(m.rb(0x8000), Ok(0x10));
    assert_eq!(m.wb(0x9fff, 0x11), Ok(()));
    assert_eq!(m.rb(0x9fff), Ok(0x11));
    assert_eq!(m.wb(0xa000, 0x12), Ok(()));
    assert_eq!(m.rb(0xa000), Ok(0x12));
    assert_eq!(m.wb(0xbfff, 0x13), Ok(()));
    assert_eq!(m.rb(0xbfff), Ok(0x13));
    assert_eq!(m.wb(0xfe00, 0x14), Ok(()));
    assert_eq!(m.rb(0xfe00), Ok(0x14));
    assert_eq!(m.wb(0xfe9f, 0x15), Ok(()));
    assert_eq!(m.rb(0xfe9f), Ok(0x15));
    assert_eq!(m.wb(0xff00, 0x16), Ok(()));
    assert_eq!(m.rb(0xff00), Ok(0x16));
    assert_eq!(m.wb(0xff7f, 0x17), Ok(()));
    assert_eq!(m.rb(0xff7f), Ok(0x17));
    assert_eq!(m.wb(0xff80, 0x18), Ok(()));
    assert_eq!(m.rb(0xff80), Ok(0x18));
    assert_eq!(m.wb(0xffff, 0x19), Ok(()));
    assert_eq!(m.rb(0xffff), Ok(0x19));
}

#[test]
fn two_byte_read_is_big_endian() {
    let mut m = MMU::new();
    assert_eq!(m.wb(0xc000, 0xab), Ok(()));
    assert_eq!(m.wb(0xc001, 0xcd), Ok(()));
    assert_eq!(m.r2b(0xc000), Ok(0xabcd));
}

#[test]
fn two_byte_read_faults_when_either_byte_is_unmapped() {
    let m = MMU::new();
    assert_eq!(m.r2b(0xfe9f), Err(MemError::UnmappedAccess));
    assert_eq!(m.r2b(0xfea0), Err(MemError::UnmappedAccess));
    assert_eq!(m.r2b(0xfeff), Err(MemError::UnmappedAccess));
    // One byte past the hole, both bytes are mapped again.
    assert_eq!(m.r2b(0xff00), Ok(0));
}

#[test]
fn short_cartridge_windows_are_zero_filled() {
    let mut m = MMU::new();
    let mut cart = vec![0u8; 0x150];
    cart[0x14f] = 0x77;
    m.load_cartridge(&cart);
    m.set_boot_active(false);
    assert_eq!(m.rb(0x014f), Ok(0x77));
    // Past the end of the image, bank 0 reads zero.
    assert_eq!(m.rb(0x0150), Ok(0));
    assert_eq!(m.rb(0x3fff), Ok(0));
    // The switched bank has no backing bytes at all in a short image.
    assert_eq!(m.rb(0x4000), Ok(0));
    assert_eq!(m.rb(0x7fff), Ok(0));
}

#[test]
fn full_cartridge_fills_both_banks() {
    let mut m = MMU::new();
    let mut cart = vec![0u8; 0x8000];
    cart[0x0000] = 0x01;
    cart[0x3fff] = 0x02;
    cart[0x4000] = 0x03;
    cart[0x7fff] = 0x04;
    m.load_cartridge(&cart);
    m.set_boot_active(false);
    assert_eq!(m.rb(0x0000), Ok(0x01));
    assert_eq!(m.rb(0x3fff), Ok(0x02));
    assert_eq!(m.rb(0x4000), Ok(0x03));
    assert_eq!(m.rb(0x7fff), Ok(0x04));
}
