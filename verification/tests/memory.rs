use bootloader::acpi::checksum::region_sum;
use bootloader::mem::{PhysMemory, PHYS_LIMIT};

#[test]
fn unmapped_memory_reads_zero() {
    let mem = PhysMemory::new();
    assert_eq!(mem.read_u8(0), 0);
    assert_eq!(mem.read_u16(0x40e), 0);
    assert_eq!(mem.read_u32(0xE0000), 0);
    assert_eq!(mem.read_u64(u64::MAX), 0);
}

#[test]
fn mapped_bytes_are_read_back() {
    let mut mem = PhysMemory::new();
    mem.map(0x1000, vec![0x11, 0x22, 0x33, 0x44, 0x55, 0x66, 0x77, 0x88]);
    assert_eq!(mem.read_u8(0x0fff), 0);
    assert_eq!(mem.read_u8(0x1000), 0x11);
    assert_eq!(mem.read_u8(0x1007), 0x88);
    assert_eq!(mem.read_u8(0x1008), 0);
    assert_eq!(mem.read_at(0x1000, 3), 0x44);
}

#[test]
fn multi_byte_reads_are_little_endian() {
    let mut mem = PhysMemory::new();
    mem.map(0x2000, vec![0x11, 0x22, 0x33, 0x44, 0x55, 0x66, 0x77, 0x88]);
    assert_eq!(mem.read_u16(0x2000), 0x2211);
    assert_eq!(mem.read_u32(0x2000), 0x4433_2211);
    assert_eq!(mem.read_u32_at(0x2000, 4), 0x8877_6655);
    assert_eq!(mem.read_u64(0x2000), 0x8877_6655_4433_2211);
}

#[test]
fn reads_across_the_end_of_a_region_see_zero_beyond_it() {
    let mut mem = PhysMemory::new();
    mem.map(0x3000, vec![0xaa, 0xbb]);
    assert_eq!(mem.read_u32(0x3000), 0x0000_bbaa);
    assert_eq!(mem.read_u16(0x3001), 0x00bb);
    assert_eq!(mem.read_u64(0x2ffc), 0x0000_bbaa_0000_0000);
}

#[test]
fn the_region_mapped_last_is_seen() {
    let mut mem = PhysMemory::new();
    mem.map(0x1000, vec![1, 2, 3, 4]);
    mem.map(0x1002, vec![9]);
    assert_eq!(mem.read_u8(0x1000), 1);
    assert_eq!(mem.read_u8(0x1001), 2);
    assert_eq!(mem.read_u8(0x1002), 9);
    assert_eq!(mem.read_u8(0x1003), 4);
}

#[test]
fn addresses_beyond_the_physical_limit_read_zero() {
    let mut mem = PhysMemory::new();
    mem.map(PHYS_LIMIT - 2, vec![7, 8, 9, 10]);
    assert_eq!(mem.read_u8(PHYS_LIMIT - 2), 7);
    assert_eq!(mem.read_u8(PHYS_LIMIT - 1), 8);
    assert_eq!(mem.read_u8(PHYS_LIMIT), 0);
    assert_eq!(mem.read_u8(PHYS_LIMIT + 1), 0);
    assert_eq!(mem.read_u32(PHYS_LIMIT - 2), 0x0000_0807);
}

#[test]
fn reads_at_the_top_of_the_address_space_do_not_wrap() {
    let mut mem = PhysMemory::new();
    mem.map(0, vec![0xff; 16]);
    assert_eq!(mem.read_at(u64::MAX, 1), 0);
    assert_eq!(mem.read_u32_at(u64::MAX - 1, 4), 0);
    assert_eq!(mem.read_u64(u64::MAX - 3), 0);
}

#[test]
fn region_sum_adds_modulo_256() {
    let mut mem = PhysMemory::new();
    mem.map(0x500, vec![200, 100, 1, 255]);
    assert_eq!(region_sum(&mem, 0x500, 0), 0);
    assert_eq!(region_sum(&mem, 0x500, 1), 200);
    assert_eq!(region_sum(&mem, 0x500, 2), 44);
    assert_eq!(region_sum(&mem, 0x500, 3), 45);
    assert_eq!(region_sum(&mem, 0x500, 4), 44);
    assert_eq!(region_sum(&mem, 0x500, 10), 44);
    assert_eq!(region_sum(&mem, PHYS_LIMIT, 1000), 0);
}
