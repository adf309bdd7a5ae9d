use bootloader::flatten::{
    flatten_bootloader, load_segment, pack_sections, FlattenError, ProgramHeader, Section, STAGE2_SIZE,
};

fn header(seg_type: u32, offset: usize, vaddr: usize, filesz: usize, memsz: usize) -> ProgramHeader {
    ProgramHeader { seg_type, offset, vaddr, filesz, memsz }
}

#[test]
fn segment_is_copied_and_padded_with_zeros() {
    let image: Vec<u8> = (0u8..32).collect();
    let section = load_segment(&image, &header(1, 4, 0x7e00, 3, 6));
    assert_eq!(section, Section { vaddr: 0x7e00, memsz: 6, data: vec![4, 5, 6, 0, 0, 0] });
}

#[test]
fn only_loadable_segments_become_sections() {
    let image: Vec<u8> = (0u8..32).collect();
    let headers = [
        header(6, 0, 0, 32, 32),
        header(1, 8, 0x1000, 4, 4),
        header(2, 100, 0, 100, 0),
        header(1, 30, 0x2000, 2, 5),
        header(1, 0, 0x3000, 0, 0),
    ];
    assert_eq!(
        flatten_bootloader(&image, &headers),
        Ok(vec![
            Section { vaddr: 0x1000, memsz: 4, data: vec![8, 9, 10, 11] },
            Section { vaddr: 0x2000, memsz: 5, data: vec![30, 31, 0, 0, 0] },
            Section { vaddr: 0x3000, memsz: 0, data: vec![] },
        ])
    );
}

#[test]
fn no_headers_give_no_sections() {
    assert_eq!(flatten_bootloader(&[1, 2, 3], &[]), Ok(vec![]));
}

#[test]
fn loadable_segment_beyond_the_file_is_refused() {
    let image = [0u8; 16];
    assert_eq!(flatten_bootloader(&image, &[header(1, 10, 0, 7, 7)]), Err(FlattenError::BadSegment));
    assert_eq!(flatten_bootloader(&image, &[header(1, 17, 0, 0, 0)]), Err(FlattenError::BadSegment));
    assert_eq!(
        flatten_bootloader(&image, &[header(1, usize::MAX, 0, 2, 2)]),
        Err(FlattenError::BadSegment)
    );
    assert!(flatten_bootloader(&image, &[header(1, 16, 0, 0, 0)]).is_ok());
}

#[test]
fn segment_larger_in_the_file_than_in_memory_is_refused() {
    let image = [0u8; 16];
    assert_eq!(flatten_bootloader(&image, &[header(1, 0, 0, 8, 7)]), Err(FlattenError::BadSegment));
}

#[test]
fn block_holds_count_then_sections_then_zeros() {
    let sections = vec![
        Section { vaddr: 0x7e00, memsz: 3, data: vec![0xaa, 0xbb, 0xcc] },
        Section { vaddr: 0x1234_5678, memsz: 0x0102, data: vec![0xdd] },
    ];
    let block = pack_sections(&sections).unwrap();
    assert_eq!(block.len(), STAGE2_SIZE);
    assert_eq!(block.len(), 512 * 60);
    let expected: Vec<u8> = vec![
        2, 0, 0, 0, // number of sections
        0x00, 0x7e, 0, 0, 3, 0, 0, 0, 0xaa, 0xbb, 0xcc, // first
        0x78, 0x56, 0x34, 0x12, 0x02, 0x01, 0, 0, 0xdd, // second
    ];
    assert_eq!(&block[..expected.len()], &expected[..]);
    assert!(block[expected.len()..].iter().all(|&b| b == 0));
}

#[test]
fn block_without_sections_is_refused() {
    assert_eq!(pack_sections(&vec![]), Err(FlattenError::NoSections));
}

#[test]
fn block_must_leave_room_for_padding() {
    let largest = STAGE2_SIZE - 4 - 8 - 1;
    let fits = vec![Section { vaddr: 0, memsz: largest, data: vec![1; largest] }];
    let block = pack_sections(&fits).unwrap();
    assert_eq!(block.len(), STAGE2_SIZE);
    assert_eq!(block[STAGE2_SIZE - 2], 1);
    assert_eq!(block[STAGE2_SIZE - 1], 0);

    let full = vec![Section { vaddr: 0, memsz: largest + 1, data: vec![1; largest + 1] }];
    assert_eq!(pack_sections(&full), Err(FlattenError::TooLarge));

    let two = vec![
        Section { vaddr: 0, memsz: 20000, data: vec![1; 20000] },
        Section { vaddr: 0, memsz: 20000, data: vec![1; 20000] },
    ];
    assert_eq!(pack_sections(&two), Err(FlattenError::TooLarge));
}

#[test]
fn flattened_image_packs_into_a_block() {
    let image: Vec<u8> = (0u8..=255).collect();
    let headers = [header(1, 0x10, 0x7e00, 0x20, 0x30), header(4, 0, 0, 0, 0)];
    let sections = flatten_bootloader(&image, &headers).unwrap();
    let block = pack_sections(&sections).unwrap();
    assert_eq!(&block[..12], &[1, 0, 0, 0, 0x00, 0x7e, 0, 0, 0x30, 0, 0, 0]);
    assert_eq!(&block[12..12 + 0x20], &image[0x10..0x30]);
    assert!(block[12 + 0x20..].iter().all(|&b| b == 0));
}
