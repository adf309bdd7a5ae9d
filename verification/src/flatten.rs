//! Flattening the boot stage's ELF image into the block that goes on disk.
//!
//! Each loadable segment becomes a section: its load address, its size in
//! memory, and its bytes, padded with zeros to that size. The block on disk
//! is the number of sections, then the sections one after the other, then
//! zeros up to 60 sectors.

use vstd::prelude::*;

verus! {

/// Segment type of a loadable segment.
pub const PT_LOAD: u32 = 1;

/// Bytes in the block on disk: 60 sectors of 512 bytes.
pub const STAGE2_SIZE: usize = 30720;

/// What flattening needs of an ELF program header.
#[derive(Debug, Clone, Copy, PartialEq, Eq, Structural)]
pub struct ProgramHeader {
    pub seg_type: u32,
    pub offset: usize,
    pub vaddr: usize,
    pub filesz: usize,
    pub memsz: usize,
}

/// A loadable segment as it will lie in memory.
#[derive(Debug, PartialEq, Eq)]
pub struct Section {
    pub vaddr: usize,
    pub memsz: usize,
    pub data: Vec<u8>,
}

/// The contents of a [`Section`].
pub struct SectionView {
    pub vaddr: usize,
    pub memsz: usize,
    pub data: Seq<u8>,
}

impl View for Section {
    type V = SectionView;

    open spec fn view(&self) -> SectionView {
        SectionView { vaddr: self.vaddr, memsz: self.memsz, data: self.data@ }
    }
}

/// Why an image cannot be flattened.
#[derive(Debug, Clone, Copy, PartialEq, Eq, Structural)]
pub enum FlattenError {
    /// A loadable segment reaches past the end of the file, or is larger in
    /// the file than in memory.
    BadSegment,
    /// There is no section to write.
    NoSections,
    /// The sections do not fit in the block on disk.
    TooLarge,
}

impl ProgramHeader {
    /// Whether the segment is to be loaded.
    pub open spec fn loadable(&self) -> bool {
        self.seg_type == PT_LOAD
    }

    /// Whether the segment lies within a file of `len` bytes and is no
    /// larger there than in memory.
    pub open spec fn fits(&self, len: nat) -> bool {
        self.offset + self.filesz <= len && self.filesz <= self.memsz
    }

    /// The segment as it will lie in memory: its bytes in the file, then
    /// zeros up to its size in memory.
    pub open spec fn section(&self, image: Seq<u8>) -> SectionView {
        SectionView {
            vaddr: self.vaddr,
            memsz: self.memsz,
            data: image.subrange(self.offset as int, self.offset + self.filesz) + Seq::new(
                (self.memsz - self.filesz) as nat,
                |i: int| 0u8,
            ),
        }
    }
}

/// Whether every loadable segment fits a file of `len` bytes.
pub open spec fn all_fit(len: nat, headers: Seq<ProgramHeader>) -> bool {
    forall|i: int| 0 <= i < headers.len() && #[trigger] headers[i].loadable() ==> headers[i].fits(len)
}

/// The sections of the loadable segments, in the order of their headers.
pub open spec fn sections_of(image: Seq<u8>, headers: Seq<ProgramHeader>) -> Seq<SectionView>
    decreases headers.len(),
{
    if headers.len() == 0 {
        Seq::empty()
    } else if headers.last().loadable() {
        sections_of(image, headers.drop_last()).push(headers.last().section(image))
    } else {
        sections_of(image, headers.drop_last())
    }
}

/// The views of a list of sections.
pub open spec fn views(sections: Seq<Section>) -> Seq<SectionView> {
    Seq::new(sections.len(), |i: int| sections[i]@)
}

/// A 32-bit number as four bytes, lowest first.
pub open spec fn le_bytes(x: u32) -> Seq<u8> {
    seq![
        (x % 0x100) as u8,
        (x / 0x100 % 0x100) as u8,
        (x / 0x1_0000 % 0x100) as u8,
        (x / 0x100_0000) as u8,
    ]
}

/// The low 32 bits of a size or an address.
pub open spec fn low32(x: usize) -> u32 {
    (x as int % 0x1_0000_0000) as u32
}

/// The sections one after the other, each as load address, size in memory,
/// and bytes.
pub open spec fn packed(sections: Seq<SectionView>) -> Seq<u8>
    decreases sections.len(),
{
    if sections.len() == 0 {
        Seq::empty()
    } else {
        packed(sections.drop_last()) + le_bytes(low32(sections.last().vaddr)) + le_bytes(
            low32(sections.last().memsz),
        ) + sections.last().data
    }
}

/// The block before padding: the number of sections, then the sections.
pub open spec fn block_body(sections: Seq<SectionView>) -> Seq<u8> {
    le_bytes(low32(sections.len() as usize)) + packed(sections)
}

/// Appends `x` to `bytes` as four bytes, lowest first.
pub fn push_le_bytes(bytes: &mut Vec<u8>, x: u32)
    ensures
        final(bytes)@ == old(bytes)@ + le_bytes(x),
{
    let ghost before = bytes@;
    bytes.push((x % 0x100) as u8);
    bytes.push((x / 0x100 % 0x100) as u8);
    bytes.push((x / 0x1_0000 % 0x100) as u8);
    bytes.push((x / 0x100_0000) as u8);
    assert(bytes@ =~= before + le_bytes(x));
}

/// The low 32 bits of a size or an address.
pub fn low_bits(x: usize) -> (r: u32)
    ensures
        r == low32(x),
{
    (x as u64 % 0x1_0000_0000) as u32
}

/// Lays out one segment as it will lie in memory.
pub fn load_segment(image: &[u8], header: &ProgramHeader) -> (section: Section)
    requires
        header.fits(image@.len()),
    ensures
        section@ == header.section(image@),
{
    let mut data: Vec<u8> = Vec::new();
    let len = image.len();
    let mut i: usize = 0;
    while i < header.filesz
        invariant
            i <= header.filesz,
            len == image@.len(),
            header.fits(image@.len()),
            data@ == image@.subrange(header.offset as int, header.offset + i),
        decreases header.filesz - i,
    {
        data.push(image[header.offset + i]);
        assert(data@ =~= image@.subrange(header.offset as int, header.offset + i + 1));
        i = i + 1;
    }
    let ghost file_part = data@;
    let mut j: usize = header.filesz;
    while j < header.memsz
        invariant
            header.filesz <= j <= header.memsz,
            data@ == file_part + Seq::new((j - header.filesz) as nat, |i: int| 0u8),
        decreases header.memsz - j,
    {
        data.push(0);
        assert(data@ =~= file_part + Seq::new((j + 1 - header.filesz) as nat, |i: int| 0u8));
        j = j + 1;
    }
    Section { vaddr: header.vaddr, memsz: header.memsz, data }
}

/// The section of every loadable segment of `image`, in the order of
/// `headers`. Fails if a loadable segment does not fit the file.
pub fn flatten_bootloader(image: &[u8], headers: &[ProgramHeader]) -> (r: Result<
    Vec<Section>,
    FlattenError,
>)
    ensures
        match r {
            Ok(sections) => all_fit(image@.len(), headers@) && views(sections@) == sections_of(
                image@,
                headers@,
            ),
            Err(e) => e == FlattenError::BadSegment && !all_fit(image@.len(), headers@),
        },
{
    let mut sections: Vec<Section> = Vec::new();
    let len = image.len();
    let mut i: usize = 0;
    while i < headers.len()
        invariant
            i <= headers.len(),
            len == image@.len(),
            all_fit(image@.len(), headers@.take(i as int)),
            views(sections@) == sections_of(image@, headers@.take(i as int)),
        decreases headers.len() - i,
    {
        let header = &headers[i];
        proof {
            assert(headers@.take(i + 1).drop_last() == headers@.take(i as int));
            assert(headers@.take(i + 1).last() == headers@[i as int]);
        }
        if header.seg_type == PT_LOAD {
            let within = match header.offset.checked_add(header.filesz) {
                Some(end) => end <= len,
                None => false,
            };
            if !within || header.filesz > header.memsz {
                assert(headers@[i as int].loadable() && !headers@[i as int].fits(image@.len()));
                return Err(FlattenError::BadSegment);
            }
            let section = load_segment(image, header);
            let ghost before = sections@;
            sections.push(section);
            assert(views(sections@) =~= views(before).push(section@));
        }
        assert forall|k: int|
            0 <= k < headers@.take(i + 1).len() && #[trigger] headers@.take(
                i + 1,
            )[k].loadable() implies headers@.take(i + 1)[k].fits(image@.len()) by {
            if k < i {
                assert(headers@.take(i as int)[k] == headers@.take(i + 1)[k]);
            }
        }
        i = i + 1;
    }
    assert(headers@.take(i as int) == headers@);
    Ok(sections)
}

/// Writes the block that goes on disk: the number of sections, the sections,
/// and zeros up to `STAGE2_SIZE`. Fails if there is no section, or if the
/// sections leave no room for padding.
pub fn pack_sections(sections: &Vec<Section>) -> (r: Result<Vec<u8>, FlattenError>)
    ensures
        match r {
            Ok(block) => {
                &&& sections@.len() != 0
                &&& block_body(views(sections@)).len() < STAGE2_SIZE
                &&& block@.len() == STAGE2_SIZE
                &&& block@ == block_body(views(sections@)) + Seq::new(
                    (STAGE2_SIZE - block_body(views(sections@)).len()) as nat,
                    |i: int| 0u8,
                )
            },
            Err(e) => if sections@.len() == 0 {
                e == FlattenError::NoSections
            } else {
                e == FlattenError::TooLarge && block_body(views(sections@)).len() >= STAGE2_SIZE
            },
        },
{
    if sections.len() == 0 {
        return Err(FlattenError::NoSections);
    }
    let mut bytes: Vec<u8> = Vec::new();
    push_le_bytes(&mut bytes, low_bits(sections.len()));
    let ghost head = bytes@;
    let mut i: usize = 0;
    while i < sections.len()
        invariant
            i <= sections.len(),
            head == le_bytes(low32(sections@.len() as usize)),
            bytes@ == head + packed(views(sections@).take(i as int)),
            bytes@.len() < STAGE2_SIZE,
        decreases sections.len() - i,
    {
        let section = &sections[i];
        let ghost before = bytes@;
        let ghost done = views(sections@).take(i as int);
        proof {
            assert(views(sections@).take(i + 1).drop_last() == done);
            assert(views(sections@).take(i + 1).last() == section@);
            lemma_packed_grows(views(sections@), i + 1);
        }
        let room = STAGE2_SIZE - bytes.len();
        if section.data.len() >= room || room - section.data.len() <= 8 {
            return Err(FlattenError::TooLarge);
        }
        push_le_bytes(&mut bytes, low_bits(section.vaddr));
        push_le_bytes(&mut bytes, low_bits(section.memsz));
        let mut j: usize = 0;
        while j < section.data.len()
            invariant
                j <= section.data.len(),
                bytes@ == before + le_bytes(low32(section.vaddr)) + le_bytes(low32(section.memsz))
                    + section.data@.take(j as int),
            decreases section.data.len() - j,
        {
            bytes.push(section.data[j]);
            assert(section.data@.take(j + 1) =~= section.data@.take(j as int).push(
                section.data@[j as int],
            ));
            assert(bytes@ =~= before + le_bytes(low32(section.vaddr)) + le_bytes(
                low32(section.memsz),
            ) + section.data@.take(j + 1));
            j = j + 1;
        }
        assert(section.data@.take(j as int) == section.data@);
        assert(bytes@ =~= head + packed(views(sections@).take(i + 1)));
        i = i + 1;
    }
    assert(views(sections@).take(i as int) == views(sections@));
    let ghost body = bytes@;
    let mut k: usize = bytes.len();
    while k < STAGE2_SIZE
        invariant
            body.len() <= k <= STAGE2_SIZE,
            bytes@ == body + Seq::new((k - body.len()) as nat, |i: int| 0u8),
        decreases STAGE2_SIZE - k,
    {
        bytes.push(0);
        assert(bytes@ =~= body + Seq::new((k + 1 - body.len()) as nat, |i: int| 0u8));
        k = k + 1;
    }
    Ok(bytes)
}

/// Packing more sections never gives fewer bytes.
pub proof fn lemma_packed_grows(sections: Seq<SectionView>, n: int)
    requires
        0 <= n <= sections.len(),
    ensures
        packed(sections.take(n)).len() <= packed(sections).len(),
    decreases sections.len() - n,
{
    if n < sections.len() {
        lemma_packed_grows(sections, n + 1);
        assert(sections.take(n + 1).drop_last() == sections.take(n));
    } else {
        assert(sections.take(n) == sections);
    }
}

} // verus!
