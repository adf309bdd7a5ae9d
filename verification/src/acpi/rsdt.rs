//! Resolving the root table: the RSDT of ACPI 1.0 with its 32-bit pointers, or
//! the XSDT of ACPI 2.0 with its 64-bit pointers.

use either::Either;
use vstd::prelude::*;

use crate::acpi::sdt::{table_checksum_ok, table_len, table_signature};
use crate::acpi::{Discovery, Error, ParsedACPI, Rsdp, RsdpExtended, RsdtConfig, SDTHeader, SDT_HEADER_SIZE};
use crate::mem::{PhysMemory, PHYS_LIMIT};

verus! {

/// `RSDT`, read as one little-endian number.
pub const RSDT_SIGNATURE: u32 = 0x5444_5352;

/// `XSDT`, read as one little-endian number.
pub const XSDT_SIGNATURE: u32 = 0x5444_5358;

/// Bytes in one pointer of the RSDT.
pub const RSDT_ENTRY_SIZE: usize = 4;

/// Bytes in one pointer of the XSDT.
pub const XSDT_ENTRY_SIZE: usize = 8;

/// Where the root pointer says the root table lies.
pub open spec fn root_table(root: Either<Rsdp, RsdpExtended>) -> int {
    match root {
        Either::Left(rsdp) => rsdp.rsdt_address as int,
        Either::Right(extended) => extended.xsdt_address as int,
    }
}

/// How the root table at `addr` is walked, or why it cannot be. `wide` says
/// that the table is an XSDT.
///
/// The table must sum to zero over its declared length, carry the signature
/// of its kind, and hold a whole number of pointers after its header.
pub open spec fn resolve(mem: &PhysMemory, wide: bool, addr: int) -> Result<RsdtConfig, Error> {
    let entry_size = if wide { XSDT_ENTRY_SIZE } else { RSDT_ENTRY_SIZE };
    let payload = table_len(mem, addr) - SDT_HEADER_SIZE;
    if !table_checksum_ok(mem, addr) {
        Err(Error::SDTChecksum)
    } else if table_signature(mem, addr) != (if wide { XSDT_SIGNATURE } else { RSDT_SIGNATURE }) {
        Err(if wide { Error::InvalidXSDTSignature } else { Error::InvalidRSDTSignature })
    } else if payload < 0 || payload % (entry_size as int) != 0 {
        Err(if wide { Error::InvalidXSDTTableSize } else { Error::InvalidRSDTTableSize })
    } else {
        Ok(
            RsdtConfig {
                entry_size,
                start_addr: (addr + SDT_HEADER_SIZE) as u64,
                num_entries: (payload / (entry_size as int)) as usize,
            },
        )
    }
}

/// A 32-bit value with a byte that is not zero lies below the end of
/// physical memory.
pub proof fn lemma_nonzero_is_mapped(mem: &PhysMemory, addr: int)
    requires
        mem.u32_at(addr) != 0,
    ensures
        0 <= addr + 3,
        addr < PHYS_LIMIT,
{
}

/// Validates the root table at `addr` and works out how to walk it.
pub fn resolve_table(mem: &PhysMemory, wide: bool, addr: u64) -> (r: Result<RsdtConfig, Error>)
    ensures
        r == resolve(mem, wide, addr as int),
{
    let header = match SDTHeader::new(mem, addr) {
        Ok(h) => h,
        Err(e) => {
            return Err(e);
        },
    };
    proof {
        header.lemma_signature_word(mem, addr as int);
    }
    if wide {
        if !header.has_signature(XSDT_SIGNATURE) {
            return Err(Error::InvalidXSDTSignature);
        }
    } else {
        if !header.has_signature(RSDT_SIGNATURE) {
            return Err(Error::InvalidRSDTSignature);
        }
    }
    proof {
        lemma_nonzero_is_mapped(mem, addr as int);
    }
    let entry_size: usize = if wide { XSDT_ENTRY_SIZE } else { RSDT_ENTRY_SIZE };
    if header.length < SDT_HEADER_SIZE as u32 || (header.length - SDT_HEADER_SIZE as u32) % (
    entry_size as u32) != 0 {
        return Err(if wide { Error::InvalidXSDTTableSize } else { Error::InvalidRSDTTableSize });
    }
    let start_addr = addr + SDT_HEADER_SIZE;
    let num_entries = ((header.length - SDT_HEADER_SIZE as u32) / (entry_size as u32)) as usize;
    Ok(RsdtConfig { entry_size, start_addr, num_entries })
}

impl ParsedACPI {
    /// Validates the root table that the root pointer names and stores how to
    /// walk it. On an error nothing changes.
    pub fn rsdt_config(&mut self, mem: &PhysMemory) -> (r: Result<(), Error>)
        requires
            old(self).wf(),
        ensures
            final(self).wf(),
            match resolve(mem, old(self)@.root is Right, root_table(old(self)@.root)) {
                Ok(config) => r == Ok::<(), Error>(()) && final(self)@ == (Discovery {
                    config,
                    ..old(self)@
                }),
                Err(e) => r == Err::<(), Error>(e) && final(self)@ == old(self)@,
            },
    {
        let resolved = match self.root_pointer() {
            Either::Left(rsdp) => resolve_table(mem, false, rsdp.rsdt_address as u64),
            Either::Right(extended) => resolve_table(mem, true, extended.xsdt_address),
        };
        match resolved {
            Ok(config) => {
                self.set_config(config);
                Ok(())
            },
            Err(e) => Err(e),
        }
    }
}

/// A valid root table whose payload is `n` pointers resolves to `n` entries
/// of the width of its kind, the first right behind the header.
pub proof fn lemma_entry_count(mem: &PhysMemory, wide: bool, addr: int, n: nat)
    requires
        table_checksum_ok(mem, addr),
        table_signature(mem, addr) == (if wide { XSDT_SIGNATURE } else { RSDT_SIGNATURE }),
        table_len(mem, addr) - SDT_HEADER_SIZE == (if wide { 8 * n } else { 4 * n }),
    ensures
        resolve(mem, wide, addr) == Ok::<RsdtConfig, Error>(
            RsdtConfig {
                entry_size: if wide { XSDT_ENTRY_SIZE } else { RSDT_ENTRY_SIZE },
                start_addr: (addr + SDT_HEADER_SIZE) as u64,
                num_entries: n as usize,
            },
        ),
{
}

} // verus!
