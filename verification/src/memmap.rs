//! The memory map that is handed to the guest: one entry for each range of
//! RAM, in the layout that the image format fixes for such entries.

use crate::bytes::{le_bytes, lemma_le_bytes_len, push_le_bytes};
use crate::error::Violation;
use crate::page::HV_PAGE_SIZE;
use vstd::prelude::*;

verus! {

/// The size of an encoded memory-map entry, in bytes.
pub const MEMORY_MAP_ENTRY_SIZE: usize = 24;

/// The type of memory that a memory-map entry describes.
#[derive(Debug, Clone, Copy, PartialEq, Eq, Structural)]
pub enum MemoryMapEntryType {
    /// Normal memory.
    Memory,
    /// Memory that the platform reserves.
    PlatformReserved,
    /// Persistent memory.
    Persistent,
    /// Memory to which VTL2 protections can be applied.
    Vtl2Protectable,
}

/// One entry of the memory map.
#[derive(Debug, Clone, Copy, PartialEq, Eq, Structural)]
pub struct MemoryMapEntry {
    /// The page number at which the range starts.
    pub starting_gpa_page_number: u64,
    /// The number of pages in the range.
    pub number_of_pages: u64,
    pub entry_type: MemoryMapEntryType,
    pub flags: u16,
    pub reserved: u32,
}

impl MemoryMapEntryType {
    /// The number of the type in an encoded entry.
    pub open spec fn number(self) -> u16 {
        match self {
            MemoryMapEntryType::Memory => 0u16,
            MemoryMapEntryType::PlatformReserved => 1u16,
            MemoryMapEntryType::Persistent => 2u16,
            MemoryMapEntryType::Vtl2Protectable => 3u16,
        }
    }

    /// The number of the type in an encoded entry.
    pub fn code(&self) -> (code: u16)
        ensures
            code == self.number(),
    {
        match self {
            MemoryMapEntryType::Memory => 0,
            MemoryMapEntryType::PlatformReserved => 1,
            MemoryMapEntryType::Persistent => 2,
            MemoryMapEntryType::Vtl2Protectable => 3,
        }
    }
}

/// Whether a range of RAM, given by its first address and the address after
/// its last, starts at a page boundary and is made of whole pages.
pub open spec fn whole_pages(ram_range: (u64, u64)) -> bool {
    &&& ram_range.0 <= ram_range.1
    &&& ram_range.0 % HV_PAGE_SIZE == 0
    &&& (ram_range.1 - ram_range.0) % (HV_PAGE_SIZE as int) == 0
}

/// The memory-map entry of a range of RAM: start and length in pages, typed
/// as normal memory.
pub open spec fn entry_of(ram_range: (u64, u64)) -> MemoryMapEntry {
    MemoryMapEntry {
        starting_gpa_page_number: ram_range.0 / HV_PAGE_SIZE,
        number_of_pages: ((ram_range.1 - ram_range.0) / (HV_PAGE_SIZE as int)) as u64,
        entry_type: MemoryMapEntryType::Memory,
        flags: 0,
        reserved: 0,
    }
}

/// The encoded form of one entry: its fields one after the other, each
/// little-endian.
pub open spec fn encoded_entry(entry: MemoryMapEntry) -> Seq<u8> {
    le_bytes(entry.starting_gpa_page_number as nat, 8) + le_bytes(entry.number_of_pages as nat, 8)
        + le_bytes(entry.entry_type.number() as nat, 2) + le_bytes(entry.flags as nat, 2)
        + le_bytes(entry.reserved as nat, 4)
}

/// The encoded form of a memory map: its encoded entries one after the other.
pub open spec fn encoded_map(entries: Seq<MemoryMapEntry>) -> Seq<u8>
    decreases entries.len(),
{
    if entries.len() == 0 {
        Seq::empty()
    } else {
        encoded_map(entries.drop_last()) + encoded_entry(entries.last())
    }
}

/// The memory map of a list of RAM ranges, where each is made of whole pages.
pub open spec fn memory_map_of(ram_ranges: Seq<(u64, u64)>) -> Option<Seq<MemoryMapEntry>> {
    if forall|i: int| 0 <= i < ram_ranges.len() ==> whole_pages(#[trigger] ram_ranges[i]) {
        Some(ram_ranges.map_values(|ram_range: (u64, u64)| entry_of(ram_range)))
    } else {
        None
    }
}

/// Whether a range of RAM starts at a page boundary and is made of whole pages.
pub fn is_whole_pages(ram_range: (u64, u64)) -> (whole: bool)
    ensures
        whole == whole_pages(ram_range),
{
    ram_range.0 <= ram_range.1 && ram_range.0 % HV_PAGE_SIZE == 0 && (ram_range.1 - ram_range.0)
        % HV_PAGE_SIZE == 0
}

/// The memory-map entry of a range of RAM.
pub fn igvm_memmap_from_ram_range(ram_range: (u64, u64)) -> (entry: MemoryMapEntry)
    requires
        whole_pages(ram_range),
    ensures
        entry == entry_of(ram_range),
{
    MemoryMapEntry {
        starting_gpa_page_number: ram_range.0 / HV_PAGE_SIZE,
        number_of_pages: (ram_range.1 - ram_range.0) / HV_PAGE_SIZE,
        entry_type: MemoryMapEntryType::Memory,
        flags: 0,
        reserved: 0,
    }
}

/// The memory map of the guest's RAM ranges, one entry for each range and in
/// their order. A range that is not made of whole pages is a violation.
pub fn generate_memory_map(ram_ranges: &[(u64, u64)]) -> (result: Result<
    Vec<MemoryMapEntry>,
    Violation,
>)
    ensures
        match result {
            Ok(memory_map) => memory_map_of(ram_ranges@) == Some(memory_map@),
            Err(violation) => memory_map_of(ram_ranges@) is None && violation
                == Violation::UnalignedRamRange,
        },
{
    let mut memory_map: Vec<MemoryMapEntry> = Vec::new();
    let mut i: usize = 0;
    while i < ram_ranges.len()
        invariant
            i <= ram_ranges.len(),
            memory_map@.len() == i,
            forall|j: int| 0 <= j < i ==> whole_pages(#[trigger] ram_ranges@[j]),
            forall|j: int| 0 <= j < i ==> memory_map@[j] == entry_of(ram_ranges@[j]),
        decreases ram_ranges.len() - i,
    {
        let ram_range = ram_ranges[i];
        if !is_whole_pages(ram_range) {
            return Err(Violation::UnalignedRamRange);
        }
        memory_map.push(igvm_memmap_from_ram_range(ram_range));
        i = i + 1;
    }
    assert(memory_map@ =~= ram_ranges@.map_values(|ram_range: (u64, u64)| entry_of(ram_range)));
    Ok(memory_map)
}

/// The encoded form of a memory map, as it is written into a parameter area.
pub fn encode_memory_map(memory_map: &[MemoryMapEntry]) -> (bytes: Vec<u8>)
    ensures
        bytes@ == encoded_map(memory_map@),
        bytes@.len() == MEMORY_MAP_ENTRY_SIZE * memory_map@.len(),
{
    let mut bytes: Vec<u8> = Vec::new();
    let mut i: usize = 0;
    while i < memory_map.len()
        invariant
            i <= memory_map.len(),
            bytes@ == encoded_map(memory_map@.take(i as int)),
        decreases memory_map.len() - i,
    {
        let entry = memory_map[i];
        let ghost before = bytes@;
        push_le_bytes(&mut bytes, entry.starting_gpa_page_number, 8);
        push_le_bytes(&mut bytes, entry.number_of_pages, 8);
        push_le_bytes(&mut bytes, entry.entry_type.code() as u64, 2);
        push_le_bytes(&mut bytes, entry.flags as u64, 2);
        push_le_bytes(&mut bytes, entry.reserved as u64, 4);
        proof {
            let next = memory_map@.take(i + 1);
            assert(next.drop_last() =~= memory_map@.take(i as int));
            assert(next.last() == entry);
            assert(bytes@ =~= before + encoded_entry(entry));
        }
        i = i + 1;
    }
    assert(memory_map@.take(i as int) =~= memory_map@);
    proof {
        lemma_encoded_map_len(memory_map@);
    }
    bytes
}

/// An encoded memory map takes 24 bytes for each entry.
pub proof fn lemma_encoded_map_len(entries: Seq<MemoryMapEntry>)
    ensures
        encoded_map(entries).len() == MEMORY_MAP_ENTRY_SIZE * entries.len(),
    decreases entries.len(),
{
    if entries.len() > 0 {
        let entry = entries.last();
        lemma_encoded_map_len(entries.drop_last());
        lemma_le_bytes_len(entry.starting_gpa_page_number as nat, 8);
        lemma_le_bytes_len(entry.number_of_pages as nat, 8);
        lemma_le_bytes_len(entry.entry_type.number() as nat, 2);
        lemma_le_bytes_len(entry.flags as nat, 2);
        lemma_le_bytes_len(entry.reserved as nat, 4);
    }
}

} // verus!
