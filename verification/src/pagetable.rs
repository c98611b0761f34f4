//! The kernel's last-level page table: 512 x 512 level-3 descriptors covering
//! one gigabyte of virtual address space in 4 KiB pages.
use crate::mmu::{Addr, MemoryType, PhyAddr, VirtAddr};
use crate::register::{field_modify, field_read, register_modify, register_read};
use vstd::prelude::*;

verus! {

/// Number of level-3 descriptors in the table (512 tables of 512 entries).
pub const PTE_ENTRIES: usize = 262144;

/// Bits [47:12] of a descriptor: the output address of a 4 KiB page.
pub const OUTPUT_ADDR_MASK: u64 = 0x0000_ffff_ffff_f000;

/// The memory-attribute index that a memory type selects in MAIR_EL1.
pub open spec fn attr_index(mem_type: MemoryType) -> u64 {
    match mem_type {
        MemoryType::Device => 0,
        MemoryType::Normal => 1,
    }
}

/// A valid level-3 page descriptor for the frame holding `pa`: output address
/// bits [47:12] from `pa`, VALID, TYPE=page, AttrIndx from the memory type,
/// AP = read/write at EL1, SH = inner shareable, AF set, PXN clear, UXN set.
pub open spec fn page_descriptor_bits(pa: u64, mem_type: MemoryType) -> u64 {
    (pa & OUTPUT_ADDR_MASK) | 0x0040_0000_0000_0703u64 | (attr_index(mem_type) << 2u64)
}

/// The page frame a descriptor points to.
pub open spec fn frame_of(entry: u64) -> u64 {
    entry & OUTPUT_ADDR_MASK
}

/// Whether the VALID bit of a descriptor is set.
pub open spec fn is_valid(entry: u64) -> bool {
    entry & 1 == 1
}

/// A descriptor with its VALID bit cleared and every other bit kept.
pub open spec fn invalidate(entry: u64) -> u64 {
    entry & !1u64
}

/// The descriptor slot that resolves `va`: its 4 KiB page number within the
/// gigabyte the table covers.
pub open spec fn pte_index(va: usize) -> int {
    ((va / 0x1000) % 262144) as int
}

/// The page table: `pte[pmd][pte]` stored row by row.
pub struct PageTable {
    pte: Vec<u64>,
}

impl View for PageTable {
    type V = Seq<u64>;

    closed spec fn view(&self) -> Seq<u64> {
        self.pte@
    }
}

proof fn lemma_index_split(va: usize)
    ensures
        ((va >> 21usize) & 0x1ff) == (va / 0x20_0000) % 512,
        ((va >> 12usize) & 0x1ff) == (va / 0x1000) % 512,
        ((va / 0x20_0000) % 512) * 512 + (va / 0x1000) % 512 == (va / 0x1000) % 262144,
{
    assert(((va >> 21usize) & 0x1ff) == (va / 0x20_0000) % 512) by (bit_vector);
    assert(((va >> 12usize) & 0x1ff) == (va / 0x1000) % 512) by (bit_vector);
    assert(((va / 0x20_0000) % 512) * 512 + (va / 0x1000) % 512 == (va / 0x1000) % 262144)
        by (bit_vector);
}

impl PageTable {
    /// A well-formed table has exactly `PTE_ENTRIES` descriptors.
    pub open spec fn wf(&self) -> bool {
        self@.len() == PTE_ENTRIES
    }

    /// A table with every descriptor zero (nothing mapped).
    pub fn new() -> (r: Self)
        ensures
            r.wf(),
            r@ == Seq::new(PTE_ENTRIES as nat, |i: int| 0u64),
    {
        let pte = vec![0u64; PTE_ENTRIES];
        let r = PageTable { pte };
        assert(r@ =~= Seq::new(PTE_ENTRIES as nat, |i: int| 0u64));
        r
    }

    /// A table holding the descriptors `pte` (as laid out in memory).
    pub fn from_entries(pte: Vec<u64>) -> (r: Self)
        requires
            pte@.len() == PTE_ENTRIES,
        ensures
            r.wf(),
            r@ == pte@,
    {
        PageTable { pte }
    }

    /// The slot that resolves `va`.
    pub fn index_of(va: VirtAddr) -> (r: usize)
        ensures
            r == pte_index(va.addr()),
            r < PTE_ENTRIES,
    {
        Self::get_pmd_offset(va) * 512 + Self::get_pte_offset(va)
    }

    /// The descriptor in slot `index`.
    pub fn entry(&self, index: usize) -> (r: u64)
        requires
            self.wf(),
            index < PTE_ENTRIES,
        ensures
            r == self@[index as int],
    {
        self.pte[index]
    }

    /// Maps the 4 KiB page holding `va` to the frame holding `pa`.
    pub fn map(&mut self, va: VirtAddr, pa: PhyAddr, mem_type: MemoryType)
        requires
            old(self).wf(),
        ensures
            final(self).wf(),
            final(self)@ == old(self)@.update(
                pte_index(va.addr()),
                page_descriptor_bits(pa.addr() as u64, mem_type),
            ),
    {
        let idx = Self::get_pmd_offset(va) * 512 + Self::get_pte_offset(va);
        let desc = Self::page_descriptor(pa, mem_type);
        self.pte.set(idx, desc);
    }

    /// Invalidates the descriptor that resolves `va` and returns the frame
    /// it pointed to.
    pub fn unmap(&mut self, va: VirtAddr) -> (r: PhyAddr)
        requires
            old(self).wf(),
        ensures
            final(self).wf(),
            r.addr() == frame_of(old(self)@[pte_index(va.addr())]) as usize,
            final(self)@ == old(self)@.update(
                pte_index(va.addr()),
                invalidate(old(self)@[pte_index(va.addr())]),
            ),
    {
        let idx = Self::get_pmd_offset(va) * 512 + Self::get_pte_offset(va);
        let pte = self.pte[idx];
        // VALID := False
        let cleared = register_modify(pte, 1, 0, 0);
        // OUTPUT_ADDR_4KiB, bits [47:12]
        let out = register_read(cleared, 0xf_ffff_ffff, 12);
        let frame = out << 12u64;
        proof {
            assert(cleared == invalidate(pte) && frame == frame_of(pte)) by (bit_vector)
                requires
                    cleared == field_modify(pte, 1, 0, 0),
                    out == field_read(cleared, 0xf_ffff_ffff, 12),
                    frame == out << 12u64,
            ;
        }
        let pa = PhyAddr::from_usize(frame as usize);
        self.pte.set(idx, cleared);
        pa
    }

    /// Builds the level-3 page descriptor for `pa` with the given memory type.
    pub fn page_descriptor(pa: PhyAddr, mem_type: MemoryType) -> (r: u64)
        ensures
            r == page_descriptor_bits(pa.addr() as u64, mem_type),
    {
        let p = pa.to_usize() as u64;
        // OUTPUT_ADDR_4KiB := pa >> 12
        let v0 = register_modify(0, 0xf_ffff_ffff, 12, p >> 12u64);
        // AF := True
        let v1 = register_modify(v0, 1, 10, 1);
        // TYPE := Page
        let v2 = register_modify(v1, 1, 1, 1);
        // VALID := True
        let v3 = register_modify(v2, 1, 0, 1);
        // SH := InnerShareable
        let v4 = register_modify(v3, 0b11, 8, 0b11);
        // AP := RW_EL1
        let v5 = register_modify(v4, 0b11, 6, 0b00);
        // PXN := False
        let v6 = register_modify(v5, 1, 53, 0);
        // UXN := True
        let v7 = register_modify(v6, 1, 54, 1);
        let attr: u64 = match mem_type {
            MemoryType::Device => 0,
            MemoryType::Normal => 1,
        };
        // AttrIndx := attribute index of the memory type
        let v8 = register_modify(v7, 0b111, 2, attr);
        proof {
            assert(v8 == (p & OUTPUT_ADDR_MASK) | 0x0040_0000_0000_0703u64 | (attr << 2u64))
                by (bit_vector)
                requires
                    attr <= 1,
                    v0 == field_modify(0, 0xf_ffff_ffff, 12, p >> 12u64),
                    v1 == field_modify(v0, 1, 10, 1),
                    v2 == field_modify(v1, 1, 1, 1),
                    v3 == field_modify(v2, 1, 0, 1),
                    v4 == field_modify(v3, 0b11, 8, 0b11),
                    v5 == field_modify(v4, 0b11, 6, 0b00),
                    v6 == field_modify(v5, 1, 53, 0),
                    v7 == field_modify(v6, 1, 54, 1),
                    v8 == field_modify(v7, 0b111, 2, attr),
            ;
        }
        v8
    }

    /// Index of the level-3 table (bits [29:21] of `va`).
    fn get_pmd_offset(va: VirtAddr) -> (r: usize)
        ensures
            r == (va.addr() / 0x20_0000) % 512,
    {
        proof {
            lemma_index_split(va.addr());
        }
        (va.to_usize() >> 21usize) & 0x1ff
    }

    /// Index within the level-3 table (bits [20:12] of `va`).
    fn get_pte_offset(va: VirtAddr) -> (r: usize)
        ensures
            r == (va.addr() / 0x1000) % 512,
            Self::spec_pmd(va.addr()) * 512 + r == pte_index(va.addr()),
    {
        proof {
            lemma_index_split(va.addr());
        }
        (va.to_usize() >> 12usize) & 0x1ff
    }

    spec fn spec_pmd(va: usize) -> int {
        ((va / 0x20_0000) % 512) as int
    }
}


/// The slot of `va` is the number of its 4 KiB page within the gigabyte of
/// address space that holds it: `va` lies in the page starting `slot * 4096`
/// bytes into that gigabyte.
pub proof fn lemma_pte_index_is_page_in_gigabyte(va: usize)
    ensures
        0 <= pte_index(va) < PTE_ENTRIES,
        pte_index(va) * 0x1000 <= va % 0x4000_0000 < pte_index(va) * 0x1000 + 0x1000,
{
    let p = va as int / 0x1000;
    assert(va as int % 0x4000_0000 == (p % 262144) * 0x1000 + va as int % 0x1000) by (nonlinear_arith)
        requires
            p == va as int / 0x1000,
    ;
}

/// Every field of a kernel page descriptor: the frame of `pa`, valid page
/// entry, the memory type's attribute index, UXN set, PXN clear, access flag
/// set, inner shareable, read/write at EL1 only, and every other bit clear.
pub proof fn lemma_page_descriptor_fields(pa: u64, mem_type: MemoryType)
    ensures
        ({
            let d = page_descriptor_bits(pa, mem_type);
            &&& frame_of(d) == pa & OUTPUT_ADDR_MASK
            &&& is_valid(d)
            &&& (d >> 1u64) & 1 == 1
            &&& (d >> 2u64) & 0b111 == attr_index(mem_type)
            &&& (d >> 54u64) & 1 == 1
            &&& (d >> 53u64) & 1 == 0
            &&& (d >> 10u64) & 1 == 1
            &&& (d >> 8u64) & 0b11 == 0b11
            &&& (d >> 6u64) & 0b11 == 0
            &&& (d >> 5u64) & 1 == 0
            &&& d & !(OUTPUT_ADDR_MASK | 0x0040_0000_0000_071fu64) == 0
        }),
{
    let bmt = match mem_type {
        MemoryType::Device => crate::boot::MemoryType::Device,
        MemoryType::Normal => crate::boot::MemoryType::Normal,
    };
    lemma_descriptor_matches_boot(pa, mem_type);
    crate::boot::lemma_page_descriptor_fields(pa, bmt);
    crate::boot::lemma_page_descriptor_attributes(pa, bmt);
    let d = page_descriptor_bits(pa, mem_type);
    assert(d & 0b11 == 0b11 ==> (d & 1 == 1 && (d >> 1u64) & 1 == 1)) by (bit_vector);
}

/// Unmapping a page that was just mapped hands back the frame it was mapped
/// to (the frame itself, for a page-aligned address below 2^48) and leaves the
/// slot invalid but still pointing at that frame.
pub proof fn lemma_unmap_after_map(table: Seq<u64>, va: usize, pa: usize, mem_type: MemoryType)
    requires
        table.len() == PTE_ENTRIES,
    ensures
        ({
            let mapped = table.update(pte_index(va), page_descriptor_bits(pa as u64, mem_type));
            let entry = mapped[pte_index(va)];
            &&& is_valid(entry)
            &&& frame_of(entry) == (pa as u64) & OUTPUT_ADDR_MASK
            &&& (pa % 0x1000 == 0 && pa < 0x1_0000_0000_0000 ==> frame_of(entry) == pa as u64)
            &&& !is_valid(invalidate(entry))
            &&& frame_of(invalidate(entry)) == frame_of(entry)
        }),
{
    let mapped = table.update(pte_index(va), page_descriptor_bits(pa as u64, mem_type));
    assert(0 <= pte_index(va) < PTE_ENTRIES);
    let entry = mapped[pte_index(va)];
    let p = pa as u64;
    let a = attr_index(mem_type);
    assert(a <= 1);
    assert(entry == (p & OUTPUT_ADDR_MASK) | 0x0040_0000_0000_0703u64 | (a << 2u64));
    assert({
        &&& entry & 1 == 1
        &&& entry & OUTPUT_ADDR_MASK == p & OUTPUT_ADDR_MASK
        &&& (p % 0x1000 == 0 && p < 0x1_0000_0000_0000 ==> entry & OUTPUT_ADDR_MASK == p)
        &&& (entry & !1u64) & 1 != 1
        &&& (entry & !1u64) & OUTPUT_ADDR_MASK == entry & OUTPUT_ADDR_MASK
    }) by (bit_vector)
        requires
            a <= 1,
            entry == (p & 0x0000_ffff_ffff_f000u64) | 0x0040_0000_0000_0703u64 | (a << 2u64),
    ;
}

/// The kernel builds its page descriptors through register fields, the boot
/// stage with plain masks; both produce the same descriptor for the same frame
/// and memory type.
pub proof fn lemma_descriptor_matches_boot(pa: u64, mem_type: MemoryType)
    ensures
        page_descriptor_bits(pa, mem_type) == crate::boot::page_descriptor_bits(
            pa,
            match mem_type {
                MemoryType::Device => crate::boot::MemoryType::Device,
                MemoryType::Normal => crate::boot::MemoryType::Normal,
            },
        ),
{
    let m = pa & OUTPUT_ADDR_MASK;
    assert(m | 0x0040_0000_0000_0703u64 | (0u64 << 2u64) == 0x0040_0000_0000_0000u64 | 0x703u64 | m)
        by (bit_vector);
    assert(m | 0x0040_0000_0000_0703u64 | (1u64 << 2u64) == 0x0040_0000_0000_0000u64 | 0x707u64 | m)
        by (bit_vector);
}

} // verus!
