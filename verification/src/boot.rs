//! The page table the boot stage builds before the MMU is switched on: one
//! level-2 table of 512 table descriptors, each pointing at one of 512 level-3
//! tables, which together map one gigabyte of virtual space in 4 KiB pages.
use vstd::arithmetic::div_mod::{
    lemma_div_multiples_vanish, lemma_fundamental_div_mod, lemma_mod_equivalence, lemma_small_mod,
    lemma_sub_mod_noop, lemma_add_mod_noop, lemma_add_mod_noop_right,
};
use vstd::prelude::*;

verus! {

/// How a page mapped by the boot stage is treated by the memory system.
#[derive(Clone, Copy, PartialEq, Eq, Structural, Debug)]
pub enum MemoryType {
    /// Device memory (memory-mapped I/O): attribute index 0.
    Device,
    /// Normal cacheable memory: attribute index 1.
    Normal,
}

/// Number of level-3 descriptors (512 tables of 512 entries).
pub const LVL3_ENTRIES: usize = 262144;

/// Bits [47:12] of a descriptor: the address of the next table or of a page.
pub const ADDR_MASK: u64 = 0x0000_ffff_ffff_f000;

/// Physical address the MiniUART registers live at.
pub const AUX_BASE: u64 = 0x3f21_5000;

/// A table descriptor (VALID and TYPE=table) for the table at `next_level_pa`.
pub open spec fn table_descriptor_bits(next_level_pa: u64) -> u64 {
    0x3u64 | (next_level_pa & ADDR_MASK)
}

/// A level-3 page descriptor for the frame holding `pa`: UXN set, AF set,
/// SH = inner shareable, AP = read/write at EL1, AttrIndx 0 for device memory
/// and 1 for normal memory, TYPE=page and VALID.
pub open spec fn page_descriptor_bits(pa: u64, mem_type: MemoryType) -> u64 {
    match mem_type {
        MemoryType::Device => 0x0040_0000_0000_0000u64 | 0x703u64 | (pa & ADDR_MASK),
        MemoryType::Normal => 0x0040_0000_0000_0000u64 | 0x707u64 | (pa & ADDR_MASK),
    }
}

/// Physical address of the `i`-th level-3 table of a boot table at `base`: the
/// level-2 table fills the first page and the level-3 tables follow it.
pub open spec fn lvl3_table_addr(base: u64, i: int) -> int {
    base + 0x1000 * (i + 1)
}

/// The level-3 slot that resolves `va` (its page number modulo 2^18).
pub open spec fn slot(va: u64) -> int {
    ((va / 0x1000) % 262144) as int
}

/// How many pages `map_pages` writes for a region of `size` bytes.
pub open spec fn page_count(size: u64) -> nat {
    if size == 0 {
        0
    } else {
        ((size - 1) / 0x1000 + 1) as nat
    }
}

/// The first page number (counting from the start of a region at `va`) that
/// falls into slot `k`.
pub open spec fn first_hit(va: u64, k: int) -> int {
    (k - slot(va)) % 262144
}

/// The last of the first `n` pages of a region at `va` that falls into slot `k`
/// (meaningful when `first_hit(va, k) < n`).
pub open spec fn last_hit(va: u64, k: int, n: nat) -> int {
    first_hit(va, k) + ((n - 1 - first_hit(va, k)) / 262144) * 262144
}

/// Level-3 slot `k` after the first `n` pages of the region at `va` have been
/// mapped to the frames from `pa` on: the descriptor of the last page written
/// into the slot, or the old value if no page falls into it.
pub open spec fn mapped_slot(
    old: Seq<u64>,
    va: u64,
    pa: u64,
    mem_type: MemoryType,
    n: nat,
    k: int,
) -> u64 {
    if first_hit(va, k) < n {
        page_descriptor_bits((pa + 0x1000 * last_hit(va, k, n)) as u64, mem_type)
    } else {
        old[k]
    }
}

/// The level-3 descriptors after the pages of the `size`-byte region at `va`
/// have been mapped to the physical region at `pa`.
pub open spec fn map_pages_result(
    old: Seq<u64>,
    va: u64,
    pa: u64,
    size: u64,
    mem_type: MemoryType,
) -> Seq<u64> {
    Seq::new(
        LVL3_ENTRIES as nat,
        |k: int| mapped_slot(old, va, pa, mem_type, page_count(size), k),
    )
}

/// `map_pages` on a region of `size` bytes at `va` / `pa` neither overflows an
/// address nor its page cursor.
pub open spec fn map_pages_fits(va: u64, pa: u64, size: u64) -> bool {
    page_count(size) == 0 || {
        &&& va + 0x1000 * (page_count(size) - 1) <= u64::MAX
        &&& pa + 0x1000 * (page_count(size) - 1) <= u64::MAX
        &&& 0x1000 * page_count(size) <= u64::MAX
    }
}

/// The boot page table. It lives at physical address `base` (page aligned):
/// `lvl2` fills the first page and the level-3 tables `lvl3[i][j]` (stored row
/// by row) follow it.
pub struct BootPageTable {
    lvl2: Vec<u64>,
    lvl3: Vec<u64>,
    base: u64,
}

impl BootPageTable {
    /// Size of a page in bytes.
    pub const PAGE_SIZE: u64 = 0x1000;

    /// The level-2 descriptors.
    pub closed spec fn lvl2_view(&self) -> Seq<u64> {
        self.lvl2@
    }

    /// The level-3 descriptors, `lvl3[i][j]` at index `512 * i + j`.
    pub closed spec fn lvl3_view(&self) -> Seq<u64> {
        self.lvl3@
    }

    /// The physical address of the table.
    pub closed spec fn base(&self) -> u64 {
        self.base
    }

    /// Table sizes match the hardware layout and the table, all 513 pages of
    /// it, lies page aligned in the address space.
    pub open spec fn wf(&self) -> bool {
        &&& self.lvl2_view().len() == 512
        &&& self.lvl3_view().len() == LVL3_ENTRIES
        &&& self.base() % 0x1000 == 0
        &&& self.base() + 0x1000 * 513 <= u64::MAX
    }

    /// A table at physical address `base` with every descriptor zero.
    pub fn new(base: u64) -> (r: Self)
        requires
            base % 0x1000 == 0,
            base + 0x1000 * 513 <= u64::MAX,
        ensures
            r.wf(),
            r.base() == base,
            r.lvl2_view() == Seq::new(512, |i: int| 0u64),
            r.lvl3_view() == Seq::new(LVL3_ENTRIES as nat, |i: int| 0u64),
    {
        let r = BootPageTable { lvl2: vec![0u64; 512], lvl3: vec![0u64; LVL3_ENTRIES], base };
        assert(r.lvl2_view() =~= Seq::new(512, |i: int| 0u64));
        assert(r.lvl3_view() =~= Seq::new(LVL3_ENTRIES as nat, |i: int| 0u64));
        r
    }

    /// A table at physical address `base` holding the level-2 descriptors
    /// `lvl2` and the level-3 descriptors `lvl3` (row by row).
    pub fn from_tables(lvl2: Vec<u64>, lvl3: Vec<u64>, base: u64) -> (r: Self)
        requires
            lvl2@.len() == 512,
            lvl3@.len() == LVL3_ENTRIES,
            base % 0x1000 == 0,
            base + 0x1000 * 513 <= u64::MAX,
        ensures
            r.wf(),
            r.base() == base,
            r.lvl2_view() == lvl2@,
            r.lvl3_view() == lvl3@,
    {
        BootPageTable { lvl2, lvl3, base }
    }

    /// The physical address of the level-2 table, where the MMU starts its table walk.
    pub fn get_base_addr(&self) -> (r: u64)
        ensures
            r == self.base(),
    {
        self.base
    }

    /// Level-2 descriptor `i`.
    pub fn lvl2_entry(&self, i: usize) -> (r: u64)
        requires
            self.wf(),
            i < 512,
        ensures
            r == self.lvl2_view()[i as int],
    {
        self.lvl2[i]
    }

    /// Level-3 descriptor `j` of table `i`.
    pub fn lvl3_entry(&self, i: usize, j: usize) -> (r: u64)
        requires
            self.wf(),
            i < 512,
            j < 512,
        ensures
            r == self.lvl3_view()[512 * i + j],
    {
        self.lvl3[512 * i + j]
    }

    /// Points every level-2 entry at its level-3 table and clears every
    /// level-3 entry.
    pub fn init(&mut self)
        requires
            old(self).wf(),
        ensures
            final(self).wf(),
            final(self).base() == old(self).base(),
            forall|i: int|
                0 <= i < 512 ==> #[trigger] final(self).lvl2_view()[i] == table_descriptor_bits(
                    lvl3_table_addr(old(self).base(), i) as u64,
                ),
            // entry i is a valid table descriptor for row i of the level-3
            // tables, which follow the level-2 table page by page
            forall|i: int|
                0 <= i < 512 ==> #[trigger] final(self).lvl2_view()[i] == 0x3u64 | (((old(
                    self,
                ).base() + 0x1000 + 0x1000 * i) as u64) & ADDR_MASK),
            final(self).lvl3_view() == Seq::new(LVL3_ENTRIES as nat, |k: int| 0u64),
    {
        let mut i: usize = 0;
        while i < 512
            invariant
                0 <= i <= 512,
                self.wf(),
                self.base() == old(self).base(),
                forall|a: int|
                    0 <= a < i ==> #[trigger] self.lvl2_view()[a] == table_descriptor_bits(
                        lvl3_table_addr(self.base(), a) as u64,
                    ),
                forall|k: int| 0 <= k < 512 * i ==> #[trigger] self.lvl3_view()[k] == 0,
            decreases 512 - i,
        {
            let next_level_pa = self.base + 0x1000 * (i as u64 + 1);
            let desc = Self::table_descriptor(next_level_pa);
            self.lvl2.set(i, desc);
            let mut j: usize = 0;
            while j < 512
                invariant
                    0 <= i < 512,
                    0 <= j <= 512,
                    self.wf(),
                    self.base() == old(self).base(),
                    forall|a: int|
                        0 <= a <= i ==> #[trigger] self.lvl2_view()[a] == table_descriptor_bits(
                            lvl3_table_addr(self.base(), a) as u64,
                        ),
                    forall|k: int| 0 <= k < 512 * i + j ==> #[trigger] self.lvl3_view()[k] == 0,
                decreases 512 - j,
            {
                self.lvl3.set(512 * i + j, 0);
                j += 1;
            }
            i += 1;
        }
        assert(self.lvl3_view() =~= Seq::new(LVL3_ENTRIES as nat, |k: int| 0u64));
    }

    /// Maps the page holding `va` to the frame holding `pa`.
    pub fn map_page(&mut self, va: u64, pa: u64, mem_type: MemoryType)
        requires
            old(self).wf(),
        ensures
            final(self).wf(),
            final(self).base() == old(self).base(),
            final(self).lvl2_view() == old(self).lvl2_view(),
            final(self).lvl3_view() == old(self).lvl3_view().update(
                slot(va),
                page_descriptor_bits(pa, mem_type),
            ),
    {
        let idx = Self::get_lvl2_offset(va) * 512 + Self::get_lvl3_offset(va);
        let desc = Self::page_descriptor(pa, mem_type);
        self.lvl3.set(idx, desc);
    }


    /// Maps the `size`-byte region at `va` page by page to the physical region
    /// at `pa`. A region larger than the gigabyte the table covers wraps around,
    /// and then the later pages overwrite the earlier ones in a slot.
    pub fn map_pages(&mut self, va: u64, pa: u64, size: u64, mem_type: MemoryType)
        requires
            old(self).wf(),
            map_pages_fits(va, pa, size),
        ensures
            final(self).wf(),
            final(self).base() == old(self).base(),
            final(self).lvl2_view() == old(self).lvl2_view(),
            final(self).lvl3_view() == map_pages_result(
                old(self).lvl3_view(),
                va,
                pa,
                size,
                mem_type,
            ),
    {
        let ghost old_lvl3 = self.lvl3_view();
        let ghost count = page_count(size);
        let ghost mut n: nat = 0;
        let mut off: u64 = 0;
        proof {
            lemma_offset_bound(size, 0);
            assert(self.lvl3_view() =~= Seq::new(
                LVL3_ENTRIES as nat,
                |k: int| mapped_slot(old_lvl3, va, pa, mem_type, 0, k),
            ));
        }
        while off < size
            invariant
                self.wf(),
                self.base() == old(self).base(),
                self.lvl2_view() == old(self).lvl2_view(),
                old_lvl3 == old(self).lvl3_view(),
                count == page_count(size),
                map_pages_fits(va, pa, size),
                n <= count,
                off == 0x1000 * n,
                (off < size) == (n < count),
                self.lvl3_view() == Seq::new(
                    LVL3_ENTRIES as nat,
                    |k: int| mapped_slot(old_lvl3, va, pa, mem_type, n, k),
                ),
            decreases count - n,
        {
            proof {
                lemma_page_in_range(n, count);
            }
            let page_va = va + off;
            let page_pa = pa + off;
            let idx = Self::get_lvl2_offset(page_va) * 512 + Self::get_lvl3_offset(page_va);
            let desc = Self::page_descriptor(page_pa, mem_type);
            self.lvl3.set(idx, desc);
            off += Self::PAGE_SIZE;
            proof {
                lemma_slot_of_page(va, n);
                lemma_map_step(old_lvl3, va, pa, mem_type, n);
                assert(self.lvl3_view() =~= Seq::new(
                    LVL3_ENTRIES as nat,
                    |k: int| mapped_slot(old_lvl3, va, pa, mem_type, n + 1, k),
                ));
                n = n + 1;
                lemma_offset_bound(size, n);
            }
        }
    }

    pub fn table_descriptor(next_level_pa: u64) -> (r: u64)
        ensures
            r == table_descriptor_bits(next_level_pa),
    {
        0x3 | (next_level_pa & 0x0000_ffff_ffff_f000)
    }

    pub fn page_descriptor(pa: u64, mem_type: MemoryType) -> (r: u64)
        ensures
            r == page_descriptor_bits(pa, mem_type),
    {
        match mem_type {
            MemoryType::Device => 0x0040_0000_0000_0000 | 0b1_11_00_0_000_1_1 | (pa
                & 0x0000_ffff_ffff_f000),
            MemoryType::Normal => 0x0040_0000_0000_0000 | 0b1_11_00_0_001_1_1 | (pa
                & 0x0000_ffff_ffff_f000),
        }
    }

    /// Index of the level-3 table that resolves `va` (bits [29:21]).
    pub fn get_lvl2_offset(va: u64) -> (r: usize)
        ensures
            r == (va / 0x20_0000) % 512,
            r * 512 + (va / 0x1000) % 512 == slot(va),
    {
        proof {
            lemma_offsets(va);
        }
        ((va >> 21u64) & 0x1ff) as usize
    }

    /// Index within that level-3 table (bits [20:12]).
    pub fn get_lvl3_offset(va: u64) -> (r: usize)
        ensures
            r == (va / 0x1000) % 512,
    {
        proof {
            lemma_offsets(va);
        }
        ((va >> 12u64) & 0x1ff) as usize
    }
}



/// Where the boot stage hands over to the kernel: the values it loads into the
/// table base, stack pointer and exception return registers, and the
/// virtual address at which the kernel finds the level-3 tables.
#[derive(Clone, Copy, PartialEq, Eq, Structural, Debug)]
pub struct BootHandoff {
    /// Physical address of the level-2 table (for TTBR1_EL1).
    pub table_base: u64,
    /// Virtual address of the top of the boot stack (for SP_EL1).
    pub stack_va: u64,
    /// Virtual address of the kernel image (for ELR_EL2).
    pub kernel_va: u64,
    /// Virtual address of the level-3 tables, passed on to the kernel.
    pub pte_va: u64,
}

/// The level-3 descriptors after the boot stage has mapped, in this order:
/// the kernel image at `kernel_pa + off`, the boot stack page just below
/// `stack_pa` at the same offset, the MiniUART registers at `aux_va`, and the
/// level-3 tables themselves (the 512 pages after the level-2 table at `base`)
/// at offset `off`.
pub open spec fn boot_mappings(
    base: u64,
    kernel_pa: u64,
    kernel_size: u64,
    stack_pa: u64,
    off: u64,
    aux_va: u64,
) -> Seq<u64> {
    let zero = Seq::new(LVL3_ENTRIES as nat, |k: int| 0u64);
    let stack_page = (stack_pa - 0x1000) as u64;
    let pte_pa = (base + 0x1000) as u64;
    let with_kernel = map_pages_result(
        zero,
        (kernel_pa + off) as u64,
        kernel_pa,
        kernel_size,
        MemoryType::Normal,
    );
    let with_stack = with_kernel.update(
        slot((stack_page + off) as u64),
        page_descriptor_bits(stack_page, MemoryType::Normal),
    );
    let with_aux = with_stack.update(slot(aux_va), page_descriptor_bits(AUX_BASE, MemoryType::Device));
    map_pages_result(with_aux, (pte_pa + off) as u64, pte_pa, 0x20_0000u64, MemoryType::Normal)
}

/// The boot stage's arguments leave every address it computes inside 64 bits.
pub open spec fn boot_mappings_fit(
    base: u64,
    kernel_pa: u64,
    kernel_size: u64,
    stack_pa: u64,
    off: u64,
) -> bool {
    &&& kernel_pa + off <= u64::MAX
    &&& map_pages_fits((kernel_pa + off) as u64, kernel_pa, kernel_size)
    &&& stack_pa >= 0x1000
    &&& stack_pa + off <= u64::MAX
    &&& base + 0x1000 + off <= u64::MAX
    &&& map_pages_fits((base + 0x1000 + off) as u64, (base + 0x1000) as u64, 0x20_0000u64)
}

/// Builds the boot page table at `pt` (the table lives at `pt.base()`):
/// clears it, maps the kernel image, the boot stack page, the MiniUART
/// registers and the level-3 tables, and returns the values the boot stage
/// hands to the kernel.
pub fn build_boot_mappings(
    pt: &mut BootPageTable,
    kernel_pa: u64,
    kernel_size: u64,
    stack_pa: u64,
    off: u64,
    aux_va: u64,
) -> (r: BootHandoff)
    requires
        old(pt).wf(),
        boot_mappings_fit(old(pt).base(), kernel_pa, kernel_size, stack_pa, off),
    ensures
        final(pt).wf(),
        final(pt).base() == old(pt).base(),
        forall|i: int|
            0 <= i < 512 ==> #[trigger] final(pt).lvl2_view()[i] == table_descriptor_bits(
                lvl3_table_addr(old(pt).base(), i) as u64,
            ),
        forall|i: int|
            0 <= i < 512 ==> #[trigger] final(pt).lvl2_view()[i] == 0x3u64 | (((old(pt).base()
                + 0x1000 + 0x1000 * i) as u64) & ADDR_MASK),
        final(pt).lvl3_view() == boot_mappings(
            old(pt).base(),
            kernel_pa,
            kernel_size,
            stack_pa,
            off,
            aux_va,
        ),
        r == (BootHandoff {
            table_base: old(pt).base(),
            stack_va: (stack_pa + off) as u64,
            kernel_va: (kernel_pa + off) as u64,
            pte_va: (old(pt).base() + 0x1000 + off) as u64,
        }),
{
    pt.init();

    // text, bss and data
    pt.map_pages(kernel_pa + off, kernel_pa, kernel_size, MemoryType::Normal);

    // stack
    let stack_pa_start = stack_pa - BootPageTable::PAGE_SIZE;
    pt.map_page(stack_pa_start + off, stack_pa_start, MemoryType::Normal);

    // memory-mapped I/O
    pt.map_page(aux_va, AUX_BASE, MemoryType::Device);

    // the level-3 tables
    let pte_pa = pt.get_base_addr() + BootPageTable::PAGE_SIZE;
    pt.map_pages(pte_pa + off, pte_pa, BootPageTable::PAGE_SIZE * 512, MemoryType::Normal);

    BootHandoff {
        table_base: pt.get_base_addr(),
        stack_va: stack_pa + off,
        kernel_va: kernel_pa + off,
        pte_va: pte_pa + off,
    }
}

/// The slot of `va` is the number of its 4 KiB page within the gigabyte of
/// address space that holds it: `va` lies in the page starting `slot * 4096`
/// bytes into that gigabyte.
pub proof fn lemma_slot_is_page_in_gigabyte(va: u64)
    ensures
        0 <= slot(va) < LVL3_ENTRIES,
        slot(va) * 0x1000 <= va % 0x4000_0000 < slot(va) * 0x1000 + 0x1000,
{
    let p = va as int / 0x1000;
    assert(va as int % 0x4000_0000 == (p % 262144) * 0x1000 + va as int % 0x1000) by (nonlinear_arith)
        requires
            p == va as int / 0x1000,
    ;
}

/// The level-2 entry that `va` selects points at the level-3 table row that
/// holds `va`'s slot: the row `slot(va) / 512`, stored right after the level-2
/// table at `base`, one page per row; its descriptor is a valid table entry
/// whose address field is that row's address.
pub proof fn lemma_lvl2_entry_selects_slot_row(base: u64, va: u64)
    requires
        base % 0x1000 == 0,
        base + 0x1000 * 513 <= u64::MAX,
    ensures
        ({
            let i = (va / 0x20_0000) % 512;
            let row = slot(va) / 512;
            let d = table_descriptor_bits(lvl3_table_addr(base, i as int) as u64);
            &&& i == row
            &&& lvl3_table_addr(base, i as int) == base + 0x1000 + 0x1000 * row
            &&& d & 0b11 == 0b11
            &&& d & ADDR_MASK == ((base + 0x1000 + 0x1000 * row) as u64) & ADDR_MASK
        }),
{
    lemma_offsets(va);
    let i = (va / 0x20_0000) % 512;
    let j = (va / 0x1000) % 512;
    assert(slot(va) == i * 512 + j);
    assert(slot(va) / 512 == i);
    let a = (base + 0x1000 + 0x1000 * i) as u64;
    let d = table_descriptor_bits(a);
    assert(d & 0b11 == 0b11 && d & ADDR_MASK == a & ADDR_MASK) by (bit_vector)
        requires
            d == 0x3u64 | (a & 0x0000_ffff_ffff_f000u64),
    ;
}

/// A page descriptor decodes back to what it was built from: the output
/// address is the frame of `pa`, it is a valid page entry, and its attribute
/// index selects the memory type.
pub proof fn lemma_page_descriptor_fields(pa: u64, mem_type: MemoryType)
    ensures
        page_descriptor_bits(pa, mem_type) & ADDR_MASK == pa & ADDR_MASK,
        page_descriptor_bits(pa, mem_type) & 0b11 == 0b11,
        (page_descriptor_bits(pa, mem_type) >> 2u64) & 0b111 == match mem_type {
            MemoryType::Device => 0u64,
            MemoryType::Normal => 1u64,
        },
        pa % 0x1000 == 0 && pa < 0x1_0000_0000_0000 ==> page_descriptor_bits(pa, mem_type)
            & ADDR_MASK == pa,
{
    let d = page_descriptor_bits(pa, mem_type);
    match mem_type {
        MemoryType::Device => {
            assert(d & ADDR_MASK == pa & ADDR_MASK && d & 0b11 == 0b11 && (d >> 2u64) & 0b111 == 0
                && (pa % 0x1000 == 0 && pa < 0x1_0000_0000_0000 ==> d & ADDR_MASK == pa))
                by (bit_vector)
                requires
                    d == 0x0040_0000_0000_0000u64 | 0x703u64 | (pa & 0x0000_ffff_ffff_f000u64),
            ;
        },
        MemoryType::Normal => {
            assert(d & ADDR_MASK == pa & ADDR_MASK && d & 0b11 == 0b11 && (d >> 2u64) & 0b111 == 1
                && (pa % 0x1000 == 0 && pa < 0x1_0000_0000_0000 ==> d & ADDR_MASK == pa))
                by (bit_vector)
                requires
                    d == 0x0040_0000_0000_0000u64 | 0x707u64 | (pa & 0x0000_ffff_ffff_f000u64),
            ;
        },
    }
}

/// The remaining fields of a page descriptor: execution at EL0 forbidden
/// (UXN), execution at EL1 allowed (PXN clear), the access flag set, inner
/// shareable, read/write at EL1 only, secure, and every other bit clear.
pub proof fn lemma_page_descriptor_attributes(pa: u64, mem_type: MemoryType)
    ensures
        ({
            let d = page_descriptor_bits(pa, mem_type);
            &&& (d >> 54u64) & 1 == 1
            &&& (d >> 53u64) & 1 == 0
            &&& (d >> 10u64) & 1 == 1
            &&& (d >> 8u64) & 0b11 == 0b11
            &&& (d >> 6u64) & 0b11 == 0
            &&& (d >> 5u64) & 1 == 0
            &&& d & !(ADDR_MASK | 0x0040_0000_0000_071fu64) == 0
        }),
{
    let d = page_descriptor_bits(pa, mem_type);
    let a: u64 = match mem_type {
        MemoryType::Device => 0x703,
        MemoryType::Normal => 0x707,
    };
    assert(d == 0x0040_0000_0000_0000u64 | a | (pa & ADDR_MASK));
    assert({
        &&& (d >> 54u64) & 1 == 1
        &&& (d >> 53u64) & 1 == 0
        &&& (d >> 10u64) & 1 == 1
        &&& (d >> 8u64) & 0b11 == 0b11
        &&& (d >> 6u64) & 0b11 == 0
        &&& (d >> 5u64) & 1 == 0
        &&& d & !(0x0000_ffff_ffff_f000u64 | 0x0040_0000_0000_071fu64) == 0
    }) by (bit_vector)
        requires
            a == 0x703 || a == 0x707,
            d == 0x0040_0000_0000_0000u64 | a | (pa & 0x0000_ffff_ffff_f000u64),
    ;
}

/// A table descriptor is valid, of table type, and points at the page-aligned
/// table it was built from.
pub proof fn lemma_table_descriptor_fields(next_level_pa: u64)
    ensures
        table_descriptor_bits(next_level_pa) & 0b11 == 0b11,
        next_level_pa % 0x1000 == 0 && next_level_pa < 0x1_0000_0000_0000
            ==> table_descriptor_bits(next_level_pa) & ADDR_MASK == next_level_pa,
{
    let d = table_descriptor_bits(next_level_pa);
    assert(d & 0b11 == 0b11 && (next_level_pa % 0x1000 == 0 && next_level_pa < 0x1_0000_0000_0000
        ==> d & ADDR_MASK == next_level_pa)) by (bit_vector)
        requires
            d == 0x3u64 | (next_level_pa & 0x0000_ffff_ffff_f000u64),
    ;
}

/// When a region spans at most the gigabyte the table covers, `map_pages`
/// leaves every one of its pages mapped to the matching page of the physical
/// region.
pub proof fn lemma_map_pages_maps_each_page(
    old: Seq<u64>,
    va: u64,
    pa: u64,
    size: u64,
    mem_type: MemoryType,
    n: nat,
)
    requires
        map_pages_fits(va, pa, size),
        page_count(size) <= 262144,
        n < page_count(size),
    ensures
        map_pages_result(old, va, pa, size, mem_type)[slot((va + 0x1000 * n) as u64)]
            == page_descriptor_bits((pa + 0x1000 * n) as u64, mem_type),
{
    let m: int = 262144;
    let count = page_count(size);
    lemma_page_in_range(n, count);
    lemma_slot_of_page(va, n);
    let k = slot((va + 0x1000 * n) as u64);
    let f = slot(va);
    assert(0 <= f < m);
    lemma_small_mod(f as nat, m as nat);
    lemma_sub_mod_noop(f + n, f, m);
    lemma_small_mod(n, m as nat);
    assert(first_hit(va, k) == n);
    assert((count - 1 - n) / m == 0);
    assert(last_hit(va, k, count) == n);
}

/// `map_pages` changes only the slots its pages fall into.
pub proof fn lemma_map_pages_keeps_other_slots(
    old: Seq<u64>,
    va: u64,
    pa: u64,
    size: u64,
    mem_type: MemoryType,
    k: int,
)
    requires
        0 <= k < 262144,
        forall|n: nat| n < page_count(size) ==> #[trigger] slot((va + 0x1000 * n) as u64) != k,
        map_pages_fits(va, pa, size),
    ensures
        map_pages_result(old, va, pa, size, mem_type)[k] == old[k],
{
    let m: int = 262144;
    let d = first_hit(va, k);
    if d < page_count(size) {
        let n = d as nat;
        lemma_page_in_range(n, page_count(size));
        lemma_slot_of_page(va, n);
        let f = slot(va);
        assert(0 <= f < m);
        lemma_small_mod(k as nat, m as nat);
        lemma_add_mod_noop(f, k - f, m);
        lemma_small_mod(f as nat, m as nat);
        assert((f + d) % m == k);
        assert(slot((va + 0x1000 * n) as u64) == k);
    }
}

/// Mapping an empty region changes nothing.
pub proof fn lemma_map_pages_empty(old: Seq<u64>, va: u64, pa: u64, mem_type: MemoryType)
    requires
        old.len() == LVL3_ENTRIES,
    ensures
        map_pages_result(old, va, pa, 0, mem_type) == old,
{
    let r = map_pages_result(old, va, pa, 0, mem_type);
    assert forall|k: int| 0 <= k < LVL3_ENTRIES implies r[k] == old[k] by {
        assert(0 <= first_hit(va, k));
    }
    assert(r =~= old);
}

/// Mapping a region of at most one page is mapping that one page.
pub proof fn lemma_map_pages_single(old: Seq<u64>, va: u64, pa: u64, size: u64, mem_type: MemoryType)
    requires
        old.len() == LVL3_ENTRIES,
        0 < size <= 0x1000,
    ensures
        map_pages_result(old, va, pa, size, mem_type) == old.update(
            slot(va),
            page_descriptor_bits(pa, mem_type),
        ),
{
    let m: int = 262144;
    let f = slot(va);
    assert(0 <= f < m);
    assert(page_count(size) == 1);
    let r = map_pages_result(old, va, pa, size, mem_type);
    let u = old.update(slot(va), page_descriptor_bits(pa, mem_type));
    assert forall|k: int| 0 <= k < LVL3_ENTRIES implies r[k] == u[k] by {
        let d = first_hit(va, k);
        assert(0 <= d < m);
        if k == f {
            assert(d == 0);
            assert(last_hit(va, k, 1) == 0);
        } else {
            if d == 0 {
                lemma_fundamental_div_mod(k - f, m);
                assert(k - f == m * ((k - f) / m));
                lemma_small_multiple(k - f, m);
            }
        }
    }
    assert(r =~= u);
}

/// A region whose first part is a whole number of pages maps like its first
/// part followed by the rest.
pub proof fn lemma_map_pages_split(
    old: Seq<u64>,
    va: u64,
    pa: u64,
    a: u64,
    b: u64,
    mem_type: MemoryType,
)
    requires
        old.len() == LVL3_ENTRIES,
        a % 0x1000 == 0,
        a + b <= u64::MAX,
        map_pages_fits(va, pa, (a + b) as u64),
        va + a <= u64::MAX,
        pa + a <= u64::MAX,
    ensures
        map_pages_result(old, va, pa, (a + b) as u64, mem_type) == map_pages_result(
            map_pages_result(old, va, pa, a, mem_type),
            (va + a) as u64,
            (pa + a) as u64,
            b,
            mem_type,
        ),
{
    let na = page_count(a);
    let nb = page_count(b);
    lemma_page_count_split(a, b);
    assert(page_count((a + b) as u64) == na + nb);
    assert(a == 0x1000 * na);
    let t = map_pages_result(old, va, pa, a, mem_type);
    let lhs = map_pages_result(old, va, pa, (a + b) as u64, mem_type);
    let rhs = map_pages_result(t, (va + a) as u64, (pa + a) as u64, b, mem_type);
    if na + nb > 0 {
        lemma_page_in_range((na + nb - 1) as nat, na + nb);
    }
    assert forall|k: int| 0 <= k < LVL3_ENTRIES implies lhs[k] == rhs[k] by {
        lemma_mapped_slot_split(old, va, pa, na, nb, k, mem_type);
    }
    assert(lhs =~= rhs);
}

/// The page count of a region that starts with `a` bytes, a whole number of
/// pages, is that number plus the page count of the rest.
proof fn lemma_page_count_split(a: u64, b: u64)
    requires
        a % 0x1000 == 0,
        a + b <= u64::MAX,
    ensures
        page_count((a + b) as u64) == page_count(a) + page_count(b),
        a == 0x1000 * page_count(a),
{
    let q = a / 0x1000;
    assert(a == 0x1000 * q);
    if a > 0 {
        assert((a - 1) / 0x1000 == q - 1);
    }
    if b > 0 {
        assert((a + b - 1) as int / 0x1000 == q + (b - 1) as int / 0x1000) by (nonlinear_arith)
            requires
                a == 0x1000 * q,
                b >= 1,
        ;
    } else if a > 0 {
        assert((a + b - 1) as int / 0x1000 == q - 1);
    }
}

/// `lemma_map_step` at one slot.
proof fn lemma_map_step_at(old: Seq<u64>, va: u64, pa: u64, mem_type: MemoryType, n: nat, k: int)
    requires
        0 <= k < 262144,
    ensures
        mapped_slot(old, va, pa, mem_type, n + 1, k) == if k == (slot(va) + n) % 262144 {
            page_descriptor_bits((pa + 0x1000 * n) as u64, mem_type)
        } else {
            mapped_slot(old, va, pa, mem_type, n, k)
        },
{
    lemma_map_step(old, va, pa, mem_type, n);
}

/// Slot `k` after `na + nb` pages from `va` equals slot `k` after the first
/// `na` pages and then `nb` pages from `na` pages further on.
proof fn lemma_mapped_slot_split(
    old: Seq<u64>,
    va: u64,
    pa: u64,
    na: nat,
    nb: nat,
    k: int,
    mem_type: MemoryType,
)
    requires
        old.len() == LVL3_ENTRIES,
        0 <= k < LVL3_ENTRIES,
        va + 0x1000 * na <= u64::MAX,
        pa + 0x1000 * na <= u64::MAX,
        na + nb == 0 || (va + 0x1000 * (na + nb - 1) <= u64::MAX && pa + 0x1000 * (na + nb - 1)
            <= u64::MAX),
    ensures
        mapped_slot(
            map_pages_result(old, va, pa, (0x1000 * na) as u64, mem_type),
            (va + 0x1000 * na) as u64,
            (pa + 0x1000 * na) as u64,
            mem_type,
            nb,
            k,
        ) == mapped_slot(old, va, pa, mem_type, na + nb, k),
    decreases nb,
{
    let m: int = 262144;
    let a = (0x1000 * na) as u64;
    let t = map_pages_result(old, va, pa, a, mem_type);
    let va2 = (va + 0x1000 * na) as u64;
    let pa2 = (pa + 0x1000 * na) as u64;
    assert(a % 0x1000 == 0);
    lemma_page_count_split(a, 0);
    assert(page_count(a) == na);
    if nb == 0 {
        assert(0 <= first_hit(va2, k));
        assert(t[k] == mapped_slot(old, va, pa, mem_type, na, k));
    } else {
        let n1 = (nb - 1) as nat;
        lemma_mapped_slot_split(old, va, pa, na, n1, k, mem_type);
        lemma_map_step_at(t, va2, pa2, mem_type, n1, k);
        lemma_map_step_at(old, va, pa, mem_type, (na + n1) as nat, k);
        assert((slot(va2) + n1) % m == (slot(va) + (na + n1)) % m) by {
            lemma_slot_of_page(va, na);
            lemma_add_mod_noop_right(n1 as int, slot(va) + na, m);
        }
        assert(pa2 + 0x1000 * n1 == pa + 0x1000 * (na + n1));
    }
}

/// A page offset is below `size` exactly when its page number is below the
/// page count.
proof fn lemma_offset_bound(size: u64, n: nat)
    ensures
        (0x1000 * n < size) == (n < page_count(size)),
{
    if size > 0 {
        let c = (size - 1) / 0x1000;
        assert(0x1000 * c <= size - 1 < 0x1000 * c + 0x1000);
        if n <= c {
            assert(0x1000 * n <= 0x1000 * c) by (nonlinear_arith)
                requires
                    n <= c,
            ;
        } else {
            assert(0x1000 * n >= 0x1000 * (c + 1)) by (nonlinear_arith)
                requires
                    n >= c + 1,
            ;
        }
    }
}

/// Page number `n` of a region is at most the last one.
proof fn lemma_page_in_range(n: nat, count: nat)
    requires
        n < count,
    ensures
        0x1000 * n <= 0x1000 * (count - 1),
        0x1000 * (n + 1) <= 0x1000 * count,
{
    assert(0x1000 * n <= 0x1000 * (count - 1)) by (nonlinear_arith)
        requires
            n <= count - 1,
    ;
    assert(0x1000 * (n + 1) <= 0x1000 * count) by (nonlinear_arith)
        requires
            n + 1 <= count,
    ;
}

/// Page `n` of a region at `va` lands `n` slots after the region's first slot.
proof fn lemma_slot_of_page(va: u64, n: nat)
    requires
        va + 0x1000 * n <= u64::MAX,
    ensures
        slot((va + 0x1000 * n) as u64) == (slot(va) + n) % 262144,
{
    let a = va as int;
    assert((a + 0x1000 * n) / 0x1000 == a / 0x1000 + n) by (nonlinear_arith);
    assert((a / 0x1000 + n) % 262144 == ((a / 0x1000) % 262144 + n) % 262144) by (nonlinear_arith);
}

/// For `a >= 1` that is no multiple of `m`, `a` and `a - 1` have the same
/// quotient by `m`.
proof fn lemma_div_step(a: int, m: int)
    requires
        a >= 1,
        m > 0,
        a % m != 0,
    ensures
        a / m == (a - 1) / m,
{
    assert(a == m * (a / m) + a % m) by (nonlinear_arith)
        requires
            m > 0,
    ;
    assert(0 <= a % m - 1 < m);
    assert((a - 1) == m * (a / m) + (a % m - 1));
    assert((a - 1) / m == a / m) by (nonlinear_arith)
        requires
            m > 0,
            (a - 1) == m * (a / m) + (a % m - 1),
            0 <= a % m - 1 < m,
    ;
}

/// A multiple of `m` strictly between `-m` and `m` is zero.
proof fn lemma_small_multiple(x: int, m: int)
    requires
        m > 0,
        -m < x < m,
        x % m == 0,
    ensures
        x == 0,
{
    lemma_fundamental_div_mod(x, m);
    let q = x / m;
    assert(x == m * q);
    if q >= 1 {
        assert(m * q >= m) by (nonlinear_arith)
            requires
                q >= 1,
                m > 0,
        ;
    } else if q <= -1 {
        assert(m * q <= -m) by (nonlinear_arith)
            requires
                q <= -1,
                m > 0,
        ;
    } else {
        assert(m * q == 0) by (nonlinear_arith)
            requires
                q == 0,
        ;
    }
}

/// Writing page `n` into its slot turns the table after `n` pages into the
/// table after `n + 1` pages.
proof fn lemma_map_step(old: Seq<u64>, va: u64, pa: u64, mem_type: MemoryType, n: nat)
    ensures
        forall|k: int|
            0 <= k < 262144 ==> #[trigger] mapped_slot(old, va, pa, mem_type, n + 1, k) == if k
                == (slot(va) + n) % 262144 {
                page_descriptor_bits((pa + 0x1000 * n) as u64, mem_type)
            } else {
                mapped_slot(old, va, pa, mem_type, n, k)
            },
{
    let m: int = 262144;
    let ni: int = n as int;
    let f = slot(va);
    let s = (f + ni) % m;
    assert(0 <= f < m);
    lemma_small_mod(f as nat, m as nat);
    // the slot written by page n is n slots (mod m) after the first one
    lemma_sub_mod_noop(f + ni, f, m);
    assert((s - f) % m == ni % m);
    assert forall|k: int| 0 <= k < 262144 implies #[trigger] mapped_slot(
        old,
        va,
        pa,
        mem_type,
        n + 1,
        k,
    ) == if k == s {
        page_descriptor_bits((pa + 0x1000 * n) as u64, mem_type)
    } else {
        mapped_slot(old, va, pa, mem_type, n, k)
    } by {
        let d = first_hit(va, k);
        assert(0 <= d < m);
        if k == s {
            assert(d == ni % m);
            lemma_fundamental_div_mod(ni, m);
            assert(ni - d == m * (ni / m));
            lemma_div_multiples_vanish(ni / m, m);
            assert((ni - d) / m == ni / m);
            assert(last_hit(va, k, n + 1) == ni);
        } else {
            if d < ni + 1 {
                if d == ni % m {
                    // then k and s are congruent modulo m, so they are equal
                    lemma_mod_equivalence(k - f, s - f, m);
                    assert((k - s) % m == 0);
                    lemma_small_multiple(k - s, m);
                }
                assert(d != ni % m);
                if d == ni {
                    lemma_small_mod(n, m as nat);
                }
                assert(d < ni);
                if (ni - d) % m == 0 {
                    lemma_mod_equivalence(ni, d, m);
                    lemma_small_mod(d as nat, m as nat);
                }
                assert((ni - d) % m != 0);
                lemma_div_step(ni - d, m);
                assert(last_hit(va, k, n + 1) == last_hit(va, k, n));
            }
        }
    }
}

proof fn lemma_offsets(va: u64)
    ensures
        ((va >> 21u64) & 0x1ff) == (va / 0x20_0000) % 512,
        ((va >> 12u64) & 0x1ff) == (va / 0x1000) % 512,
        ((va / 0x20_0000) % 512) * 512 + (va / 0x1000) % 512 == (va / 0x1000) % 262144,
{
    assert(((va >> 21u64) & 0x1ff) == (va / 0x20_0000) % 512) by (bit_vector);
    assert(((va >> 12u64) & 0x1ff) == (va / 0x1000) % 512) by (bit_vector);
    assert(((va / 0x20_0000) % 512) * 512 + (va / 0x1000) % 512 == (va / 0x1000) % 262144)
        by (bit_vector);
}

} // verus!
