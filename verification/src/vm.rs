//! Page allocation and the kernel's virtual-memory manager.
use crate::mmu::{Addr, MemoryType, PhyAddr, VirtAddr};
use crate::pagetable::{frame_of, invalidate, page_descriptor_bits, pte_index, PageTable, PTE_ENTRIES};
use vstd::prelude::*;

verus! {

/// Size of a page in bytes.
pub const PAGE_SIZE: usize = 0x1000;

/// A bump allocator of physical pages: it hands out consecutive pages and never
/// frees one.
pub struct PhyPageAlloc {
    current: Option<PhyAddr>,
}

impl View for PhyPageAlloc {
    /// The next page to be handed out, or `None` before `init`.
    type V = Option<usize>;

    closed spec fn view(&self) -> Option<usize> {
        match self.current {
            Some(a) => Some(a.addr()),
            None => None,
        }
    }
}

impl PhyPageAlloc {
    /// The page the next allocation hands out, or `None` before `init`.
    pub fn next(&self) -> (r: Option<PhyAddr>)
        ensures
            match r {
                Some(a) => self@ == Some(a.addr()),
                None => self@ == None::<usize>,
            },
    {
        self.current
    }

    /// An allocator that has not been given its first page yet.
    pub fn empty() -> (r: Self)
        ensures
            r@ == None::<usize>,
    {
        Self { current: None }
    }

    /// Starts handing out pages at `pa_start`.
    pub fn init(&mut self, pa_start: PhyAddr)
        ensures
            final(self)@ == Some(pa_start.addr()),
    {
        self.current = Some(pa_start);
    }

    /// Hands out the next page and moves past it.
    pub fn alloc_page(&mut self) -> (r: PhyAddr)
        requires
            old(self)@ is Some,
            old(self)@->0 + PAGE_SIZE <= usize::MAX,
        ensures
            r.addr() == old(self)@->0,
            final(self)@ == Some((r.addr() + PAGE_SIZE) as usize),
    {
        match self.current {
            Some(old) => {
                self.current = Some(old.add_off(PAGE_SIZE));
                old
            },
            None => {
                proof {
                    assert(false);
                }
                PhyAddr::from_usize(0)
            },
        }
    }
}

/// A bump allocator of kernel virtual pages, the counterpart of
/// [`PhyPageAlloc`] for the kernel's free virtual range.
pub struct VirtPageAlloc {
    current: Option<VirtAddr>,
}

impl View for VirtPageAlloc {
    /// The next page to be handed out, or `None` before `init`.
    type V = Option<usize>;

    closed spec fn view(&self) -> Option<usize> {
        match self.current {
            Some(a) => Some(a.addr()),
            None => None,
        }
    }
}

impl VirtPageAlloc {
    /// The page the next allocation hands out, or `None` before `init`.
    pub fn next(&self) -> (r: Option<VirtAddr>)
        ensures
            match r {
                Some(a) => self@ == Some(a.addr()),
                None => self@ == None::<usize>,
            },
    {
        self.current
    }

    /// An allocator that has not been given its first page yet.
    pub fn empty() -> (r: Self)
        ensures
            r@ == None::<usize>,
    {
        Self { current: None }
    }

    /// Starts handing out pages at `va_start`.
    pub fn init(&mut self, va_start: VirtAddr)
        ensures
            final(self)@ == Some(va_start.addr()),
    {
        self.current = Some(va_start);
    }

    /// Hands out the next page and moves past it.
    pub fn alloc_page(&mut self) -> (r: VirtAddr)
        requires
            old(self)@ is Some,
            old(self)@->0 + PAGE_SIZE <= usize::MAX,
        ensures
            r.addr() == old(self)@->0,
            final(self)@ == Some((r.addr() + PAGE_SIZE) as usize),
    {
        match self.current {
            Some(old) => {
                self.current = Some(old.add_off(PAGE_SIZE));
                old
            },
            None => {
                proof {
                    assert(false);
                }
                VirtAddr::from_usize(0)
            },
        }
    }
}

/// "Alloc but never free": when `cursors[i]` is the allocator's next page
/// before its `i`-th allocation (so `alloc_page` returns `cursors[i]` and
/// leaves `cursors[i + 1]`), the `i`-th allocation returns `cursors[0] + i`
/// pages; the pages handed out strictly increase, so none is handed out
/// twice, and they are page aligned when the first one is.
pub proof fn lemma_bump_allocations(cursors: Seq<usize>)
    requires
        cursors.len() > 0,
        forall|i: int|
            #![trigger cursors[i]]
            0 <= i < cursors.len() - 1 ==> cursors[i + 1] == cursors[i] + PAGE_SIZE,
    ensures
        forall|i: int| 0 <= i < cursors.len() ==> #[trigger] cursors[i] == cursors[0] + PAGE_SIZE * i,
        forall|i: int, j: int| 0 <= i < j < cursors.len() ==> #[trigger] cursors[i] < #[trigger] cursors[j],
        cursors[0] % PAGE_SIZE == 0 ==> forall|i: int|
            0 <= i < cursors.len() ==> #[trigger] cursors[i] % PAGE_SIZE == 0,
    decreases cursors.len(),
{
    let n = cursors.len() - 1;
    if n > 0 {
        let prefix = cursors.subrange(0, n);
        assert forall|i: int| #![trigger prefix[i]] 0 <= i < prefix.len() - 1 implies prefix[i + 1] == prefix[i] + PAGE_SIZE by {
            assert(cursors[i] == prefix[i]);
            assert(cursors[i + 1] == prefix[i + 1]);
        }
        lemma_bump_allocations(prefix);
        assert(cursors[n - 1] == prefix[n - 1]);
        assert(cursors[n] == cursors[n - 1] + PAGE_SIZE);
        assert forall|i: int| 0 <= i < cursors.len() implies #[trigger] cursors[i] == cursors[0]
            + PAGE_SIZE * i by {
            if i < n {
                assert(cursors[i] == prefix[i]);
            }
        }
        if cursors[0] % PAGE_SIZE == 0 {
            assert forall|i: int| 0 <= i < cursors.len() implies #[trigger] cursors[i] % PAGE_SIZE
                == 0 by {
                assert(cursors[i] == cursors[0] + PAGE_SIZE * i);
                assert((cursors[0] + 0x1000 * i) % 0x1000 == cursors[0] % 0x1000) by (nonlinear_arith)
                    requires
                        i >= 0,
                ;
            }
        }
    }
}

/// Owner of the kernel page table: maps pages above the start of the kernel's
/// dynamic virtual range and unmaps them.
pub struct VirtPageManage {
    pt: Option<PageTable>,
    va_start: Option<VirtAddr>,
}

impl VirtPageManage {
    /// The descriptors of the managed page table, or `None` before `init`.
    pub closed spec fn table(&self) -> Option<Seq<u64>> {
        match self.pt {
            Some(pt) => Some(pt@),
            None => None,
        }
    }

    /// The lowest virtual address that may be mapped, or `None` before `init`.
    pub closed spec fn va_start(&self) -> Option<usize> {
        match self.va_start {
            Some(a) => Some(a.addr()),
            None => None,
        }
    }

    /// The managed table, when there is one, has a descriptor for every slot.
    pub open spec fn wf(&self) -> bool {
        self.table() is Some ==> self.table()->0.len() == PTE_ENTRIES
    }

    /// Whether `init` has given the manager a page table.
    pub fn has_table(&self) -> (r: bool)
        ensures
            r == (self.table() is Some),
    {
        self.pt.is_some()
    }

    /// The lowest address that may be mapped, or `None` before `init`.
    pub fn va_start_addr(&self) -> (r: Option<VirtAddr>)
        ensures
            match r {
                Some(a) => self.va_start() == Some(a.addr()),
                None => self.va_start() == None::<usize>,
            },
    {
        self.va_start
    }

    /// A manager with no page table yet.
    pub fn empty() -> (r: Self)
        ensures
            r.wf(),
            r.table() == None::<Seq<u64>>,
            r.va_start() == None::<usize>,
    {
        Self { pt: None, va_start: None }
    }

    /// Takes charge of `pt`; pages below `va_start` hold the kernel image and
    /// are never remapped.
    pub fn init(&mut self, pt: PageTable, va_start: VirtAddr)
        requires
            pt.wf(),
        ensures
            final(self).wf(),
            final(self).table() == Some(pt@),
            final(self).va_start() == Some(va_start.addr()),
    {
        self.pt = Some(pt);
        self.va_start = Some(va_start);
    }

    /// The descriptor in slot `index` of the managed table.
    pub fn entry(&self, index: usize) -> (r: u64)
        requires
            self.wf(),
            self.table() is Some,
            index < PTE_ENTRIES,
        ensures
            r == self.table()->0[index as int],
    {
        match &self.pt {
            Some(pt) => pt.entry(index),
            None => {
                proof {
                    assert(false);
                }
                0
            },
        }
    }

    /// Maps the page holding `va` to the frame holding `pa`.
    pub fn map(&mut self, va: VirtAddr, pa: PhyAddr, mem_type: MemoryType)
        requires
            old(self).wf(),
            old(self).table() is Some,
            old(self).va_start() is Some,
            va.addr() >= old(self).va_start()->0,
        ensures
            final(self).wf(),
            final(self).va_start() == old(self).va_start(),
            final(self).table() == Some(
                old(self).table()->0.update(
                    pte_index(va.addr()),
                    page_descriptor_bits(pa.addr() as u64, mem_type),
                ),
            ),
    {
        let start = match self.va_start {
            Some(s) => s,
            None => {
                proof {
                    assert(false);
                }
                return ;
            },
        };
        if va.to_usize() < start.to_usize() {
            // remapping the kernel text is ruled out by the precondition
            proof {
                assert(false);
            }
            return ;
        }
        match self.pt.take() {
            Some(mut pt) => {
                pt.map(va, pa, mem_type);
                self.pt = Some(pt);
            },
            None => {
                proof {
                    assert(false);
                }
            },
        }
    }

    /// Maps a fresh virtual page to a fresh frame and returns the page: the
    /// next page of `virt_alloc` and the next frame of `phy`.
    pub fn new_page(
        &mut self,
        virt_alloc: &mut VirtPageAlloc,
        phy: &mut PhyPageAlloc,
        mem_type: MemoryType,
    ) -> (r: VirtAddr)
        requires
            old(virt_alloc)@ is Some,
            old(phy)@ is Some,
            old(virt_alloc)@->0 + PAGE_SIZE <= usize::MAX,
            old(phy)@->0 + PAGE_SIZE <= usize::MAX,
            old(self).wf(),
            old(self).table() is Some,
            old(self).va_start() is Some,
            old(virt_alloc)@->0 >= old(self).va_start()->0,
        ensures
            r.addr() == old(virt_alloc)@->0,
            final(virt_alloc)@ == Some((old(virt_alloc)@->0 + PAGE_SIZE) as usize),
            final(phy)@ == Some((old(phy)@->0 + PAGE_SIZE) as usize),
            final(self).wf(),
            final(self).va_start() == old(self).va_start(),
            final(self).table() == Some(
                old(self).table()->0.update(
                    pte_index(old(virt_alloc)@->0),
                    page_descriptor_bits(old(phy)@->0 as u64, mem_type),
                ),
            ),
    {
        let va = virt_alloc.alloc_page();
        let pa = phy.alloc_page();
        self.map(va, pa, mem_type);
        va
    }

    /// Maps the device registers at `pa` at a fresh virtual page, as device
    /// memory, and returns that page.
    pub fn map_device(&mut self, virt_alloc: &mut VirtPageAlloc, pa: PhyAddr) -> (r: VirtAddr)
        requires
            old(virt_alloc)@ is Some,
            old(virt_alloc)@->0 + PAGE_SIZE <= usize::MAX,
            old(self).wf(),
            old(self).table() is Some,
            old(self).va_start() is Some,
            old(virt_alloc)@->0 >= old(self).va_start()->0,
        ensures
            r.addr() == old(virt_alloc)@->0,
            final(virt_alloc)@ == Some((old(virt_alloc)@->0 + PAGE_SIZE) as usize),
            final(self).wf(),
            final(self).va_start() == old(self).va_start(),
            final(self).table() == Some(
                old(self).table()->0.update(
                    pte_index(old(virt_alloc)@->0),
                    page_descriptor_bits(pa.addr() as u64, MemoryType::Device),
                ),
            ),
    {
        let va = virt_alloc.alloc_page();
        self.map(va, pa, MemoryType::Device);
        va
    }

    /// Invalidates the mapping of the page holding `va` and returns the frame
    /// it pointed to.
    pub fn unmap(&mut self, va: VirtAddr) -> (r: PhyAddr)
        requires
            old(self).wf(),
            old(self).table() is Some,
        ensures
            final(self).wf(),
            final(self).va_start() == old(self).va_start(),
            r.addr() == frame_of(old(self).table()->0[pte_index(va.addr())]) as usize,
            final(self).table() == Some(
                old(self).table()->0.update(
                    pte_index(va.addr()),
                    invalidate(old(self).table()->0[pte_index(va.addr())]),
                ),
            ),
    {
        match self.pt.take() {
            Some(mut pt) => {
                let pa = pt.unmap(va);
                self.pt = Some(pt);
                pa
            },
            None => {
                proof {
                    assert(false);
                }
                PhyAddr::from_usize(0)
            },
        }
    }
}


/// Number of pages the kernel heap starts with.
pub const HEAP_SIZE: usize = 10;

/// The descriptors after the first `n` pages from virtual address `va` have
/// been mapped, one after the other, to the frames from `pa` on.
pub open spec fn map_run(table: Seq<u64>, va: usize, pa: usize, n: nat, mem_type: MemoryType) -> Seq<
    u64,
>
    decreases n,
{
    if n == 0 {
        table
    } else {
        map_run(table, va, pa, (n - 1) as nat, mem_type).update(
            pte_index((va + PAGE_SIZE * (n - 1)) as usize),
            page_descriptor_bits((pa + PAGE_SIZE * (n - 1)) as u64, mem_type),
        )
    }
}

/// Maps the kernel heap: takes `HEAP_SIZE` fresh virtual pages and as many
/// fresh frames and maps them to each other in order, as normal memory.
/// Returns the start of the heap.
pub fn map_heap(
    virt_alloc: &mut VirtPageAlloc,
    phy: &mut PhyPageAlloc,
    virt: &mut VirtPageManage,
) -> (r: VirtAddr)
    requires
        old(virt_alloc)@ is Some,
        old(phy)@ is Some,
        old(virt_alloc)@->0 + PAGE_SIZE * HEAP_SIZE <= usize::MAX,
        old(phy)@->0 + PAGE_SIZE * HEAP_SIZE <= usize::MAX,
        old(virt).wf(),
        old(virt).table() is Some,
        old(virt).va_start() is Some,
        old(virt_alloc)@->0 >= old(virt).va_start()->0,
    ensures
        r.addr() == old(virt_alloc)@->0,
        final(virt_alloc)@ == Some((old(virt_alloc)@->0 + PAGE_SIZE * HEAP_SIZE) as usize),
        final(phy)@ == Some((old(phy)@->0 + PAGE_SIZE * HEAP_SIZE) as usize),
        final(virt).wf(),
        final(virt).va_start() == old(virt).va_start(),
        final(virt).table() == Some(
            map_run(
                old(virt).table()->0,
                old(virt_alloc)@->0,
                old(phy)@->0,
                HEAP_SIZE as nat,
                MemoryType::Normal,
            ),
        ),
{
    let ghost v0 = virt_alloc@->0;
    let ghost p0 = phy@->0;
    let ghost t0 = virt.table()->0;
    let heap_start = virt_alloc.alloc_page();
    let first_frame = phy.alloc_page();
    virt.map(heap_start, first_frame, MemoryType::Normal);
    assert(map_run(t0, v0, p0, 0, MemoryType::Normal) == t0);
    assert(virt.table()->0 == map_run(t0, v0, p0, 1, MemoryType::Normal));
    let mut i: usize = 0;
    while i < HEAP_SIZE - 1
        invariant
            0 <= i <= HEAP_SIZE - 1,
            virt_alloc@ == Some((v0 + PAGE_SIZE * (i + 1)) as usize),
            phy@ == Some((p0 + PAGE_SIZE * (i + 1)) as usize),
            v0 + PAGE_SIZE * HEAP_SIZE <= usize::MAX,
            p0 + PAGE_SIZE * HEAP_SIZE <= usize::MAX,
            virt.wf(),
            virt.table() is Some,
            virt.va_start() is Some,
            virt.va_start() == old(virt).va_start(),
            v0 >= virt.va_start()->0,
            virt.table()->0 == map_run(t0, v0, p0, (i + 1) as nat, MemoryType::Normal),
        decreases HEAP_SIZE - 1 - i,
    {
        let va = virt_alloc.alloc_page();
        let pa = phy.alloc_page();
        virt.map(va, pa, MemoryType::Normal);
        i += 1;
    }
    heap_start
}

/// The heap pages land in distinct slots, so after `map_heap` each of them
/// resolves to its own frame: heap page `i` to frame `i`.
pub proof fn lemma_heap_pages_mapped(table: Seq<u64>, va: usize, pa: usize, n: nat, i: nat, mem_type: MemoryType)
    requires
        table.len() == 262144,
        n <= 262144,
        i < n,
        va + PAGE_SIZE * n <= usize::MAX,
        pa + PAGE_SIZE * n <= usize::MAX,
    ensures
        map_run(table, va, pa, n, mem_type).len() == 262144,
        map_run(table, va, pa, n, mem_type)[pte_index((va + PAGE_SIZE * i) as usize)]
            == page_descriptor_bits((pa + PAGE_SIZE * i) as u64, mem_type),
    decreases n,
{
    lemma_map_run_len(table, va, pa, n, mem_type);
    lemma_map_run_len(table, va, pa, (n - 1) as nat, mem_type);
    assert(0 <= pte_index((va + PAGE_SIZE * i) as usize) < 262144);
    if i + 1 < n {
        lemma_heap_pages_mapped(table, va, pa, (n - 1) as nat, i, mem_type);
        // page n - 1 lands elsewhere: fewer than 2^18 pages apart
        let a = (va + PAGE_SIZE * i) as usize;
        let b = (va + PAGE_SIZE * (n - 1)) as usize;
        assert(a / 0x1000 == va / 0x1000 + i) by (nonlinear_arith)
            requires
                a == va + 0x1000 * i,
        ;
        assert(b / 0x1000 == va / 0x1000 + (n - 1)) by (nonlinear_arith)
            requires
                b == va + 0x1000 * (n - 1),
        ;
        assert(pte_index(a) != pte_index(b)) by (nonlinear_arith)
            requires
                a / 0x1000 == va / 0x1000 + i,
                b / 0x1000 == va / 0x1000 + (n - 1),
                i < n - 1,
                n - 1 < 262144,
        {
            let x = a / 0x1000;
            let y = b / 0x1000;
            assert(0 < y - x < 262144);
        }
    }
}

proof fn lemma_map_run_len(table: Seq<u64>, va: usize, pa: usize, n: nat, mem_type: MemoryType)
    requires
        table.len() == 262144,
    ensures
        map_run(table, va, pa, n, mem_type).len() == 262144,
    decreases n,
{
    if n > 0 {
        lemma_map_run_len(table, va, pa, (n - 1) as nat, mem_type);
    }
}

} // verus!
