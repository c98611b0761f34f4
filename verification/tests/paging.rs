use pikernel::boot::{self, BootPageTable};
use pikernel::mmu::{Addr, MemoryType, PhyAddr, VirtAddr};
use pikernel::pagetable::PageTable;
use pikernel::vm::{PhyPageAlloc, VirtPageAlloc, VirtPageManage, PAGE_SIZE};

const OFF: u64 = 0xffff_ff80_0000_0000;

#[test]
fn addr_round_trip_and_offset() {
    let pa = PhyAddr::from_usize(0x4000_0000);
    assert_eq!(pa.to_usize(), 0x4000_0000);
    assert_eq!(pa.add_off(0x1000).to_usize(), 0x4000_1000);
    let va = VirtAddr::from_usize(0x10);
    assert_eq!(va.add_off(6).to_usize(), 0x16);
}

#[test]
fn kernel_map_writes_normal_descriptor() {
    let mut pt = PageTable::new();
    pt.map(VirtAddr::from_usize(0x1234_5000), PhyAddr::from_usize(0x4000_3000), MemoryType::Normal);
    assert_eq!(pt.entry(0x12345), 0x0040_0000_4000_3707);
    assert_eq!(pt.entry(0x12344), 0);
}

#[test]
fn kernel_map_writes_device_descriptor() {
    let mut pt = PageTable::new();
    pt.map(VirtAddr::from_usize(0x3f20_0000), PhyAddr::from_usize(0x3f20_0000), MemoryType::Device);
    assert_eq!(pt.entry(0x3f200), 0x0040_0000_3f20_0703);
}

#[test]
fn kernel_descriptor_drops_bits_outside_the_frame() {
    let mut pt = PageTable::new();
    pt.map(VirtAddr::from_usize(0x5000), PhyAddr::from_usize(0x0001_0000_0000_7abc), MemoryType::Normal);
    assert_eq!(pt.entry(5), 0x0040_0000_0000_7707);
}

#[test]
fn kernel_table_wraps_at_one_gigabyte() {
    let mut pt = PageTable::new();
    pt.map(VirtAddr::from_usize(0x4000_2000), PhyAddr::from_usize(0x9000), MemoryType::Normal);
    assert_eq!(pt.entry(2), 0x0040_0000_0000_9707);
}

#[test]
fn kernel_unmap_after_map_returns_frame() {
    let mut pt = PageTable::new();
    let va = VirtAddr::from_usize(0x1234_5000);
    pt.map(va, PhyAddr::from_usize(0x4000_3000), MemoryType::Normal);
    let pa = pt.unmap(va);
    assert_eq!(pa.to_usize(), 0x4000_3000);
    assert_eq!(pt.entry(0x12345), 0x0040_0000_4000_3706);
}

#[test]
fn kernel_unmap_of_empty_slot_returns_zero() {
    let mut pt = PageTable::new();
    let pa = pt.unmap(VirtAddr::from_usize(0x7000));
    assert_eq!(pa.to_usize(), 0);
    assert_eq!(pt.entry(7), 0);
}

#[test]
fn phy_page_alloc_hands_out_consecutive_pages() {
    let mut a = PhyPageAlloc::empty();
    a.init(PhyAddr::from_usize(0x20_0000));
    assert_eq!(a.alloc_page().to_usize(), 0x20_0000);
    assert_eq!(a.alloc_page().to_usize(), 0x20_1000);
    assert_eq!(a.alloc_page().to_usize(), 0x20_2000);
}

#[test]
fn virt_page_alloc_hands_out_consecutive_pages() {
    let mut a = VirtPageAlloc::empty();
    a.init(VirtAddr::from_usize(0xffff_ff80_0100_0000));
    assert_eq!(a.alloc_page().to_usize(), 0xffff_ff80_0100_0000);
    assert_eq!(a.alloc_page().to_usize(), 0xffff_ff80_0100_0000 + PAGE_SIZE);
}

#[test]
fn virt_page_manage_map_then_unmap() {
    let mut vm = VirtPageManage::empty();
    vm.init(PageTable::new(), VirtAddr::from_usize(0x10_0000));
    let va = VirtAddr::from_usize(0x10_3000);
    vm.map(va, PhyAddr::from_usize(0x8000_0000), MemoryType::Normal);
    assert_eq!(vm.unmap(va).to_usize(), 0x8000_0000);
}

#[test]
fn boot_offsets_split_the_page_number() {
    assert_eq!(BootPageTable::get_lvl2_offset(0x4020_3000), 1);
    assert_eq!(BootPageTable::get_lvl3_offset(0x4020_3000), 3);
    assert_eq!(BootPageTable::get_lvl2_offset(0x3fff_ffff), 511);
    assert_eq!(BootPageTable::get_lvl3_offset(0x3fff_ffff), 511);
    assert_eq!(BootPageTable::get_lvl2_offset(OFF | 0xc000), 0);
    assert_eq!(BootPageTable::get_lvl3_offset(OFF | 0xc000), 12);
}

#[test]
fn boot_init_links_level3_tables() {
    let mut pt = BootPageTable::new(0x8_0000);
    pt.init();
    assert_eq!(pt.get_base_addr(), 0x8_0000);
    assert_eq!(pt.lvl2_entry(0), 0x8_1003);
    assert_eq!(pt.lvl2_entry(1), 0x8_2003);
    assert_eq!(pt.lvl2_entry(511), 0x28_0003);
    assert_eq!(pt.lvl3_entry(0, 0), 0);
    assert_eq!(pt.lvl3_entry(511, 511), 0);
}

#[test]
fn boot_map_page_writes_descriptor() {
    let mut pt = BootPageTable::new(0x8_0000);
    pt.init();
    pt.map_page(OFF | 0xc000, boot::AUX_BASE, boot::MemoryType::Device);
    assert_eq!(pt.lvl3_entry(0, 12), 0x0040_0000_3f21_5703);
    pt.map_page(0x4020_3000, 0x1234_5678, boot::MemoryType::Normal);
    assert_eq!(pt.lvl3_entry(1, 3), 0x0040_0000_1234_5707);
}

#[test]
fn boot_map_pages_maps_each_page() {
    let mut pt = BootPageTable::new(0x8_0000);
    pt.init();
    // two and a bit pages: three pages are written
    pt.map_pages(OFF | 0x1f_f000, 0x40_0000, 0x2001, boot::MemoryType::Normal);
    assert_eq!(pt.lvl3_entry(0, 511), 0x0040_0000_0040_0707);
    assert_eq!(pt.lvl3_entry(1, 0), 0x0040_0000_0040_1707);
    assert_eq!(pt.lvl3_entry(1, 1), 0x0040_0000_0040_2707);
    assert_eq!(pt.lvl3_entry(1, 2), 0);
    assert_eq!(pt.lvl3_entry(0, 510), 0);
}

#[test]
fn boot_map_pages_of_zero_size_maps_nothing() {
    let mut pt = BootPageTable::new(0x8_0000);
    pt.init();
    pt.map_pages(0x1000, 0x2000, 0, boot::MemoryType::Normal);
    assert_eq!(pt.lvl3_entry(0, 1), 0);
}

#[test]
fn boot_map_pages_wraps_and_last_page_wins() {
    let mut pt = BootPageTable::new(0x8_0000);
    pt.init();
    // one gigabyte and one page: the first slot is written twice
    pt.map_pages(0, 0x1_0000_0000, 0x4000_1000, boot::MemoryType::Normal);
    assert_eq!(pt.lvl3_entry(0, 0), 0x0040_0001_4000_0707);
    assert_eq!(pt.lvl3_entry(0, 1), 0x0040_0001_0000_1707);
    assert_eq!(pt.lvl3_entry(511, 511), 0x0040_0001_3fff_f707);
}

#[test]
fn boot_mappings_cover_kernel_stack_uart_and_tables() {
    let mut pt = BootPageTable::new(0x10_0000);
    let h = boot::build_boot_mappings(&mut pt, 0x8_0000, 0x3000, 0x8_0000, OFF, OFF | 0x3fe0_0000);
    assert_eq!(h.table_base, 0x10_0000);
    assert_eq!(h.stack_va, OFF | 0x8_0000);
    assert_eq!(h.kernel_va, OFF | 0x8_0000);
    assert_eq!(h.pte_va, OFF | 0x10_1000);
    // kernel image
    assert_eq!(pt.lvl3_entry(0, 0x80), 0x0040_0000_0008_0707);
    assert_eq!(pt.lvl3_entry(0, 0x82), 0x0040_0000_0008_2707);
    assert_eq!(pt.lvl3_entry(0, 0x83), 0);
    // stack page just below the stack top
    assert_eq!(pt.lvl3_entry(0, 0x7f), 0x0040_0000_0007_f707);
    // UART registers, device memory
    assert_eq!(pt.lvl3_entry(511, 0), 0x0040_0000_3f21_5703);
    // the level-3 tables themselves
    assert_eq!(pt.lvl3_entry(0, 0x101), 0x0040_0000_0010_1707);
    assert_eq!(pt.lvl3_entry(1, 0x100), 0x0040_0000_0030_0707);
    assert_eq!(pt.lvl3_entry(1, 0x101), 0);
    // level-2 entries point at the level-3 tables
    assert_eq!(pt.lvl2_entry(0), 0x10_1003);
}

#[test]
fn map_heap_maps_ten_consecutive_pages() {
    let mut virt_alloc = VirtPageAlloc::empty();
    virt_alloc.init(VirtAddr::from_usize(0x10_0000));
    let mut phy = PhyPageAlloc::empty();
    phy.init(PhyAddr::from_usize(0x20_0000));
    let mut vm = VirtPageManage::empty();
    vm.init(PageTable::new(), VirtAddr::from_usize(0x10_0000));
    let heap = pikernel::vm::map_heap(&mut virt_alloc, &mut phy, &mut vm);
    assert_eq!(heap.to_usize(), 0x10_0000);
    for i in 0..pikernel::vm::HEAP_SIZE {
        let pa = vm.unmap(VirtAddr::from_usize(0x10_0000 + i * PAGE_SIZE));
        assert_eq!(pa.to_usize(), 0x20_0000 + i * PAGE_SIZE);
    }
    assert_eq!(virt_alloc.alloc_page().to_usize(), 0x10_a000);
    assert_eq!(phy.alloc_page().to_usize(), 0x20_a000);
}

#[test]
fn new_page_maps_fresh_page_to_fresh_frame() {
    let mut virt_alloc = VirtPageAlloc::empty();
    virt_alloc.init(VirtAddr::from_usize(0x40_0000));
    let mut phy = PhyPageAlloc::empty();
    phy.init(PhyAddr::from_usize(0x7000));
    let mut vm = VirtPageManage::empty();
    vm.init(PageTable::new(), VirtAddr::from_usize(0x40_0000));
    let a = vm.new_page(&mut virt_alloc, &mut phy, MemoryType::Normal);
    let b = vm.new_page(&mut virt_alloc, &mut phy, MemoryType::Device);
    assert_eq!(a.to_usize(), 0x40_0000);
    assert_eq!(b.to_usize(), 0x40_1000);
    assert_eq!(vm.unmap(b).to_usize(), 0x8000);
    assert_eq!(vm.unmap(a).to_usize(), 0x7000);
}

#[test]
fn kernel_and_boot_descriptors_agree() {
    let mut kpt = PageTable::new();
    let mut bpt = BootPageTable::new(0x8_0000);
    bpt.init();
    for (i, &pa) in [0x0u64, 0x3f21_5000, 0x1234_5678_9abc, 0xffff_ffff_ffff_ffff].iter().enumerate() {
        let va = (i as u64 + 1) * 0x1000;
        kpt.map(VirtAddr::from_usize(va as usize), PhyAddr::from_usize(pa as usize), MemoryType::Device);
        bpt.map_page(va, pa, boot::MemoryType::Device);
        assert_eq!(kpt.entry(i + 1), bpt.lvl3_entry(0, i + 1));
        kpt.map(VirtAddr::from_usize(va as usize), PhyAddr::from_usize(pa as usize), MemoryType::Normal);
        bpt.map_page(va, pa, boot::MemoryType::Normal);
        assert_eq!(kpt.entry(i + 1), bpt.lvl3_entry(0, i + 1));
    }
}

fn boot_table_with(va: u64, pa: u64, size: u64) -> BootPageTable {
    let mut pt = BootPageTable::new(0x8_0000);
    pt.init();
    pt.map_pages(va, pa, size, boot::MemoryType::Normal);
    pt
}

fn same_lvl3(a: &BootPageTable, b: &BootPageTable) -> bool {
    (0..512).all(|i| (0..512).all(|j| a.lvl3_entry(i, j) == b.lvl3_entry(i, j)))
}

#[test]
fn map_pages_of_one_page_is_map_page() {
    let mut single = BootPageTable::new(0x8_0000);
    single.init();
    single.map_page(0x1234_5000, 0x7_7000, boot::MemoryType::Normal);
    for size in [1u64, 0x800, 0x1000] {
        assert!(same_lvl3(&boot_table_with(0x1234_5000, 0x7_7000, size), &single));
    }
}

#[test]
fn map_pages_splits_at_a_page_boundary() {
    let whole = boot_table_with(0x3ff_e000, 0x10_0000, 0x5800);
    let mut parts = boot_table_with(0x3ff_e000, 0x10_0000, 0x3000);
    parts.map_pages(0x3ff_e000 + 0x3000, 0x10_0000 + 0x3000, 0x2800, boot::MemoryType::Normal);
    assert!(same_lvl3(&whole, &parts));
}

#[test]
fn boot_table_from_tables_keeps_entries() {
    let mut lvl3 = vec![0u64; boot::LVL3_ENTRIES];
    lvl3[513] = 0x0040_0000_0000_1707;
    let pt = BootPageTable::from_tables(vec![7u64; 512], lvl3, 0x8_0000);
    assert_eq!(pt.lvl2_entry(3), 7);
    assert_eq!(pt.lvl3_entry(1, 1), 0x0040_0000_0000_1707);
}

#[test]
fn descriptor_builders_agree() {
    for pa in [0u64, 0x3f21_5000, 0x1234_5678_9abc, u64::MAX] {
        assert_eq!(
            PageTable::page_descriptor(PhyAddr::from_usize(pa as usize), MemoryType::Device),
            BootPageTable::page_descriptor(pa, boot::MemoryType::Device)
        );
        assert_eq!(
            PageTable::page_descriptor(PhyAddr::from_usize(pa as usize), MemoryType::Normal),
            BootPageTable::page_descriptor(pa, boot::MemoryType::Normal)
        );
    }
    assert_eq!(BootPageTable::table_descriptor(0x8_1abc), 0x8_1003);
}

#[test]
fn bump_allocations_never_repeat() {
    let mut a = PhyPageAlloc::empty();
    a.init(PhyAddr::from_usize(0x30_0000));
    let pages: Vec<usize> = (0..16).map(|_| a.alloc_page().to_usize()).collect();
    for (i, &p) in pages.iter().enumerate() {
        assert_eq!(p, 0x30_0000 + i * PAGE_SIZE);
        assert_eq!(p % PAGE_SIZE, 0);
    }
    for w in pages.windows(2) {
        assert!(w[0] < w[1]);
    }
}

#[test]
fn map_device_maps_next_page_as_device() {
    let mut virt_alloc = VirtPageAlloc::empty();
    virt_alloc.init(VirtAddr::from_usize(0x40_0000));
    let mut vm = VirtPageManage::empty();
    vm.init(PageTable::new(), VirtAddr::from_usize(0x40_0000));
    let va = vm.map_device(&mut virt_alloc, PhyAddr::from_usize(0x4000_0000));
    assert_eq!(va.to_usize(), 0x40_0000);
    assert_eq!(vm.entry(PageTable::index_of(va)), 0x0040_0000_4000_0703);
    assert_eq!(virt_alloc.alloc_page().to_usize(), 0x40_1000);
}
