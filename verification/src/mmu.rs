//! Physical and virtual addresses, and the memory types a page can be mapped with.
use vstd::prelude::*;

verus! {

/// How a mapped page is treated by the memory system.
#[derive(Clone, Copy, PartialEq, Eq, Structural, Debug)]
pub enum MemoryType {
    /// Device memory (memory-mapped I/O): attribute index 0.
    Device,
    /// Normal cacheable memory: attribute index 1.
    Normal,
}

/// An address that can be converted to and from a plain `usize`.
pub trait Addr: Sized {
    /// The numeric value of the address.
    spec fn addr(&self) -> usize;

    fn to_usize(&self) -> (r: usize)
        ensures
            r == self.addr(),
    ;

    fn from_usize(u: usize) -> (r: Self)
        ensures
            r.addr() == u,
    ;

    /// The address `off` bytes further on.
    fn add_off(&self, off: usize) -> (r: Self)
        requires
            self.addr() + off <= usize::MAX,
        ensures
            r.addr() == self.addr() + off,
    {
        Self::from_usize(self.to_usize() + off)
    }
}

/// A physical address.
#[derive(Clone, Copy, PartialEq, Eq, Structural, Debug)]
pub struct PhyAddr {
    pa: usize,
}

impl Addr for PhyAddr {
    closed spec fn addr(&self) -> usize {
        self.pa
    }

    fn to_usize(&self) -> (r: usize) {
        self.pa
    }

    fn from_usize(u: usize) -> (r: Self) {
        Self { pa: u }
    }
}

/// A virtual address.
#[derive(Clone, Copy, PartialEq, Eq, Structural, Debug)]
pub struct VirtAddr {
    va: usize,
}

impl Addr for VirtAddr {
    closed spec fn addr(&self) -> usize {
        self.va
    }

    fn to_usize(&self) -> (r: usize) {
        self.va
    }

    fn from_usize(u: usize) -> (r: Self) {
        Self { va: u }
    }
}

} // verus!
