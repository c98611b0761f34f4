//! Verified core of a small AArch64 teaching kernel: address types, the boot
//! and kernel page tables, page allocators, the round-robin scheduler, timer
//! arithmetic, and the decision logic behind the UART and system calls.
use vstd::prelude::*;

pub mod mmu;
pub mod register;
pub mod pagetable;
pub mod vm;
pub mod boot;
pub mod thread;
pub mod timer;
pub mod uart;
pub mod gic;
pub mod syscall;
pub mod rref;
