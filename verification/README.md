# pikernel

The verified core of a small AArch64 kernel for the Raspberry Pi, written in
Verus. `src/` holds the logic with its contracts and proofs; `app/` holds the
parts that run on the hardware (boot entry, register access, exception entry,
global state, system-call interface) and call into `src/`.

Modules of `src/`:

- `mmu` — physical and virtual addresses, memory types.
- `register` — register-field arithmetic through `tock_registers`.
- `pagetable` — the kernel's level-3 page table: map, unmap, descriptors.
- `vm` — page allocators, the virtual-memory manager, heap mapping.
- `boot` — the boot-stage page table and the mappings the boot stage sets up.
- `thread` — threads and the round-robin scheduler.
- `timer` — millisecond clock, timer intervals, core timer setup.
- `uart` — MiniUART base address, baud rate, status bits.
- `gic` — the interrupt controller interface.
- `syscall` — system-call decoding.
- `rref` — shared references between domains.
