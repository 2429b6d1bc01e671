# kernel

A small x86_64 kernel, split in two:

- `src/` is the verified library (Verus). It holds the kernel's data structures and
  decisions, each with a contract over a mathematical model:
  - `bitmap`: identifier bitmaps (lowest clear bit, set, unset, allocate);
  - `mem`: the physical frame allocator (`pma`), the heap's block arithmetic (`heap`) and
    page table entries (`paging`);
  - `vfs` and `fs`: the virtual file system (path resolution through mounts and the dentry
    cache, file descriptors) and the root, proc, dev and initramfs file systems;
  - `parse`: the cpio archive parser behind the initramfs, and the ELF types;
  - `arch`: descriptor tables, the task state segment, interrupt frames, MSR values and the
    processor feature checks;
  - `drivers`: the port writes of the 8259A interrupt controller and the serial port, and
    the tty pool;
  - `syscall`: the syscall register, dispatch and the error codes;
  - `device`, `loader`, `scheduler`: device registers, errors and saved task contexts.

  Laws that relate several operations (allocating then freeing, creating then looking up,
  resolving twice, encoding then decoding a descriptor) are public proof functions next to
  the operations they speak of.

- `app/` is ordinary Rust around the library: port and register access, the tables laid out
  in memory and loaded, interrupt entry points, the global instances behind spin locks, the
  heap allocator's free list, error types with messages, and the boot sequence.

- `tests/` runs the library on concrete values.
