# Pamplemouche-OS core

The verified core of Pamplemouche-OS, a small x86-64 micro-kernel with a
Darwin compatibility layer, written in Verus.

`src/` is the library, every function of it verified but the few trusted
bridges to outside crates, each marked and documented where it stands:

- `darwin` — the Darwin BSD syscall table and the dispatcher's answers.
- `macho` — the 64-bit Mach-O header and load-command parser, which loads
  the x86-64 slice of a universal binary.
- `ipc` — messages and bounded FIFO ports.
- `keyboard` — PS/2 scancodes decoded into keys through pc_keyboard.
- `scheduler` — tasks and the round-robin scheduler driven by the timer tick.
- `vga` — the 80×25 text console: cursor, scrolling, shown bytes.
- `interrupts` — the PIC vector layout.
- `memory` — the physical frame allocator over the boot memory map, the
  kernel heap's pages, and what page-table operations report.

`app/` is the kernel binary around it: boot entry, GDT/IDT/PIC setup,
interrupt handlers, the memory-mapped VGA buffer, the serial console, page
tables and the global heap, and the locks that share the scheduler and the
ports.  `tests/` exercises the library.
