# dw-apb-gpio

Register layer for the Synopsys DesignWare APB GPIO block (`DW_apb_gpio`)
with 32-bit registers, verified with Verus.

- `src/registers.rs`: the register block as its thirty 32-bit words
  (`DwApbGpio`), the register offsets, `RegisterWrite`, one write of a word,
  and `Plan`, up to five writes held in a fixed array.
- `src/ops.rs`: every pad operation as a function of the register words: reads
  return a bit, changes return the ordered writes of their read-modify-write
  sequence (a plan), each stated exactly. `op_reads` names the registers
  each operation reads, and a lemma proves that it depends on no other word.
- `src/pad.rs`, `src/flex_pad.rs`, `src/input.rs`, `src/output.rs`,
  `src/eint.rs`, `src/eint_with_both_edges.rs`: the pin and the type-state pads;
  each change reads the words, computes its plan and makes its writes, all
  inside one critical section. The temporary modes (`with_output`,
  `with_input`) put the pin back when the closure returns, not while a panic
  unwinds; the memory-mapped pads in `app/` keep a `Drop` guard for that.
- `src/laws.rs`: what holds of every plan: other pins' bits are never touched,
  levels and directions read back as written, interrupt set-up and teardown
  mask and disable, event selection masks first and restores the mask, and a
  saved pin is restored exactly.
- `app/`: the memory-mapped block (`volatile-register` types), which reads the
  registers that `op_reads` names, asks the library for the plan and performs its
  writes inside a critical section; the pads there implement the
  `embedded-hal` digital traits.

Plans and read sets are fixed-size arrays, so the register layer needs no
allocator. The critical-section implementation is the platform's; the tests
link critical-section's `std` implementation.
