# armos

Verified core of ArmOS, a small operating system for the STM32H745 (Cortex-M7) on
the SL-TFT7 carrier board, and of its stage-0 bootloader.

- `src/` is the verified library: the free-list heap allocator, the GPIO
  and UART register plans, the board pin map, the LTDC and double-buffer display
  logic, framebuffer drawing, the bootloader's bring-up sequence, vector check and
  fail panel, the ProcessTracker's decisions and texts.
  Drivers return the register accesses they need as `RegOp` values; nothing in the
  library touches memory-mapped I/O.
- `app/` is the program around it: volatile register access, linker symbols,
  global state behind `spin` locks, fontdue text rendering, the panic report and
  the bootloader's jump.
- `tests/` runs the library on concrete values.
