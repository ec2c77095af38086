# dunes

A NES emulator core whose logic is verified with Verus: the 6502 processor,
the picture processing unit, the NROM cartridge and its iNES header, the
processor's bus, the event scheduler and the triple buffer that hands frames
from the emulator to a display.

## Layout

- `src/` is the verified library.
  - `cpu/`: the 6502 core over any `Bus`. Every bus cycle is recorded in a
    ghost trace beside the bus before and after it, tied to the bus call by
    the relations that each `Bus` states for its reads and writes, and each
    instruction's contract states its effect on the registers in terms of
    that trace (`semantics.rs`, `mode.rs`, `flow.rs`,
    `instr.rs`, `step.rs`), along with the disassembler (`disasm.rs`), the
    run to the end of a frame (`frame.rs`) and the laws (`laws.rs`: the
    arithmetic of the flags, flat memory, JSR then RTS, PHP then PLP, SBC
    as ADC of the complement, one NMI per edge, NMI within two steps). The processor runs one of two instruction set variants:
    the debugger's, or the emulator's, which decodes 0x93 and 0x9F the other
    way round and stores SHA, SHX, SHY and TAS by its own rule.
  - `bus.rs`: the `Bus` trait, the console's bus (RAM with its mirrors, the
    PPU registers, the cartridge) and a flat memory bus.
  - `cartridge.rs`, `header.rs`, `mapper.rs`, `nrom.rs`: iNES images and the
    NROM board.
  - `ppu/`: the cycle-level PPU with its loopy address register, its
    registers and the images of the pattern tables and the screen;
    `simple_ppu.rs` and `emu_ppu.rs` are the two other PPU models.
  - `scheduler.rs`, `timeline.rs`: sorted event queues ending in a sentinel.
  - `emu.rs`: the emulator that drives the processor from the scheduler.
  - `triple_buffer.rs`: the index protocol of the lock-free triple buffer.
  - `dispatch.rs`: address-indexed handler tables.
- `tests/` runs the library on concrete programs and values.
- `app/` is the program around it: reading a ROM, running frames, writing
  images, and the atomics and threads of the frame hand-off.
