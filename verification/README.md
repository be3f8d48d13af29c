# gameboy

An emulator core for the original Game Boy (DMG), written in Verus: every
function of the library carries a contract that the verifier proves.

- `src/cpu`: the SM83 processor (`cpu.rs`, with the step relations of
  `step.rs`), its opcode tables (`function_table.rs`), and two register-file
  types (`registers.rs`, `cpu_state.rs`).
- `src/memory`: the address space, the timer and DMA (`memory_wrapper.rs`).
- `src/screen`: the LCD registers, video and object memory, the dot-by-dot
  screen, a layer-drawing PPU and a pixel FIFO.
- `src/cartridge`: the bank controllers (none, MBC1, MBC2, MBC3 with its
  clock, MBC5) behind the `Mbc` trait, and the `Cartridge` that picks one from
  the header.
- `src/joypad.rs`, `src/audio.rs`, `src/interrupt.rs`: the remaining devices.
- `src/laws.rs`: properties across operations (what a read gives back of a
  write, stack discipline, interrupt timing and priority, counter ranges).
- `app/main.rs`: the SDL2 program around the core (window, keyboard, sound
  queue, files, the cartridge clock's wall-time tick, logging).

A processor access to an address that the machine does not define (echo RAM,
unmapped registers, an EI or DI in a state where it is undefined) records a
fault in `CpuStruct::fault`, and a processor with a fault stops executing.
Arithmetic that overflows wraps, except where a contract's `requires`
excludes the overflow (`RegStruct::inc_pc`, `ExROM::new`).
