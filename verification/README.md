# nes_rs

The core of a NES emulator with its behaviour stated as Verus contracts and
proved:

- `cpu`: the 6502 core. `cpu/opcodes.rs` is the instruction table,
  `cpu/semantics.rs` states every operation, the fetch and the cycle loop as
  spec functions, and `cpu/laws.rs` proves properties that span several
  operations (push/pop, JSR/RTS, interrupts and RTI, flags, arithmetic).
- `apu`: the audio processing unit (pulse, triangle, noise and DMC channels,
  the frame counter, the register interface); `apu/laws.rs` holds the
  properties of the status register, the length counters, the frame
  interrupt, the DMC output and the noise generator; `apu/dmc_reader.rs`
  reads DMC samples from the CPU's address space.
- `mappers`: the cartridge mappers 0, 1, 2, 4 (MMC3), 7, 66 and 227 over a
  shared banked memory.
- `controllers`, `nes`, `io`: the standard controller, the zapper, the two
  ports and the frontend's answers about buttons and the mouse.
- `frontend`: the frontend's controls, video and window sizes, the menu bar
  logic (`frontend/menu.rs`) and the keyboard mapping of the controllers
  (`frontend/keys.rs`).
- `memory`, `colors`, `common`, `cpu_ram_apu`, `cpu_ppu`: memory, the palette,
  shared constants, the register maps and the picture unit's interrupt view.

`tests/` exercises the library on concrete programs and values, and `app/` is
a small headless runner with the floating-point parts (the audio mixer and
the zapper's light sensing).
