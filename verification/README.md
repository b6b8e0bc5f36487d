# gb-core

A DMG Game Boy core written in Verus: the functions of the library in
`src/` carry contracts that Verus proves, except two small trusted wrappers
(`String::push`, and the SHA-256 of the `sha2` crate), whose contracts are
taken on trust.

- `src/cpu`: the SM83 register file, the ALU, and the M-cycle loop
  (`Cpu::step`), which decodes `NOP`, `JP u16` and the `LD r8,r8` block.
- `src/bus`: address decoding, work/high RAM, the I/O registers with their
  owners, the timer, and the boot-ROM hand-off state. `Bus::with_mapper`
  slots a mapper of the library, whose behaviour the bus then states;
  `Bus::new` takes any `Cartridge`. The bus is generic in the type of the
  cartridge it holds (by default `dyn Cartridge`), so that these contracts
  are proved once for every cartridge type.
- `src/ppu.rs`, `src/apu.rs`, `src/serial.rs`, `src/joypad.rs`: the
  peripherals on the bus.
- `src/cart`: the cartridge header and the mappers (none, MBC1, MBC2, MBC3,
  MBC5).
- `src/run.rs`: running the machine to a verdict, by serial output or by the
  SHA-256 of the framebuffer (the hash itself comes from the `sha2` crate).
- `src/info.rs`: the size arithmetic of the header report.
- `app/`: the command line (`info`, `run`), which reads files and prints.

The `law_*` proof functions state the properties that hold across
operations (read-after-write of the memories, the M-cycle timing of
instructions, the frame sequencer period, and so on).

## What this core leaves out

- The APU has channels 1 and 2 with sweep, duty and envelope, the frame
  sequencer and NR50-NR52. It has no length timers, no channels 3 and 4, no
  mixer and no sample buffer, and nothing here tests them.
- `cart::load` mounts MBC1, MBC2, MBC3 and MBC5, so type `$19` is mounted,
  not refused.
- The error types have no `Display`; `app/` words the messages.
- At hand-off the registers that behave (DIV, LY, STAT, NR52) read that
  behaviour, not a stored byte.
