# ferrisnes

The CPU core of an NES emulator: a 6502 with 2 KiB of mirrored RAM and
32 KiB of cartridge ROM, whose every instruction is proved against a
mathematical model.

- `src/state.rs`: the model of the machine (`CpuState`), the memory map,
  the stack and the status flags.
- `src/semantics.rs`: what each implemented opcode does (`CpuState::execute`),
  when an instruction faults, and what a step and a run are.
- `src/cpu.rs`: the `CPU` itself, its memory accesses, `reset`, `step`,
  `run`, `interpret` and ROM loading, each with a contract over the model.
- `src/ops.rs`: one handler per opcode, each proved to match `execute`.
- `src/laws.rs`: properties across instructions (stack round trips, `BRK`/`RTI`,
  `ADC`/`SBC` arithmetic, rotations, ROM never written, faults change nothing).
- `app/main.rs`: the program that loads a ROM file and runs it, with an
  optional trace.
