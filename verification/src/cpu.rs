//! The CPU's registers and memories, its memory map, its stack, and the
//! loop that runs it.

use vstd::prelude::*;
use crate::semantics::{Fault, OperandKind, RunExit, StepOutcome, operand_kind_of};
use crate::state::{CpuState, FLAG_INTERRUPT, FLAG_NEGATIVE, FLAG_ZERO, is_mapped, word, wrap16};

verus! {

broadcast use vstd::array::group_array_axioms;

/// A 6502 CPU with 2 KiB of RAM and 32 KiB of cartridge ROM.
pub struct CPU {
    pub program_counter: u16,
    pub register_a: u8,
    pub register_x: u8,
    pub register_y: u8,
    /// The flags: carry, zero, interrupt disable, decimal, (bits 4 and 5),
    /// overflow, negative, from bit 0 to bit 7.
    pub status: u8,
    pub ram: [u8; 0x800],
    pub rom: [u8; 0x8000],
    /// Cycles taken by the last instruction executed.
    pub cycles: i32,
    pub stack_pointer: u8,
    /// The last address fetched by an absolute or read-modify-write instruction.
    pub address_bus: u16,
}

impl View for CPU {
    type V = CpuState;

    open spec fn view(&self) -> CpuState {
        CpuState {
            pc: self.program_counter,
            a: self.register_a,
            x: self.register_x,
            y: self.register_y,
            status: self.status,
            sp: self.stack_pointer,
            cycles: self.cycles,
            bus: self.address_bus,
            ram: self.ram@,
            rom: self.rom@,
        }
    }
}

impl CPU {
    /// A CPU with every register, flag and byte of memory at zero.
    pub fn new() -> (cpu: Self)
        ensures
            cpu@ == (CpuState {
                pc: 0,
                a: 0,
                x: 0,
                y: 0,
                status: 0,
                sp: 0,
                cycles: 0,
                bus: 0,
                ram: Seq::new(0x800, |i: int| 0u8),
                rom: Seq::new(0x8000, |i: int| 0u8),
            }),
    {
        let cpu = CPU {
            program_counter: 0,
            register_a: 0,
            register_x: 0,
            register_y: 0,
            status: 0,
            ram: [0; 0x800],
            rom: [0; 0x8000],
            cycles: 0,
            stack_pointer: 0,
            address_bus: 0,
        };
        assert(cpu.ram@ =~= Seq::new(0x800, |i: int| 0u8));
        assert(cpu.rom@ =~= Seq::new(0x8000, |i: int| 0u8));
        cpu
    }

    /// The byte at a mapped address, as the CPU would read it.
    pub fn read_debug(&self, address: u16) -> (byte: u8)
        requires
            is_mapped(address),
        ensures
            byte == self@.read(address),
    {
        self.read(address)
    }

    pub(crate) fn read(&self, address: u16) -> (byte: u8)
        requires
            is_mapped(address),
        ensures
            byte == self@.read(address),
    {
        if address <= 0x1FFF {
            assert(address & 0x07FF == address % 0x800) by (bit_vector);
            self.ram[(address & 0x07FF) as usize]
        } else {
            self.rom[(address - 0x8000) as usize]
        }
    }

    pub(crate) fn write(&mut self, address: u16, data: u8)
        ensures
            final(self)@ == old(self)@.write(address, data),
    {
        if address <= 0x1FFF {
            assert(address & 0x07FF == address % 0x800) by (bit_vector);
            self.ram[(address & 0x07FF) as usize] = data;
        }
    }

    pub(crate) fn push(&mut self, value: u8)
        ensures
            final(self)@ == old(self)@.push(value),
    {
        self.write(0x0100 + self.stack_pointer as u16, value);
        self.stack_pointer = self.stack_pointer.wrapping_sub(1);
    }

    pub(crate) fn pull(&mut self) -> (value: u8)
        ensures
            final(self)@ == old(self)@.pop(),
            value == final(self)@.stack_top(),
    {
        self.stack_pointer = self.stack_pointer.wrapping_add(1);
        self.read(0x0100 + self.stack_pointer as u16)
    }

    pub(crate) fn fetch_byte(&mut self) -> (byte: u8)
        requires
            is_mapped(old(self).program_counter),
        ensures
            byte == old(self)@.operand(),
            final(self)@ == old(self)@.skip(1),
    {
        let byte = self.read(self.program_counter);
        self.program_counter = self.program_counter.wrapping_add(1);
        byte
    }

    pub(crate) fn absolute_address(&mut self)
        requires
            is_mapped(old(self).program_counter),
            is_mapped(wrap16(old(self).program_counter + 1)),
        ensures
            final(self)@ == old(self)@.fetch_absolute(),
    {
        let low = self.fetch_byte() as u16;
        let high = self.fetch_byte() as u16;
        assert((high << 8) | low == high * 256 + low) by (bit_vector)
            requires
                low < 256,
                high < 256,
        ;
        self.address_bus = (high << 8) | low;
    }

    pub(crate) fn set_flag(&mut self, mask: u8, on: bool)
        ensures
            final(self)@ == old(self)@.with_flag(mask, on),
    {
        if on {
            self.status = self.status | mask;
        } else {
            self.status = self.status & !mask;
        }
    }

    /// Zero and negative set from the byte `value`.
    pub(crate) fn set_nz(&mut self, value: u8)
        ensures
            final(self)@ == old(self)@.with_nz(value),
    {
        self.set_flag(FLAG_ZERO, value == 0);
        self.set_flag(FLAG_NEGATIVE, value >= 0x80);
    }

    /// Loads the program counter from the reset vector at 0xFFFC, sets
    /// interrupt disable and puts the stack pointer at 0xFD.
    pub fn reset(&mut self)
        ensures
            final(self)@ == old(self)@.with_pc(word(old(self)@.read(0xFFFC), old(self)@.read(0xFFFD))).with_flag(
                FLAG_INTERRUPT,
                true,
            ).with_sp(0xFD),
    {
        let pcl = self.read(0xFFFC);
        let pch = self.read(0xFFFD);
        let low = pcl as u16;
        let high = pch as u16;
        assert((high << 8) | low == high * 256 + low) by (bit_vector)
            requires
                low < 256,
                high < 256,
        ;
        self.program_counter = (high << 8) | low;
        self.set_flag(FLAG_INTERRUPT, true);
        self.stack_pointer = 0xFD;
    }
}


/// Whether the CPU can read `address`.
pub fn mapped(address: u16) -> (b: bool)
    ensures
        b == is_mapped(address),
{
    address <= 0x1FFF || address >= 0x8000
}

/// The operand shape of `opcode`.
fn operand_kind(opcode: u8) -> (kind: OperandKind)
    ensures
        kind == operand_kind_of(opcode),
{
    match opcode {
        0x00 | 0x02 | 0x08 | 0x0A | 0x18 | 0x28 | 0x2A | 0x38 | 0x40 | 0x48 | 0x4A | 0x58
        | 0x60 | 0x68 | 0x6A | 0x78 | 0x88 | 0x8A | 0x98 | 0x9A | 0xA8 | 0xAA | 0xB8 | 0xBA
        | 0xC8 | 0xCA | 0xD8 | 0xE8 | 0xEA | 0xF8 => OperandKind::Implied,
        0x05 | 0x06 | 0x09 | 0x10 | 0x24 | 0x25 | 0x26 | 0x29 | 0x30 | 0x45 | 0x46 | 0x49
        | 0x50 | 0x65 | 0x66 | 0x69 | 0x70 | 0x84 | 0x85 | 0x86 | 0x90 | 0xA0 | 0xA2 | 0xA5
        | 0xA9 | 0xB0 | 0xC0 | 0xC4 | 0xC5 | 0xC6 | 0xC9 | 0xD0 | 0xE0 | 0xE4 | 0xE5 | 0xE6
        | 0xE9 | 0xF0 => OperandKind::Byte,
        0x20 | 0x4C | 0x8C | 0x8D | 0x8E => OperandKind::Address,
        0x0D | 0x0E | 0x2C | 0x2D | 0x2E | 0x4D | 0x4E | 0x6D | 0x6E | 0xAD | 0xCC | 0xCD
        | 0xCE | 0xEC | 0xED | 0xEE => OperandKind::AddressRead,
        _ => OperandKind::Unsupported,
    }
}

impl CPU {
    /// The first address that an instruction of kind `kind` whose operands
    /// start at `pc` would read and cannot.
    fn unmapped_operand(&self, pc: u16, kind: OperandKind) -> (r: Option<u16>)
        ensures
            r == self@.with_pc(pc).first_unmapped(kind),
    {
        let pc1 = pc.wrapping_add(1);
        match kind {
            OperandKind::Byte => {
                if !mapped(pc) {
                    Some(pc)
                } else {
                    None
                }
            },
            OperandKind::Address => {
                if !mapped(pc) {
                    Some(pc)
                } else if !mapped(pc1) {
                    Some(pc1)
                } else {
                    None
                }
            },
            OperandKind::AddressRead => {
                if !mapped(pc) {
                    Some(pc)
                } else if !mapped(pc1) {
                    Some(pc1)
                } else {
                    let low = self.read(pc) as u16;
                    let high = self.read(pc1) as u16;
                    let address = high * 256 + low;
                    if !mapped(address) {
                        Some(address)
                    } else {
                        None
                    }
                }
            },
            _ => None,
        }
    }

    /// One step, where `brk_halts` tells whether 0x00 halts or is `BRK`.
    fn execute_step(&mut self, brk_halts: bool) -> (outcome: StepOutcome)
        ensures
            (outcome, final(self)@) == old(self)@.step(brk_halts),
    {
        let pc = self.program_counter;
        if !mapped(pc) {
            return StepOutcome::Faulted(Fault::UnmappedRead(pc));
        }
        let opcode = self.read(pc);
        let next = pc.wrapping_add(1);
        if opcode == 0x02 || (brk_halts && opcode == 0x00) {
            self.program_counter = next;
            return StepOutcome::Halted;
        }
        let kind = operand_kind(opcode);
        if let OperandKind::Unsupported = kind {
            return StepOutcome::Faulted(Fault::UnknownOpcode(opcode));
        }
        if let Some(address) = self.unmapped_operand(next, kind) {
            return StepOutcome::Faulted(Fault::UnmappedRead(address));
        }
        self.program_counter = next;
        self.execute_opcode(opcode);
        StepOutcome::Continue
    }

    /// Executes the instruction at the program counter, `BRK` included, and
    /// says whether the CPU goes on, halted at 0x02, or would fault.
    pub fn step(&mut self) -> (outcome: StepOutcome)
        ensures
            (outcome, final(self)@) == old(self)@.step(false),
    {
        self.execute_step(false)
    }

    /// Steps until the CPU halts or faults, or `max_steps` steps were taken.
    fn run_with(&mut self, brk_halts: bool, max_steps: u64) -> (exit: RunExit)
        ensures
            (exit, final(self)@) == old(self)@.run(brk_halts, max_steps as nat),
    {
        let mut remaining = max_steps;
        while remaining > 0
            invariant
                self@.run(brk_halts, remaining as nat) == old(self)@.run(brk_halts, max_steps as nat),
            decreases remaining,
        {
            
            let outcome = self.execute_step(brk_halts);
            match outcome {
                StepOutcome::Continue => {
                    remaining = remaining - 1;
                },
                StepOutcome::Halted => {
                    return RunExit::Halted;
                },
                StepOutcome::Faulted(fault) => {
                    return RunExit::Faulted(fault);
                },
            }
        }
        RunExit::StepLimit
    }

    /// Runs from the program counter until the halting opcode 0x02 or a
    /// fault, with `BRK` jumping through its vector; gives up after
    /// `u64::MAX` steps.
    pub fn run(&mut self) -> (exit: RunExit)
        ensures
            (exit, final(self)@) == old(self)@.run(false, u64::MAX as nat),
    {
        self.run_with(false, u64::MAX)
    }

    /// Copies `program` into RAM from address 0x0001 on, points the program
    /// counter at its first byte and runs it until 0x00 or 0x02 halts it or
    /// a fault; registers and flags keep the values they had.
    pub fn interpret(&mut self, program: Vec<u8>) -> (exit: RunExit)
        requires
            program.len() < 0x800,
        ensures
            (exit, final(self)@) == old(self)@.load_program(program@).run(true, u64::MAX as nat),
    {
        let mut i: usize = 0;
        assert(old(self)@.ram.subrange(0, 1) + program@.subrange(0, 0) + old(self)@.ram.subrange(1, 0x800)
            =~= old(self)@.ram);
        while i < program.len()
            invariant
                i <= program.len() < 0x800,
                self@ == old(self)@.with_ram(
                    old(self)@.ram.subrange(0, 1) + program@.subrange(0, i as int) + old(self)@.ram.subrange(
                        i + 1,
                        0x800,
                    ),
                ),
            decreases program.len() - i,
        {
            self.ram[i + 1] = program[i];
            assert(self@.ram =~= old(self)@.ram.subrange(0, 1) + program@.subrange(0, i + 1)
                + old(self)@.ram.subrange(i + 2, 0x800));
            i = i + 1;
        }
        assert(program@.subrange(0, i as int) =~= program@);
        self.program_counter = 0x0001;
        self.run_with(true, u64::MAX)
    }

    /// Copies the 32 KiB of program ROM that follow the 16-byte header of an
    /// iNES image into ROM.
    pub fn load_rom_image(&mut self, image: &[u8])
        requires
            image@.len() >= 0x8010,
        ensures
            final(self)@ == old(self)@.with_rom(image@.subrange(0x10, 0x8010)),
    {
        let mut i: usize = 0;
        assert(image@.subrange(0x10, 0x10) + old(self)@.rom.subrange(0, 0x8000) =~= old(self)@.rom);
        while i < 0x8000
            invariant
                i <= 0x8000,
                image@.len() >= 0x8010,
                self@ == old(self)@.with_rom(image@.subrange(0x10, 0x10 + i) + old(self)@.rom.subrange(i as int, 0x8000)),
            decreases 0x8000 - i,
        {
            self.rom[i] = image[i + 0x10];
            assert(self@.rom =~= image@.subrange(0x10, 0x10 + i + 1) + old(self)@.rom.subrange(i + 1, 0x8000));
            i = i + 1;
        }
        assert(old(self)@.rom.subrange(0x8000, 0x8000) =~= Seq::<u8>::empty());
        assert(image@.subrange(0x10, 0x8010) + Seq::<u8>::empty() =~= image@.subrange(0x10, 0x8010));
    }
}

} // verus!
