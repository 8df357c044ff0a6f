//! The abstract machine state of the CPU and the memory map it sees.

use vstd::prelude::*;

verus! {

/// Status register bit: carry.
pub const FLAG_CARRY: u8 = 0x01;
/// Status register bit: zero.
pub const FLAG_ZERO: u8 = 0x02;
/// Status register bit: interrupt disable.
pub const FLAG_INTERRUPT: u8 = 0x04;
/// Status register bit: decimal mode.
pub const FLAG_DECIMAL: u8 = 0x08;
/// Bit set in a status byte pushed by `PHP` or `BRK`.
pub const FLAG_BREAK: u8 = 0x10;
/// Bit always set in a pushed status byte.
pub const FLAG_UNUSED: u8 = 0x20;
/// Status register bit: overflow.
pub const FLAG_OVERFLOW: u8 = 0x40;
/// Status register bit: negative.
pub const FLAG_NEGATIVE: u8 = 0x80;

/// The mathematical model of the CPU: its registers and both memories.
pub struct CpuState {
    pub pc: u16,
    pub a: u8,
    pub x: u8,
    pub y: u8,
    pub status: u8,
    pub sp: u8,
    pub cycles: i32,
    pub bus: u16,
    pub ram: Seq<u8>,
    pub rom: Seq<u8>,
}

/// `n` taken modulo 2^16.
pub open spec fn wrap16(n: int) -> u16 {
    (n % 0x10000) as u16
}

/// `n` taken modulo 2^8.
pub open spec fn wrap8(n: int) -> u8 {
    (n % 0x100) as u8
}

/// A byte read as a two's complement number.
pub open spec fn signed8(b: u8) -> int {
    if b < 0x80 {
        b as int
    } else {
        b - 0x100
    }
}

/// Whether the bit(s) of `mask` are set in `status`.
pub open spec fn flag_set(status: u8, mask: u8) -> bool {
    status & mask != 0
}

/// `status` with the bit(s) of `mask` set when `on`, cleared otherwise.
pub open spec fn with_flag(status: u8, mask: u8, on: bool) -> u8 {
    if on {
        status | mask
    } else {
        status & !mask
    }
}

/// `status` with zero and negative describing the byte `v`.
pub open spec fn with_nz(status: u8, v: u8) -> u8 {
    with_flag(with_flag(status, FLAG_ZERO, v == 0), FLAG_NEGATIVE, v >= 0x80)
}

/// Status byte that `PHP` and `BRK` push: the flags, with bits 4 and 5 set.
pub open spec fn pushed_status(status: u8) -> u8 {
    status | FLAG_BREAK | FLAG_UNUSED
}

/// Status after `PLP` or `RTI` pulled `pulled`: the six flags come from
/// the pulled byte, bits 4 and 5 keep their value.
pub open spec fn restored_status(status: u8, pulled: u8) -> u8 {
    (pulled & !(FLAG_BREAK | FLAG_UNUSED)) | (status & (FLAG_BREAK | FLAG_UNUSED))
}

/// Addresses that the CPU can read: RAM and its mirrors, then cartridge ROM.
pub open spec fn is_mapped(addr: u16) -> bool {
    addr <= 0x1FFF || addr >= 0x8000
}

/// The 16-bit word of a little-endian byte pair.
pub open spec fn word(low: u8, high: u8) -> u16 {
    (high * 0x100 + low) as u16
}

impl CpuState {
    /// Both memories have their hardware sizes.
    pub open spec fn well_formed(self) -> bool {
        &&& self.ram.len() == 0x800
        &&& self.rom.len() == 0x8000
    }

    /// The byte at a mapped address: RAM repeats every 2 KiB below 0x2000,
    /// ROM fills 0x8000 to 0xFFFF.
    pub open spec fn read(self, addr: u16) -> u8
        recommends
            is_mapped(addr),
    {
        if addr <= 0x1FFF {
            self.ram[addr as int % 0x800]
        } else {
            self.rom[addr as int - 0x8000]
        }
    }

    /// A write reaches RAM below 0x2000 and is dropped everywhere else.
    pub open spec fn write(self, addr: u16, value: u8) -> CpuState {
        if addr <= 0x1FFF {
            CpuState { ram: self.ram.update(addr as int % 0x800, value), ..self }
        } else {
            self
        }
    }

    pub open spec fn carry(self) -> bool {
        flag_set(self.status, FLAG_CARRY)
    }

    pub open spec fn zero(self) -> bool {
        flag_set(self.status, FLAG_ZERO)
    }

    pub open spec fn interrupt_disable(self) -> bool {
        flag_set(self.status, FLAG_INTERRUPT)
    }

    pub open spec fn decimal(self) -> bool {
        flag_set(self.status, FLAG_DECIMAL)
    }

    pub open spec fn overflow(self) -> bool {
        flag_set(self.status, FLAG_OVERFLOW)
    }

    pub open spec fn negative(self) -> bool {
        flag_set(self.status, FLAG_NEGATIVE)
    }

    pub open spec fn with_pc(self, pc: u16) -> CpuState {
        CpuState { pc, ..self }
    }

    pub open spec fn with_a(self, a: u8) -> CpuState {
        CpuState { a, ..self }
    }

    pub open spec fn with_x(self, x: u8) -> CpuState {
        CpuState { x, ..self }
    }

    pub open spec fn with_y(self, y: u8) -> CpuState {
        CpuState { y, ..self }
    }

    pub open spec fn with_sp(self, sp: u8) -> CpuState {
        CpuState { sp, ..self }
    }

    pub open spec fn with_status(self, status: u8) -> CpuState {
        CpuState { status, ..self }
    }

    pub open spec fn with_cycles(self, cycles: i32) -> CpuState {
        CpuState { cycles, ..self }
    }

    pub open spec fn with_bus(self, bus: u16) -> CpuState {
        CpuState { bus, ..self }
    }

    /// The state with one flag set or cleared.
    pub open spec fn with_flag(self, mask: u8, on: bool) -> CpuState {
        self.with_status(with_flag(self.status, mask, on))
    }

    /// The state with zero and negative describing `v`.
    pub open spec fn with_nz(self, v: u8) -> CpuState {
        self.with_status(with_nz(self.status, v))
    }

    /// The state with ROM replaced by `rom`.
    pub open spec fn with_rom(self, rom: Seq<u8>) -> CpuState {
        CpuState { rom, ..self }
    }

    /// The state with RAM replaced by `ram`.
    pub open spec fn with_ram(self, ram: Seq<u8>) -> CpuState {
        CpuState { ram, ..self }
    }

    /// `program` copied to RAM from address 0x0001 on, the rest of RAM kept,
    /// and the program counter at 0x0001, where the program begins.
    pub open spec fn load_program(self, program: Seq<u8>) -> CpuState {
        self.with_ram(
            self.ram.subrange(0, 1) + program + self.ram.subrange(program.len() + 1int, 0x800),
        ).with_pc(1)
    }

    /// The program counter moved `n` bytes forward.
    pub open spec fn skip(self, n: int) -> CpuState {
        self.with_pc(wrap16(self.pc + n))
    }

    /// The byte at the top of the stack, at 0x0100 plus the stack pointer.
    pub open spec fn stack_top(self) -> u8 {
        self.read((0x100 + self.sp) as u16)
    }

    /// `value` stored at the top of the stack, the stack pointer moved down.
    pub open spec fn push(self, value: u8) -> CpuState {
        self.write((0x100 + self.sp) as u16, value).with_sp(wrap8(self.sp - 1))
    }

    /// The stack pointer moved up: `stack_top` of the result is the byte pulled.
    pub open spec fn pop(self) -> CpuState {
        self.with_sp(wrap8(self.sp + 1))
    }

    /// Operand byte at the program counter.
    pub open spec fn operand(self) -> u8 {
        self.read(self.pc)
    }

    /// Zero-page address given by the operand byte.
    pub open spec fn zero_page_address(self) -> u16 {
        self.operand() as u16
    }

    /// Absolute address given by the two operand bytes, low byte first.
    pub open spec fn absolute_address(self) -> u16 {
        word(self.operand(), self.read(wrap16(self.pc + 1)))
    }
}

} // verus!
