//! What each opcode does to the machine state, and what a step and a run of
//! the CPU are.

use vstd::prelude::*;
use crate::state::{
    CpuState, FLAG_CARRY, FLAG_DECIMAL, FLAG_INTERRUPT, FLAG_NEGATIVE, FLAG_OVERFLOW, FLAG_ZERO,
    flag_set, is_mapped, pushed_status, restored_status, signed8, word, wrap16, wrap8,
};

verus! {

/// What an opcode reads after its own byte, which decides where it can fault.
#[derive(PartialEq, Eq, Structural, Debug, Clone, Copy)]
pub enum OperandKind {
    /// No operand bytes.
    Implied,
    /// One operand byte: an immediate value, a zero-page address or a branch offset.
    Byte,
    /// A two-byte address that is jumped to or written.
    Address,
    /// A two-byte address whose byte is read.
    AddressRead,
    /// An opcode this CPU does not implement.
    Unsupported,
}

/// Why the CPU stopped without halting.
#[derive(PartialEq, Eq, Structural, Debug, Clone, Copy)]
pub enum Fault {
    /// The opcode byte is not one this CPU implements.
    UnknownOpcode(u8),
    /// An instruction would read from an address outside RAM and ROM.
    UnmappedRead(u16),
}

/// What a single step did.
#[derive(PartialEq, Eq, Structural, Debug, Clone, Copy)]
pub enum StepOutcome {
    /// An instruction was executed; the CPU can go on.
    Continue,
    /// A halting opcode was met.
    Halted,
    /// Nothing was executed: the instruction would fault.
    Faulted(Fault),
}

/// How a run ended.
#[derive(PartialEq, Eq, Structural, Debug, Clone, Copy)]
pub enum RunExit {
    /// A halting opcode was met.
    Halted,
    /// An instruction would have faulted; the state is the one before it.
    Faulted(Fault),
    /// The step budget ran out.
    StepLimit,
}

/// The operand shape of each implemented opcode.
pub open spec fn operand_kind_of(opcode: u8) -> OperandKind {
    match opcode {
        0x00 | 0x02 | 0x08 | 0x0A | 0x18 | 0x28 | 0x2A | 0x38 | 0x40 | 0x48 | 0x4A | 0x58
        | 0x60 | 0x68 | 0x6A | 0x78 | 0x88 | 0x8A | 0x98 | 0x9A | 0xA8 | 0xAA | 0xB8 | 0xBA
        | 0xC8 | 0xCA | 0xD8 | 0xE8 | 0xEA | 0xF8 => OperandKind::Implied,
        0x05 | 0x06 | 0x09 | 0x10 | 0x24 | 0x25 | 0x26 | 0x29 | 0x30 | 0x45 | 0x46 | 0x49
        | 0x50 | 0x65 | 0x66 | 0x69 | 0x70 | 0x84 | 0x85 | 0x86 | 0x90 | 0xA0 | 0xA2 | 0xA5
        | 0xA9 | 0xB0 | 0xC0 | 0xC4 | 0xC5 | 0xC6 | 0xC9 | 0xD0 | 0xE0 | 0xE4 | 0xE5 | 0xE6
        | 0xE9 | 0xF0 => OperandKind::Byte,
        0x20 | 0x4C | 0x8C | 0x8D | 0x8E => OperandKind::Address,
        0x0D | 0x0E | 0x2C | 0x2D | 0x2E | 0x4D | 0x4E | 0x6D | 0x6E | 0xAD | 0xCC | 0xCD
        | 0xCE | 0xEC | 0xED | 0xEE => OperandKind::AddressRead,
        _ => OperandKind::Unsupported,
    }
}

impl CpuState {
    /// Accumulator or-ed with `m`.
    pub open spec fn ora(self, m: u8) -> CpuState {
        self.with_a(self.a | m).with_nz(self.a | m)
    }

    /// Accumulator and-ed with `m`.
    pub open spec fn and(self, m: u8) -> CpuState {
        self.with_a(self.a & m).with_nz(self.a & m)
    }

    /// Accumulator xor-ed with `m`.
    pub open spec fn eor(self, m: u8) -> CpuState {
        self.with_a(self.a ^ m).with_nz(self.a ^ m)
    }

    /// The carry as a number.
    pub open spec fn carry_in(self) -> int {
        if self.carry() {
            1
        } else {
            0
        }
    }

    /// Add with carry: the accumulator becomes `a + m + carry` modulo 256;
    /// carry tells that the sum passed 255, overflow that the sum of the two
    /// signed bytes left -128..=127.
    pub open spec fn adc(self, m: u8) -> CpuState {
        let sum = self.a + m + self.carry_in();
        let signed_sum = signed8(self.a) + signed8(m) + self.carry_in();
        let r = wrap8(sum);
        self.with_flag(FLAG_OVERFLOW, signed_sum < -128 || signed_sum > 127).with_flag(
            FLAG_CARRY,
            sum > 0xFF,
        ).with_a(r).with_nz(r)
    }

    /// Subtract with borrow (the borrow is the carry cleared): the accumulator
    /// becomes `a - m - borrow` modulo 256; carry tells that no borrow was
    /// needed, overflow that the signed difference left -128..=127.
    pub open spec fn sbc(self, m: u8) -> CpuState {
        let borrow = 1 - self.carry_in();
        let diff = self.a - m - borrow;
        let signed_diff = signed8(self.a) - signed8(m) - borrow;
        let r = wrap8(diff);
        self.with_flag(FLAG_OVERFLOW, signed_diff < -128 || signed_diff > 127).with_flag(
            FLAG_CARRY,
            diff >= 0,
        ).with_a(r).with_nz(r)
    }

    /// Compare a register with `m`: carry when the register is at least `m`,
    /// zero when they are equal, negative from bit 7 of their difference.
    pub open spec fn compare(self, reg: u8, m: u8) -> CpuState {
        self.with_flag(FLAG_CARRY, m <= reg).with_flag(FLAG_ZERO, m == reg).with_flag(
            FLAG_NEGATIVE,
            wrap8(reg - m) >= 0x80,
        )
    }

    /// Bit test: zero when the accumulator and `m` share no bit; negative and
    /// overflow copy bits 7 and 6 of `m`.
    pub open spec fn bit(self, m: u8) -> CpuState {
        self.with_flag(FLAG_ZERO, self.a & m == 0).with_flag(
            FLAG_NEGATIVE,
            flag_set(m, FLAG_NEGATIVE),
        ).with_flag(FLAG_OVERFLOW, flag_set(m, FLAG_OVERFLOW))
    }

    /// Shift the accumulator left; bit 7 goes to carry.
    pub open spec fn asl_a(self) -> CpuState {
        let r = wrap8(self.a * 2);
        self.with_flag(FLAG_CARRY, self.a >= 0x80).with_a(r).with_nz(r)
    }

    /// Rotate the accumulator left through carry.
    pub open spec fn rol_a(self) -> CpuState {
        let r = wrap8(self.a * 2 + self.carry_in());
        self.with_a(r).with_flag(FLAG_CARRY, self.a >= 0x80).with_nz(r)
    }

    /// Shift the accumulator right; bit 0 goes to carry.
    pub open spec fn lsr_a(self) -> CpuState {
        let r = self.a / 2;
        self.with_flag(FLAG_CARRY, self.a % 2 == 1).with_a(r).with_nz(r)
    }

    /// Rotate the accumulator right through carry.
    pub open spec fn ror_a(self) -> CpuState {
        let r = (self.a / 2 + 0x80 * self.carry_in()) as u8;
        self.with_a(r).with_flag(FLAG_CARRY, self.a % 2 == 1).with_nz(r)
    }

    /// Shift the byte at `addr` left; bit 7 goes to carry.
    pub open spec fn asl_mem(self, addr: u16) -> CpuState {
        let m = self.read(addr);
        let r = wrap8(m * 2);
        self.with_flag(FLAG_CARRY, m >= 0x80).write(addr, r).with_nz(r)
    }

    /// Rotate the byte at `addr` left through carry.
    pub open spec fn rol_mem(self, addr: u16) -> CpuState {
        let m = self.read(addr);
        let r = wrap8(m * 2 + self.carry_in());
        self.write(addr, r).with_flag(FLAG_CARRY, m >= 0x80).with_nz(r)
    }

    /// Shift the byte at `addr` right; bit 0 goes to carry.
    pub open spec fn lsr_mem(self, addr: u16) -> CpuState {
        let m = self.read(addr);
        let r = m / 2;
        self.with_flag(FLAG_CARRY, m % 2 == 1).write(addr, r).with_nz(r)
    }

    /// Rotate the byte at `addr` right through carry.
    pub open spec fn ror_mem(self, addr: u16) -> CpuState {
        let m = self.read(addr);
        let r = (m / 2 + 0x80 * self.carry_in()) as u8;
        self.write(addr, r).with_flag(FLAG_CARRY, m % 2 == 1).with_nz(r)
    }

    /// Add one to the byte at `addr`, modulo 256.
    pub open spec fn inc_mem(self, addr: u16) -> CpuState {
        let r = wrap8(self.read(addr) + 1);
        self.write(addr, r).with_nz(r)
    }

    /// Subtract one from the byte at `addr`, modulo 256.
    pub open spec fn dec_mem(self, addr: u16) -> CpuState {
        let r = wrap8(self.read(addr) - 1);
        self.write(addr, r).with_nz(r)
    }

    /// A relative branch whose offset is the operand byte: when taken, the
    /// program counter moves by the signed offset from the next instruction.
    pub open spec fn branch(self, taken: bool) -> CpuState {
        if taken {
            self.with_pc(wrap16(self.pc + 1 + signed8(self.operand()))).with_cycles(3)
        } else {
            self.skip(1).with_cycles(2)
        }
    }

    /// The state after a zero-page address was fetched into the bus.
    pub open spec fn fetch_zero_page(self) -> CpuState {
        self.skip(1).with_bus(self.zero_page_address())
    }

    /// The state after an absolute address was fetched into the bus.
    pub open spec fn fetch_absolute(self) -> CpuState {
        self.skip(2).with_bus(self.absolute_address())
    }

    /// `JSR`: the address of its last byte (the second operand byte) is
    /// pushed, high byte first, and the program counter jumps to the operand
    /// address.
    pub open spec fn jsr(self) -> CpuState {
        let ret = wrap16(self.pc + 1);
        self.push((ret / 0x100) as u8).push((ret % 0x100) as u8).with_pc(
            self.absolute_address(),
        ).with_cycles(6)
    }

    /// `RTS`: pull the low then the high byte, and continue one past that
    /// address: after a `JSR`, at the instruction that follows it.
    pub open spec fn rts(self) -> CpuState {
        let s1 = self.pop();
        let s2 = s1.pop();
        s2.with_pc(wrap16(word(s1.stack_top(), s2.stack_top()) + 1)).with_cycles(6)
    }

    /// `BRK`: push the address two past the opcode, then the status, and jump
    /// through the vector at 0xFFFE.
    pub open spec fn brk(self) -> CpuState {
        let ret = wrap16(self.pc + 1);
        let s = self.push((ret / 0x100) as u8).push((ret % 0x100) as u8).push(
            pushed_status(self.status),
        );
        s.with_pc(word(s.read(0xFFFE), s.read(0xFFFF))).with_cycles(7)
    }

    /// `RTI`: pull the status, then the low and the high byte of the program counter.
    pub open spec fn rti(self) -> CpuState {
        let s1 = self.pop();
        let s2 = s1.pop();
        let s3 = s2.pop();
        s3.with_status(restored_status(self.status, s1.stack_top())).with_pc(
            word(s2.stack_top(), s3.stack_top()),
        ).with_cycles(6)
    }

    /// `PLA`: pull the accumulator.
    pub open spec fn pla(self) -> CpuState {
        let s = self.pop();
        s.with_a(s.stack_top()).with_nz(s.stack_top()).with_cycles(4)
    }

    /// `PLP`: pull the status.
    pub open spec fn plp(self) -> CpuState {
        let s = self.pop();
        s.with_status(restored_status(self.status, s.stack_top())).with_cycles(3)
    }

    /// The effect of the implemented opcode `opcode`, on a state whose program
    /// counter points just past the opcode byte.
    pub open spec fn execute(self, opcode: u8) -> CpuState {
        let s = self;
        match opcode {
            // loads
            0xA0 => s.skip(1).with_y(s.operand()).with_cycles(2).with_nz(s.operand()),
            0xA2 => s.skip(1).with_x(s.operand()).with_cycles(2).with_nz(s.operand()),
            0xA9 => s.skip(1).with_a(s.operand()).with_cycles(2).with_nz(s.operand()),
            0xA5 => s.skip(1).with_a(s.read(s.zero_page_address())).with_cycles(3).with_nz(
                s.read(s.zero_page_address()),
            ),
            0xAD => s.skip(2).with_a(s.read(s.absolute_address())).with_cycles(4).with_nz(
                s.read(s.absolute_address()),
            ),
            // stores
            0x85 => s.skip(1).write(s.zero_page_address(), s.a).with_cycles(3),
            0x8D => s.skip(2).write(s.absolute_address(), s.a).with_cycles(4),
            0x86 => s.skip(1).write(s.zero_page_address(), s.x).with_cycles(3),
            0x8E => s.skip(2).write(s.absolute_address(), s.x).with_cycles(4),
            0x84 => s.skip(1).write(s.zero_page_address(), s.y).with_cycles(3),
            0x8C => s.skip(2).write(s.absolute_address(), s.y).with_cycles(4),
            // branches
            0x10 => s.branch(!s.negative()),
            0x30 => s.branch(s.negative()),
            0x50 => s.branch(!s.overflow()),
            0x70 => s.branch(s.overflow()),
            0x90 => s.branch(!s.carry()),
            0xB0 => s.branch(s.carry()),
            0xD0 => s.branch(!s.zero()),
            0xF0 => s.branch(s.zero()),
            // stack and jumps
            0x48 => s.push(s.a).with_cycles(3),
            0x68 => s.pla(),
            0x08 => s.push(pushed_status(s.status)).with_cycles(3),
            0x28 => s.plp(),
            0x20 => s.jsr(),
            0x60 => s.rts(),
            0x4C => s.with_pc(s.absolute_address()).with_cycles(3),
            0x00 => s.brk(),
            0x40 => s.rti(),
            // register arithmetic and transfers
            0xE8 => s.with_x(wrap8(s.x + 1)).with_cycles(2).with_nz(wrap8(s.x + 1)),
            0xCA => s.with_x(wrap8(s.x - 1)).with_cycles(2).with_nz(wrap8(s.x - 1)),
            0xC8 => s.with_y(wrap8(s.y + 1)).with_cycles(2).with_nz(wrap8(s.y + 1)),
            0x88 => s.with_y(wrap8(s.y - 1)).with_cycles(2).with_nz(wrap8(s.y - 1)),
            0xAA => s.with_x(s.a).with_cycles(2).with_nz(s.a),
            0x8A => s.with_a(s.x).with_cycles(2).with_nz(s.x),
            0xA8 => s.with_y(s.a).with_cycles(2).with_nz(s.a),
            0x98 => s.with_a(s.y).with_cycles(2).with_nz(s.y),
            0x9A => s.with_sp(s.x).with_cycles(2),
            0xBA => s.with_x(s.sp).with_cycles(2).with_nz(s.sp),
            // flags
            0x38 => s.with_flag(FLAG_CARRY, true).with_cycles(2),
            0x18 => s.with_flag(FLAG_CARRY, false).with_cycles(2),
            0xB8 => s.with_flag(FLAG_OVERFLOW, false).with_cycles(2),
            0x78 => s.with_flag(FLAG_INTERRUPT, true).with_cycles(2),
            0x58 => s.with_flag(FLAG_INTERRUPT, false).with_cycles(2),
            0xF8 => s.with_flag(FLAG_DECIMAL, true).with_cycles(2),
            0xD8 => s.with_flag(FLAG_DECIMAL, false).with_cycles(2),
            0xEA => s.with_cycles(2),
            // shifts, rotations, increments
            0x0A => s.asl_a().with_cycles(2),
            0x2A => s.rol_a().with_cycles(2),
            0x4A => s.lsr_a().with_cycles(2),
            0x6A => s.ror_a().with_cycles(2),
            0x06 => s.fetch_zero_page().asl_mem(s.zero_page_address()).with_cycles(5),
            0x0E => s.fetch_absolute().asl_mem(s.absolute_address()).with_cycles(6),
            0x26 => s.fetch_zero_page().rol_mem(s.zero_page_address()).with_cycles(5),
            0x2E => s.fetch_absolute().rol_mem(s.absolute_address()).with_cycles(6),
            0x46 => s.fetch_zero_page().lsr_mem(s.zero_page_address()).with_cycles(5),
            0x4E => s.fetch_absolute().lsr_mem(s.absolute_address()).with_cycles(6),
            0x66 => s.fetch_zero_page().ror_mem(s.zero_page_address()).with_cycles(5),
            0x6E => s.fetch_absolute().ror_mem(s.absolute_address()).with_cycles(6),
            0xE6 => s.fetch_zero_page().inc_mem(s.zero_page_address()).with_cycles(5),
            0xEE => s.fetch_absolute().inc_mem(s.absolute_address()).with_cycles(6),
            0xC6 => s.fetch_zero_page().dec_mem(s.zero_page_address()).with_cycles(5),
            0xCE => s.fetch_absolute().dec_mem(s.absolute_address()).with_cycles(6),
            // logic and arithmetic on the accumulator
            0x09 => s.skip(1).ora(s.operand()).with_cycles(2),
            0x05 => s.skip(1).ora(s.read(s.zero_page_address())).with_cycles(3),
            0x0D => s.fetch_absolute().ora(s.read(s.absolute_address())).with_cycles(4),
            0x29 => s.skip(1).and(s.operand()).with_cycles(2),
            0x25 => s.skip(1).and(s.read(s.zero_page_address())).with_cycles(3),
            0x2D => s.fetch_absolute().and(s.read(s.absolute_address())).with_cycles(4),
            0x49 => s.skip(1).eor(s.operand()).with_cycles(2),
            0x45 => s.skip(1).eor(s.read(s.zero_page_address())).with_cycles(3),
            0x4D => s.fetch_absolute().eor(s.read(s.absolute_address())).with_cycles(4),
            0x69 => s.skip(1).adc(s.operand()).with_cycles(2),
            0x65 => s.skip(1).adc(s.read(s.zero_page_address())).with_cycles(3),
            0x6D => s.fetch_absolute().adc(s.read(s.absolute_address())).with_cycles(4),
            0xE9 => s.skip(1).sbc(s.operand()).with_cycles(2),
            0xE5 => s.skip(1).sbc(s.read(s.zero_page_address())).with_cycles(3),
            0xED => s.fetch_absolute().sbc(s.read(s.absolute_address())).with_cycles(4),
            0xC9 => s.skip(1).compare(s.a, s.operand()).with_cycles(2),
            0xC5 => s.skip(1).compare(s.a, s.read(s.zero_page_address())).with_cycles(3),
            0xCD => s.fetch_absolute().compare(s.a, s.read(s.absolute_address())).with_cycles(4),
            0xE0 => s.skip(1).compare(s.x, s.operand()).with_cycles(2),
            0xE4 => s.skip(1).compare(s.x, s.read(s.zero_page_address())).with_cycles(3),
            0xEC => s.fetch_absolute().compare(s.x, s.read(s.absolute_address())).with_cycles(4),
            0xC0 => s.skip(1).compare(s.y, s.operand()).with_cycles(2),
            0xC4 => s.skip(1).compare(s.y, s.read(s.zero_page_address())).with_cycles(3),
            0xCC => s.fetch_absolute().compare(s.y, s.read(s.absolute_address())).with_cycles(4),
            0x24 => s.skip(1).bit(s.read(s.zero_page_address())).with_cycles(3),
            0x2C => s.fetch_absolute().bit(s.read(s.absolute_address())).with_cycles(4),
            _ => s,
        }
    }

    /// The first address that an instruction of kind `kind` would read and
    /// that is not mapped, on a state whose program counter points just past
    /// the opcode byte.
    pub open spec fn first_unmapped(self, kind: OperandKind) -> Option<u16> {
        let pc1 = wrap16(self.pc + 1);
        match kind {
            OperandKind::Byte => if !is_mapped(self.pc) {
                Some(self.pc)
            } else {
                None
            },
            OperandKind::Address => if !is_mapped(self.pc) {
                Some(self.pc)
            } else if !is_mapped(pc1) {
                Some(pc1)
            } else {
                None
            },
            OperandKind::AddressRead => if !is_mapped(self.pc) {
                Some(self.pc)
            } else if !is_mapped(pc1) {
                Some(pc1)
            } else if !is_mapped(self.absolute_address()) {
                Some(self.absolute_address())
            } else {
                None
            },
            _ => None,
        }
    }

    /// Every address that an instruction of kind `kind` reads is mapped.
    pub open spec fn can_fetch(self, kind: OperandKind) -> bool {
        self.first_unmapped(kind) is None
    }

    /// One step of the CPU. The opcode at the program counter is read; the
    /// halting opcode 0x02, and 0x00 when `brk_halts`, stop the CPU with the
    /// program counter past it. An opcode that is not implemented, or that
    /// would read an unmapped address, faults and leaves the state as it was.
    /// Any other opcode is executed.
    pub open spec fn step(self, brk_halts: bool) -> (StepOutcome, CpuState) {
        if !is_mapped(self.pc) {
            (StepOutcome::Faulted(Fault::UnmappedRead(self.pc)), self)
        } else {
            let opcode = self.read(self.pc);
            let next = self.skip(1);
            if opcode == 0x02 || (brk_halts && opcode == 0x00) {
                (StepOutcome::Halted, next)
            } else if operand_kind_of(opcode) == OperandKind::Unsupported {
                (StepOutcome::Faulted(Fault::UnknownOpcode(opcode)), self)
            } else {
                match next.first_unmapped(operand_kind_of(opcode)) {
                    Some(addr) => (StepOutcome::Faulted(Fault::UnmappedRead(addr)), self),
                    None => (StepOutcome::Continue, next.execute(opcode)),
                }
            }
        }
    }

    /// Steps repeated until the CPU halts or faults, or `fuel` steps were taken.
    pub open spec fn run(self, brk_halts: bool, fuel: nat) -> (RunExit, CpuState)
        decreases fuel,
    {
        if fuel == 0 {
            (RunExit::StepLimit, self)
        } else {
            let (outcome, next) = self.step(brk_halts);
            match outcome {
                StepOutcome::Continue => next.run(brk_halts, (fuel - 1) as nat),
                StepOutcome::Halted => (RunExit::Halted, next),
                StepOutcome::Faulted(f) => (RunExit::Faulted(f), next),
            }
        }
    }
}

} // verus!
