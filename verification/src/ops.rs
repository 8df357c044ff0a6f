//! The instructions: one handler per opcode, each proved to do what
//! `CpuState::execute` says of its opcode.

use vstd::prelude::*;
use crate::cpu::CPU;
use crate::semantics::{OperandKind, operand_kind_of};
use crate::state::{
    FLAG_BREAK, FLAG_CARRY, FLAG_DECIMAL, FLAG_INTERRUPT, FLAG_NEGATIVE, FLAG_OVERFLOW,
    FLAG_UNUSED, FLAG_ZERO, is_mapped, wrap8,
};

verus! {

/// A byte shifted left by one, bit 7 dropped.
fn shifted_left(v: u8) -> (r: u8)
    ensures
        r == wrap8(v * 2),
{
    assert(v << 1u8 == wrap8(v * 2)) by (bit_vector);
    v << 1u8
}

impl CPU {
    // ---- value-level operations shared by several opcodes ----

    fn asl(&mut self, address: u16, input: u8)
        requires
            is_mapped(address),
            input == old(self)@.read(address),
        ensures
            final(self)@ == old(self)@.asl_mem(address),
    {
        self.set_flag(FLAG_CARRY, input >= 0x80);
        let result = shifted_left(input);
        self.write(address, result);
        self.set_nz(result);
    }

    fn lsr(&mut self, address: u16, input: u8)
        requires
            is_mapped(address),
            input == old(self)@.read(address),
        ensures
            final(self)@ == old(self)@.lsr_mem(address),
    {
        assert(((input & 0x01) != 0) == (input % 2 == 1)) by (bit_vector);
        self.set_flag(FLAG_CARRY, (input & 0x01) != 0);
        assert(input >> 1u8 == input / 2) by (bit_vector);
        let result = input >> 1u8;
        self.write(address, result);
        self.set_nz(result);
    }

    fn rol(&mut self, address: u16, input: u8)
        requires
            is_mapped(address),
            input == old(self)@.read(address),
        ensures
            final(self)@ == old(self)@.rol_mem(address),
    {
        let future_carry = input >= 0x80;
        let mut result = shifted_left(input);
        if self.status & FLAG_CARRY != 0 {
            assert(wrap8(input * 2) | 1 == wrap8(input * 2 + 1)) by (bit_vector);
            result = result | 1;
        }
        self.write(address, result);
        self.set_flag(FLAG_CARRY, future_carry);
        self.set_nz(result);
    }

    fn ror(&mut self, address: u16, input: u8)
        requires
            is_mapped(address),
            input == old(self)@.read(address),
        ensures
            final(self)@ == old(self)@.ror_mem(address),
    {
        assert(((input & 0x01) != 0) == (input % 2 == 1)) by (bit_vector);
        let future_carry = (input & 0x01) != 0;
        assert(input >> 1u8 == input / 2) by (bit_vector);
        let mut result = input >> 1u8;
        if self.status & FLAG_CARRY != 0 {
            assert((input / 2) | 0x80 == input / 2 + 0x80) by (bit_vector);
            result = result | 0x80;
        }
        self.write(address, result);
        self.set_flag(FLAG_CARRY, future_carry);
        self.set_nz(result);
    }

    fn inc(&mut self, address: u16, input: u8)
        requires
            is_mapped(address),
            input == old(self)@.read(address),
        ensures
            final(self)@ == old(self)@.inc_mem(address),
    {
        let result = input.wrapping_add(1);
        self.write(address, result);
        self.set_nz(result);
    }

    fn dec(&mut self, address: u16, input: u8)
        requires
            is_mapped(address),
            input == old(self)@.read(address),
        ensures
            final(self)@ == old(self)@.dec_mem(address),
    {
        let result = input.wrapping_sub(1);
        self.write(address, result);
        self.set_nz(result);
    }

    fn ora(&mut self, input: u8)
        ensures
            final(self)@ == old(self)@.ora(input),
    {
        self.register_a = self.register_a | input;
        self.set_nz(self.register_a);
    }

    fn and(&mut self, input: u8)
        ensures
            final(self)@ == old(self)@.and(input),
    {
        self.register_a = self.register_a & input;
        self.set_nz(self.register_a);
    }

    fn eor(&mut self, input: u8)
        ensures
            final(self)@ == old(self)@.eor(input),
    {
        self.register_a = self.register_a ^ input;
        self.set_nz(self.register_a);
    }

    fn adc(&mut self, input: u8)
        ensures
            final(self)@ == old(self)@.adc(input),
    {
        let carry: u16 = if self.status & FLAG_CARRY != 0 {
            1
        } else {
            0
        };
        let a = self.register_a;
        let int_sum: u16 = input as u16 + a as u16 + carry;
        let result = (int_sum % 0x100) as u8;
        let overflow = (!(a ^ input) & (a ^ result) & 0x80) != 0;
        proof {
            lemma_same_sign_flip(a, input, result);
        }
        self.set_flag(FLAG_OVERFLOW, overflow);
        self.set_flag(FLAG_CARRY, int_sum > 0xFF);
        self.register_a = result;
        self.set_nz(result);
    }

    fn sbc(&mut self, input: u8)
        ensures
            final(self)@ == old(self)@.sbc(input),
    {
        let borrow: i16 = if self.status & FLAG_CARRY != 0 {
            0
        } else {
            1
        };
        let a = self.register_a;
        let int_sum: i16 = a as i16 - input as i16 - borrow;
        let result: u8 = if int_sum < 0 {
            (int_sum + 0x100) as u8
        } else {
            int_sum as u8
        };
        let overflow = ((a ^ input) & (a ^ result) & 0x80) != 0;
        proof {
            lemma_opposite_sign_flip(a, input, result);
        }
        self.set_flag(FLAG_OVERFLOW, overflow);
        self.set_flag(FLAG_CARRY, int_sum >= 0);
        self.register_a = result;
        self.set_nz(result);
    }

    /// Compare `register` with `input`.
    fn compare(&mut self, register: u8, input: u8)
        ensures
            final(self)@ == old(self)@.compare(register, input),
    {
        self.set_flag(FLAG_CARRY, input <= register);
        self.set_flag(FLAG_ZERO, input == register);
        self.set_flag(FLAG_NEGATIVE, register.wrapping_sub(input) > 127);
    }

    fn cmp(&mut self, input: u8)
        ensures
            final(self)@ == old(self)@.compare(old(self).register_a, input),
    {
        self.compare(self.register_a, input);
    }

    fn cpx(&mut self, input: u8)
        ensures
            final(self)@ == old(self)@.compare(old(self).register_x, input),
    {
        self.compare(self.register_x, input);
    }

    fn cpy(&mut self, input: u8)
        ensures
            final(self)@ == old(self)@.compare(old(self).register_y, input),
    {
        self.compare(self.register_y, input);
    }

    fn bit(&mut self, input: u8)
        ensures
            final(self)@ == old(self)@.bit(input),
    {
        self.set_flag(FLAG_ZERO, (self.register_a & input) == 0);
        self.set_flag(FLAG_NEGATIVE, (input & 0x80) != 0);
        self.set_flag(FLAG_OVERFLOW, (input & 0x40) != 0);
    }
}

impl CPU {
    /// Fetches the operand byte as a zero-page address.
    fn fetch_zero_page_address(&mut self) -> (addr: u16)
        requires
            is_mapped(old(self).program_counter),
        ensures
            addr == old(self)@.zero_page_address(),
            final(self)@ == old(self)@.skip(1),
    {
        self.fetch_byte() as u16
    }

    /// The relative branch shared by the eight branch opcodes.
    fn branch_if(&mut self, taken: bool)
        requires
            is_mapped(old(self).program_counter),
        ensures
            final(self)@ == old(self)@.branch(taken),
    {
        let offset = self.fetch_byte();
        if taken {
            assert(offset as i8 as i16 as u16 == (if offset < 0x80 { offset as u16 } else { (offset as u16 + 0xFF00) as u16 }))
                by (bit_vector);
            let delta = offset as i8 as i16 as u16;
            self.program_counter = self.program_counter.wrapping_add(delta);
            self.cycles = 3;
        } else {
            self.cycles = 2
        }
    }

    fn ldy_immediate(&mut self)
        requires
            old(self)@.can_fetch(OperandKind::Byte),
        ensures
            final(self)@ == old(self)@.execute(0xA0),
    {
        self.register_y = self.fetch_byte();
        self.cycles = 2;
        self.set_nz(self.register_y);
    }

    fn ldx_immediate(&mut self)
        requires
            old(self)@.can_fetch(OperandKind::Byte),
        ensures
            final(self)@ == old(self)@.execute(0xA2),
    {
        self.register_x = self.fetch_byte();
        self.cycles = 2;
        self.set_nz(self.register_x);
    }

    fn lda_immediate(&mut self)
        requires
            old(self)@.can_fetch(OperandKind::Byte),
        ensures
            final(self)@ == old(self)@.execute(0xA9),
    {
        self.register_a = self.fetch_byte();
        self.cycles = 2;
        self.set_nz(self.register_a);
    }

    fn lda_zero_page(&mut self)
        requires
            old(self)@.can_fetch(OperandKind::Byte),
        ensures
            final(self)@ == old(self)@.execute(0xA5),
    {
        let addr = self.fetch_byte() as u16;
        self.register_a = self.read(addr);
        self.cycles = 3;
        self.set_nz(self.register_a);
    }

    fn lda_absolute(&mut self)
        requires
            old(self)@.can_fetch(OperandKind::AddressRead),
        ensures
            final(self)@ == old(self)@.execute(0xAD),
    {
        let low = self.fetch_byte() as u16;
        let high = self.fetch_byte() as u16;
        assert((high << 8) | low == high * 256 + low) by (bit_vector)
            requires
                low < 256,
                high < 256,
        ;
        let addr = (high << 8) | low;
        self.register_a = self.read(addr);
        self.cycles = 4;
        self.set_nz(self.register_a);
    }

    fn sta_zero_page(&mut self)
        requires
            old(self)@.can_fetch(OperandKind::Byte),
        ensures
            final(self)@ == old(self)@.execute(0x85),
    {
        let addr = self.fetch_byte() as u16;
        self.write(addr, self.register_a);
        self.cycles = 3;
    }

    fn sta_absolute(&mut self)
        requires
            old(self)@.can_fetch(OperandKind::Address),
        ensures
            final(self)@ == old(self)@.execute(0x8D),
    {
        let address_low = self.fetch_byte() as u16;
        let address_high = self.fetch_byte() as u16;
        self.write(address_high * 256 + address_low, self.register_a);
        self.cycles = 4;
    }

    fn stx_zero_page(&mut self)
        requires
            old(self)@.can_fetch(OperandKind::Byte),
        ensures
            final(self)@ == old(self)@.execute(0x86),
    {
        let addr = self.fetch_byte() as u16;
        self.write(addr, self.register_x);
        self.cycles = 3;
    }

    fn stx_absolute(&mut self)
        requires
            old(self)@.can_fetch(OperandKind::Address),
        ensures
            final(self)@ == old(self)@.execute(0x8E),
    {
        let address_low = self.fetch_byte() as u16;
        let address_high = self.fetch_byte() as u16;
        self.write(address_high * 256 + address_low, self.register_x);
        self.cycles = 4;
    }

    fn sty_zero_page(&mut self)
        requires
            old(self)@.can_fetch(OperandKind::Byte),
        ensures
            final(self)@ == old(self)@.execute(0x84),
    {
        let addr = self.fetch_byte() as u16;
        self.write(addr, self.register_y);
        self.cycles = 3;
    }

    fn sty_absolute(&mut self)
        requires
            old(self)@.can_fetch(OperandKind::Address),
        ensures
            final(self)@ == old(self)@.execute(0x8C),
    {
        let address_low = self.fetch_byte() as u16;
        let address_high = self.fetch_byte() as u16;
        self.write(address_high * 256 + address_low, self.register_y);
        self.cycles = 4;
    }

    fn bpl(&mut self)
        requires
            old(self)@.can_fetch(OperandKind::Byte),
        ensures
            final(self)@ == old(self)@.execute(0x10),
    {
        let taken = self.status & FLAG_NEGATIVE == 0;
        self.branch_if(taken);
    }

    fn bmi(&mut self)
        requires
            old(self)@.can_fetch(OperandKind::Byte),
        ensures
            final(self)@ == old(self)@.execute(0x30),
    {
        let taken = self.status & FLAG_NEGATIVE != 0;
        self.branch_if(taken);
    }

    fn bvc(&mut self)
        requires
            old(self)@.can_fetch(OperandKind::Byte),
        ensures
            final(self)@ == old(self)@.execute(0x50),
    {
        let taken = self.status & FLAG_OVERFLOW == 0;
        self.branch_if(taken);
    }

    fn bvs(&mut self)
        requires
            old(self)@.can_fetch(OperandKind::Byte),
        ensures
            final(self)@ == old(self)@.execute(0x70),
    {
        let taken = self.status & FLAG_OVERFLOW != 0;
        self.branch_if(taken);
    }

    fn bcc(&mut self)
        requires
            old(self)@.can_fetch(OperandKind::Byte),
        ensures
            final(self)@ == old(self)@.execute(0x90),
    {
        let taken = self.status & FLAG_CARRY == 0;
        self.branch_if(taken);
    }

    fn bcs(&mut self)
        requires
            old(self)@.can_fetch(OperandKind::Byte),
        ensures
            final(self)@ == old(self)@.execute(0xB0),
    {
        let taken = self.status & FLAG_CARRY != 0;
        self.branch_if(taken);
    }

    fn bne(&mut self)
        requires
            old(self)@.can_fetch(OperandKind::Byte),
        ensures
            final(self)@ == old(self)@.execute(0xD0),
    {
        let taken = self.status & FLAG_ZERO == 0;
        self.branch_if(taken);
    }

    fn beq(&mut self)
        requires
            old(self)@.can_fetch(OperandKind::Byte),
        ensures
            final(self)@ == old(self)@.execute(0xF0),
    {
        let taken = self.status & FLAG_ZERO != 0;
        self.branch_if(taken);
    }

    fn pha(&mut self)
        ensures
            final(self)@ == old(self)@.execute(0x48),
    {
        self.push(self.register_a);
        self.cycles = 3;
    }

    fn pla(&mut self)
        ensures
            final(self)@ == old(self)@.execute(0x68),
    {
        self.register_a = self.pull();
        self.set_nz(self.register_a);
        self.cycles = 4;
    }

    fn jsr(&mut self)
        requires
            old(self)@.can_fetch(OperandKind::Address),
        ensures
            final(self)@ == old(self)@.execute(0x20),
    {
        let low = self.fetch_byte() as u16;
        // the address of the last byte of this instruction
        let ret = self.program_counter;
        let high = self.fetch_byte() as u16;
        self.push((ret / 256) as u8);
        self.push((ret % 256) as u8);
        self.program_counter = high * 256 + low;
        self.cycles = 6;
    }

    fn rts(&mut self)
        ensures
            final(self)@ == old(self)@.execute(0x60),
    {
        let low = self.pull() as u16;
        let high = self.pull() as u16;
        self.program_counter = high * 256 + low;
        self.program_counter = self.program_counter.wrapping_add(1);
        self.cycles = 6;
    }

    fn jmp(&mut self)
        requires
            old(self)@.can_fetch(OperandKind::Address),
        ensures
            final(self)@ == old(self)@.execute(0x4C),
    {
        let low = self.fetch_byte() as u16;
        let high = self.fetch_byte() as u16;
        self.program_counter = high * 256 + low;
        self.cycles = 3;
    }

    fn inx(&mut self)
        ensures
            final(self)@ == old(self)@.execute(0xE8),
    {
        self.register_x = self.register_x.wrapping_add(1);
        self.cycles = 2;
        self.set_nz(self.register_x);
    }

    fn dex(&mut self)
        ensures
            final(self)@ == old(self)@.execute(0xCA),
    {
        self.register_x = self.register_x.wrapping_sub(1);
        self.cycles = 2;
        self.set_nz(self.register_x);
    }

    fn iny(&mut self)
        ensures
            final(self)@ == old(self)@.execute(0xC8),
    {
        self.register_y = self.register_y.wrapping_add(1);
        self.cycles = 2;
        self.set_nz(self.register_y);
    }

    fn dey(&mut self)
        ensures
            final(self)@ == old(self)@.execute(0x88),
    {
        self.register_y = self.register_y.wrapping_sub(1);
        self.cycles = 2;
        self.set_nz(self.register_y);
    }

    fn tax(&mut self)
        ensures
            final(self)@ == old(self)@.execute(0xAA),
    {
        self.register_x = self.register_a;
        self.cycles = 2;
        self.set_nz(self.register_x);
    }

    fn txa(&mut self)
        ensures
            final(self)@ == old(self)@.execute(0x8A),
    {
        self.register_a = self.register_x;
        self.cycles = 2;
        self.set_nz(self.register_a);
    }

    fn tay(&mut self)
        ensures
            final(self)@ == old(self)@.execute(0xA8),
    {
        self.register_y = self.register_a;
        self.cycles = 2;
        self.set_nz(self.register_y);
    }

    fn tya(&mut self)
        ensures
            final(self)@ == old(self)@.execute(0x98),
    {
        self.register_a = self.register_y;
        self.cycles = 2;
        self.set_nz(self.register_a);
    }

    fn tsx(&mut self)
        ensures
            final(self)@ == old(self)@.execute(0xBA),
    {
        self.register_x = self.stack_pointer;
        self.cycles = 2;
        self.set_nz(self.register_x);
    }

    fn txs(&mut self)
        ensures
            final(self)@ == old(self)@.execute(0x9A),
    {
        self.stack_pointer = self.register_x;
        self.cycles = 2;
    }

    fn sec(&mut self)
        ensures
            final(self)@ == old(self)@.execute(0x38),
    {
        self.set_flag(FLAG_CARRY, true);
        self.cycles = 2;
    }

    fn clc(&mut self)
        ensures
            final(self)@ == old(self)@.execute(0x18),
    {
        self.set_flag(FLAG_CARRY, false);
        self.cycles = 2;
    }

    fn clv(&mut self)
        ensures
            final(self)@ == old(self)@.execute(0xB8),
    {
        self.set_flag(FLAG_OVERFLOW, false);
        self.cycles = 2;
    }

    fn sei(&mut self)
        ensures
            final(self)@ == old(self)@.execute(0x78),
    {
        self.set_flag(FLAG_INTERRUPT, true);
        self.cycles = 2;
    }

    fn cli(&mut self)
        ensures
            final(self)@ == old(self)@.execute(0x58),
    {
        self.set_flag(FLAG_INTERRUPT, false);
        self.cycles = 2;
    }

    fn sed(&mut self)
        ensures
            final(self)@ == old(self)@.execute(0xF8),
    {
        self.set_flag(FLAG_DECIMAL, true);
        self.cycles = 2;
    }

    fn cld(&mut self)
        ensures
            final(self)@ == old(self)@.execute(0xD8),
    {
        self.set_flag(FLAG_DECIMAL, false);
        self.cycles = 2;
    }

    fn php(&mut self)
        ensures
            final(self)@ == old(self)@.execute(0x08),
    {
        let pushed = self.status | FLAG_BREAK | FLAG_UNUSED;
        self.push(pushed);
        self.cycles = 3;
    }

    fn plp(&mut self)
        ensures
            final(self)@ == old(self)@.execute(0x28),
    {
        let pulled = self.pull();
        self.status = (pulled & !(FLAG_BREAK | FLAG_UNUSED)) | (self.status & (FLAG_BREAK | FLAG_UNUSED));
        self.cycles = 3;
    }

    fn asl_a(&mut self)
        ensures
            final(self)@ == old(self)@.execute(0x0A),
    {
        self.set_flag(FLAG_CARRY, self.register_a > 127);
        self.register_a = shifted_left(self.register_a);
        self.set_nz(self.register_a);
        self.cycles = 2;
    }

    fn rol_a(&mut self)
        ensures
            final(self)@ == old(self)@.execute(0x2A),
    {
        let input = self.register_a;
        let future_carry = input >= 0x80;
        self.register_a = shifted_left(input);
        if self.status & FLAG_CARRY != 0 {
            assert(wrap8(input * 2) | 1 == wrap8(input * 2 + 1)) by (bit_vector);
            self.register_a = self.register_a | 1;
        }
        self.set_flag(FLAG_CARRY, future_carry);
        self.set_nz(self.register_a);
        self.cycles = 2;
    }

    fn lsr_a(&mut self)
        ensures
            final(self)@ == old(self)@.execute(0x4A),
    {
        let input = self.register_a;
        assert(((input & 0x01) != 0) == (input % 2 == 1)) by (bit_vector);
        self.set_flag(FLAG_CARRY, (input & 0x01) != 0);
        assert(input >> 1u8 == input / 2) by (bit_vector);
        self.register_a = input >> 1u8;
        self.set_nz(self.register_a);
        self.cycles = 2;
    }

    fn ror_a(&mut self)
        ensures
            final(self)@ == old(self)@.execute(0x6A),
    {
        let input = self.register_a;
        assert(((input & 0x01) != 0) == (input % 2 == 1)) by (bit_vector);
        let future_carry = (input & 0x01) != 0;
        assert(input >> 1u8 == input / 2) by (bit_vector);
        self.register_a = input >> 1u8;
        if self.status & FLAG_CARRY != 0 {
            assert((input / 2) | 0x80 == input / 2 + 0x80) by (bit_vector);
            self.register_a = self.register_a | 0x80;
        }
        self.set_flag(FLAG_CARRY, future_carry);
        self.set_nz(self.register_a);
        self.cycles = 2;
    }

    fn asl_zero_page(&mut self)
        requires
            old(self)@.can_fetch(OperandKind::Byte),
        ensures
            final(self)@ == old(self)@.execute(0x06),
    {
        self.address_bus = self.fetch_byte() as u16;
        let input = self.read(self.address_bus);
        self.asl(self.address_bus, input);
        self.cycles = 5;
    }

    fn asl_absolute(&mut self)
        requires
            old(self)@.can_fetch(OperandKind::AddressRead),
        ensures
            final(self)@ == old(self)@.execute(0x0E),
    {
        self.absolute_address();
        let input = self.read(self.address_bus);
        self.asl(self.address_bus, input);
        self.cycles = 6;
    }

    fn rol_zero_page(&mut self)
        requires
            old(self)@.can_fetch(OperandKind::Byte),
        ensures
            final(self)@ == old(self)@.execute(0x26),
    {
        self.address_bus = self.fetch_byte() as u16;
        let input = self.read(self.address_bus);
        self.rol(self.address_bus, input);
        self.cycles = 5;
    }

    fn rol_absolute(&mut self)
        requires
            old(self)@.can_fetch(OperandKind::AddressRead),
        ensures
            final(self)@ == old(self)@.execute(0x2E),
    {
        self.absolute_address();
        let input = self.read(self.address_bus);
        self.rol(self.address_bus, input);
        self.cycles = 6;
    }

    fn lsr_zero_page(&mut self)
        requires
            old(self)@.can_fetch(OperandKind::Byte),
        ensures
            final(self)@ == old(self)@.execute(0x46),
    {
        self.address_bus = self.fetch_byte() as u16;
        let input = self.read(self.address_bus);
        self.lsr(self.address_bus, input);
        self.cycles = 5;
    }

    fn lsr_absolute(&mut self)
        requires
            old(self)@.can_fetch(OperandKind::AddressRead),
        ensures
            final(self)@ == old(self)@.execute(0x4E),
    {
        self.absolute_address();
        let input = self.read(self.address_bus);
        self.lsr(self.address_bus, input);
        self.cycles = 6;
    }

    fn ror_zero_page(&mut self)
        requires
            old(self)@.can_fetch(OperandKind::Byte),
        ensures
            final(self)@ == old(self)@.execute(0x66),
    {
        self.address_bus = self.fetch_byte() as u16;
        let input = self.read(self.address_bus);
        self.ror(self.address_bus, input);
        self.cycles = 5;
    }

    fn ror_absolute(&mut self)
        requires
            old(self)@.can_fetch(OperandKind::AddressRead),
        ensures
            final(self)@ == old(self)@.execute(0x6E),
    {
        self.absolute_address();
        let input = self.read(self.address_bus);
        self.ror(self.address_bus, input);
        self.cycles = 6;
    }

    fn inc_zero_page(&mut self)
        requires
            old(self)@.can_fetch(OperandKind::Byte),
        ensures
            final(self)@ == old(self)@.execute(0xE6),
    {
        self.address_bus = self.fetch_byte() as u16;
        let input = self.read(self.address_bus);
        self.inc(self.address_bus, input);
        self.cycles = 5;
    }

    fn inc_absolute(&mut self)
        requires
            old(self)@.can_fetch(OperandKind::AddressRead),
        ensures
            final(self)@ == old(self)@.execute(0xEE),
    {
        self.absolute_address();
        let input = self.read(self.address_bus);
        self.inc(self.address_bus, input);
        self.cycles = 6;
    }

    fn dec_zero_page(&mut self)
        requires
            old(self)@.can_fetch(OperandKind::Byte),
        ensures
            final(self)@ == old(self)@.execute(0xC6),
    {
        self.address_bus = self.fetch_byte() as u16;
        let input = self.read(self.address_bus);
        self.dec(self.address_bus, input);
        self.cycles = 5;
    }

    fn dec_absolute(&mut self)
        requires
            old(self)@.can_fetch(OperandKind::AddressRead),
        ensures
            final(self)@ == old(self)@.execute(0xCE),
    {
        self.absolute_address();
        let input = self.read(self.address_bus);
        self.dec(self.address_bus, input);
        self.cycles = 6;
    }

    fn ora_a(&mut self)
        requires
            old(self)@.can_fetch(OperandKind::Byte),
        ensures
            final(self)@ == old(self)@.execute(0x09),
    {
        let input = self.fetch_byte();
        self.ora(input);
        self.cycles = 2;
    }

    fn ora_zero_page(&mut self)
        requires
            old(self)@.can_fetch(OperandKind::Byte),
        ensures
            final(self)@ == old(self)@.execute(0x05),
    {
        let input = self.fetch_byte() as u16;
        let value = self.read(input);
        self.ora(value);
        self.cycles = 3;
    }

    fn ora_absolute(&mut self)
        requires
            old(self)@.can_fetch(OperandKind::AddressRead),
        ensures
            final(self)@ == old(self)@.execute(0x0D),
    {
        self.absolute_address();
        let value = self.read(self.address_bus);
        self.ora(value);
        self.cycles = 4;
    }

    fn and_a(&mut self)
        requires
            old(self)@.can_fetch(OperandKind::Byte),
        ensures
            final(self)@ == old(self)@.execute(0x29),
    {
        let input = self.fetch_byte();
        self.and(input);
        self.cycles = 2;
    }

    fn and_zero_page(&mut self)
        requires
            old(self)@.can_fetch(OperandKind::Byte),
        ensures
            final(self)@ == old(self)@.execute(0x25),
    {
        let input = self.fetch_byte() as u16;
        let value = self.read(input);
        self.and(value);
        self.cycles = 3;
    }

    fn and_absolute(&mut self)
        requires
            old(self)@.can_fetch(OperandKind::AddressRead),
        ensures
            final(self)@ == old(self)@.execute(0x2D),
    {
        self.absolute_address();
        let value = self.read(self.address_bus);
        self.and(value);
        self.cycles = 4;
    }

    fn eor_a(&mut self)
        requires
            old(self)@.can_fetch(OperandKind::Byte),
        ensures
            final(self)@ == old(self)@.execute(0x49),
    {
        let input = self.fetch_byte();
        self.eor(input);
        self.cycles = 2;
    }

    fn eor_zero_page(&mut self)
        requires
            old(self)@.can_fetch(OperandKind::Byte),
        ensures
            final(self)@ == old(self)@.execute(0x45),
    {
        let input = self.fetch_byte() as u16;
        let value = self.read(input);
        self.eor(value);
        self.cycles = 3;
    }

    fn eor_absolute(&mut self)
        requires
            old(self)@.can_fetch(OperandKind::AddressRead),
        ensures
            final(self)@ == old(self)@.execute(0x4D),
    {
        self.absolute_address();
        let value = self.read(self.address_bus);
        self.eor(value);
        self.cycles = 4;
    }

    fn adc_a(&mut self)
        requires
            old(self)@.can_fetch(OperandKind::Byte),
        ensures
            final(self)@ == old(self)@.execute(0x69),
    {
        let input = self.fetch_byte();
        self.adc(input);
        self.cycles = 2;
    }

    fn adc_zero_page(&mut self)
        requires
            old(self)@.can_fetch(OperandKind::Byte),
        ensures
            final(self)@ == old(self)@.execute(0x65),
    {
        let input = self.fetch_byte() as u16;
        let value = self.read(input);
        self.adc(value);
        self.cycles = 3;
    }

    fn adc_absolute(&mut self)
        requires
            old(self)@.can_fetch(OperandKind::AddressRead),
        ensures
            final(self)@ == old(self)@.execute(0x6D),
    {
        self.absolute_address();
        let value = self.read(self.address_bus);
        self.adc(value);
        self.cycles = 4;
    }

    fn sbc_a(&mut self)
        requires
            old(self)@.can_fetch(OperandKind::Byte),
        ensures
            final(self)@ == old(self)@.execute(0xE9),
    {
        let input = self.fetch_byte();
        self.sbc(input);
        self.cycles = 2;
    }

    fn sbc_zero_page(&mut self)
        requires
            old(self)@.can_fetch(OperandKind::Byte),
        ensures
            final(self)@ == old(self)@.execute(0xE5),
    {
        let input = self.fetch_byte() as u16;
        let value = self.read(input);
        self.sbc(value);
        self.cycles = 3;
    }

    fn sbc_absolute(&mut self)
        requires
            old(self)@.can_fetch(OperandKind::AddressRead),
        ensures
            final(self)@ == old(self)@.execute(0xED),
    {
        self.absolute_address();
        let value = self.read(self.address_bus);
        self.sbc(value);
        self.cycles = 4;
    }

    fn cmp_a(&mut self)
        requires
            old(self)@.can_fetch(OperandKind::Byte),
        ensures
            final(self)@ == old(self)@.execute(0xC9),
    {
        let input = self.fetch_byte();
        self.cmp(input);
        self.cycles = 2;
    }

    fn cmp_zero_page(&mut self)
        requires
            old(self)@.can_fetch(OperandKind::Byte),
        ensures
            final(self)@ == old(self)@.execute(0xC5),
    {
        let input = self.fetch_zero_page_address();
        let value = self.read(input);
        self.cmp(value);
        self.cycles = 3;
    }

    fn cmp_absolute(&mut self)
        requires
            old(self)@.can_fetch(OperandKind::AddressRead),
        ensures
            final(self)@ == old(self)@.execute(0xCD),
    {
        self.absolute_address();
        let value = self.read(self.address_bus);
        self.cmp(value);
        self.cycles = 4;
    }

    fn cpx_a(&mut self)
        requires
            old(self)@.can_fetch(OperandKind::Byte),
        ensures
            final(self)@ == old(self)@.execute(0xE0),
    {
        let input = self.fetch_byte();
        self.cpx(input);
        self.cycles = 2;
    }

    fn cpx_zero_page(&mut self)
        requires
            old(self)@.can_fetch(OperandKind::Byte),
        ensures
            final(self)@ == old(self)@.execute(0xE4),
    {
        let input = self.fetch_byte() as u16;
        let value = self.read(input);
        self.cpx(value);
        self.cycles = 3;
    }

    fn cpx_absolute(&mut self)
        requires
            old(self)@.can_fetch(OperandKind::AddressRead),
        ensures
            final(self)@ == old(self)@.execute(0xEC),
    {
        self.absolute_address();
        let value = self.read(self.address_bus);
        self.cpx(value);
        self.cycles = 4;
    }

    fn cpy_a(&mut self)
        requires
            old(self)@.can_fetch(OperandKind::Byte),
        ensures
            final(self)@ == old(self)@.execute(0xC0),
    {
        let input = self.fetch_byte();
        self.cpy(input);
        self.cycles = 2;
    }

    fn cpy_zero_page(&mut self)
        requires
            old(self)@.can_fetch(OperandKind::Byte),
        ensures
            final(self)@ == old(self)@.execute(0xC4),
    {
        let input = self.fetch_byte() as u16;
        let value = self.read(input);
        self.cpy(value);
        self.cycles = 3;
    }

    fn cpy_absolute(&mut self)
        requires
            old(self)@.can_fetch(OperandKind::AddressRead),
        ensures
            final(self)@ == old(self)@.execute(0xCC),
    {
        self.absolute_address();
        let value = self.read(self.address_bus);
        self.cpy(value);
        self.cycles = 4;
    }

    fn brk(&mut self)
        ensures
            final(self)@ == old(self)@.execute(0x00),
    {
        self.program_counter = self.program_counter.wrapping_add(1);
        self.push((self.program_counter / 256) as u8);
        self.push((self.program_counter % 256) as u8);
        let pushed = self.status | FLAG_BREAK | FLAG_UNUSED;
        self.push(pushed);
        let low = self.read(0xFFFE) as u16;
        let high = self.read(0xFFFF) as u16;
        assert((high << 8) | low == high * 256 + low) by (bit_vector)
            requires
                low < 256,
                high < 256,
        ;
        self.program_counter = (high << 8) | low;
        self.cycles = 7;
    }

    fn rti(&mut self)
        ensures
            final(self)@ == old(self)@.execute(0x40),
    {
        let pulled = self.pull();
        self.status = (pulled & !(FLAG_BREAK | FLAG_UNUSED)) | (self.status & (FLAG_BREAK | FLAG_UNUSED));
        let low = self.pull() as u16;
        let high = self.pull() as u16;
        assert((high << 8) | low == high * 256 + low) by (bit_vector)
            requires
                low < 256,
                high < 256,
        ;
        self.program_counter = (high << 8) | low;
        self.cycles = 6;
    }

    fn bit_zero_page(&mut self)
        requires
            old(self)@.can_fetch(OperandKind::Byte),
        ensures
            final(self)@ == old(self)@.execute(0x24),
    {
        let input = self.fetch_byte() as u16;
        let value = self.read(input);
        self.bit(value);
        self.cycles = 3;
    }

    fn bit_absolute(&mut self)
        requires
            old(self)@.can_fetch(OperandKind::AddressRead),
        ensures
            final(self)@ == old(self)@.execute(0x2C),
    {
        self.absolute_address();
        let value = self.read(self.address_bus);
        self.bit(value);
        self.cycles = 4;
    }
}

impl CPU {
    /// Executes the implemented opcode `opcode`, whose byte the program
    /// counter has just passed.
    pub(crate) fn execute_opcode(&mut self, opcode: u8)
        requires
            old(self)@.can_fetch(operand_kind_of(opcode)),
        ensures
            final(self)@ == old(self)@.execute(opcode),
    {
        match opcode {
            0xA0 => self.ldy_immediate(),
            0xA2 => self.ldx_immediate(),
            0xA9 => self.lda_immediate(),
            0xA5 => self.lda_zero_page(),
            0xAD => self.lda_absolute(),
            0x85 => self.sta_zero_page(),
            0x8D => self.sta_absolute(),
            0x86 => self.stx_zero_page(),
            0x8E => self.stx_absolute(),
            0x84 => self.sty_zero_page(),
            0x8C => self.sty_absolute(),
            0x10 => self.bpl(),
            0x30 => self.bmi(),
            0x50 => self.bvc(),
            0x70 => self.bvs(),
            0x90 => self.bcc(),
            0xB0 => self.bcs(),
            0xD0 => self.bne(),
            0xF0 => self.beq(),
            0x48 => self.pha(),
            0x68 => self.pla(),
            0x20 => self.jsr(),
            0x60 => self.rts(),
            0x4C => self.jmp(),
            0xE8 => self.inx(),
            0xCA => self.dex(),
            0xC8 => self.iny(),
            0x88 => self.dey(),
            0xAA => self.tax(),
            0x8A => self.txa(),
            0xA8 => self.tay(),
            0x98 => self.tya(),
            0xBA => self.tsx(),
            0x9A => self.txs(),
            0x38 => self.sec(),
            0x18 => self.clc(),
            0xB8 => self.clv(),
            0x78 => self.sei(),
            0x58 => self.cli(),
            0xF8 => self.sed(),
            0xD8 => self.cld(),
            0x08 => self.php(),
            0x28 => self.plp(),
            0x0A => self.asl_a(),
            0x2A => self.rol_a(),
            0x4A => self.lsr_a(),
            0x6A => self.ror_a(),
            0x06 => self.asl_zero_page(),
            0x0E => self.asl_absolute(),
            0x26 => self.rol_zero_page(),
            0x2E => self.rol_absolute(),
            0x46 => self.lsr_zero_page(),
            0x4E => self.lsr_absolute(),
            0x66 => self.ror_zero_page(),
            0x6E => self.ror_absolute(),
            0xE6 => self.inc_zero_page(),
            0xEE => self.inc_absolute(),
            0xC6 => self.dec_zero_page(),
            0xCE => self.dec_absolute(),
            0x09 => self.ora_a(),
            0x05 => self.ora_zero_page(),
            0x0D => self.ora_absolute(),
            0x29 => self.and_a(),
            0x25 => self.and_zero_page(),
            0x2D => self.and_absolute(),
            0x49 => self.eor_a(),
            0x45 => self.eor_zero_page(),
            0x4D => self.eor_absolute(),
            0x69 => self.adc_a(),
            0x65 => self.adc_zero_page(),
            0x6D => self.adc_absolute(),
            0xE9 => self.sbc_a(),
            0xE5 => self.sbc_zero_page(),
            0xED => self.sbc_absolute(),
            0xC9 => self.cmp_a(),
            0xC5 => self.cmp_zero_page(),
            0xCD => self.cmp_absolute(),
            0xE0 => self.cpx_a(),
            0xE4 => self.cpx_zero_page(),
            0xEC => self.cpx_absolute(),
            0xC0 => self.cpy_a(),
            0xC4 => self.cpy_zero_page(),
            0xCC => self.cpy_absolute(),
            0x00 => self.brk(),
            0x40 => self.rti(),
            0x24 => self.bit_zero_page(),
            0x2C => self.bit_absolute(),
            0xEA => self.cycles = 2,
            _ => {},
        }
    }
}

/// Bit 7 of `!(a ^ m) & (a ^ r)` is set exactly when `a` and `m` have the
/// same sign and `r` has the other one.
proof fn lemma_same_sign_flip(a: u8, m: u8, r: u8)
    ensures
        ((!(a ^ m) & (a ^ r) & 0x80) != 0) == ((a < 0x80) == (m < 0x80) && (a < 0x80) != (r
            < 0x80)),
{
    assert(((!(a ^ m) & (a ^ r) & 0x80) != 0) == ((a < 0x80) == (m < 0x80) && (a < 0x80) != (r
        < 0x80))) by (bit_vector);
}

/// Bit 7 of `(a ^ m) & (a ^ r)` is set exactly when `a` and `m` have
/// different signs and `r` has the sign of `m`.
proof fn lemma_opposite_sign_flip(a: u8, m: u8, r: u8)
    ensures
        (((a ^ m) & (a ^ r) & 0x80) != 0) == ((a < 0x80) != (m < 0x80) && (a < 0x80) != (r
            < 0x80)),
{
    assert((((a ^ m) & (a ^ r) & 0x80) != 0) == ((a < 0x80) != (m < 0x80) && (a < 0x80) != (r
        < 0x80))) by (bit_vector);
}

} // verus!
