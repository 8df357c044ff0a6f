//! What each instruction computes, stated from first principles: the
//! results in terms of the operands, by plain arithmetic and bitwise
//! operations, and the flags in terms of the results.
//!
//! In these laws `s` is a state whose program counter points just past the
//! opcode byte, as for `CpuState::execute`.

use vstd::prelude::*;
use crate::laws::is_flag;
use crate::semantics::{Fault, StepOutcome};
use crate::state::{
    CpuState, FLAG_CARRY, FLAG_DECIMAL, FLAG_INTERRUPT, FLAG_NEGATIVE, FLAG_OVERFLOW, FLAG_ZERO,
    flag_set, is_mapped, with_flag, with_nz,
};

verus! {

/// The byte after the opcode.
pub open spec fn byte_operand(s: CpuState) -> u8 {
    s.read(s.pc)
}

/// The zero-page address named by the byte after the opcode.
pub open spec fn zero_page_operand(s: CpuState) -> u16 {
    s.read(s.pc) as u16
}

/// The address named by the two bytes after the opcode, low byte first.
pub open spec fn absolute_operand(s: CpuState) -> u16 {
    (s.read(((s.pc + 1) % 0x10000) as u16) * 0x100 + s.read(s.pc)) as u16
}

/// The program counter `n` bytes further on, modulo 2^16.
pub open spec fn pc_plus(s: CpuState, n: int) -> u16 {
    ((s.pc + n) % 0x10000) as u16
}

/// The carry flag as 0 or 1.
pub open spec fn carry_value(s: CpuState) -> int {
    if s.carry() {
        1
    } else {
        0
    }
}

/// A byte read in two's complement.
pub open spec fn twos_complement(b: u8) -> int {
    if b < 128 {
        b as int
    } else {
        b as int - 256
    }
}

/// Setting or clearing one flag changes that flag only.
pub broadcast proof fn lemma_flag_of_with_flag(status: u8, mask: u8, on: bool, other: u8)
    requires
        is_flag(mask),
        is_flag(other),
    ensures
        #[trigger] flag_set(with_flag(status, mask, on), other) == if other == mask {
            on
        } else {
            flag_set(status, other)
        },
{
    crate::laws::lemma_with_flag(status, mask, on, other);
}

/// Recording a result byte sets zero and negative from it and keeps the
/// other flags.
pub broadcast proof fn lemma_flag_of_with_nz(status: u8, v: u8, other: u8)
    requires
        is_flag(other),
    ensures
        #[trigger] flag_set(with_nz(status, v), other) == if other == FLAG_ZERO {
            v == 0
        } else if other == FLAG_NEGATIVE {
            v >= 0x80
        } else {
            flag_set(status, other)
        },
{
    crate::laws::lemma_with_nz(status, v);
    if other != FLAG_ZERO && other != FLAG_NEGATIVE {
        crate::laws::lemma_with_nz_keeps(status, v, other);
    }
}

/// Zero and negative describe `v`; carry, interrupt disable, decimal and
/// overflow are those of `s`.
pub open spec fn nz_of(t: CpuState, s: CpuState, v: u8) -> bool {
    &&& t.zero() == (v == 0)
    &&& t.negative() == (v >= 0x80)
    &&& t.carry() == s.carry()
    &&& t.overflow() == s.overflow()
    &&& t.interrupt_disable() == s.interrupt_disable()
    &&& t.decimal() == s.decimal()
}

/// Every flag of `t` is that of `s`.
pub open spec fn same_flags(t: CpuState, s: CpuState) -> bool {
    &&& t.zero() == s.zero()
    &&& t.negative() == s.negative()
    &&& t.carry() == s.carry()
    &&& t.overflow() == s.overflow()
    &&& t.interrupt_disable() == s.interrupt_disable()
    &&& t.decimal() == s.decimal()
}

/// `LDA`, `LDX` and `LDY` put the loaded byte in their register, with zero
/// and negative describing it, and move past their operand.
pub proof fn law_loads(s: CpuState)
    ensures
        s.execute(0xA9).a == byte_operand(s),
        nz_of(s.execute(0xA9), s, byte_operand(s)),
        s.execute(0xA9).pc == pc_plus(s, 1),
        s.execute(0xA9).x == s.x && s.execute(0xA9).y == s.y,
        s.execute(0xA2).x == byte_operand(s),
        nz_of(s.execute(0xA2), s, byte_operand(s)),
        s.execute(0xA2).a == s.a && s.execute(0xA2).y == s.y,
        s.execute(0xA0).y == byte_operand(s),
        nz_of(s.execute(0xA0), s, byte_operand(s)),
        s.execute(0xA0).a == s.a && s.execute(0xA0).x == s.x,
        s.execute(0xA5).a == s.read(zero_page_operand(s)),
        nz_of(s.execute(0xA5), s, s.read(zero_page_operand(s))),
        s.execute(0xA5).pc == pc_plus(s, 1),
        s.execute(0xAD).a == s.read(absolute_operand(s)),
        nz_of(s.execute(0xAD), s, s.read(absolute_operand(s))),
        s.execute(0xAD).pc == pc_plus(s, 2),
{
    broadcast use lemma_flag_of_with_nz;

}

/// `ORA`, `AND` and `EOR` combine the accumulator bit by bit with the
/// operand, in all three addressing modes.
pub proof fn law_logic(s: CpuState)
    ensures
        s.execute(0x09).a == s.a | byte_operand(s),
        nz_of(s.execute(0x09), s, s.a | byte_operand(s)),
        s.execute(0x05).a == s.a | s.read(zero_page_operand(s)),
        nz_of(s.execute(0x05), s, s.a | s.read(zero_page_operand(s))),
        s.execute(0x0D).a == s.a | s.read(absolute_operand(s)),
        nz_of(s.execute(0x0D), s, s.a | s.read(absolute_operand(s))),
        s.execute(0x29).a == s.a & byte_operand(s),
        nz_of(s.execute(0x29), s, s.a & byte_operand(s)),
        s.execute(0x25).a == s.a & s.read(zero_page_operand(s)),
        nz_of(s.execute(0x25), s, s.a & s.read(zero_page_operand(s))),
        s.execute(0x2D).a == s.a & s.read(absolute_operand(s)),
        nz_of(s.execute(0x2D), s, s.a & s.read(absolute_operand(s))),
        s.execute(0x49).a == s.a ^ byte_operand(s),
        nz_of(s.execute(0x49), s, s.a ^ byte_operand(s)),
        s.execute(0x45).a == s.a ^ s.read(zero_page_operand(s)),
        nz_of(s.execute(0x45), s, s.a ^ s.read(zero_page_operand(s))),
        s.execute(0x4D).a == s.a ^ s.read(absolute_operand(s)),
        nz_of(s.execute(0x4D), s, s.a ^ s.read(absolute_operand(s))),
        s.execute(0x09).pc == pc_plus(s, 1) && s.execute(0x05).pc == pc_plus(s, 1),
        s.execute(0x0D).pc == pc_plus(s, 2),
{
    broadcast use lemma_flag_of_with_nz;

}

/// Transfers copy one register into another, with zero and negative
/// describing the byte copied (except into the stack pointer); increments
/// and decrements count modulo 256.
pub proof fn law_transfers_and_counts(s: CpuState)
    ensures
        s.execute(0xAA).x == s.a && nz_of(s.execute(0xAA), s, s.a) && s.execute(0xAA).a == s.a
            && s.execute(0xAA).y == s.y,
        s.execute(0x8A).a == s.x && nz_of(s.execute(0x8A), s, s.x) && s.execute(0x8A).x == s.x
            && s.execute(0x8A).y == s.y,
        s.execute(0xA8).y == s.a && nz_of(s.execute(0xA8), s, s.a) && s.execute(0xA8).a == s.a
            && s.execute(0xA8).x == s.x,
        s.execute(0x98).a == s.y && nz_of(s.execute(0x98), s, s.y) && s.execute(0x98).x == s.x
            && s.execute(0x98).y == s.y,
        s.execute(0xBA).x == s.sp && nz_of(s.execute(0xBA), s, s.sp) && s.execute(0xBA).sp
            == s.sp,
        s.execute(0x9A).sp == s.x && same_flags(s.execute(0x9A), s) && s.execute(0x9A).x == s.x,
        s.execute(0xE8).x == (s.x + 1) % 256 && nz_of(s.execute(0xE8), s, ((s.x + 1) % 256) as u8),
        s.execute(0xCA).x == (s.x + 255) % 256 && nz_of(s.execute(0xCA), s, ((s.x + 255) % 256) as u8),
        s.execute(0xC8).y == (s.y + 1) % 256 && nz_of(s.execute(0xC8), s, ((s.y + 1) % 256) as u8),
        s.execute(0x88).y == (s.y + 255) % 256 && nz_of(s.execute(0x88), s, ((s.y + 255) % 256) as u8),
        s.execute(0xE8).a == s.a && s.execute(0xCA).a == s.a && s.execute(0xC8).a == s.a
            && s.execute(0x88).a == s.a,
        s.execute(0xE8).pc == s.pc && s.execute(0xAA).pc == s.pc,
{
    broadcast use lemma_flag_of_with_nz;

}

/// The program counter after a branch whose condition is `taken`: the
/// signed offset added to the address of the next instruction when taken,
/// the next instruction otherwise.
pub open spec fn branch_target(s: CpuState, taken: bool) -> u16 {
    if taken {
        ((s.pc + 1 + twos_complement(byte_operand(s))) % 0x10000) as u16
    } else {
        pc_plus(s, 1)
    }
}

/// Each branch is taken exactly when its flag condition holds, and changes
/// no register or flag.
pub proof fn law_branches(s: CpuState)
    ensures
        s.execute(0x10).pc == branch_target(s, !s.negative()),
        s.execute(0x30).pc == branch_target(s, s.negative()),
        s.execute(0x50).pc == branch_target(s, !s.overflow()),
        s.execute(0x70).pc == branch_target(s, s.overflow()),
        s.execute(0x90).pc == branch_target(s, !s.carry()),
        s.execute(0xB0).pc == branch_target(s, s.carry()),
        s.execute(0xD0).pc == branch_target(s, !s.zero()),
        s.execute(0xF0).pc == branch_target(s, s.zero()),
        s.execute(0x10).cycles == if !s.negative() { 3int } else { 2 },
        s.execute(0x30).cycles == if s.negative() { 3int } else { 2 },
        s.execute(0x50).cycles == if !s.overflow() { 3int } else { 2 },
        s.execute(0x70).cycles == if s.overflow() { 3int } else { 2 },
        s.execute(0x90).cycles == if !s.carry() { 3int } else { 2 },
        s.execute(0xB0).cycles == if s.carry() { 3int } else { 2 },
        s.execute(0xD0).cycles == if !s.zero() { 3int } else { 2 },
        s.execute(0xF0).cycles == if s.zero() { 3int } else { 2 },
        forall|op: u8|
            #![trigger s.execute(op)]
            op == 0x10 || op == 0x30 || op == 0x50 || op == 0x70 || op == 0x90 || op == 0xB0 || op
                == 0xD0 || op == 0xF0 ==> {
                &&& s.execute(op).a == s.a
                &&& s.execute(op).x == s.x
                &&& s.execute(op).y == s.y
                &&& s.execute(op).sp == s.sp
                &&& s.execute(op).status == s.status
                &&& s.execute(op).ram == s.ram
            },
{
}

/// The flag instructions set or clear one flag and keep the others.
pub proof fn law_flag_instructions(s: CpuState)
    ensures
        s.execute(0x38).carry() && !s.execute(0x18).carry(),
        !s.execute(0xB8).overflow(),
        s.execute(0x78).interrupt_disable() && !s.execute(0x58).interrupt_disable(),
        s.execute(0xF8).decimal() && !s.execute(0xD8).decimal(),
        s.execute(0x38).zero() == s.zero() && s.execute(0x38).negative() == s.negative()
            && s.execute(0x38).overflow() == s.overflow() && s.execute(0x38).decimal()
            == s.decimal() && s.execute(0x38).interrupt_disable() == s.interrupt_disable(),
        s.execute(0x18).zero() == s.zero() && s.execute(0x18).overflow() == s.overflow(),
        s.execute(0xB8).carry() == s.carry() && s.execute(0xB8).zero() == s.zero()
            && s.execute(0xB8).negative() == s.negative(),
        s.execute(0x78).carry() == s.carry() && s.execute(0x78).decimal() == s.decimal(),
        s.execute(0x58).carry() == s.carry() && s.execute(0x58).decimal() == s.decimal(),
        s.execute(0xF8).carry() == s.carry() && s.execute(0xF8).interrupt_disable()
            == s.interrupt_disable(),
        s.execute(0xD8).carry() == s.carry() && s.execute(0xD8).interrupt_disable()
            == s.interrupt_disable(),
        s.execute(0xEA).status == s.status && s.execute(0xEA).a == s.a && s.execute(0xEA).pc
            == s.pc,
{
    broadcast use lemma_flag_of_with_flag;

}

/// Shifts and rotations of the accumulator: `ASL` doubles modulo 256, `LSR`
/// halves (bit 7 of the result is 0), `ROL` and `ROR` rotate through carry;
/// the bit shifted out goes to carry.
pub proof fn law_shifts_accumulator(s: CpuState)
    ensures
        s.execute(0x0A).a == (s.a * 2) % 256,
        s.execute(0x0A).carry() == (s.a >= 0x80),
        s.execute(0x0A).zero() == (s.execute(0x0A).a == 0),
        s.execute(0x0A).negative() == (s.execute(0x0A).a >= 0x80),
        s.execute(0x4A).a == s.a / 2,
        s.execute(0x4A).carry() == (s.a % 2 == 1),
        s.execute(0x4A).zero() == (s.a / 2 == 0),
        !s.execute(0x4A).negative(),
        s.execute(0x2A).a == (s.a * 2 + carry_value(s)) % 256,
        s.execute(0x2A).carry() == (s.a >= 0x80),
        s.execute(0x2A).zero() == (s.execute(0x2A).a == 0),
        s.execute(0x2A).negative() == (s.execute(0x2A).a >= 0x80),
        s.execute(0x6A).a == s.a / 2 + 128 * carry_value(s),
        s.execute(0x6A).carry() == (s.a % 2 == 1),
        s.execute(0x6A).zero() == (s.execute(0x6A).a == 0),
        s.execute(0x6A).negative() == s.carry(),
        forall|op: u8|
            #![trigger s.execute(op)]
            op == 0x0A || op == 0x4A || op == 0x2A || op == 0x6A ==> {
                &&& s.execute(op).overflow() == s.overflow()
                &&& s.execute(op).interrupt_disable() == s.interrupt_disable()
                &&& s.execute(op).decimal() == s.decimal()
                &&& s.execute(op).x == s.x
                &&& s.execute(op).y == s.y
                &&& s.execute(op).pc == s.pc
            },
{
    broadcast use lemma_flag_of_with_flag, lemma_flag_of_with_nz;

    assert(s.carry() ==> s.execute(0x6A).a >= 0x80);
}

/// Read-modify-write instructions on the byte `m` at `addr`: the byte written
/// back (seen at `addr` when it is RAM) and the flags. `op` is one of the
/// memory forms of `ASL`, `LSR`, `ROL`, `ROR`, `INC` and `DEC`.
pub open spec fn modifies_memory(s: CpuState, t: CpuState, addr: u16, result: int) -> bool {
    &&& 0 <= result < 256
    &&& addr <= 0x1FFF ==> t.read(addr) == result
    &&& addr > 0x1FFF ==> t.ram == s.ram
    &&& t.zero() == (result == 0)
    &&& t.negative() == (result >= 0x80)
    &&& t.overflow() == s.overflow()
    &&& t.interrupt_disable() == s.interrupt_disable()
    &&& t.decimal() == s.decimal()
    &&& t.a == s.a
    &&& t.x == s.x
    &&& t.y == s.y
    &&& t.bus == addr
}

/// The memory forms of the shifts, rotations, `INC` and `DEC` in zero-page
/// addressing.
#[verifier::rlimit(40)]
pub proof fn law_shifts_zero_page(s: CpuState)
    requires
        s.well_formed(),
    ensures
        ({
            let addr = zero_page_operand(s);
            let m = s.read(addr);
            &&& modifies_memory(s, s.execute(0x06), addr, (m * 2) % 256)
            &&& s.execute(0x06).carry() == (m >= 0x80)
            &&& modifies_memory(s, s.execute(0x46), addr, m as int / 2)
            &&& s.execute(0x46).carry() == (m % 2 == 1)
            &&& modifies_memory(s, s.execute(0x26), addr, (m * 2 + carry_value(s)) % 256)
            &&& s.execute(0x26).carry() == (m >= 0x80)
            &&& modifies_memory(s, s.execute(0x66), addr, m / 2 + 128 * carry_value(s))
            &&& s.execute(0x66).carry() == (m % 2 == 1)
            &&& modifies_memory(s, s.execute(0xE6), addr, (m + 1) % 256)
            &&& s.execute(0xE6).carry() == s.carry()
            &&& modifies_memory(s, s.execute(0xC6), addr, (m + 255) % 256)
            &&& s.execute(0xC6).carry() == s.carry()
        }),
{
    broadcast use lemma_flag_of_with_flag, lemma_flag_of_with_nz;

}

/// The memory forms of the shifts, rotations, `INC` and `DEC` in absolute
/// addressing.
#[verifier::rlimit(40)]
pub proof fn law_shifts_absolute(s: CpuState)
    requires
        s.well_formed(),
    ensures
        ({
            let addr = absolute_operand(s);
            let m = s.read(addr);
            &&& modifies_memory(s, s.execute(0x0E), addr, (m * 2) % 256)
            &&& s.execute(0x0E).carry() == (m >= 0x80)
            &&& modifies_memory(s, s.execute(0x4E), addr, m as int / 2)
            &&& s.execute(0x4E).carry() == (m % 2 == 1)
            &&& modifies_memory(s, s.execute(0x2E), addr, (m * 2 + carry_value(s)) % 256)
            &&& s.execute(0x2E).carry() == (m >= 0x80)
            &&& modifies_memory(s, s.execute(0x6E), addr, m / 2 + 128 * carry_value(s))
            &&& s.execute(0x6E).carry() == (m % 2 == 1)
            &&& modifies_memory(s, s.execute(0xEE), addr, (m + 1) % 256)
            &&& s.execute(0xEE).carry() == s.carry()
            &&& modifies_memory(s, s.execute(0xCE), addr, (m + 255) % 256)
            &&& s.execute(0xCE).carry() == s.carry()
        }),
{
    broadcast use lemma_flag_of_with_flag, lemma_flag_of_with_nz;

}

/// A store puts the register's byte at the address (seen there when it is
/// RAM) and changes no register or flag.
pub open spec fn stores(s: CpuState, t: CpuState, addr: u16, value: u8) -> bool {
    &&& addr <= 0x1FFF ==> t.read(addr) == value
    &&& addr > 0x1FFF ==> t.ram == s.ram
    &&& t.a == s.a
    &&& t.x == s.x
    &&& t.y == s.y
    &&& t.sp == s.sp
    &&& t.status == s.status
    &&& t.rom == s.rom
}

/// `STA`, `STX` and `STY`, in zero-page and absolute addressing.
pub proof fn law_stores(s: CpuState)
    requires
        s.well_formed(),
    ensures
        stores(s, s.execute(0x85), zero_page_operand(s), s.a),
        stores(s, s.execute(0x86), zero_page_operand(s), s.x),
        stores(s, s.execute(0x84), zero_page_operand(s), s.y),
        stores(s, s.execute(0x8D), absolute_operand(s), s.a),
        stores(s, s.execute(0x8E), absolute_operand(s), s.x),
        stores(s, s.execute(0x8C), absolute_operand(s), s.y),
        s.execute(0x85).pc == pc_plus(s, 1),
        s.execute(0x8D).pc == pc_plus(s, 2),
{
}

/// What `ADC` does with the operand byte `m`: the accumulator becomes
/// `a + m + carry` modulo 256, carry tells that the sum passed 255, overflow
/// that the sum of the signed bytes left -128..=127.
pub open spec fn adds(s: CpuState, t: CpuState, m: u8) -> bool {
    let sum = s.a + m + carry_value(s);
    let signed_sum = twos_complement(s.a) + twos_complement(m) + carry_value(s);
    &&& t.a == sum % 256
    &&& t.carry() == (sum > 255)
    &&& t.overflow() == (signed_sum < -128 || signed_sum > 127)
    &&& t.zero() == (sum % 256 == 0)
    &&& t.negative() == (sum % 256 >= 128)
    &&& t.interrupt_disable() == s.interrupt_disable()
    &&& t.decimal() == s.decimal()
    &&& t.x == s.x
    &&& t.y == s.y
    &&& t.ram == s.ram
}

/// What `SBC` does with the operand byte `m`: the accumulator becomes
/// `a - m - borrow` modulo 256, where the borrow is 1 when carry is clear;
/// carry tells that no borrow out was needed, overflow that the signed
/// difference left -128..=127.
pub open spec fn subtracts(s: CpuState, t: CpuState, m: u8) -> bool {
    let diff = s.a - m - (1 - carry_value(s));
    let signed_diff = twos_complement(s.a) - twos_complement(m) - (1 - carry_value(s));
    &&& t.a == diff % 256
    &&& t.carry() == (diff >= 0)
    &&& t.overflow() == (signed_diff < -128 || signed_diff > 127)
    &&& t.zero() == (diff % 256 == 0)
    &&& t.negative() == (diff % 256 >= 128)
    &&& t.interrupt_disable() == s.interrupt_disable()
    &&& t.decimal() == s.decimal()
    &&& t.x == s.x
    &&& t.y == s.y
    &&& t.ram == s.ram
}

/// `ADC` and `SBC`, in immediate, zero-page and absolute addressing.
pub proof fn law_add_subtract(s: CpuState)
    ensures
        adds(s, s.execute(0x69), byte_operand(s)),
        adds(s, s.execute(0x65), s.read(zero_page_operand(s))),
        adds(s, s.execute(0x6D), s.read(absolute_operand(s))),
        subtracts(s, s.execute(0xE9), byte_operand(s)),
        subtracts(s, s.execute(0xE5), s.read(zero_page_operand(s))),
        subtracts(s, s.execute(0xED), s.read(absolute_operand(s))),
        s.execute(0x69).pc == pc_plus(s, 1) && s.execute(0x6D).pc == pc_plus(s, 2),
{
    crate::laws::lemma_adc_is_addition(s.skip(1), byte_operand(s));
    crate::laws::lemma_adc_is_addition(s.skip(1), s.read(zero_page_operand(s)));
    crate::laws::lemma_adc_is_addition(s.fetch_absolute(), s.read(absolute_operand(s)));
    crate::laws::lemma_sbc_is_subtraction(s.skip(1), byte_operand(s));
    crate::laws::lemma_sbc_is_subtraction(s.skip(1), s.read(zero_page_operand(s)));
    crate::laws::lemma_sbc_is_subtraction(s.fetch_absolute(), s.read(absolute_operand(s)));
}

/// A compare of the register byte `reg` with `m`: carry when `reg >= m`,
/// zero when they are equal, negative from bit 7 of `reg - m` modulo 256;
/// no register and no other flag changes.
pub open spec fn compares(s: CpuState, t: CpuState, reg: u8, m: u8) -> bool {
    &&& t.carry() == (reg >= m)
    &&& t.zero() == (reg == m)
    &&& t.negative() == ((reg - m) % 256 >= 128)
    &&& t.overflow() == s.overflow()
    &&& t.interrupt_disable() == s.interrupt_disable()
    &&& t.decimal() == s.decimal()
    &&& t.a == s.a
    &&& t.x == s.x
    &&& t.y == s.y
    &&& t.ram == s.ram
}

/// `CMP`, `CPX` and `CPY`, in immediate, zero-page and absolute addressing.
#[verifier::rlimit(40)]
pub proof fn law_compares(s: CpuState)
    ensures
        compares(s, s.execute(0xC9), s.a, byte_operand(s)),
        compares(s, s.execute(0xC5), s.a, s.read(zero_page_operand(s))),
        compares(s, s.execute(0xCD), s.a, s.read(absolute_operand(s))),
        compares(s, s.execute(0xE0), s.x, byte_operand(s)),
        compares(s, s.execute(0xE4), s.x, s.read(zero_page_operand(s))),
        compares(s, s.execute(0xEC), s.x, s.read(absolute_operand(s))),
        compares(s, s.execute(0xC0), s.y, byte_operand(s)),
        compares(s, s.execute(0xC4), s.y, s.read(zero_page_operand(s))),
        compares(s, s.execute(0xCC), s.y, s.read(absolute_operand(s))),
{
    let zp = s.read(zero_page_operand(s));
    let ab = s.read(absolute_operand(s));
    crate::laws::lemma_compare_flags(s.skip(1), s.a, byte_operand(s));
    crate::laws::lemma_compare_flags(s.skip(1), s.a, zp);
    crate::laws::lemma_compare_flags(s.fetch_absolute(), s.a, ab);
    crate::laws::lemma_compare_flags(s.skip(1), s.x, byte_operand(s));
    crate::laws::lemma_compare_flags(s.skip(1), s.x, zp);
    crate::laws::lemma_compare_flags(s.fetch_absolute(), s.x, ab);
    crate::laws::lemma_compare_flags(s.skip(1), s.y, byte_operand(s));
    crate::laws::lemma_compare_flags(s.skip(1), s.y, zp);
    crate::laws::lemma_compare_flags(s.fetch_absolute(), s.y, ab);
}

/// `BIT`: zero when the accumulator and the byte share no set bit, negative
/// and overflow copied from bits 7 and 6 of the byte; no register changes.
pub proof fn law_bit_test(s: CpuState)
    ensures
        ({
            let m = s.read(zero_page_operand(s));
            let t = s.execute(0x24);
            &&& t.zero() == (s.a & m == 0)
            &&& t.negative() == (m >= 0x80)
            &&& t.overflow() == (m & 0x40 != 0)
            &&& t.carry() == s.carry()
            &&& t.a == s.a
            &&& t.pc == pc_plus(s, 1)
        }),
        ({
            let m = s.read(absolute_operand(s));
            let t = s.execute(0x2C);
            &&& t.zero() == (s.a & m == 0)
            &&& t.negative() == (m >= 0x80)
            &&& t.overflow() == (m & 0x40 != 0)
            &&& t.carry() == s.carry()
            &&& t.a == s.a
            &&& t.pc == pc_plus(s, 2)
        }),
{
    broadcast use lemma_flag_of_with_flag;

    let m1 = s.read(zero_page_operand(s));
    let m2 = s.read(absolute_operand(s));
    assert((m1 & 0x80 != 0) == (m1 >= 0x80)) by (bit_vector);
    assert((m2 & 0x80 != 0) == (m2 >= 0x80)) by (bit_vector);
}

/// The byte at stack slot `k` above the stack pointer of `t`.
pub open spec fn stack_byte(t: CpuState, k: int) -> u8 {
    t.read((0x100 + (t.sp + k) % 256) as u16)
}

/// The stack instructions: pushes store at 0x0100 plus the stack pointer and
/// move it down, pulls move it up and read there.
pub proof fn law_stack(s: CpuState)
    requires
        s.well_formed(),
    ensures
        stack_byte(s.execute(0x48), 1) == s.a,
        s.execute(0x48).sp == (s.sp + 255) % 256,
        s.execute(0x48).a == s.a && s.execute(0x48).status == s.status,
        s.execute(0x68).a == stack_byte(s, 1),
        s.execute(0x68).sp == (s.sp + 1) % 256,
        nz_of(s.execute(0x68), s, stack_byte(s, 1)),
        stack_byte(s.execute(0x08), 1) == s.status | 0x30,
        s.execute(0x08).sp == (s.sp + 255) % 256,
        s.execute(0x08).status == s.status,
        s.execute(0x28).sp == (s.sp + 1) % 256,
        forall|mask: u8|
            #![trigger flag_set(s.execute(0x28).status, mask)]
            is_flag(mask) ==> flag_set(s.execute(0x28).status, mask) == flag_set(
                stack_byte(s, 1),
                mask,
            ),
{
    broadcast use lemma_flag_of_with_nz;

    let st0 = s.status;
    assert((st0 | 0x10u8) | 0x20u8 == st0 | 0x30u8) by (bit_vector);
    assert forall|mask: u8|
        #![trigger flag_set(s.execute(0x28).status, mask)]
        is_flag(mask) implies flag_set(s.execute(0x28).status, mask) == flag_set(
            stack_byte(s, 1),
            mask,
        ) by {
        let p = stack_byte(s, 1);
        let st = s.status;
        assert(flag_set((p & !(0x10u8 | 0x20u8)) | (st & (0x10u8 | 0x20u8)), mask) == flag_set(p, mask))
            by (bit_vector)
            requires
                mask == 1 || mask == 2 || mask == 4 || mask == 8 || mask == 0x40 || mask == 0x80,
        ;
    }
}

/// `JMP` and `JSR` go to the absolute operand; `JSR` first pushes the
/// address of its own last byte, high byte first; `RTS` pulls an address,
/// low byte first, and goes one past it.
pub proof fn law_jumps(s: CpuState)
    requires
        s.well_formed(),
    ensures
        s.execute(0x4C).pc == absolute_operand(s),
        s.execute(0x4C).status == s.status && s.execute(0x4C).sp == s.sp,
        s.execute(0x20).pc == absolute_operand(s),
        s.execute(0x20).sp == (s.sp + 254) % 256,
        stack_byte(s.execute(0x20), 2) == pc_plus(s, 1) / 256,
        stack_byte(s.execute(0x20), 1) == pc_plus(s, 1) % 256,
        s.execute(0x20).status == s.status,
        s.execute(0x60).pc == (stack_byte(s, 1) + 256 * stack_byte(s, 2) + 1) % 0x10000,
        s.execute(0x60).sp == (s.sp + 2) % 256,
        s.execute(0x60).status == s.status,
{
}

/// `BRK` pushes the address two past its opcode, high byte first, and the
/// status with bits 4 and 5 set, then jumps through the vector at 0xFFFE;
/// `RTI` pulls the flags, then the program counter, low byte first.
#[verifier::rlimit(40)]
pub proof fn law_interrupts(s: CpuState)
    requires
        s.well_formed(),
    ensures
        stack_byte(s.execute(0x00), 3) == pc_plus(s, 1) / 256,
        stack_byte(s.execute(0x00), 2) == pc_plus(s, 1) % 256,
        stack_byte(s.execute(0x00), 1) == s.status | 0x30,
        s.execute(0x00).sp == (s.sp + 253) % 256,
        s.execute(0x00).pc == s.read(0xFFFE) + 256 * s.read(0xFFFF),
        s.execute(0x00).status == s.status,
        s.execute(0x00).a == s.a,
        s.execute(0x40).pc == stack_byte(s, 2) + 256 * stack_byte(s, 3),
        s.execute(0x40).sp == (s.sp + 3) % 256,
        forall|mask: u8|
            #![trigger flag_set(s.execute(0x40).status, mask)]
            is_flag(mask) ==> flag_set(s.execute(0x40).status, mask) == flag_set(
                stack_byte(s, 1),
                mask,
            ),
{
    crate::laws::lemma_brk_pushes(s);
    let st0 = s.status;
    assert((st0 | 0x10u8) | 0x20u8 == st0 | 0x30u8) by (bit_vector);
    assert forall|mask: u8|
        #![trigger flag_set(s.execute(0x40).status, mask)]
        is_flag(mask) implies flag_set(s.execute(0x40).status, mask) == flag_set(
            stack_byte(s, 1),
            mask,
        ) by {
        let p = stack_byte(s, 1);
        assert(flag_set((p & !(0x10u8 | 0x20u8)) | (st0 & (0x10u8 | 0x20u8)), mask) == flag_set(p, mask))
            by (bit_vector)
            requires
                mask == 1 || mask == 2 || mask == 4 || mask == 8 || mask == 0x40 || mask == 0x80,
        ;
    }
}

/// How many cycles each instruction records and how far it moves the
/// program counter past its opcode: register-only instructions take 2
/// cycles and no operand byte, immediate ones 2 cycles and one byte,
/// zero-page reads and writes 3 and one byte, absolute ones 4 and two
/// bytes, read-modify-write instructions 5 (zero page) or 6 (absolute).
#[verifier::rlimit(40)]
pub proof fn law_cycles_and_lengths(s: CpuState)
    ensures
        forall|op: u8|
            #![trigger s.execute(op)]
            op == 0xE8 || op == 0xCA || op == 0xC8 || op == 0x88 || op == 0xAA || op == 0x8A || op == 0xA8 || op == 0x98 || op == 0x9A || op == 0xBA || op == 0x38 || op == 0x18 || op == 0xB8 || op == 0x78 || op == 0x58 || op == 0xF8 || op == 0xD8 || op == 0xEA || op == 0x0A || op == 0x2A || op == 0x4A || op == 0x6A ==> s.execute(op).cycles == 2 && s.execute(op).pc == s.pc,
        forall|op: u8|
            #![trigger s.execute(op)]
            op == 0xA0 || op == 0xA2 || op == 0xA9 || op == 0x09 || op == 0x29 || op == 0x49 || op == 0x69 || op == 0xE9 || op == 0xC9 || op == 0xE0 || op == 0xC0 ==> s.execute(op).cycles == 2 && s.execute(op).pc == pc_plus(s, 1),
        forall|op: u8|
            #![trigger s.execute(op)]
            op == 0xA5 || op == 0x85 || op == 0x86 || op == 0x84 || op == 0x05 || op == 0x25 || op == 0x45 || op == 0x65 || op == 0xE5 || op == 0xC5 || op == 0xE4 || op == 0xC4 || op == 0x24 ==> s.execute(op).cycles == 3 && s.execute(op).pc == pc_plus(s, 1),
        forall|op: u8|
            #![trigger s.execute(op)]
            op == 0xAD || op == 0x8D || op == 0x8E || op == 0x8C || op == 0x0D || op == 0x2D || op == 0x4D || op == 0x6D || op == 0xED || op == 0xCD || op == 0xEC || op == 0xCC || op == 0x2C ==> s.execute(op).cycles == 4 && s.execute(op).pc == pc_plus(s, 2),
        forall|op: u8|
            #![trigger s.execute(op)]
            op == 0x06 || op == 0x26 || op == 0x46 || op == 0x66 || op == 0xE6 || op == 0xC6 ==> s.execute(op).cycles == 5 && s.execute(op).pc == pc_plus(s, 1),
        forall|op: u8|
            #![trigger s.execute(op)]
            op == 0x0E || op == 0x2E || op == 0x4E || op == 0x6E || op == 0xEE || op == 0xCE ==> s.execute(op).cycles == 6 && s.execute(op).pc == pc_plus(s, 2),
        s.execute(0x48).cycles == 3 && s.execute(0x08).cycles == 3 && s.execute(0x28).cycles == 3
            && s.execute(0x68).cycles == 4,
        s.execute(0x48).pc == s.pc && s.execute(0x08).pc == s.pc && s.execute(0x28).pc == s.pc
            && s.execute(0x68).pc == s.pc,
        s.execute(0x20).cycles == 6 && s.execute(0x60).cycles == 6 && s.execute(0x4C).cycles == 3
            && s.execute(0x00).cycles == 7 && s.execute(0x40).cycles == 6,
{
}

/// The opcodes this CPU implements: every other opcode byte is refused.
pub open spec fn implemented_opcodes() -> Set<u8> {
    set![0x00, 0x05, 0x06, 0x08, 0x09, 0x0A, 0x0D, 0x0E, 0x10, 0x18, 0x20, 0x24, 0x25, 0x26, 0x28, 0x29, 0x2A, 0x2C, 0x2D, 0x2E, 0x30, 0x38, 0x40, 0x45, 0x46, 0x48, 0x49, 0x4A, 0x4C, 0x4D, 0x4E, 0x50, 0x58, 0x60, 0x65, 0x66, 0x68, 0x69, 0x6A, 0x6D, 0x6E, 0x70, 0x78, 0x84, 0x85, 0x86, 0x88, 0x8A, 0x8C, 0x8D, 0x8E, 0x90, 0x98, 0x9A, 0xA0, 0xA2, 0xA5, 0xA8, 0xA9, 0xAA, 0xAD, 0xB0, 0xB8, 0xBA, 0xC0, 0xC4, 0xC5, 0xC6, 0xC8, 0xC9, 0xCA, 0xCC, 0xCD, 0xCE, 0xD0, 0xD8, 0xE0, 0xE4, 0xE5, 0xE6, 0xE8, 0xE9, 0xEA, 0xEC, 0xED, 0xEE, 0xF0, 0xF8, 0x02]
}

/// A step on a mapped program counter halts exactly at 0x02 (and at 0x00
/// when `brk_halts`), faults with an unknown opcode exactly at the opcodes
/// not implemented, and otherwise either executes or faults on an unmapped
/// operand read.
pub proof fn law_step_outcomes(s: CpuState, brk_halts: bool)
    requires
        is_mapped(s.pc),
    ensures
        (s.step(brk_halts).0 is Halted) == (s.read(s.pc) == 0x02 || (brk_halts && s.read(s.pc)
            == 0x00)),
        (s.step(brk_halts).0 == StepOutcome::Faulted(Fault::UnknownOpcode(s.read(s.pc)))) == !implemented_opcodes().contains(
            s.read(s.pc),
        ),
        s.step(brk_halts).0 is Halted ==> s.step(brk_halts).1 == s.with_pc(pc_plus(s, 1)),
{
}

/// Loading a program puts its bytes in RAM from address 0x0001 on and
/// points the program counter there, keeping the rest of RAM.
pub proof fn law_load_program(s: CpuState, program: Seq<u8>)
    requires
        s.well_formed(),
        program.len() < 0x800,
    ensures
        s.load_program(program).pc == 1,
        s.load_program(program).well_formed(),
        forall|i: int| 0 <= i < program.len() ==> #[trigger] s.load_program(program).read((1 + i) as u16) == program[i],
        s.load_program(program).read(0) == s.read(0),
        forall|addr: u16| program.len() < addr <= 0x7FF ==> #[trigger] s.load_program(program).read(addr) == s.read(addr),
        s.load_program(program).rom == s.rom,
        s.load_program(program).a == s.a && s.load_program(program).status == s.status,
{
}

} // verus!
