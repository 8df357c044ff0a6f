//! Properties of the machine that span several operations: memory, stack,
//! flags, instruction pairs that undo each other, and what a step keeps.

use vstd::prelude::*;
use crate::semantics::{OperandKind, StepOutcome, operand_kind_of};
use crate::state::{
    CpuState, FLAG_CARRY, FLAG_DECIMAL, FLAG_INTERRUPT, FLAG_NEGATIVE, FLAG_OVERFLOW, FLAG_ZERO,
    flag_set, is_mapped, pushed_status, restored_status, signed8, with_flag, with_nz, wrap16,
    wrap8,
};

verus! {

/// The six status bits that are flags.
pub open spec fn is_flag(mask: u8) -> bool {
    mask == FLAG_CARRY || mask == FLAG_ZERO || mask == FLAG_INTERRUPT || mask == FLAG_DECIMAL
        || mask == FLAG_OVERFLOW || mask == FLAG_NEGATIVE
}

/// Setting or clearing one flag gives that flag the value asked for and
/// leaves every other flag as it was.
pub proof fn lemma_with_flag(status: u8, mask: u8, on: bool, other: u8)
    requires
        is_flag(mask),
        is_flag(other),
    ensures
        flag_set(with_flag(status, mask, on), other) == if other == mask {
            on
        } else {
            flag_set(status, other)
        },
{
    assert(flag_set(with_flag(status, mask, on), other) == if other == mask {
        on
    } else {
        flag_set(status, other)
    }) by (bit_vector)
        requires
            mask == 1 || mask == 2 || mask == 4 || mask == 8 || mask == 0x40 || mask == 0x80,
            other == 1 || other == 2 || other == 4 || other == 8 || other == 0x40 || other
                == 0x80,
    ;
}

/// After a result byte `v` is recorded, zero is set exactly when `v` is 0,
/// negative exactly when bit 7 of `v` is set, and every other bit of the
/// status is kept.
pub proof fn lemma_with_nz(status: u8, v: u8)
    ensures
        flag_set(with_nz(status, v), FLAG_ZERO) == (v == 0),
        flag_set(with_nz(status, v), FLAG_NEGATIVE) == (v >= 0x80),
        with_nz(status, v) & 0x7D == status & 0x7D,
{
    assert(flag_set(with_nz(status, v), FLAG_ZERO) == (v == 0)) by (bit_vector);
    assert(flag_set(with_nz(status, v), FLAG_NEGATIVE) == (v >= 0x80)) by (bit_vector);
    assert(with_nz(status, v) & 0x7D == status & 0x7D) by (bit_vector);
}

/// Recording a result byte leaves carry, interrupt disable, decimal and
/// overflow as they were.
pub proof fn lemma_with_nz_keeps(status: u8, v: u8, mask: u8)
    requires
        is_flag(mask),
        mask != FLAG_ZERO,
        mask != FLAG_NEGATIVE,
    ensures
        flag_set(with_nz(status, v), mask) == flag_set(status, mask),
{
    assert(flag_set(with_nz(status, v), mask) == flag_set(status, mask)) by (bit_vector)
        requires
            mask == 1 || mask == 4 || mask == 8 || mask == 0x40,
    ;
}

/// Recording a second result byte overrides the first.
pub proof fn lemma_with_nz_twice(status: u8, v1: u8, v2: u8)
    ensures
        with_nz(with_nz(status, v1), v2) == with_nz(status, v2),
{
    assert(with_nz(with_nz(status, v1), v2) == with_nz(status, v2)) by (bit_vector);
}

/// Exactly the addresses 0x2000 to 0x7FFF are not.
pub proof fn lemma_mapped_range(addr: u16)
    ensures
        is_mapped(addr) == !(0x2000 <= addr <= 0x7FFF),
{
}

/// The byte that `PHP` and `BRK` push carries every flag of the status, and
/// has bits 4 and 5 set.
pub proof fn lemma_pushed_status_flags(status: u8, mask: u8)
    requires
        is_flag(mask),
    ensures
        flag_set(pushed_status(status), mask) == flag_set(status, mask),
        pushed_status(status) & 0x30 == 0x30,
{
    assert(flag_set(pushed_status(status), mask) == flag_set(status, mask)) by (bit_vector)
        requires
            mask == 1 || mask == 2 || mask == 4 || mask == 8 || mask == 0x40 || mask == 0x80,
    ;
    assert(pushed_status(status) & 0x30 == 0x30) by (bit_vector);
}

/// The status byte that `PHP` pushes, pulled back by `PLP`, gives back the
/// status exactly.
pub proof fn lemma_restore_pushed_status(status: u8)
    ensures
        restored_status(status, pushed_status(status)) == status,
{
    assert(restored_status(status, pushed_status(status)) == status) by (bit_vector);
}

/// A write to RAM is read back from the address written and from each of
/// its mirrors; every other mapped address reads as before.
pub proof fn lemma_read_after_write(s: CpuState, addr: u16, value: u8, other: u16)
    requires
        s.well_formed(),
        addr <= 0x1FFF,
        is_mapped(other),
    ensures
        s.write(addr, value).read(other) == if other <= 0x1FFF && other % 0x800 == addr % 0x800 {
            value
        } else {
            s.read(other)
        },
{
}

/// RAM repeats every 2 KiB up to 0x1FFF.
pub proof fn lemma_ram_mirrors(s: CpuState, addr: u16)
    requires
        addr <= 0x17FF,
    ensures
        s.read(addr) == s.read((addr + 0x800) as u16),
{
}

/// A write outside RAM changes nothing: ROM cannot be written.
pub proof fn lemma_write_outside_ram(s: CpuState, addr: u16, value: u8)
    requires
        addr > 0x1FFF,
    ensures
        s.write(addr, value) == s,
{
}

/// A pull after a push gives back the byte pushed and the stack pointer
/// the push started from.
pub proof fn lemma_pull_after_push(s: CpuState, value: u8)
    requires
        s.well_formed(),
    ensures
        s.push(value).pop().stack_top() == value,
        s.push(value).pop().sp == s.sp,
{
}

/// `PLP` right after `PHP` restores the state: only the byte left on the
/// stack page and the cycle count differ.
pub proof fn lemma_plp_undoes_php(s: CpuState)
    requires
        s.well_formed(),
    ensures
        s.execute(0x08).execute(0x28) == s.write((0x100 + s.sp) as u16, pushed_status(s.status)).with_cycles(3),
        s.execute(0x08).execute(0x28).status == s.status,
        s.execute(0x08).execute(0x28).sp == s.sp,
{
    lemma_restore_pushed_status(s.status);
    let t = s.execute(0x08).execute(0x28);
    let u = s.write((0x100 + s.sp) as u16, pushed_status(s.status)).with_cycles(3);
    assert(t.ram =~= u.ram);
}

/// `PLA` right after `PHA` gives the accumulator back, with zero and
/// negative describing it.
pub proof fn lemma_pla_undoes_pha(s: CpuState)
    requires
        s.well_formed(),
    ensures
        s.execute(0x48).execute(0x68) == s.write((0x100 + s.sp) as u16, s.a).with_nz(s.a).with_cycles(4),
{
    let t = s.execute(0x48).execute(0x68);
    let u = s.write((0x100 + s.sp) as u16, s.a).with_nz(s.a).with_cycles(4);
    assert(t.ram =~= u.ram);
}

/// `RTI` right after `BRK` restores the status, the stack pointer and the
/// registers, and returns two bytes past the `BRK` opcode (`s.pc` is just
/// past it).
#[verifier::rlimit(40)]
pub proof fn lemma_rti_undoes_brk(s: CpuState)
    requires
        s.well_formed(),
    ensures
        s.execute(0x00).execute(0x40).status == s.status,
        s.execute(0x00).execute(0x40).sp == s.sp,
        s.execute(0x00).execute(0x40).pc == wrap16(s.pc + 1),
        s.execute(0x00).execute(0x40).a == s.a,
        s.execute(0x00).execute(0x40).x == s.x,
        s.execute(0x00).execute(0x40).y == s.y,
        s.execute(0x00).execute(0x40).rom == s.rom,
{
    lemma_restore_pushed_status(s.status);
    let ret = wrap16(s.pc + 1);
    let hi = (ret / 0x100) as u8;
    let lo = (ret % 0x100) as u8;
    let s1 = s.push(hi);
    let s2 = s1.push(lo);
    let s3 = s2.push(pushed_status(s.status));
    assert(s3.pop().stack_top() == pushed_status(s.status));
    assert(s3.pop().pop().stack_top() == lo);
    assert(s3.pop().pop().pop().stack_top() == hi);
}

/// `RTS` right after `JSR` restores the stack pointer and continues at the
/// instruction that follows the three-byte `JSR` (`s.pc` is the address of
/// its first operand byte).
pub proof fn lemma_rts_returns_after_jsr(s: CpuState)
    requires
        s.well_formed(),
    ensures
        s.execute(0x20).execute(0x60).sp == s.sp,
        s.execute(0x20).execute(0x60).pc == wrap16(s.pc + 2),
{
    let ret = wrap16(s.pc + 1);
    let hi = (ret / 0x100) as u8;
    let lo = (ret % 0x100) as u8;
    let s2 = s.push(hi).push(lo);
    assert(s2.pop().stack_top() == lo);
    assert(s2.pop().pop().stack_top() == hi);
}

/// `ADC` is exact addition: the new accumulator plus 256 times the new
/// carry is the old accumulator plus the operand plus the old carry; the
/// overflow flag tells that the signed sum left -128..=127; zero and
/// negative describe the new accumulator; nothing else changes.
pub proof fn lemma_adc_is_addition(s: CpuState, m: u8)
    ensures
        s.adc(m).a == wrap8(s.a + m + s.carry_in()),
        s.adc(m).carry() == (s.a + m + s.carry_in() > 0xFF),
        s.adc(m).a + 256 * s.adc(m).carry_in() == s.a + m + s.carry_in(),
        s.adc(m).overflow() == !(-128 <= signed8(s.a) + signed8(m) + s.carry_in() <= 127),
        s.adc(m).zero() == (s.adc(m).a == 0),
        s.adc(m).negative() == (s.adc(m).a >= 0x80),
        s.adc(m).interrupt_disable() == s.interrupt_disable(),
        s.adc(m).decimal() == s.decimal(),
        s.adc(m).with_a(s.a).with_status(s.status) == s,
{
    let sum = s.a + m + s.carry_in();
    let signed_sum = signed8(s.a) + signed8(m) + s.carry_in();
    lemma_arith_flags(s.status, signed_sum < -128 || signed_sum > 127, sum > 0xFF, wrap8(sum));
}

/// `SBC` is exact subtraction with borrow: the new accumulator is
/// `a - m - borrow` modulo 256, where the borrow is the old carry cleared;
/// carry tells that no borrow out was needed, overflow that the signed
/// difference left -128..=127; zero and negative describe the new
/// accumulator; nothing else changes.
pub proof fn lemma_sbc_is_subtraction(s: CpuState, m: u8)
    ensures
        s.sbc(m).a == wrap8(s.a - m - (1 - s.carry_in())),
        s.sbc(m).carry() == (s.a - m - (1 - s.carry_in()) >= 0),
        s.sbc(m).overflow() == !(-128 <= signed8(s.a) - signed8(m) - (1 - s.carry_in()) <= 127),
        s.sbc(m).zero() == (s.sbc(m).a == 0),
        s.sbc(m).negative() == (s.sbc(m).a >= 0x80),
        s.sbc(m).interrupt_disable() == s.interrupt_disable(),
        s.sbc(m).decimal() == s.decimal(),
        s.sbc(m).with_a(s.a).with_status(s.status) == s,
{
    let diff = s.a - m - (1 - s.carry_in());
    let signed_diff = signed8(s.a) - signed8(m) - (1 - s.carry_in());
    lemma_arith_flags(s.status, signed_diff < -128 || signed_diff > 127, diff >= 0, wrap8(diff));
}

/// The flags that `ADC` and `SBC` leave: overflow, carry, zero and negative
/// as asked, interrupt disable and decimal kept.
pub proof fn lemma_arith_flags(status: u8, v: bool, c: bool, r: u8)
    ensures
        flag_set(with_nz(with_flag(with_flag(status, FLAG_OVERFLOW, v), FLAG_CARRY, c), r), FLAG_OVERFLOW)
            == v,
        flag_set(with_nz(with_flag(with_flag(status, FLAG_OVERFLOW, v), FLAG_CARRY, c), r), FLAG_CARRY)
            == c,
        flag_set(with_nz(with_flag(with_flag(status, FLAG_OVERFLOW, v), FLAG_CARRY, c), r), FLAG_ZERO)
            == (r == 0),
        flag_set(with_nz(with_flag(with_flag(status, FLAG_OVERFLOW, v), FLAG_CARRY, c), r), FLAG_NEGATIVE)
            == (r >= 0x80),
        flag_set(with_nz(with_flag(with_flag(status, FLAG_OVERFLOW, v), FLAG_CARRY, c), r), FLAG_INTERRUPT)
            == flag_set(status, FLAG_INTERRUPT),
        flag_set(with_nz(with_flag(with_flag(status, FLAG_OVERFLOW, v), FLAG_CARRY, c), r), FLAG_DECIMAL)
            == flag_set(status, FLAG_DECIMAL),
{
    assert(flag_set(with_nz(with_flag(with_flag(status, FLAG_OVERFLOW, v), FLAG_CARRY, c), r), FLAG_OVERFLOW)
        == v) by (bit_vector);
    assert(flag_set(with_nz(with_flag(with_flag(status, FLAG_OVERFLOW, v), FLAG_CARRY, c), r), FLAG_CARRY)
        == c) by (bit_vector);
    assert(flag_set(with_nz(with_flag(with_flag(status, FLAG_OVERFLOW, v), FLAG_CARRY, c), r), FLAG_ZERO)
        == (r == 0)) by (bit_vector);
    assert(flag_set(with_nz(with_flag(with_flag(status, FLAG_OVERFLOW, v), FLAG_CARRY, c), r), FLAG_NEGATIVE)
        == (r >= 0x80)) by (bit_vector);
    assert(flag_set(with_nz(with_flag(with_flag(status, FLAG_OVERFLOW, v), FLAG_CARRY, c), r), FLAG_INTERRUPT)
        == flag_set(status, FLAG_INTERRUPT)) by (bit_vector);
    assert(flag_set(with_nz(with_flag(with_flag(status, FLAG_OVERFLOW, v), FLAG_CARRY, c), r), FLAG_DECIMAL)
        == flag_set(status, FLAG_DECIMAL)) by (bit_vector);
}

/// `SBC` is `ADC` of the operand's complement: the two leave the same state.
pub proof fn lemma_sbc_is_adc_of_complement(s: CpuState, m: u8)
    ensures
        s.sbc(m) == s.adc(!m),
{
    assert(!m == 255 - m) by (bit_vector);
}

/// A compare changes only carry, zero and negative: carry tells that the
/// register is at least the operand, zero that they are equal, negative
/// gives bit 7 of their difference.
pub proof fn lemma_compare_flags(s: CpuState, reg: u8, m: u8)
    ensures
        s.compare(reg, m).carry() == (reg >= m),
        s.compare(reg, m).zero() == (reg == m),
        s.compare(reg, m).negative() == (wrap8(reg - m) >= 0x80),
        s.compare(reg, m).overflow() == s.overflow(),
        s.compare(reg, m).interrupt_disable() == s.interrupt_disable(),
        s.compare(reg, m).decimal() == s.decimal(),
        s.compare(reg, m).with_status(s.status) == s,
{
    let st = s.status;
    let c = m <= reg;
    let z = m == reg;
    let n = wrap8(reg - m) >= 0x80;
    let r = with_flag(with_flag(with_flag(st, FLAG_CARRY, c), FLAG_ZERO, z), FLAG_NEGATIVE, n);
    assert(flag_set(r, FLAG_CARRY) == c && flag_set(r, FLAG_ZERO) == z && flag_set(r, FLAG_NEGATIVE)
        == n && flag_set(r, FLAG_OVERFLOW) == flag_set(st, FLAG_OVERFLOW) && flag_set(r, FLAG_INTERRUPT)
        == flag_set(st, FLAG_INTERRUPT) && flag_set(r, FLAG_DECIMAL) == flag_set(st, FLAG_DECIMAL))
        by (bit_vector)
        requires
            r == with_flag(with_flag(with_flag(st, FLAG_CARRY, c), FLAG_ZERO, z), FLAG_NEGATIVE, n),
    ;
}

/// `PHP` stores at the top of the stack a byte that carries every flag with
/// bits 4 and 5 set, moves the stack pointer down, and changes no register
/// or flag.
pub proof fn lemma_php_pushes_status(s: CpuState)
    requires
        s.well_formed(),
    ensures
        s.execute(0x08).read((0x100 + s.sp) as u16) == pushed_status(s.status),
        forall|mask: u8| #[trigger] is_flag(mask) ==> flag_set(pushed_status(s.status), mask)
            == flag_set(s.status, mask),
        pushed_status(s.status) & 0x30 == 0x30,
        s.execute(0x08).sp == wrap8(s.sp - 1),
        s.execute(0x08).status == s.status,
        s.execute(0x08).a == s.a,
        s.execute(0x08).x == s.x,
        s.execute(0x08).y == s.y,
        s.execute(0x08).pc == s.pc,
        s.execute(0x08).cycles == 3,
{
    assert forall|mask: u8| #[trigger] is_flag(mask) implies flag_set(pushed_status(s.status), mask)
        == flag_set(s.status, mask) by {
        lemma_pushed_status_flags(s.status, mask);
    }
    lemma_pushed_status_flags(s.status, FLAG_CARRY);
}

/// `BRK` pushes the address two past its opcode (high byte first) and then
/// the status with bits 4 and 5 set, moves the stack pointer down by three,
/// jumps through the vector at 0xFFFE, and changes no register or flag.
pub proof fn lemma_brk_pushes(s: CpuState)
    requires
        s.well_formed(),
    ensures
        s.execute(0x00).read((0x100 + s.sp) as u16) == (wrap16(s.pc + 1) / 0x100) as u8,
        s.execute(0x00).read((0x100 + wrap8(s.sp - 1)) as u16) == (wrap16(s.pc + 1) % 0x100) as u8,
        s.execute(0x00).read((0x100 + wrap8(s.sp - 2)) as u16) == pushed_status(s.status),
        s.execute(0x00).sp == wrap8(s.sp - 3),
        s.execute(0x00).pc == (s.read(0xFFFF) * 0x100 + s.read(0xFFFE)) as u16,
        s.execute(0x00).status == s.status,
        s.execute(0x00).a == s.a,
        s.execute(0x00).x == s.x,
        s.execute(0x00).y == s.y,
        s.execute(0x00).cycles == 7,
{
}

/// `ROR A` right after `ROL A` gives back the accumulator and the carry.
pub proof fn lemma_ror_undoes_rol(s: CpuState)
    ensures
        s.rol_a().ror_a().a == s.a,
        s.rol_a().ror_a().carry() == s.carry(),
{
    let r = wrap8(s.a * 2 + s.carry_in());
    let st1 = with_flag(s.status, FLAG_CARRY, s.a >= 0x80);
    lemma_with_flag(s.status, FLAG_CARRY, s.a >= 0x80, FLAG_CARRY);
    lemma_with_nz_keeps(st1, r, FLAG_CARRY);
    let t = s.rol_a();
    assert(t.carry() == (s.a >= 0x80));
    assert(t.a == r);
    let r2 = (r / 2 + 0x80 * t.carry_in()) as u8;
    assert(r2 == s.a);
    let st3 = with_flag(t.status, FLAG_CARRY, r % 2 == 1);
    lemma_with_flag(t.status, FLAG_CARRY, r % 2 == 1, FLAG_CARRY);
    lemma_with_nz_keeps(st3, r2, FLAG_CARRY);
}

/// `ROL A` right after `ROR A` gives back the accumulator and the carry.
pub proof fn lemma_rol_undoes_ror(s: CpuState)
    ensures
        s.ror_a().rol_a().a == s.a,
        s.ror_a().rol_a().carry() == s.carry(),
{
    let r = (s.a / 2 + 0x80 * s.carry_in()) as u8;
    let st1 = with_flag(s.status, FLAG_CARRY, s.a % 2 == 1);
    lemma_with_flag(s.status, FLAG_CARRY, s.a % 2 == 1, FLAG_CARRY);
    lemma_with_nz_keeps(st1, r, FLAG_CARRY);
    let t = s.ror_a();
    assert(t.carry() == (s.a % 2 == 1));
    assert(t.a == r);
    let r2 = wrap8(r * 2 + t.carry_in());
    assert(r2 == s.a);
    let st3 = with_flag(t.status, FLAG_CARRY, r >= 0x80);
    lemma_with_flag(t.status, FLAG_CARRY, r >= 0x80, FLAG_CARRY);
    lemma_with_nz_keeps(st3, r2, FLAG_CARRY);
}

/// `DEX` right after `INX` gives back X, with zero and negative describing
/// it and everything else as before; likewise `DEY` after `INY`.
pub proof fn lemma_dex_undoes_inx(s: CpuState)
    ensures
        s.execute(0xE8).execute(0xCA) == s.with_nz(s.x).with_cycles(2),
        s.execute(0xE8).execute(0xCA).zero() == (s.x == 0),
        s.execute(0xE8).execute(0xCA).negative() == (s.x >= 0x80),
        s.execute(0xC8).execute(0x88) == s.with_nz(s.y).with_cycles(2),
{
    lemma_with_nz_twice(s.status, wrap8(s.x + 1), s.x);
    lemma_with_nz_twice(s.status, wrap8(s.y + 1), s.y);
    lemma_with_nz(s.status, s.x);
}

/// `DEC` right after `INC` on a RAM byte gives the byte back, with zero and
/// negative describing it.
pub proof fn lemma_dec_undoes_inc(s: CpuState, addr: u16)
    requires
        s.well_formed(),
        addr <= 0x1FFF,
    ensures
        s.inc_mem(addr).dec_mem(addr) == s.with_nz(s.read(addr)),
        s.inc_mem(addr).dec_mem(addr).zero() == (s.read(addr) == 0),
        s.inc_mem(addr).dec_mem(addr).negative() == (s.read(addr) >= 0x80),
{
    let m = s.read(addr);
    let t = s.inc_mem(addr).dec_mem(addr);
    lemma_with_nz_twice(s.status, wrap8(m + 1), m);
    lemma_with_nz(s.status, m);
    assert(t.ram =~= s.ram);
}

/// `EOR` twice with the same byte gives the accumulator back, with zero and
/// negative describing it.
pub proof fn lemma_eor_twice(s: CpuState, m: u8)
    ensures
        s.eor(m).eor(m) == s.with_nz(s.a),
{
    let a = s.a;
    assert((a ^ m) ^ m == a) by (bit_vector);
    lemma_with_nz_twice(s.status, s.a ^ m, s.a);
}

/// `BIT` sets zero when the accumulator and the operand share no bit, copies
/// bits 7 and 6 of the operand into negative and overflow, and changes
/// nothing else.
pub proof fn lemma_bit_flags(s: CpuState, m: u8)
    ensures
        s.bit(m).zero() == (s.a & m == 0),
        s.bit(m).negative() == (m & 0x80 != 0),
        s.bit(m).overflow() == (m & 0x40 != 0),
        s.bit(m).carry() == s.carry(),
        s.bit(m).interrupt_disable() == s.interrupt_disable(),
        s.bit(m).decimal() == s.decimal(),
        s.bit(m).with_status(s.status) == s,
{
    let st1 = with_flag(s.status, FLAG_ZERO, s.a & m == 0);
    let st2 = with_flag(st1, FLAG_NEGATIVE, flag_set(m, FLAG_NEGATIVE));
    let on3 = flag_set(m, FLAG_OVERFLOW);
    lemma_with_flag(s.status, FLAG_ZERO, s.a & m == 0, FLAG_ZERO);
    lemma_with_flag(st1, FLAG_NEGATIVE, flag_set(m, FLAG_NEGATIVE), FLAG_ZERO);
    lemma_with_flag(st1, FLAG_NEGATIVE, flag_set(m, FLAG_NEGATIVE), FLAG_NEGATIVE);
    lemma_with_flag(st2, FLAG_OVERFLOW, on3, FLAG_ZERO);
    lemma_with_flag(st2, FLAG_OVERFLOW, on3, FLAG_NEGATIVE);
    lemma_with_flag(st2, FLAG_OVERFLOW, on3, FLAG_OVERFLOW);
    let others = seq![FLAG_CARRY, FLAG_INTERRUPT, FLAG_DECIMAL];
    assert forall|i: int| 0 <= i < 3 implies flag_set(with_flag(st2, FLAG_OVERFLOW, on3), others[i])
        == flag_set(s.status, others[i]) by {
        lemma_with_flag(s.status, FLAG_ZERO, s.a & m == 0, others[i]);
        lemma_with_flag(st1, FLAG_NEGATIVE, flag_set(m, FLAG_NEGATIVE), others[i]);
        lemma_with_flag(st2, FLAG_OVERFLOW, on3, others[i]);
    }
    assert(flag_set(with_flag(st2, FLAG_OVERFLOW, on3), others[0]) == flag_set(s.status, others[0]));
    assert(flag_set(with_flag(st2, FLAG_OVERFLOW, on3), others[1]) == flag_set(s.status, others[1]));
    assert(flag_set(with_flag(st2, FLAG_OVERFLOW, on3), others[2]) == flag_set(s.status, others[2]));
}

/// `ASL A` is `ROL A` with the carry cleared first.
pub proof fn lemma_asl_is_rol_without_carry(s: CpuState)
    ensures
        s.asl_a() == s.with_flag(FLAG_CARRY, false).rol_a(),
{
    let b = s.a >= 0x80;
    let st = s.status;
    assert(with_flag(with_flag(st, FLAG_CARRY, false), FLAG_CARRY, b) == with_flag(st, FLAG_CARRY, b))
        by (bit_vector);
    lemma_with_flag(st, FLAG_CARRY, false, FLAG_CARRY);
}

/// A branch moves the program counter by its signed offset from the next
/// instruction exactly when its condition holds, and changes nothing but
/// the program counter and the cycle count.
pub proof fn lemma_branch(s: CpuState, taken: bool)
    ensures
        s.branch(taken).pc == if taken {
            wrap16(s.pc + 1 + signed8(s.operand()))
        } else {
            wrap16(s.pc + 1)
        },
        s.branch(taken).with_pc(s.pc).with_cycles(s.cycles) == s,
{
}

/// What `CPU::step` and the runs do with an implemented opcode whose reads
/// are all mapped: the opcode byte is passed and the opcode executed as
/// `execute` says. Every law above stated over `execute` is thereby a law of
/// the steps the public functions take.
pub proof fn lemma_step_executes(s: CpuState, brk_halts: bool)
    requires
        is_mapped(s.pc),
        s.read(s.pc) != 0x02,
        !(brk_halts && s.read(s.pc) == 0x00),
        operand_kind_of(s.read(s.pc)) != OperandKind::Unsupported,
        s.skip(1).can_fetch(operand_kind_of(s.read(s.pc))),
    ensures
        s.step(brk_halts) == (StepOutcome::Continue, s.skip(1).execute(s.read(s.pc))),
{
}

/// Every instruction records the cycles it took: `ADC` immediate, like
/// `SBC`, `CMP`, `CPX` and `CPY` immediate, records 2; their zero-page forms
/// 3 and their absolute forms 4.
pub proof fn lemma_arithmetic_cycles(s: CpuState)
    ensures
        s.execute(0x69).cycles == 2,
        s.execute(0x65).cycles == 3,
        s.execute(0x6D).cycles == 4,
        s.execute(0xE9).cycles == 2,
        s.execute(0xC9).cycles == 2,
        s.execute(0xE0).cycles == 2,
        s.execute(0xC0).cycles == 2,
{
}

/// A step that faults changes nothing.
pub proof fn lemma_fault_changes_nothing(s: CpuState, brk_halts: bool)
    requires
        s.step(brk_halts).0 is Faulted,
    ensures
        s.step(brk_halts).1 == s,
{
}

/// No step changes ROM, and a step keeps the memories at their sizes.
pub proof fn lemma_step_keeps_rom(s: CpuState, brk_halts: bool)
    requires
        s.well_formed(),
    ensures
        s.step(brk_halts).1.rom == s.rom,
        s.step(brk_halts).1.well_formed(),
{
}

/// A run keeps ROM and the memory sizes.
pub proof fn lemma_run_keeps_rom(s: CpuState, brk_halts: bool, fuel: nat)
    requires
        s.well_formed(),
    ensures
        s.run(brk_halts, fuel).1.rom == s.rom,
        s.run(brk_halts, fuel).1.well_formed(),
    decreases fuel,
{
    if fuel > 0 {
        lemma_step_keeps_rom(s, brk_halts);
        let (o, t) = s.step(brk_halts);
        if o is Continue {
            lemma_run_keeps_rom(t, brk_halts, (fuel - 1) as nat);
        }
    }
}

} // verus!
