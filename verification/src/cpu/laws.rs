//! Properties of the CPU's operations that span more than one step.
use super::semantics::{
    adc_value, address_spec, carry, compare, counted, is_loadable, load, pop_word, pop_word_value, push_word, execute, flag,
    plp, pop, pop_value, push, read, run_cycle, store, wrap16, zn, increment, decrement, transfer_x, transfer_y,
    branch_condition, branch_extra, check_interrupts, current_mnemonic, is_branch, oam_dma_extra, page,
};
use super::{flag_mask, flag_set, with_flag, Address, AddressingMode, Cpu, InterruptLines, Mnemonic, ProcessorFlag};
use super::opcodes::{IRQ_OPCODE, NMI_OPCODE};
use crate::memory::MemoryImpl;
use vstd::prelude::*;

verus! {

/// Plain 64 KiB memory, the memory these properties are stated for.
pub type FlatMemory = MemoryImpl<0x10000>;

proof fn lemma_mask_bits(ps: u8, m: u8, n: u8, cond: bool)
    by (bit_vector)
    requires
        m == 1 || m == 2 || m == 4 || m == 8 || m == 16 || m == 32 || m == 64 || m == 128,
        n == 1 || n == 2 || n == 4 || n == 8 || n == 16 || n == 32 || n == 64 || n == 128,
    ensures
        ((ps | m) & m != 0),
        ((ps & !m) & m == 0),
        m != n ==> (((ps | m) & n != 0) == (ps & n != 0)),
        m != n ==> (((ps & !m) & n != 0) == (ps & n != 0)),
{
}

/// Setting or clearing a flag makes it read as set or clear, and leaves the
/// other flags as they were.
pub proof fn law_flag_set_get(ps: u8, f: ProcessorFlag, g: ProcessorFlag, cond: bool)
    ensures
        flag_set(with_flag(ps, f, cond), f) == cond,
        f != g ==> flag_set(with_flag(ps, f, cond), g) == flag_set(ps, g),
{
    lemma_mask_bits(ps, flag_mask(f), flag_mask(g), cond);
    assert(f != g ==> flag_mask(f) != flag_mask(g));
}

/// Setting the zero and negative flags leaves the carry and overflow flags.
proof fn lemma_zn_keeps(c: Cpu, v: u8)
    ensures
        flag_set(zn(c, v).ps, ProcessorFlag::CarryFlag) == flag_set(c.ps, ProcessorFlag::CarryFlag),
        flag_set(zn(c, v).ps, ProcessorFlag::OverflowFlag) == flag_set(c.ps, ProcessorFlag::OverflowFlag),
        flag_set(zn(c, v).ps, ProcessorFlag::ZeroFlag) == (v == 0),
        flag_set(zn(c, v).ps, ProcessorFlag::NegativeFlag) == (v >= 0x80),
{
    let p1 = with_flag(c.ps, ProcessorFlag::ZeroFlag, v == 0);
    law_flag_set_get(c.ps, ProcessorFlag::ZeroFlag, ProcessorFlag::CarryFlag, v == 0);
    law_flag_set_get(c.ps, ProcessorFlag::ZeroFlag, ProcessorFlag::OverflowFlag, v == 0);
    law_flag_set_get(p1, ProcessorFlag::NegativeFlag, ProcessorFlag::CarryFlag, v >= 0x80);
    law_flag_set_get(p1, ProcessorFlag::NegativeFlag, ProcessorFlag::OverflowFlag, v >= 0x80);
    law_flag_set_get(c.ps, ProcessorFlag::ZeroFlag, ProcessorFlag::ZeroFlag, v == 0);
    law_flag_set_get(p1, ProcessorFlag::NegativeFlag, ProcessorFlag::ZeroFlag, v >= 0x80);
    law_flag_set_get(p1, ProcessorFlag::NegativeFlag, ProcessorFlag::NegativeFlag, v >= 0x80);
}

/// Addition with carry: the new accumulator and carry together hold the sum
/// of the old accumulator, the operand and the old carry; zero and negative
/// describe the new accumulator.
pub proof fn law_adc_sum(c: Cpu, m: u8)
    ensures
        adc_value(c, m).a + 256 * carry(adc_value(c, m)) == c.a + m + carry(c),
        flag_set(adc_value(c, m).ps, ProcessorFlag::ZeroFlag) == (adc_value(c, m).a == 0),
        flag_set(adc_value(c, m).ps, ProcessorFlag::NegativeFlag) == (adc_value(c, m).a >= 0x80),
{
    let sum = c.a + m + carry(c);
    let a = (sum % 256) as u8;
    let c1 = flag(c, ProcessorFlag::OverflowFlag, (m >= 0x80) == (c.a >= 0x80) && (a >= 0x80) != (m >= 0x80));
    let c2 = Cpu { a, ..c1 };
    lemma_zn_keeps(c2, a);
    law_flag_set_get(zn(c2, a).ps, ProcessorFlag::CarryFlag, ProcessorFlag::CarryFlag, sum > 255);
    law_flag_set_get(zn(c2, a).ps, ProcessorFlag::CarryFlag, ProcessorFlag::ZeroFlag, sum > 255);
    law_flag_set_get(zn(c2, a).ps, ProcessorFlag::CarryFlag, ProcessorFlag::NegativeFlag, sum > 255);
}

/// Subtraction with borrow: SBC of `m` leaves in the accumulator and carry
/// the difference of the accumulator and `m`, less one where the carry was
/// clear, with the carry set when no borrow was needed.
pub proof fn law_sbc_difference(c: Cpu, m: u8)
    ensures
        adc_value(c, (255 - m) as u8).a == (c.a - m - (1 - carry(c)) + 256) % 256,
        (carry(adc_value(c, (255 - m) as u8)) == 1) == (c.a - m - (1 - carry(c)) >= 0),
{
    law_adc_sum(c, (255 - m) as u8);
}

/// A comparison sets zero on equality, carry when the register is not less
/// than the operand, and leaves the registers.
pub proof fn law_compare(c: Cpu, r: u8, m: u8)
    ensures
        flag_set(compare(c, r, m).ps, ProcessorFlag::ZeroFlag) == (r == m),
        flag_set(compare(c, r, m).ps, ProcessorFlag::CarryFlag) == (r >= m),
        compare(c, r, m).a == c.a,
        compare(c, r, m).x == c.x,
        compare(c, r, m).y == c.y,
{
    let diff = (if r >= m { r - m } else { 256 + r - m }) as u8;
    let p1 = with_flag(c.ps, ProcessorFlag::ZeroFlag, r == m);
    let p2 = with_flag(p1, ProcessorFlag::CarryFlag, r >= m);
    law_flag_set_get(c.ps, ProcessorFlag::ZeroFlag, ProcessorFlag::ZeroFlag, r == m);
    law_flag_set_get(p1, ProcessorFlag::CarryFlag, ProcessorFlag::ZeroFlag, r >= m);
    law_flag_set_get(p1, ProcessorFlag::CarryFlag, ProcessorFlag::CarryFlag, r >= m);
    law_flag_set_get(p2, ProcessorFlag::NegativeFlag, ProcessorFlag::ZeroFlag, diff >= 0x80);
    law_flag_set_get(p2, ProcessorFlag::NegativeFlag, ProcessorFlag::CarryFlag, diff >= 0x80);
}

/// A byte pushed on the stack is the byte the next pop gives, and the pop
/// brings the stack pointer back.
pub proof fn law_push_then_pop(c: Cpu, mm: Seq<u8>, v: u8)
    requires
        mm.len() == 0x10000,
    ensures
        pop_value::<FlatMemory>(push::<FlatMemory>(c, mm, v).0, push::<FlatMemory>(c, mm, v).1) == v,
        pop::<FlatMemory>(push::<FlatMemory>(c, mm, v).0).sp == c.sp,
{
}

/// PHA then PLA gives the accumulator back and brings the stack pointer back.
pub proof fn law_pha_pla(c: Cpu, mm: Seq<u8>)
    requires
        mm.len() == 0x10000,
    ensures
        ({
            let (c1, mm1) = execute::<FlatMemory>(Mnemonic::Pha, c, mm);
            let (c2, mm2) = execute::<FlatMemory>(Mnemonic::Pla, c1, mm1);
            c2.a == c.a && c2.sp == c.sp && c2.x == c.x && c2.y == c.y
        }),
{
}

proof fn lemma_ps_roundtrip(ps: u8)
    by (bit_vector)
    ensures
        (((ps | 0x30) & !0x30u8) | (ps & 0x30)) == ps,
{
}

/// PHP then PLP leaves the status register and the stack pointer as they were.
pub proof fn law_php_plp(c: Cpu, mm: Seq<u8>)
    requires
        mm.len() == 0x10000,
    ensures
        ({
            let (c1, mm1) = execute::<FlatMemory>(Mnemonic::Php, c, mm);
            let (c2, mm2) = execute::<FlatMemory>(Mnemonic::Plp, c1, mm1);
            c2.ps == c.ps && c2.sp == c.sp
        }),
{
    lemma_ps_roundtrip(c.ps);
}

/// JSR then RTS returns to the last byte of the JSR instruction (the
/// instruction's length is added when RTS completes) and brings the stack
/// pointer back.
pub proof fn law_jsr_rts(c: Cpu, mm: Seq<u8>)
    requires
        mm.len() == 0x10000,
        c.address is Ram,
        c.pc < 0xFFFE,
    ensures
        ({
            let (c1, mm1) = execute::<FlatMemory>(Mnemonic::Jsr, c, mm);
            let (c2, mm2) = execute::<FlatMemory>(Mnemonic::Rts, c1, mm1);
            c2.pc == c.pc + 2 && c2.sp == c.sp
        }),
{
}

/// Each branch is taken exactly when its flag has the value it tests, and a
/// branch and its opposite never agree.
pub proof fn law_branches_complement(c: Cpu, target: u16)
    requires
        c.address == Address::Relative(target),
    ensures
        execute::<FlatMemory>(Mnemonic::Beq, c, Seq::empty()).0.pc == (if flag_set(c.ps, ProcessorFlag::ZeroFlag) { target } else { c.pc }),
        execute::<FlatMemory>(Mnemonic::Bne, c, Seq::empty()).0.pc == (if flag_set(c.ps, ProcessorFlag::ZeroFlag) { c.pc } else { target }),
        execute::<FlatMemory>(Mnemonic::Bcs, c, Seq::empty()).0.pc == (if flag_set(c.ps, ProcessorFlag::CarryFlag) { target } else { c.pc }),
        execute::<FlatMemory>(Mnemonic::Bcc, c, Seq::empty()).0.pc == (if flag_set(c.ps, ProcessorFlag::CarryFlag) { c.pc } else { target }),
        execute::<FlatMemory>(Mnemonic::Bmi, c, Seq::empty()).0.pc == (if flag_set(c.ps, ProcessorFlag::NegativeFlag) { target } else { c.pc }),
        execute::<FlatMemory>(Mnemonic::Bpl, c, Seq::empty()).0.pc == (if flag_set(c.ps, ProcessorFlag::NegativeFlag) { c.pc } else { target }),
        execute::<FlatMemory>(Mnemonic::Bvs, c, Seq::empty()).0.pc == (if flag_set(c.ps, ProcessorFlag::OverflowFlag) { target } else { c.pc }),
        execute::<FlatMemory>(Mnemonic::Bvc, c, Seq::empty()).0.pc == (if flag_set(c.ps, ProcessorFlag::OverflowFlag) { c.pc } else { target }),
{
}

proof fn lemma_interrupt_ps_roundtrip(ps: u8)
    by (bit_vector)
    ensures
        ((((ps & !0x10u8) | 0x20) & !0x30u8) | ((ps | 0x04) & 0x30)) == ps,
        ((((ps | 0x30) & !0x30u8) | ((ps | 0x04) & 0x30))) == ps,
        (ps | 0x04) & 0x04 != 0,
{
}

/// An NMI, an IRQ or a BRK enters the handler with interrupts disabled, and
/// the handler's RTI (which pulls the status when it is fetched and the
/// return address when it executes) restores the status register and the
/// stack pointer and returns, once its one byte is added, to the interrupted
/// instruction (the instruction after BRK and its padding byte).
pub proof fn law_interrupt_then_rti(c: Cpu, mm: Seq<u8>, mn: Mnemonic)
    requires
        mm.len() == 0x10000,
        mn == Mnemonic::Nmi || mn == Mnemonic::Irq || mn == Mnemonic::Brk,
    ensures
        ({
            let (c1, mm1) = execute::<FlatMemory>(mn, c, mm);
            let c2 = plp::<FlatMemory>(c1, mm1);
            let (c3, mm3) = execute::<FlatMemory>(Mnemonic::Rti, c2, mm1);
            &&& flag_set(c1.ps, ProcessorFlag::InterruptDisable)
            &&& c3.ps == c.ps
            &&& c3.sp == c.sp
            &&& c3.pc == wrap16(if mn == Mnemonic::Brk { c.pc + 1 } else { c.pc - 1 })
            &&& c3.a == c.a && c3.x == c.x && c3.y == c.y
        }),
{
    lemma_interrupt_ps_roundtrip(c.ps);
}

/// With both interrupt lines low, every cycle of an instruction but its last
/// only counts the cycle: registers, memory and the pending interrupt stay.
pub proof fn law_quiet_cycle_only_counts(c: Cpu, mm: Seq<u8>, lines: InterruptLines)
    requires
        c.instruction is Some,
        c.instruction.unwrap().cycle + 1 < c.instruction.unwrap().total_cycles,
        !lines.nmi_pending,
        !lines.irq_pending,
    ensures
        run_cycle::<FlatMemory>(c, mm, lines) == (counted(c), mm, false),
{
}

/// A word pushed on the stack (high byte first) is the word the next two
/// pops give (low byte first), and the stack pointer comes back.
pub proof fn law_push_word_then_pop_word(c: Cpu, mm: Seq<u8>, v: u16)
    requires
        mm.len() == 0x10000,
    ensures
        pop_word_value::<FlatMemory>(push_word::<FlatMemory>(c, mm, v).0, push_word::<FlatMemory>(c, mm, v).1) == v,
        pop_word::<FlatMemory>(push_word::<FlatMemory>(c, mm, v).0).sp == c.sp,
{
}

proof fn lemma_logic_bytes(a: u8, m: u8)
    by (bit_vector)
    ensures
        (a ^ m) ^ m == a,
        a ^ a == 0,
        a ^ 0 == a,
        a ^ 0xFF == 255 - a,
        (a ^ m) | (a & m) == a | m,
        (a ^ m) & (a & m) == 0,
        a & m <= a,
        a & m <= m,
        (a & m) & m == a & m,
        a & 0xFF == a,
        a & 0 == 0,
        a | m >= a,
        a | m >= m,
        (a | m) | m == a | m,
        a | 0 == a,
        a | 0xFF == 0xFF,
{
}

/// Exclusive or: EOR leaves in the accumulator the bits that are set in
/// exactly one of the accumulator and the operand (their union less their
/// common bits), sets zero and negative from it, and touches neither memory
/// nor the other registers. EOR of the accumulator with itself gives 0, with
/// $FF it gives the complement, and a second EOR with the same memory or
/// immediate operand gives the accumulator back.
#[verifier::spinoff_prover]
pub proof fn law_eor_exclusive_or(c: Cpu, mm: Seq<u8>)
    requires
        is_loadable(c.address),
    ensures
        ({
            let m = load::<FlatMemory>(c, mm);
            let (r, mm1) = execute::<FlatMemory>(Mnemonic::Eor, c, mm);
            &&& r.a == c.a ^ m
            &&& r.a | (c.a & m) == c.a | m
            &&& r.a & (c.a & m) == 0
            &&& (m == c.a ==> r.a == 0)
            &&& (m == 0xFF ==> r.a == 255 - c.a)
            &&& (m == 0 ==> r.a == c.a)
            &&& flag_set(r.ps, ProcessorFlag::ZeroFlag) == (r.a == 0)
            &&& flag_set(r.ps, ProcessorFlag::NegativeFlag) == (r.a >= 0x80)
            &&& flag_set(r.ps, ProcessorFlag::CarryFlag) == flag_set(c.ps, ProcessorFlag::CarryFlag)
            &&& r.x == c.x && r.y == c.y && r.sp == c.sp && r.pc == c.pc && r.address == c.address
            &&& mm1 == mm
        }),
        !(c.address is Accumulator) ==> execute::<FlatMemory>(
            Mnemonic::Eor,
            execute::<FlatMemory>(Mnemonic::Eor, c, mm).0,
            mm,
        ).0.a == c.a,
{
    let m = load::<FlatMemory>(c, mm);
    lemma_logic_bytes(c.a, m);
    lemma_zn_keeps(Cpu { a: c.a ^ m, ..c }, c.a ^ m);
    let r = execute::<FlatMemory>(Mnemonic::Eor, c, mm).0;
    assert(load::<FlatMemory>(r, mm) == m || c.address is Accumulator);
}

/// AND leaves in the accumulator the bits set in both the accumulator and
/// the operand: never more than either, the same again on a second AND with
/// the same operand, the accumulator itself with $FF and 0 with 0.
#[verifier::spinoff_prover]
pub proof fn law_and_conjunction(c: Cpu, mm: Seq<u8>)
    requires
        is_loadable(c.address),
    ensures
        ({
            let m = load::<FlatMemory>(c, mm);
            let (r, mm1) = execute::<FlatMemory>(Mnemonic::And, c, mm);
            &&& r.a == c.a & m
            &&& r.a <= c.a && r.a <= m
            &&& (m == 0xFF ==> r.a == c.a)
            &&& (m == 0 ==> r.a == 0)
            &&& flag_set(r.ps, ProcessorFlag::ZeroFlag) == (r.a == 0)
            &&& flag_set(r.ps, ProcessorFlag::NegativeFlag) == (r.a >= 0x80)
            &&& r.x == c.x && r.y == c.y && r.sp == c.sp && r.pc == c.pc && r.address == c.address
            &&& mm1 == mm
        }),
        !(c.address is Accumulator) ==> execute::<FlatMemory>(
            Mnemonic::And,
            execute::<FlatMemory>(Mnemonic::And, c, mm).0,
            mm,
        ).0.a == execute::<FlatMemory>(Mnemonic::And, c, mm).0.a,
{
    let m = load::<FlatMemory>(c, mm);
    lemma_logic_bytes(c.a, m);
    lemma_zn_keeps(Cpu { a: c.a & m, ..c }, c.a & m);
}

/// ORA leaves in the accumulator the bits set in either the accumulator or
/// the operand: never less than either, the same again on a second ORA with
/// the same operand, the accumulator itself with 0 and $FF with $FF.
#[verifier::spinoff_prover]
pub proof fn law_ora_disjunction(c: Cpu, mm: Seq<u8>)
    requires
        is_loadable(c.address),
    ensures
        ({
            let m = load::<FlatMemory>(c, mm);
            let (r, mm1) = execute::<FlatMemory>(Mnemonic::Ora, c, mm);
            &&& r.a == c.a | m
            &&& r.a >= c.a && r.a >= m
            &&& (m == 0 ==> r.a == c.a)
            &&& (m == 0xFF ==> r.a == 0xFF)
            &&& flag_set(r.ps, ProcessorFlag::ZeroFlag) == (r.a == 0)
            &&& flag_set(r.ps, ProcessorFlag::NegativeFlag) == (r.a >= 0x80)
            &&& r.x == c.x && r.y == c.y && r.sp == c.sp && r.pc == c.pc && r.address == c.address
            &&& mm1 == mm
        }),
        !(c.address is Accumulator) ==> execute::<FlatMemory>(
            Mnemonic::Ora,
            execute::<FlatMemory>(Mnemonic::Ora, c, mm).0,
            mm,
        ).0.a == execute::<FlatMemory>(Mnemonic::Ora, c, mm).0.a,
{
    let m = load::<FlatMemory>(c, mm);
    lemma_logic_bytes(c.a, m);
    lemma_zn_keeps(Cpu { a: c.a | m, ..c }, c.a | m);
}

/// The flags a read-modify-write sets: carry from the bit shifted out,
/// zero and negative from the result.
proof fn lemma_rmw_flags(c: Cpu, r: u8, co: bool)
    ensures
        ({
            let p = flag(flag(flag(c, ProcessorFlag::CarryFlag, co), ProcessorFlag::NegativeFlag, r >= 0x80), ProcessorFlag::ZeroFlag, r == 0).ps;
            &&& flag_set(p, ProcessorFlag::CarryFlag) == co
            &&& flag_set(p, ProcessorFlag::NegativeFlag) == (r >= 0x80)
            &&& flag_set(p, ProcessorFlag::ZeroFlag) == (r == 0)
        }),
{
    let p1 = with_flag(c.ps, ProcessorFlag::CarryFlag, co);
    let p2 = with_flag(p1, ProcessorFlag::NegativeFlag, r >= 0x80);
    law_flag_set_get(c.ps, ProcessorFlag::CarryFlag, ProcessorFlag::CarryFlag, co);
    law_flag_set_get(p1, ProcessorFlag::NegativeFlag, ProcessorFlag::CarryFlag, r >= 0x80);
    law_flag_set_get(p1, ProcessorFlag::NegativeFlag, ProcessorFlag::NegativeFlag, r >= 0x80);
    law_flag_set_get(p2, ProcessorFlag::ZeroFlag, ProcessorFlag::CarryFlag, r == 0);
    law_flag_set_get(p2, ProcessorFlag::ZeroFlag, ProcessorFlag::NegativeFlag, r == 0);
    law_flag_set_get(p2, ProcessorFlag::ZeroFlag, ProcessorFlag::ZeroFlag, r == 0);
}

/// Shifts and rotates, on the accumulator or a byte of memory: ASL doubles
/// the operand, the bit shifted out going to the carry; LSR halves it, the
/// low bit going to the carry; ROL and ROR do the same with the old carry
/// entering at the other end. Zero and negative describe the result.
#[verifier::spinoff_prover]
pub proof fn law_shifts_and_rotates(c: Cpu, mm: Seq<u8>)
    requires
        mm.len() == 0x10000,
        c.address is Accumulator || c.address is Ram,
    ensures
        ({
            let m = load::<FlatMemory>(c, mm);
            let (r, mm1) = execute::<FlatMemory>(Mnemonic::Asl, c, mm);
            let v = load::<FlatMemory>(r, mm1);
            &&& v + 256 * carry(r) == 2 * m
            &&& flag_set(r.ps, ProcessorFlag::ZeroFlag) == (v == 0)
            &&& flag_set(r.ps, ProcessorFlag::NegativeFlag) == (v >= 0x80)
        }),
        ({
            let m = load::<FlatMemory>(c, mm);
            let (r, mm1) = execute::<FlatMemory>(Mnemonic::Lsr, c, mm);
            let v = load::<FlatMemory>(r, mm1);
            &&& 2 * v + carry(r) == m
            &&& flag_set(r.ps, ProcessorFlag::ZeroFlag) == (v == 0)
            &&& !flag_set(r.ps, ProcessorFlag::NegativeFlag)
        }),
        ({
            let m = load::<FlatMemory>(c, mm);
            let (r, mm1) = execute::<FlatMemory>(Mnemonic::Rol, c, mm);
            let v = load::<FlatMemory>(r, mm1);
            &&& v + 256 * carry(r) == 2 * m + carry(c)
            &&& flag_set(r.ps, ProcessorFlag::ZeroFlag) == (v == 0)
            &&& flag_set(r.ps, ProcessorFlag::NegativeFlag) == (v >= 0x80)
        }),
        ({
            let m = load::<FlatMemory>(c, mm);
            let (r, mm1) = execute::<FlatMemory>(Mnemonic::Ror, c, mm);
            let v = load::<FlatMemory>(r, mm1);
            &&& 2 * v + carry(r) == m + 256 * carry(c)
            &&& flag_set(r.ps, ProcessorFlag::ZeroFlag) == (v == 0)
            &&& flag_set(r.ps, ProcessorFlag::NegativeFlag) == (v >= 0x80)
        }),
{
    let m = load::<FlatMemory>(c, mm);
    let sl = (if m >= 0x80 { 2 * m - 0x100 } else { 2 * m }) as u8;
    lemma_rmw_flags(c, sl, m >= 0x80);
    lemma_rmw_flags(c, m / 2, m % 2 == 1);
    lemma_rmw_flags(c, (sl + carry(c)) as u8, m >= 0x80);
    lemma_rmw_flags(c, (m / 2 + 128 * carry(c)) as u8, m % 2 == 1);
    match c.address {
        Address::Accumulator => {
            lemma_rmw_flags(Cpu { a: sl, ..c }, sl, m >= 0x80);
            lemma_rmw_flags(Cpu { a: m / 2, ..c }, m / 2, m % 2 == 1);
            lemma_rmw_flags(Cpu { a: (sl + carry(c)) as u8, ..c }, (sl + carry(c)) as u8, m >= 0x80);
            lemma_rmw_flags(Cpu { a: (m / 2 + 128 * carry(c)) as u8, ..c }, (m / 2 + 128 * carry(c)) as u8, m % 2 == 1);
        },
        _ => {},
    }
}

/// A rotate left then a rotate right of the same operand give back the
/// operand and the carry.
#[verifier::spinoff_prover]
pub proof fn law_rol_then_ror(c: Cpu, mm: Seq<u8>)
    requires
        mm.len() == 0x10000,
        c.address is Accumulator || c.address is Ram,
    ensures
        ({
            let (c1, mm1) = execute::<FlatMemory>(Mnemonic::Rol, c, mm);
            let (c2, mm2) = execute::<FlatMemory>(Mnemonic::Ror, c1, mm1);
            &&& load::<FlatMemory>(c2, mm2) == load::<FlatMemory>(c, mm)
            &&& carry(c2) == carry(c)
        }),
{
    law_shifts_and_rotates(c, mm);
    let (c1, mm1) = execute::<FlatMemory>(Mnemonic::Rol, c, mm);
    assert(c1.address == c.address);
    law_shifts_and_rotates(c1, mm1);
}

/// What a store of `v` leaves in the operand, and that it keeps the flags and the operand location.
proof fn lemma_store_loads(c: Cpu, mm: Seq<u8>, v: u8)
    requires
        mm.len() == 0x10000,
        c.address is Accumulator || c.address is Ram,
    ensures
        load::<FlatMemory>(store::<FlatMemory>(c, mm, v).0, store::<FlatMemory>(c, mm, v).1) == v,
        store::<FlatMemory>(c, mm, v).0.ps == c.ps,
        store::<FlatMemory>(c, mm, v).0.address == c.address,
        store::<FlatMemory>(c, mm, v).1.len() == 0x10000,
{
}

/// What a store of a result leaves: the result in the operand, with zero
/// and negative set from it.
proof fn lemma_zn_store(c: Cpu, mm: Seq<u8>, v: u8)
    requires
        mm.len() == 0x10000,
        c.address is Accumulator || c.address is Ram,
    ensures
        ({
            let (r, mm1) = store::<FlatMemory>(zn(c, v), mm, v);
            &&& r.address == c.address
            &&& mm1.len() == 0x10000
            &&& load::<FlatMemory>(r, mm1) == v
            &&& flag_set(r.ps, ProcessorFlag::ZeroFlag) == (v == 0)
            &&& flag_set(r.ps, ProcessorFlag::NegativeFlag) == (v >= 0x80)
        }),
{
    lemma_zn_keeps(c, v);
    lemma_store_loads(zn(c, v), mm, v);
}

/// What INC and DEC leave in the operand, and the flags they set.
#[verifier::spinoff_prover]
proof fn lemma_inc_dec_values(c: Cpu, mm: Seq<u8>)
    requires
        mm.len() == 0x10000,
        c.address is Accumulator || c.address is Ram,
    ensures
        ({
            let (r, mm1) = execute::<FlatMemory>(Mnemonic::Inc, c, mm);
            let v = load::<FlatMemory>(r, mm1);
            &&& r.address == c.address
            &&& mm1.len() == 0x10000
            &&& v == (load::<FlatMemory>(c, mm) + 1) % 256
            &&& flag_set(r.ps, ProcessorFlag::ZeroFlag) == (v == 0)
            &&& flag_set(r.ps, ProcessorFlag::NegativeFlag) == (v >= 0x80)
        }),
        ({
            let (r, mm1) = execute::<FlatMemory>(Mnemonic::Dec, c, mm);
            let v = load::<FlatMemory>(r, mm1);
            &&& r.address == c.address
            &&& mm1.len() == 0x10000
            &&& v == (load::<FlatMemory>(c, mm) + 255) % 256
            &&& flag_set(r.ps, ProcessorFlag::ZeroFlag) == (v == 0)
            &&& flag_set(r.ps, ProcessorFlag::NegativeFlag) == (v >= 0x80)
        }),
{
    let m = load::<FlatMemory>(c, mm);
    let i = (if m == 255 { 0 } else { m + 1 }) as u8;
    let d = (if m == 0 { 255 } else { m - 1 }) as u8;
    assert(i == (m + 1) % 256);
    assert(d == (m + 255) % 256);
    assert(execute::<FlatMemory>(Mnemonic::Inc, c, mm) == store::<FlatMemory>(zn(c, i), mm, i));
    assert(execute::<FlatMemory>(Mnemonic::Dec, c, mm) == store::<FlatMemory>(zn(c, d), mm, d));
    lemma_zn_store(c, mm, i);
    lemma_zn_store(c, mm, d);
}

/// INC and DEC add and subtract one modulo 256 on the accumulator or a byte
/// of memory, with zero and negative from the result; one undoes the other.
#[verifier::spinoff_prover]
pub proof fn law_inc_dec(c: Cpu, mm: Seq<u8>)
    requires
        mm.len() == 0x10000,
        c.address is Accumulator || c.address is Ram,
    ensures
        ({
            let (r, mm1) = execute::<FlatMemory>(Mnemonic::Inc, c, mm);
            let v = load::<FlatMemory>(r, mm1);
            &&& v == (load::<FlatMemory>(c, mm) + 1) % 256
            &&& flag_set(r.ps, ProcessorFlag::ZeroFlag) == (v == 0)
            &&& flag_set(r.ps, ProcessorFlag::NegativeFlag) == (v >= 0x80)
        }),
        ({
            let (r, mm1) = execute::<FlatMemory>(Mnemonic::Dec, c, mm);
            let v = load::<FlatMemory>(r, mm1);
            &&& v == (load::<FlatMemory>(c, mm) + 255) % 256
            &&& flag_set(r.ps, ProcessorFlag::ZeroFlag) == (v == 0)
            &&& flag_set(r.ps, ProcessorFlag::NegativeFlag) == (v >= 0x80)
        }),
        ({
            let (c1, mm1) = execute::<FlatMemory>(Mnemonic::Inc, c, mm);
            let (c2, mm2) = execute::<FlatMemory>(Mnemonic::Dec, c1, mm1);
            load::<FlatMemory>(c2, mm2) == load::<FlatMemory>(c, mm)
        }),
{
    lemma_inc_dec_values(c, mm);
    let (c1, mm1) = execute::<FlatMemory>(Mnemonic::Inc, c, mm);
    assert(mm1.len() == 0x10000);
    lemma_inc_dec_values(c1, mm1);
}

/// The indexed addressing modes: zero page,X and zero page,Y add the index
/// to the operand byte and stay in page zero; absolute,X and absolute,Y add
/// it to the operand word modulo 2^16, with an extra cycle only where the
/// opcode asks for one and the low byte carries; (indirect),Y indexes the
/// pointer read from page zero. Each mode uses its own index register and
/// gives the same location whatever the other one holds.
pub proof fn law_indexed_addressing(c: Cpu, mm: Seq<u8>, op1: u8, op2: u8, extra: bool, other: u8)
    ensures
        address_spec::<FlatMemory>(c, mm, op1, op2, AddressingMode::ZeroPageX, extra) == (Address::Ram(
            ((op1 + c.x) % 256) as u16,
        ), 0u16),
        address_spec::<FlatMemory>(c, mm, op1, op2, AddressingMode::ZeroPageY, extra) == (Address::Ram(
            ((op1 + c.y) % 256) as u16,
        ), 0u16),
        address_spec::<FlatMemory>(c, mm, op1, op2, AddressingMode::AbsoluteX, extra).0 == Address::Ram(
            ((256 * op2 + op1 + c.x) % 0x10000) as u16,
        ),
        address_spec::<FlatMemory>(c, mm, op1, op2, AddressingMode::AbsoluteY, extra).0 == Address::Ram(
            ((256 * op2 + op1 + c.y) % 0x10000) as u16,
        ),
        address_spec::<FlatMemory>(c, mm, op1, op2, AddressingMode::AbsoluteX, extra).1 == (if extra && op1 + c.x >= 256 { 1u16 } else { 0u16 }),
        address_spec::<FlatMemory>(c, mm, op1, op2, AddressingMode::AbsoluteY, extra).1 == (if extra && op1 + c.y >= 256 { 1u16 } else { 0u16 }),
        address_spec::<FlatMemory>(c, mm, op1, op2, AddressingMode::IndirectIndexedY, extra).0 == Address::Ram(
            ((read::<FlatMemory>(mm, op1 as u16) + 256 * read::<FlatMemory>(mm, ((op1 + 1) % 256) as u16) + c.y) % 0x10000) as u16,
        ),
        address_spec::<FlatMemory>(Cpu { y: other, ..c }, mm, op1, op2, AddressingMode::ZeroPageX, extra)
            == address_spec::<FlatMemory>(c, mm, op1, op2, AddressingMode::ZeroPageX, extra),
        address_spec::<FlatMemory>(Cpu { x: other, ..c }, mm, op1, op2, AddressingMode::ZeroPageY, extra)
            == address_spec::<FlatMemory>(c, mm, op1, op2, AddressingMode::ZeroPageY, extra),
        address_spec::<FlatMemory>(Cpu { y: other, ..c }, mm, op1, op2, AddressingMode::AbsoluteX, extra)
            == address_spec::<FlatMemory>(c, mm, op1, op2, AddressingMode::AbsoluteX, extra),
        address_spec::<FlatMemory>(Cpu { x: other, ..c }, mm, op1, op2, AddressingMode::AbsoluteY, extra)
            == address_spec::<FlatMemory>(c, mm, op1, op2, AddressingMode::AbsoluteY, extra),
        address_spec::<FlatMemory>(Cpu { x: other, ..c }, mm, op1, op2, AddressingMode::IndirectIndexedY, extra)
            == address_spec::<FlatMemory>(c, mm, op1, op2, AddressingMode::IndirectIndexedY, extra),
        address_spec::<FlatMemory>(Cpu { y: other, ..c }, mm, op1, op2, AddressingMode::IndexedIndirectX, extra)
            == address_spec::<FlatMemory>(c, mm, op1, op2, AddressingMode::IndexedIndirectX, extra),
{
}

/// Loads put the operand in their register, with zero and negative from
/// it, and leave the other registers; stores write their register to the
/// operand's address and change no register.
#[verifier::spinoff_prover]
pub proof fn law_loads_and_stores(c: Cpu, mm: Seq<u8>, addr: u16)
    requires
        mm.len() == 0x10000,
    ensures
        ({
            let m = load::<FlatMemory>(c, mm);
            let r = execute::<FlatMemory>(Mnemonic::Lda, c, mm).0;
            &&& r.a == m && r.x == c.x && r.y == c.y && r.sp == c.sp
            &&& flag_set(r.ps, ProcessorFlag::ZeroFlag) == (m == 0)
            &&& flag_set(r.ps, ProcessorFlag::NegativeFlag) == (m >= 0x80)
        }),
        ({
            let m = load::<FlatMemory>(c, mm);
            let r = execute::<FlatMemory>(Mnemonic::Ldx, c, mm).0;
            &&& r.x == m && r.a == c.a && r.y == c.y && r.sp == c.sp
            &&& flag_set(r.ps, ProcessorFlag::ZeroFlag) == (m == 0)
            &&& flag_set(r.ps, ProcessorFlag::NegativeFlag) == (m >= 0x80)
        }),
        ({
            let m = load::<FlatMemory>(c, mm);
            let r = execute::<FlatMemory>(Mnemonic::Ldy, c, mm).0;
            &&& r.y == m && r.a == c.a && r.x == c.x && r.sp == c.sp
            &&& flag_set(r.ps, ProcessorFlag::ZeroFlag) == (m == 0)
            &&& flag_set(r.ps, ProcessorFlag::NegativeFlag) == (m >= 0x80)
        }),
        c.address == Address::Ram(addr) ==> ({
            let (r, mm1) = execute::<FlatMemory>(Mnemonic::Sta, c, mm);
            r == c && mm1 == mm.update(addr as int, c.a)
        }),
        c.address == Address::Ram(addr) ==> ({
            let (r, mm1) = execute::<FlatMemory>(Mnemonic::Stx, c, mm);
            r == c && mm1 == mm.update(addr as int, c.x)
        }),
        c.address == Address::Ram(addr) ==> ({
            let (r, mm1) = execute::<FlatMemory>(Mnemonic::Sty, c, mm);
            r == c && mm1 == mm.update(addr as int, c.y)
        }),
{
    let m = load::<FlatMemory>(c, mm);
    lemma_zn_keeps(Cpu { a: m, ..c }, m);
    lemma_zn_keeps(Cpu { x: m, ..c }, m);
    lemma_zn_keeps(Cpu { y: m, ..c }, m);
}

/// Transfers copy one register into another, with zero and negative from
/// the value (but for TXS, which sets no flag).
#[verifier::spinoff_prover]
pub proof fn law_transfers(c: Cpu, mm: Seq<u8>)
    ensures
        execute::<FlatMemory>(Mnemonic::Tax, c, mm).0.x == c.a,
        execute::<FlatMemory>(Mnemonic::Tay, c, mm).0.y == c.a,
        execute::<FlatMemory>(Mnemonic::Txa, c, mm).0.a == c.x,
        execute::<FlatMemory>(Mnemonic::Tya, c, mm).0.a == c.y,
        execute::<FlatMemory>(Mnemonic::Tsx, c, mm).0.x == c.sp,
        execute::<FlatMemory>(Mnemonic::Txs, c, mm).0 == (Cpu { sp: c.x, ..c }),
        execute::<FlatMemory>(Mnemonic::Tax, c, mm).0.a == c.a,
        execute::<FlatMemory>(Mnemonic::Txa, c, mm).0.x == c.x,
{
}

/// A transfer sets zero and negative from the value it copies.
#[verifier::spinoff_prover]
pub proof fn law_transfer_flags(c: Cpu, mm: Seq<u8>)
    ensures
        flag_set(execute::<FlatMemory>(Mnemonic::Tax, c, mm).0.ps, ProcessorFlag::ZeroFlag) == (c.a == 0),
        flag_set(execute::<FlatMemory>(Mnemonic::Tax, c, mm).0.ps, ProcessorFlag::NegativeFlag) == (c.a >= 0x80),
        flag_set(execute::<FlatMemory>(Mnemonic::Tya, c, mm).0.ps, ProcessorFlag::ZeroFlag) == (c.y == 0),
        flag_set(execute::<FlatMemory>(Mnemonic::Tya, c, mm).0.ps, ProcessorFlag::NegativeFlag) == (c.y >= 0x80),
{
    assert(execute::<FlatMemory>(Mnemonic::Tax, c, mm).0 == zn(Cpu { x: c.a, ..c }, c.a));
    assert(execute::<FlatMemory>(Mnemonic::Tya, c, mm).0 == zn(Cpu { a: c.y, ..c }, c.y));
    lemma_zn_keeps(Cpu { x: c.a, ..c }, c.a);
    lemma_zn_keeps(Cpu { a: c.y, ..c }, c.y);
}

/// Increments and decrements of X and Y count modulo 256 and leave the
/// other index register.
#[verifier::spinoff_prover]
pub proof fn law_index_counts(c: Cpu, mm: Seq<u8>)
    ensures
        execute::<FlatMemory>(Mnemonic::Inx, c, mm).0.x == (c.x + 1) % 256,
        execute::<FlatMemory>(Mnemonic::Iny, c, mm).0.y == (c.y + 1) % 256,
        execute::<FlatMemory>(Mnemonic::Dex, c, mm).0.x == (c.x + 255) % 256,
        execute::<FlatMemory>(Mnemonic::Dey, c, mm).0.y == (c.y + 255) % 256,
        execute::<FlatMemory>(Mnemonic::Inx, c, mm).0.y == c.y,
        execute::<FlatMemory>(Mnemonic::Dey, c, mm).0.x == c.x,
{
    assert(execute::<FlatMemory>(Mnemonic::Inx, c, mm).0 == transfer_x(c, increment(c.x)));
    assert(execute::<FlatMemory>(Mnemonic::Iny, c, mm).0 == transfer_y(c, increment(c.y)));
    assert(execute::<FlatMemory>(Mnemonic::Dex, c, mm).0 == transfer_x(c, decrement(c.x)));
    assert(execute::<FlatMemory>(Mnemonic::Dey, c, mm).0 == transfer_y(c, decrement(c.y)));
    assert(increment(c.x) == (c.x + 1) % 256);
    assert(increment(c.y) == (c.y + 1) % 256);
    assert(decrement(c.x) == (c.x + 255) % 256);
    assert(decrement(c.y) == (c.y + 255) % 256);
}

/// CMP, CPX and CPY compare the accumulator, X and Y with the operand:
/// zero on equality and carry when the register is not less.
#[verifier::spinoff_prover]
pub proof fn law_compares_use_their_register(c: Cpu, mm: Seq<u8>)
    ensures
        ({
            let m = load::<FlatMemory>(c, mm);
            &&& flag_set(execute::<FlatMemory>(Mnemonic::Cmp, c, mm).0.ps, ProcessorFlag::ZeroFlag) == (c.a == m)
            &&& flag_set(execute::<FlatMemory>(Mnemonic::Cmp, c, mm).0.ps, ProcessorFlag::CarryFlag) == (c.a >= m)
            &&& flag_set(execute::<FlatMemory>(Mnemonic::Cpx, c, mm).0.ps, ProcessorFlag::ZeroFlag) == (c.x == m)
            &&& flag_set(execute::<FlatMemory>(Mnemonic::Cpx, c, mm).0.ps, ProcessorFlag::CarryFlag) == (c.x >= m)
            &&& flag_set(execute::<FlatMemory>(Mnemonic::Cpy, c, mm).0.ps, ProcessorFlag::ZeroFlag) == (c.y == m)
            &&& flag_set(execute::<FlatMemory>(Mnemonic::Cpy, c, mm).0.ps, ProcessorFlag::CarryFlag) == (c.y >= m)
            &&& execute::<FlatMemory>(Mnemonic::Cmp, c, mm).0.a == c.a
        }),
{
    let m = load::<FlatMemory>(c, mm);
    law_compare(c, c.a, m);
    law_compare(c, c.x, m);
    law_compare(c, c.y, m);
}

/// The flag instructions set or clear their one flag and leave the others.
#[verifier::spinoff_prover]
pub proof fn law_flag_instructions(c: Cpu, mm: Seq<u8>, g: ProcessorFlag)
    ensures
        !flag_set(execute::<FlatMemory>(Mnemonic::Clc, c, mm).0.ps, ProcessorFlag::CarryFlag),
        flag_set(execute::<FlatMemory>(Mnemonic::Sec, c, mm).0.ps, ProcessorFlag::CarryFlag),
        !flag_set(execute::<FlatMemory>(Mnemonic::Cli, c, mm).0.ps, ProcessorFlag::InterruptDisable),
        flag_set(execute::<FlatMemory>(Mnemonic::Sei, c, mm).0.ps, ProcessorFlag::InterruptDisable),
        !flag_set(execute::<FlatMemory>(Mnemonic::Cld, c, mm).0.ps, ProcessorFlag::DecimalMode),
        flag_set(execute::<FlatMemory>(Mnemonic::Sed, c, mm).0.ps, ProcessorFlag::DecimalMode),
        !flag_set(execute::<FlatMemory>(Mnemonic::Clv, c, mm).0.ps, ProcessorFlag::OverflowFlag),
        g != ProcessorFlag::CarryFlag ==> flag_set(execute::<FlatMemory>(Mnemonic::Sec, c, mm).0.ps, g) == flag_set(c.ps, g),
        g != ProcessorFlag::InterruptDisable ==> flag_set(execute::<FlatMemory>(Mnemonic::Sei, c, mm).0.ps, g)
            == flag_set(c.ps, g),
{
    law_flag_set_get(c.ps, ProcessorFlag::CarryFlag, g, false);
    law_flag_set_get(c.ps, ProcessorFlag::CarryFlag, g, true);
    law_flag_set_get(c.ps, ProcessorFlag::InterruptDisable, g, false);
    law_flag_set_get(c.ps, ProcessorFlag::InterruptDisable, g, true);
    law_flag_set_get(c.ps, ProcessorFlag::DecimalMode, ProcessorFlag::DecimalMode, false);
    law_flag_set_get(c.ps, ProcessorFlag::DecimalMode, ProcessorFlag::DecimalMode, true);
    law_flag_set_get(c.ps, ProcessorFlag::OverflowFlag, ProcessorFlag::OverflowFlag, false);
    law_flag_set_get(c.ps, ProcessorFlag::CarryFlag, ProcessorFlag::CarryFlag, false);
    law_flag_set_get(c.ps, ProcessorFlag::CarryFlag, ProcessorFlag::CarryFlag, true);
    law_flag_set_get(c.ps, ProcessorFlag::InterruptDisable, ProcessorFlag::InterruptDisable, false);
    law_flag_set_get(c.ps, ProcessorFlag::InterruptDisable, ProcessorFlag::InterruptDisable, true);
}

/// The other memory addressing modes: zero page and absolute take the
/// operand bytes as the address (low byte first); (indirect,X) reads the
/// address from the two page-zero bytes at the operand plus X; the indirect
/// jump reads its target from the operand word and the byte after it in
/// the same page, so that a pointer at the end of a page takes its high
/// byte from the start of that page.
pub proof fn law_direct_and_indirect_addressing(c: Cpu, mm: Seq<u8>, op1: u8, op2: u8, extra: bool)
    ensures
        address_spec::<FlatMemory>(c, mm, op1, op2, AddressingMode::ZeroPage, extra) == (Address::Ram(op1 as u16), 0u16),
        address_spec::<FlatMemory>(c, mm, op1, op2, AddressingMode::Absolute, extra) == (Address::Ram(
            (op1 + 256 * op2) as u16,
        ), 0u16),
        address_spec::<FlatMemory>(c, mm, op1, op2, AddressingMode::Immediate, extra) == (Address::Immediate(op1), 0u16),
        address_spec::<FlatMemory>(c, mm, op1, op2, AddressingMode::IndexedIndirectX, extra) == (Address::Ram(
            (read::<FlatMemory>(mm, ((op1 + c.x) % 256) as u16) + 256 * read::<FlatMemory>(
                mm,
                ((op1 + c.x + 1) % 256) as u16,
            )) as u16,
        ), 0u16),
        address_spec::<FlatMemory>(c, mm, op1, op2, AddressingMode::Indirect, extra) == (Address::Ram(
            (read::<FlatMemory>(mm, (256 * op2 + op1) as u16) + 256 * read::<FlatMemory>(
                mm,
                (256 * op2 + (op1 + 1) % 256) as u16,
            )) as u16,
        ), 0u16),
{
}

/// BIT sets zero where the accumulator and the operand share no bit, and
/// copies bits 6 and 7 of the operand to overflow and negative; it changes
/// no register.
#[verifier::spinoff_prover]
pub proof fn law_bit_test(c: Cpu, mm: Seq<u8>)
    ensures
        ({
            let m = load::<FlatMemory>(c, mm);
            let r = execute::<FlatMemory>(Mnemonic::Bit, c, mm).0;
            &&& flag_set(r.ps, ProcessorFlag::ZeroFlag) == (c.a & m == 0)
            &&& flag_set(r.ps, ProcessorFlag::OverflowFlag) == ((m / 64) % 2 == 1)
            &&& flag_set(r.ps, ProcessorFlag::NegativeFlag) == (m >= 0x80)
            &&& flag_set(r.ps, ProcessorFlag::CarryFlag) == flag_set(c.ps, ProcessorFlag::CarryFlag)
            &&& r.a == c.a && r.x == c.x && r.y == c.y
        }),
{
    let m = load::<FlatMemory>(c, mm);
    let z = c.a & m == 0;
    let p1 = with_flag(c.ps, ProcessorFlag::ZeroFlag, z);
    let p2 = with_flag(p1, ProcessorFlag::OverflowFlag, (m / 64) % 2 == 1);
    law_flag_set_get(c.ps, ProcessorFlag::ZeroFlag, ProcessorFlag::ZeroFlag, z);
    law_flag_set_get(c.ps, ProcessorFlag::ZeroFlag, ProcessorFlag::CarryFlag, z);
    law_flag_set_get(p1, ProcessorFlag::OverflowFlag, ProcessorFlag::ZeroFlag, (m / 64) % 2 == 1);
    law_flag_set_get(p1, ProcessorFlag::OverflowFlag, ProcessorFlag::OverflowFlag, (m / 64) % 2 == 1);
    law_flag_set_get(p1, ProcessorFlag::OverflowFlag, ProcessorFlag::CarryFlag, (m / 64) % 2 == 1);
    law_flag_set_get(p2, ProcessorFlag::NegativeFlag, ProcessorFlag::ZeroFlag, m >= 0x80);
    law_flag_set_get(p2, ProcessorFlag::NegativeFlag, ProcessorFlag::OverflowFlag, m >= 0x80);
    law_flag_set_get(p2, ProcessorFlag::NegativeFlag, ProcessorFlag::NegativeFlag, m >= 0x80);
    law_flag_set_get(p2, ProcessorFlag::NegativeFlag, ProcessorFlag::CarryFlag, m >= 0x80);
}

/// Interrupt priority: a pending NMI is always taken (and acknowledged);
/// otherwise a pending IRQ is taken only while the interrupt-disable flag
/// is clear; otherwise nothing is.
pub proof fn law_interrupt_priority(c: Cpu, lines: InterruptLines)
    ensures
        lines.nmi_pending ==> check_interrupts(c, lines) == (Cpu { interrupt: Some(NMI_OPCODE), ..c }, true),
        !lines.nmi_pending && lines.irq_pending && !flag_set(c.ps, ProcessorFlag::InterruptDisable) ==> check_interrupts(
            c,
            lines,
        ) == (Cpu { interrupt: Some(IRQ_OPCODE), ..c }, false),
        !lines.nmi_pending && (!lines.irq_pending || flag_set(c.ps, ProcessorFlag::InterruptDisable)) ==> check_interrupts(
            c,
            lines,
        ) == (c, false),
{
}

/// A branch costs no extra cycle when not taken, one when taken to the same
/// page (of the address after the instruction), two when taken to another.
pub proof fn law_branch_cycles(mn: Mnemonic, c: Cpu, target: u16)
    requires
        is_branch(mn),
        c.address == Address::Relative(target),
    ensures
        !branch_condition(mn, c.ps) ==> branch_extra(mn, c) == 0,
        branch_condition(mn, c.ps) && page(wrap16(target + 2)) == page(wrap16(c.pc + 2)) ==> branch_extra(mn, c) == 1,
        branch_condition(mn, c.ps) && page(wrap16(target + 2)) != page(wrap16(c.pc + 2)) ==> branch_extra(mn, c) == 2,
{
}

/// A write to the OAM DMA register ($4014) stalls the CPU for 513 cycles,
/// one more when it falls on an odd cycle; no other operand adds any.
pub proof fn law_oam_dma_cycles(c: Cpu)
    ensures
        c.address == Address::Ram(0x4014) ==> oam_dma_extra(c) == 513 + c.cycle % 2,
        c.address != Address::Ram(0x4014) ==> oam_dma_extra(c) == 0,
{
}

/// On the last cycle of an instruction its operation takes effect, the
/// program counter moves past the instruction's bytes (modulo 2^16), the
/// cycle counter adds the instruction's cycles and no instruction is left
/// in progress.
pub proof fn law_last_cycle_executes(c: Cpu, mm: Seq<u8>, lines: InterruptLines)
    requires
        c.instruction is Some,
        c.instruction.unwrap().cycle + 1 == c.instruction.unwrap().total_cycles,
    ensures
        ({
            let ins = c.instruction.unwrap();
            let (e, emm) = execute::<FlatMemory>(current_mnemonic(c), counted(c), mm);
            let (r, rmm, ack) = run_cycle::<FlatMemory>(c, mm, lines);
            &&& r.instruction is None
            &&& r.pc == (e.pc + ins.bytes) % 0x10000
            &&& e.cycle + ins.total_cycles <= u128::MAX ==> r.cycle == e.cycle + ins.total_cycles
            &&& r.a == e.a && r.x == e.x && r.y == e.y && r.sp == e.sp && r.ps == e.ps
            &&& rmm == emm
            &&& !ack
        }),
{
}

} // verus!
