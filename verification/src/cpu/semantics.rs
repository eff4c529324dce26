//! What each operation of the CPU does, as functions from the state before
//! to the state after.
use super::opcodes::{opcode_spec, IRQ_OPCODE, NMI_OPCODE};
use super::{
    flag_set, mode_bytes, with_flag, Address, AddressingMode, Cpu, Instruction, InterruptLines,
    Mnemonic, OpCode, ProcessorFlag, OAM_DMA,
};
use crate::common::word_of;
use crate::memory::Memory;
use vstd::prelude::*;

verus! {

pub open spec fn read<M: Memory>(mm: M::Model, addr: u16) -> u8 {
    M::read_model(mm, addr)
}

pub open spec fn write<M: Memory>(mm: M::Model, addr: u16, byte: u8) -> M::Model {
    M::write_model(mm, addr, byte)
}

/// The little-endian word at `addr` and `addr + 1`.
pub open spec fn read_word<M: Memory>(mm: M::Model, addr: u16) -> u16 {
    word_of(read::<M>(mm, addr), read::<M>(mm, (addr + 1) as u16))
}

/// A sum or difference of 16-bit values taken modulo 2^16, as the 16-bit
/// registers wrap (for `-2^16 <= v < 2^17`).
pub open spec fn wrap16(v: int) -> u16 {
    (if v < 0 {
        v + 0x10000
    } else if v >= 0x10000 {
        v - 0x10000
    } else {
        v
    }) as u16
}

pub open spec fn with_ps(c: Cpu, ps: u8) -> Cpu {
    Cpu { ps, ..c }
}

pub open spec fn flag(c: Cpu, f: ProcessorFlag, cond: bool) -> Cpu {
    with_ps(c, with_flag(c.ps, f, cond))
}

/// The carry flag as a number.
pub open spec fn carry(c: Cpu) -> u8 {
    if flag_set(c.ps, ProcessorFlag::CarryFlag) {
        1
    } else {
        0
    }
}

/// Zero and negative flags set from a result.
pub open spec fn zn(c: Cpu, v: u8) -> Cpu {
    flag(flag(c, ProcessorFlag::ZeroFlag, v == 0), ProcessorFlag::NegativeFlag, v >= 0x80)
}

pub open spec fn is_loadable(address: Address) -> bool {
    address is Accumulator || address is Immediate || address is Ram
}

pub open spec fn is_storable(address: Address) -> bool {
    address is Accumulator || address is Ram
}

/// The operand that the instruction reads.
pub open spec fn load<M: Memory>(c: Cpu, mm: M::Model) -> u8 {
    match c.address {
        Address::Accumulator => c.a,
        Address::Immediate(i) => i,
        Address::Ram(addr) => read::<M>(mm, addr),
        _ => 0,
    }
}

/// The state after the instruction writes its result to its operand.
pub open spec fn store<M: Memory>(c: Cpu, mm: M::Model, v: u8) -> (Cpu, M::Model) {
    match c.address {
        Address::Accumulator => (Cpu { a: v, ..c }, mm),
        Address::Ram(addr) => (c, write::<M>(mm, addr, v)),
        _ => (c, mm),
    }
}

/// A byte pushed on the stack page.
pub open spec fn push<M: Memory>(c: Cpu, mm: M::Model, v: u8) -> (Cpu, M::Model) {
    (
        Cpu { sp: (if c.sp == 0 { 255 } else { c.sp - 1 }) as u8, ..c },
        write::<M>(mm, (0x100 + c.sp) as u16, v),
    )
}

/// The stack pointer after a pop.
pub open spec fn popped_sp(c: Cpu) -> u8 {
    (if c.sp == 255 { 0 } else { c.sp + 1 }) as u8
}

/// The byte that a pop gives.
pub open spec fn pop_value<M: Memory>(c: Cpu, mm: M::Model) -> u8 {
    read::<M>(mm, (0x100 + popped_sp(c)) as u16)
}

pub open spec fn pop<M: Memory>(c: Cpu) -> Cpu {
    Cpu { sp: popped_sp(c), ..c }
}

/// A word pushed high byte first.
pub open spec fn push_word<M: Memory>(c: Cpu, mm: M::Model, v: u16) -> (Cpu, M::Model) {
    let (c1, mm1) = push::<M>(c, mm, (v / 256) as u8);
    push::<M>(c1, mm1, (v % 256) as u8)
}

/// The word that two pops give, low byte first.
pub open spec fn pop_word_value<M: Memory>(c: Cpu, mm: M::Model) -> u16 {
    word_of(pop_value::<M>(c, mm), pop_value::<M>(pop::<M>(c), mm))
}

pub open spec fn pop_word<M: Memory>(c: Cpu) -> Cpu {
    pop::<M>(pop::<M>(c))
}

/// Addition with carry of `m` to the accumulator.
pub open spec fn adc_value(c: Cpu, m: u8) -> Cpu {
    let sum = c.a + m + carry(c);
    let a = (sum % 256) as u8;
    let c1 = flag(c, ProcessorFlag::OverflowFlag, (m >= 0x80) == (c.a >= 0x80) && (a >= 0x80) != (m >= 0x80));
    let c2 = Cpu { a, ..c1 };
    flag(zn(c2, a), ProcessorFlag::CarryFlag, sum > 255)
}

/// Comparison of a register with `m`.
pub open spec fn compare(c: Cpu, r: u8, m: u8) -> Cpu {
    let diff = (if r >= m { r - m } else { 256 + r - m }) as u8;
    flag(
        flag(flag(c, ProcessorFlag::ZeroFlag, r == m), ProcessorFlag::CarryFlag, r >= m),
        ProcessorFlag::NegativeFlag,
        diff >= 0x80,
    )
}

/// A byte shifted left by one, the top bit dropped.
pub open spec fn shift_left(m: u8) -> u8 {
    (if m >= 0x80 {
        2 * m - 0x100
    } else {
        2 * m
    }) as u8
}

/// Read-modify-write: the result is written back, then carry, negative and
/// zero are set from it.
pub open spec fn rmw<M: Memory>(c: Cpu, mm: M::Model, r: u8, carry_out: bool) -> (Cpu, M::Model) {
    let (c1, mm1) = store::<M>(c, mm, r);
    (
        flag(
            flag(flag(c1, ProcessorFlag::CarryFlag, carry_out), ProcessorFlag::NegativeFlag, r >= 0x80),
            ProcessorFlag::ZeroFlag,
            r == 0,
        ),
        mm1,
    )
}

pub open spec fn asl<M: Memory>(c: Cpu, mm: M::Model) -> (Cpu, M::Model) {
    let m = load::<M>(c, mm);
    rmw::<M>(c, mm, shift_left(m), m >= 0x80)
}

pub open spec fn lsr<M: Memory>(c: Cpu, mm: M::Model) -> (Cpu, M::Model) {
    let m = load::<M>(c, mm);
    rmw::<M>(c, mm, m / 2, m % 2 == 1)
}

pub open spec fn rol<M: Memory>(c: Cpu, mm: M::Model) -> (Cpu, M::Model) {
    let m = load::<M>(c, mm);
    rmw::<M>(c, mm, (shift_left(m) + carry(c)) as u8, m >= 0x80)
}

pub open spec fn ror<M: Memory>(c: Cpu, mm: M::Model) -> (Cpu, M::Model) {
    let m = load::<M>(c, mm);
    rmw::<M>(c, mm, (m / 2 + 128 * carry(c)) as u8, m % 2 == 1)
}

pub open spec fn dec<M: Memory>(c: Cpu, mm: M::Model) -> (Cpu, M::Model) {
    let m = load::<M>(c, mm);
    let r = (if m == 0 { 255 } else { m - 1 }) as u8;
    store::<M>(zn(c, r), mm, r)
}

pub open spec fn inc<M: Memory>(c: Cpu, mm: M::Model) -> (Cpu, M::Model) {
    let m = load::<M>(c, mm);
    let r = (if m == 255 { 0 } else { m + 1 }) as u8;
    store::<M>(zn(c, r), mm, r)
}

pub open spec fn and<M: Memory>(c: Cpu, mm: M::Model) -> Cpu {
    let a = c.a & load::<M>(c, mm);
    zn(Cpu { a, ..c }, a)
}

pub open spec fn ora<M: Memory>(c: Cpu, mm: M::Model) -> Cpu {
    let a = c.a | load::<M>(c, mm);
    zn(Cpu { a, ..c }, a)
}

pub open spec fn eor<M: Memory>(c: Cpu, mm: M::Model) -> Cpu {
    let a = c.a ^ load::<M>(c, mm);
    zn(Cpu { a, ..c }, a)
}

pub open spec fn adc<M: Memory>(c: Cpu, mm: M::Model) -> Cpu {
    adc_value(c, load::<M>(c, mm))
}

pub open spec fn sbc<M: Memory>(c: Cpu, mm: M::Model) -> Cpu {
    adc_value(c, (255 - load::<M>(c, mm)) as u8)
}

pub open spec fn transfer_a(c: Cpu, v: u8) -> Cpu {
    zn(Cpu { a: v, ..c }, v)
}

pub open spec fn transfer_x(c: Cpu, v: u8) -> Cpu {
    zn(Cpu { x: v, ..c }, v)
}

pub open spec fn transfer_y(c: Cpu, v: u8) -> Cpu {
    zn(Cpu { y: v, ..c }, v)
}

pub open spec fn decrement(v: u8) -> u8 {
    (if v == 0 { 255 } else { v - 1 }) as u8
}

pub open spec fn increment(v: u8) -> u8 {
    (if v == 255 { 0 } else { v + 1 }) as u8
}

/// The status byte as `PHP` and `BRK` push it: both B bits set.
pub open spec fn ps_with_b_flags(ps: u8) -> u8 {
    ps | 0x30
}

/// The status byte as an interrupt pushes it: bit 4 clear, bit 5 set.
pub open spec fn ps_for_interrupt(ps: u8) -> u8 {
    (ps & !0x10u8) | 0x20
}

/// The status register restored from a popped byte: the B bits keep their
/// value in the register.
pub open spec fn restored_ps(ps: u8, popped: u8) -> u8 {
    (popped & !0x30u8) | (ps & 0x30)
}

pub open spec fn plp<M: Memory>(c: Cpu, mm: M::Model) -> Cpu {
    Cpu { ps: restored_ps(c.ps, pop_value::<M>(c, mm)), ..pop::<M>(c) }
}

/// The word at an interrupt vector.
pub open spec fn vector<M: Memory>(mm: M::Model, addr: u16) -> u16 {
    read_word::<M>(mm, addr)
}

/// The program counter that `BRK` and `IRQ` jump to, one less than the
/// vector since the instruction's length is added afterwards.
pub open spec fn update_pc_for_brk_or_irq<M: Memory>(c: Cpu, mm: M::Model) -> Cpu {
    let v = if c.is_brk_or_irq_hijacked_by_nmi {
        vector::<M>(mm, 0xFFFA)
    } else {
        vector::<M>(mm, 0xFFFE)
    };
    Cpu { pc: (if v > 0 { v - 1 } else { 0xFFFF }) as u16, is_brk_or_irq_hijacked_by_nmi: false, ..c }
}

/// Pushes the return address and the status byte, and sets the interrupt disable flag.
pub open spec fn interrupt_entry<M: Memory>(c: Cpu, mm: M::Model, ret: u16, ps: u8) -> (Cpu, M::Model) {
    let (c1, mm1) = push_word::<M>(c, mm, ret);
    let (c2, mm2) = push::<M>(c1, mm1, ps);
    (flag(c2, ProcessorFlag::InterruptDisable, true), mm2)
}

pub open spec fn brk<M: Memory>(c: Cpu, mm: M::Model) -> (Cpu, M::Model) {
    let (c1, mm1) = interrupt_entry::<M>(c, mm, wrap16(c.pc + 2), ps_with_b_flags(c.ps));
    (update_pc_for_brk_or_irq::<M>(c1, mm1), mm1)
}

pub open spec fn irq<M: Memory>(c: Cpu, mm: M::Model) -> (Cpu, M::Model) {
    let (c1, mm1) = interrupt_entry::<M>(c, mm, c.pc, ps_for_interrupt(c.ps));
    (update_pc_for_brk_or_irq::<M>(c1, mm1), mm1)
}

pub open spec fn nmi<M: Memory>(c: Cpu, mm: M::Model) -> (Cpu, M::Model) {
    let (c1, mm1) = interrupt_entry::<M>(c, mm, c.pc, ps_for_interrupt(c.ps));
    (Cpu { pc: wrap16(vector::<M>(mm1, 0xFFFA) - 1), ..c1 }, mm1)
}

/// The address operand of a jump.
pub open spec fn ram_address(c: Cpu) -> u16 {
    match c.address {
        Address::Ram(a) => a,
        _ => 0,
    }
}

pub open spec fn branch(c: Cpu, cond: bool) -> Cpu {
    if cond {
        match c.address {
            Address::Relative(new_pc) => Cpu { pc: new_pc, ..c },
            _ => c,
        }
    } else {
        c
    }
}

/// Whether a branch is taken in the current state.
pub open spec fn branch_condition(mn: Mnemonic, ps: u8) -> bool {
    match mn {
        Mnemonic::Beq => flag_set(ps, ProcessorFlag::ZeroFlag),
        Mnemonic::Bne => !flag_set(ps, ProcessorFlag::ZeroFlag),
        Mnemonic::Bmi => flag_set(ps, ProcessorFlag::NegativeFlag),
        Mnemonic::Bpl => !flag_set(ps, ProcessorFlag::NegativeFlag),
        Mnemonic::Bvs => flag_set(ps, ProcessorFlag::OverflowFlag),
        Mnemonic::Bvc => !flag_set(ps, ProcessorFlag::OverflowFlag),
        Mnemonic::Bcs => flag_set(ps, ProcessorFlag::CarryFlag),
        Mnemonic::Bcc => !flag_set(ps, ProcessorFlag::CarryFlag),
        _ => false,
    }
}

pub open spec fn is_branch(mn: Mnemonic) -> bool {
    mn == Mnemonic::Bcc || mn == Mnemonic::Bcs || mn == Mnemonic::Bpl || mn == Mnemonic::Bmi
        || mn == Mnemonic::Bne || mn == Mnemonic::Beq || mn == Mnemonic::Bvc || mn == Mnemonic::Bvs
}

/// What executing an operation does to the CPU and to memory.
pub open spec fn execute<M: Memory>(mn: Mnemonic, c: Cpu, mm: M::Model) -> (Cpu, M::Model) {
    match mn {
        Mnemonic::Adc => (adc::<M>(c, mm), mm),
        Mnemonic::Sbc => (sbc::<M>(c, mm), mm),
        Mnemonic::And => (and::<M>(c, mm), mm),
        Mnemonic::Ora => (ora::<M>(c, mm), mm),
        Mnemonic::Eor => (eor::<M>(c, mm), mm),
        Mnemonic::Asl => asl::<M>(c, mm),
        Mnemonic::Lsr => lsr::<M>(c, mm),
        Mnemonic::Rol => rol::<M>(c, mm),
        Mnemonic::Ror => ror::<M>(c, mm),
        Mnemonic::Inc => inc::<M>(c, mm),
        Mnemonic::Dec => dec::<M>(c, mm),
        Mnemonic::Lda => (transfer_a(c, load::<M>(c, mm)), mm),
        Mnemonic::Ldx => (transfer_x(c, load::<M>(c, mm)), mm),
        Mnemonic::Ldy => (transfer_y(c, load::<M>(c, mm)), mm),
        Mnemonic::Sta => store::<M>(c, mm, c.a),
        Mnemonic::Stx => store::<M>(c, mm, c.x),
        Mnemonic::Sty => store::<M>(c, mm, c.y),
        Mnemonic::Tax => (transfer_x(c, c.a), mm),
        Mnemonic::Tay => (transfer_y(c, c.a), mm),
        Mnemonic::Txa => (transfer_a(c, c.x), mm),
        Mnemonic::Tya => (transfer_a(c, c.y), mm),
        Mnemonic::Tsx => (transfer_x(c, c.sp), mm),
        Mnemonic::Txs => (Cpu { sp: c.x, ..c }, mm),
        Mnemonic::Inx => (transfer_x(c, increment(c.x)), mm),
        Mnemonic::Iny => (transfer_y(c, increment(c.y)), mm),
        Mnemonic::Dex => (transfer_x(c, decrement(c.x)), mm),
        Mnemonic::Dey => (transfer_y(c, decrement(c.y)), mm),
        Mnemonic::Cmp => (compare(c, c.a, load::<M>(c, mm)), mm),
        Mnemonic::Cpx => (compare(c, c.x, load::<M>(c, mm)), mm),
        Mnemonic::Cpy => (compare(c, c.y, load::<M>(c, mm)), mm),
        Mnemonic::Bit => {
            let m = load::<M>(c, mm);
            (
                flag(
                    flag(flag(c, ProcessorFlag::ZeroFlag, c.a & m == 0), ProcessorFlag::OverflowFlag, (m / 64) % 2 == 1),
                    ProcessorFlag::NegativeFlag,
                    m >= 0x80,
                ),
                mm,
            )
        },
        Mnemonic::Clc => (flag(c, ProcessorFlag::CarryFlag, false), mm),
        Mnemonic::Cld => (flag(c, ProcessorFlag::DecimalMode, false), mm),
        Mnemonic::Cli => (flag(c, ProcessorFlag::InterruptDisable, false), mm),
        Mnemonic::Clv => (flag(c, ProcessorFlag::OverflowFlag, false), mm),
        Mnemonic::Sec => (flag(c, ProcessorFlag::CarryFlag, true), mm),
        Mnemonic::Sed => (flag(c, ProcessorFlag::DecimalMode, true), mm),
        Mnemonic::Sei => (flag(c, ProcessorFlag::InterruptDisable, true), mm),
        Mnemonic::Pha => push::<M>(c, mm, c.a),
        Mnemonic::Php => push::<M>(c, mm, ps_with_b_flags(c.ps)),
        Mnemonic::Pla => (transfer_a(pop::<M>(c), pop_value::<M>(c, mm)), mm),
        Mnemonic::Plp => (plp::<M>(c, mm), mm),
        Mnemonic::Jmp => (Cpu { pc: wrap16(ram_address(c) - 3), ..c }, mm),
        Mnemonic::Jsr => {
            let (c1, mm1) = push_word::<M>(c, mm, wrap16(c.pc + 2));
            (Cpu { pc: wrap16(ram_address(c) - 3), ..c1 }, mm1)
        },
        Mnemonic::Rts => (Cpu { pc: pop_word_value::<M>(c, mm), ..pop_word::<M>(c) }, mm),
        Mnemonic::Rti => (Cpu { pc: wrap16(pop_word_value::<M>(c, mm) - 1), ..pop_word::<M>(c) }, mm),
        Mnemonic::Brk => brk::<M>(c, mm),
        Mnemonic::Irq => irq::<M>(c, mm),
        Mnemonic::Nmi => nmi::<M>(c, mm),
        Mnemonic::Bcc | Mnemonic::Bcs | Mnemonic::Beq | Mnemonic::Bne | Mnemonic::Bmi
        | Mnemonic::Bpl | Mnemonic::Bvc | Mnemonic::Bvs => (branch(c, branch_condition(mn, c.ps)), mm),
        Mnemonic::Lax => {
            let m = load::<M>(c, mm);
            (zn(Cpu { a: m, x: m, ..c }, m), mm)
        },
        Mnemonic::Aax => store::<M>(c, mm, c.a & c.x),
        Mnemonic::Alr => lsr::<M>(Cpu { address: Address::Accumulator, ..and::<M>(c, mm) }, mm),
        Mnemonic::Arr => ror::<M>(Cpu { address: Address::Accumulator, ..and::<M>(c, mm) }, mm),
        Mnemonic::Anc => {
            let c1 = and::<M>(c, mm);
            (flag(c1, ProcessorFlag::CarryFlag, flag_set(c1.ps, ProcessorFlag::NegativeFlag)), mm)
        },
        Mnemonic::Axa => lsr::<M>(and::<M>(c, mm), mm),
        Mnemonic::Dcp => {
            let (c1, mm1) = dec::<M>(c, mm);
            (compare(c1, c1.a, load::<M>(c1, mm1)), mm1)
        },
        Mnemonic::Isc => {
            let (c1, mm1) = inc::<M>(c, mm);
            (sbc::<M>(c1, mm1), mm1)
        },
        Mnemonic::Slo => {
            let (c1, mm1) = asl::<M>(c, mm);
            (ora::<M>(c1, mm1), mm1)
        },
        Mnemonic::Rla => {
            let (c1, mm1) = rol::<M>(c, mm);
            (and::<M>(c1, mm1), mm1)
        },
        Mnemonic::Sre => {
            let (c1, mm1) = lsr::<M>(c, mm);
            (eor::<M>(c1, mm1), mm1)
        },
        Mnemonic::Rra => {
            let (c1, mm1) = ror::<M>(c, mm);
            (adc::<M>(c1, mm1), mm1)
        },
        Mnemonic::Xaa => (and::<M>(transfer_a(c, c.x), mm), mm),
        Mnemonic::Nop | Mnemonic::Las | Mnemonic::Oal | Mnemonic::Sax | Mnemonic::Say
        | Mnemonic::Tas | Mnemonic::Xas => (c, mm),
    }
}

} // verus!

verus! {

/// What an operation needs of the operand location, as the addressing modes
/// of the instruction set give it.
pub open spec fn operand_ok(mn: Mnemonic, address: Address) -> bool {
    match mn {
        Mnemonic::Adc | Mnemonic::Sbc | Mnemonic::And | Mnemonic::Ora | Mnemonic::Eor
        | Mnemonic::Lda | Mnemonic::Ldx | Mnemonic::Ldy | Mnemonic::Cmp | Mnemonic::Cpx
        | Mnemonic::Cpy | Mnemonic::Bit | Mnemonic::Lax | Mnemonic::Anc | Mnemonic::Xaa
        | Mnemonic::Alr | Mnemonic::Arr => is_loadable(address),
        Mnemonic::Asl | Mnemonic::Lsr | Mnemonic::Rol | Mnemonic::Ror | Mnemonic::Inc
        | Mnemonic::Dec | Mnemonic::Dcp | Mnemonic::Isc | Mnemonic::Slo | Mnemonic::Rla
        | Mnemonic::Sre | Mnemonic::Rra | Mnemonic::Axa | Mnemonic::Sta | Mnemonic::Stx
        | Mnemonic::Sty | Mnemonic::Aax => is_storable(address),
        Mnemonic::Jmp | Mnemonic::Jsr => address is Ram,
        Mnemonic::Bcc | Mnemonic::Bcs | Mnemonic::Beq | Mnemonic::Bne | Mnemonic::Bmi
        | Mnemonic::Bpl | Mnemonic::Bvc | Mnemonic::Bvs => address is Relative,
        _ => true,
    }
}

/// The kind of operand location that an addressing mode gives.
pub open spec fn address_matches(mode: AddressingMode, address: Address) -> bool {
    match mode {
        AddressingMode::Implicit => address is Implicit,
        AddressingMode::Accumulator => address is Accumulator,
        AddressingMode::Immediate => address is Immediate,
        AddressingMode::Relative => address is Relative,
        _ => address is Ram,
    }
}

pub open spec fn signed8(b: u8) -> int {
    if b < 0x80 {
        b as int
    } else {
        b - 0x100
    }
}

pub open spec fn signed16(w: u16) -> int {
    if w < 0x8000 {
        w as int
    } else {
        w - 0x10000
    }
}

/// The target of a relative jump: the program counter plus the signed
/// offset, modulo 2^16.
pub open spec fn relative_target(pc: u16, offset: u8) -> u16 {
    wrap16(pc + signed8(offset))
}

/// The 256-byte page of an address.
pub open spec fn page(addr: u16) -> int {
    addr as int / 256
}

/// The operand location of an instruction, and the extra cycle that
/// crossing a page costs where the opcode says so.
pub open spec fn address_spec<M: Memory>(
    c: Cpu,
    mm: M::Model,
    op1: u8,
    op2: u8,
    mode: AddressingMode,
    extra_on_page_crossing: bool,
) -> (Address, u16) {
    match mode {
        AddressingMode::Implicit => (Address::Implicit, 0),
        AddressingMode::Accumulator => (Address::Accumulator, 0),
        AddressingMode::Immediate => (Address::Immediate(op1), 0),
        AddressingMode::ZeroPage => (Address::Ram(op1 as u16), 0),
        AddressingMode::ZeroPageX => (Address::Ram(((op1 + c.x) % 256) as u16), 0),
        AddressingMode::ZeroPageY => (Address::Ram(((op1 + c.y) % 256) as u16), 0),
        AddressingMode::Absolute => (Address::Ram(word_of(op1, op2)), 0),
        AddressingMode::AbsoluteX => (
            Address::Ram(((op1 + c.x + 256 * op2) % 0x10000) as u16),
            if extra_on_page_crossing && op1 + c.x > 255 { 1 } else { 0 },
        ),
        AddressingMode::AbsoluteY => (
            Address::Ram(((op1 + c.y + 256 * op2) % 0x10000) as u16),
            if extra_on_page_crossing && op1 + c.y > 255 { 1 } else { 0 },
        ),
        AddressingMode::IndexedIndirectX => (
            Address::Ram(
                word_of(
                    read::<M>(mm, ((op1 + c.x) % 256) as u16),
                    read::<M>(mm, ((op1 + c.x + 1) % 256) as u16),
                ),
            ),
            0,
        ),
        AddressingMode::IndirectIndexedY => {
            let indirect = word_of(read::<M>(mm, op1 as u16), read::<M>(mm, ((op1 + 1) % 256) as u16));
            let target = ((indirect + c.y) % 0x10000) as u16;
            (
                Address::Ram(target),
                if extra_on_page_crossing && page(target) != page(indirect) { 1 } else { 0 },
            )
        },
        AddressingMode::Relative => (Address::Relative(relative_target(c.pc, op1)), 0),
        AddressingMode::Indirect => {
            let base = 256 * op2;
            if op1 == 0xFF {
                (Address::Ram(word_of(read::<M>(mm, (base + 0xFF) as u16), read::<M>(mm, base as u16))), 0)
            } else {
                (
                    Address::Ram(word_of(read::<M>(mm, (base + op1) as u16), read::<M>(mm, (base + op1 + 1) as u16))),
                    0,
                )
            }
        },
    }
}

/// The cycles that a taken branch adds: one, and one more where the target
/// lies on another page.
pub open spec fn branch_extra(mn: Mnemonic, c: Cpu) -> u16 {
    if is_branch(mn) && branch_condition(mn, c.ps) {
        match c.address {
            Address::Relative(new_pc) => if page(wrap16(new_pc + 2)) != page(wrap16(c.pc + 2)) { 2 } else { 1 },
            _ => 0,
        }
    } else {
        0
    }
}

/// The cycles that an instruction writing the OAM DMA register adds.
pub open spec fn oam_dma_extra(c: Cpu) -> u16 {
    if c.address == Address::Ram(OAM_DMA) {
        if c.cycle % 2 == 1 { 514 } else { 513 }
    } else {
        0
    }
}

/// The opcode executed next: a pending interrupt's, else the one at the program counter.
pub open spec fn fetched_opcode<M: Memory>(c: Cpu, mm: M::Model) -> u8 {
    match c.interrupt {
        Some(op) => op,
        None => read::<M>(mm, c.pc),
    }
}

/// The first operand byte, read where the program counter is below the end
/// of the code segment.
pub open spec fn operand_1<M: Memory>(c: Cpu, mm: M::Model) -> u8 {
    if c.pc < c.code_segment.1 { read::<M>(mm, wrap16(c.pc + 1)) } else { 0 }
}

/// The second operand byte, read where the byte after the program counter
/// is below the end of the code segment.
pub open spec fn operand_2<M: Memory>(c: Cpu, mm: M::Model) -> u8 {
    if wrap16(c.pc + 1) < c.code_segment.1 { read::<M>(mm, wrap16(c.pc + 2)) } else { 0 }
}

/// Fetching stops on an opcode outside the instruction set.
pub open spec fn fetch_defined<M: Memory>(c: Cpu, mm: M::Model) -> bool {
    opcode_spec(fetched_opcode::<M>(c, mm)) is Some
}

/// The state after the next instruction has been fetched and decoded.
pub open spec fn fetch<M: Memory>(c: Cpu, mm: M::Model) -> Cpu {
    let op = fetched_opcode::<M>(c, mm);
    let oc = opcode_spec(op).unwrap();
    let c0 = Cpu { interrupt: None, ..c };
    let (address, page_extra) = address_spec::<M>(
        c0,
        mm,
        operand_1::<M>(c, mm),
        operand_2::<M>(c, mm),
        oc.mode,
        oc.extra_cycle_on_page_crossing,
    );
    let c1 = Cpu { address, ..c0 };
    let br = branch_extra(oc.instruction, c1);
    let oam = oam_dma_extra(c1);
    let c2 = Cpu {
        oam_dma_in_progress: if oam != 0 { Some((oc.base_cycles + page_extra + br) as u16) } else { None },
        ..c1
    };
    let c3 = Cpu {
        instruction: Some(
            Instruction {
                opcode: op,
                total_cycles: (oc.base_cycles + page_extra + br + oam) as u16,
                cycle: 0,
                bytes: mode_bytes(oc.mode),
            },
        ),
        ..c2
    };
    if oc.instruction == Mnemonic::Rti {
        plp::<M>(c3, mm)
    } else {
        c3
    }
}

/// Sampling the interrupt lines: a pending NMI is taken and acknowledged,
/// else a pending IRQ where interrupts are not disabled.
pub open spec fn check_interrupts(c: Cpu, lines: InterruptLines) -> (Cpu, bool) {
    if lines.nmi_pending {
        (Cpu { interrupt: Some(NMI_OPCODE), ..c }, true)
    } else if !flag_set(c.ps, ProcessorFlag::InterruptDisable) && lines.irq_pending {
        (Cpu { interrupt: Some(IRQ_OPCODE), ..c }, false)
    } else {
        (c, false)
    }
}

/// The cycle counter after an instruction of `total` cycles.
pub open spec fn advance_cycle(cycle: u128, total: u16) -> u128 {
    let left = u128::MAX - cycle;
    if left < total {
        (total - left) as u128
    } else {
        (cycle + total) as u128
    }
}

/// The operation of the instruction in progress.
pub open spec fn current_mnemonic(c: Cpu) -> Mnemonic {
    opcode_spec(c.instruction.unwrap().opcode).unwrap().instruction
}

/// The state with the cycle of the instruction in progress counted.
pub open spec fn counted(c: Cpu) -> Cpu {
    let ins = c.instruction.unwrap();
    Cpu { instruction: Some(Instruction { cycle: (ins.cycle + 1) as u16, ..ins }), ..c }
}

/// One CPU cycle: the state after it, memory after it, and whether a
/// pending NMI was acknowledged.
pub open spec fn run_cycle<M: Memory>(c: Cpu, mm: M::Model, lines: InterruptLines) -> (Cpu, M::Model, bool) {
    let c1 = counted(c);
    let ins = c1.instruction.unwrap();
    let mn = current_mnemonic(c);
    if ins.cycle == ins.total_cycles {
        let (c2, mm2) = execute::<M>(mn, c1, mm);
        (
            Cpu {
                pc: ((c2.pc + ins.bytes) % 0x10000) as u16,
                cycle: advance_cycle(c2.cycle, ins.total_cycles),
                instruction: None,
                ..c2
            },
            mm2,
            false,
        )
    } else if mn == Mnemonic::Brk || mn == Mnemonic::Irq {
        if lines.nmi_pending && ins.cycle <= 4 {
            (Cpu { is_brk_or_irq_hijacked_by_nmi: true, ..c1 }, mm, true)
        } else {
            (c1, mm, false)
        }
    } else if is_branch(mn) {
        if ins.cycle == 1 || (ins.cycle == 3 && ins.total_cycles == 4) {
            let (c2, ack) = check_interrupts(c1, lines);
            (c2, mm, ack)
        } else {
            (c1, mm, false)
        }
    } else if mn != Mnemonic::Nmi && ((c1.oam_dma_in_progress is Some && ins.cycle
        == c1.oam_dma_in_progress.unwrap() - 1) || (c1.oam_dma_in_progress is None && ins.cycle
        == ins.total_cycles - 1)) {
        let (c2, ack) = check_interrupts(c1, lines);
        (c2, mm, ack)
    } else {
        (c1, mm, false)
    }
}

} // verus!
