use super::AddressingMode;
use super::Mnemonic;
use super::OpCode;
use vstd::prelude::*;

verus! {

/// The pseudo-opcode under which a non-maskable interrupt is executed.
pub const NMI_OPCODE: u8 = 0x02;

/// The pseudo-opcode under which a maskable interrupt is executed.
pub const IRQ_OPCODE: u8 = 0x12;

pub open spec fn entry(
    instruction: Mnemonic,
    mode: AddressingMode,
    base_cycles: u8,
    extra_cycle_on_page_crossing: bool,
) -> Option<OpCode> {
    Some(OpCode { instruction, mode, base_cycles, extra_cycle_on_page_crossing })
}

/// The instruction set: for each opcode, the operation, its addressing mode,
/// its base cycle count and whether crossing a page costs one more cycle.
pub open spec fn opcode_spec(op: u8) -> Option<OpCode> {
    match op {
        0x00u8 => entry(Mnemonic::Brk, AddressingMode::Implicit, 7, false),
        0x01u8 => entry(Mnemonic::Ora, AddressingMode::IndexedIndirectX, 6, false),
        0x02u8 => entry(Mnemonic::Nmi, AddressingMode::Implicit, 7, false),
        0x03u8 => entry(Mnemonic::Slo, AddressingMode::IndexedIndirectX, 8, false),
        0x04u8 => entry(Mnemonic::Nop, AddressingMode::ZeroPage, 3, false),
        0x05u8 => entry(Mnemonic::Ora, AddressingMode::ZeroPage, 3, false),
        0x06u8 => entry(Mnemonic::Asl, AddressingMode::ZeroPage, 5, false),
        0x07u8 => entry(Mnemonic::Slo, AddressingMode::ZeroPage, 5, false),
        0x08u8 => entry(Mnemonic::Php, AddressingMode::Implicit, 3, false),
        0x09u8 => entry(Mnemonic::Ora, AddressingMode::Immediate, 2, false),
        0x0Au8 => entry(Mnemonic::Asl, AddressingMode::Accumulator, 2, false),
        0x0Bu8 => entry(Mnemonic::Anc, AddressingMode::Immediate, 2, false),
        0x0Cu8 => entry(Mnemonic::Nop, AddressingMode::Absolute, 4, true),
        0x0Du8 => entry(Mnemonic::Ora, AddressingMode::Absolute, 4, false),
        0x0Eu8 => entry(Mnemonic::Asl, AddressingMode::Absolute, 6, false),
        0x0Fu8 => entry(Mnemonic::Slo, AddressingMode::Absolute, 6, false),
        0x10u8 => entry(Mnemonic::Bpl, AddressingMode::Relative, 2, false),
        0x11u8 => entry(Mnemonic::Ora, AddressingMode::IndirectIndexedY, 5, true),
        0x12u8 => entry(Mnemonic::Irq, AddressingMode::Implicit, 7, false),
        0x13u8 => entry(Mnemonic::Slo, AddressingMode::IndirectIndexedY, 8, false),
        0x14u8 => entry(Mnemonic::Nop, AddressingMode::ZeroPageX, 4, false),
        0x15u8 => entry(Mnemonic::Ora, AddressingMode::ZeroPageX, 4, false),
        0x16u8 => entry(Mnemonic::Asl, AddressingMode::ZeroPageX, 6, false),
        0x17u8 => entry(Mnemonic::Slo, AddressingMode::ZeroPageX, 6, false),
        0x18u8 => entry(Mnemonic::Clc, AddressingMode::Implicit, 2, false),
        0x19u8 => entry(Mnemonic::Ora, AddressingMode::AbsoluteY, 4, true),
        0x1Au8 => entry(Mnemonic::Nop, AddressingMode::Implicit, 2, false),
        0x1Bu8 => entry(Mnemonic::Slo, AddressingMode::AbsoluteY, 7, false),
        0x1Cu8 => entry(Mnemonic::Nop, AddressingMode::AbsoluteX, 4, true),
        0x1Du8 => entry(Mnemonic::Ora, AddressingMode::AbsoluteX, 4, true),
        0x1Eu8 => entry(Mnemonic::Asl, AddressingMode::AbsoluteX, 7, false),
        0x1Fu8 => entry(Mnemonic::Slo, AddressingMode::AbsoluteX, 7, false),
        0x20u8 => entry(Mnemonic::Jsr, AddressingMode::Absolute, 6, false),
        0x21u8 => entry(Mnemonic::And, AddressingMode::IndexedIndirectX, 6, false),
        0x23u8 => entry(Mnemonic::Rla, AddressingMode::IndexedIndirectX, 8, false),
        0x24u8 => entry(Mnemonic::Bit, AddressingMode::ZeroPage, 3, false),
        0x25u8 => entry(Mnemonic::And, AddressingMode::ZeroPage, 3, false),
        0x26u8 => entry(Mnemonic::Rol, AddressingMode::ZeroPage, 5, false),
        0x27u8 => entry(Mnemonic::Rla, AddressingMode::ZeroPage, 5, false),
        0x28u8 => entry(Mnemonic::Plp, AddressingMode::Implicit, 4, false),
        0x29u8 => entry(Mnemonic::And, AddressingMode::Immediate, 2, false),
        0x2Au8 => entry(Mnemonic::Rol, AddressingMode::Accumulator, 2, false),
        0x2Bu8 => entry(Mnemonic::Anc, AddressingMode::Immediate, 2, false),
        0x2Cu8 => entry(Mnemonic::Bit, AddressingMode::Absolute, 4, false),
        0x2Du8 => entry(Mnemonic::And, AddressingMode::Absolute, 4, false),
        0x2Eu8 => entry(Mnemonic::Rol, AddressingMode::Absolute, 6, false),
        0x2Fu8 => entry(Mnemonic::Rla, AddressingMode::Absolute, 6, false),
        0x30u8 => entry(Mnemonic::Bmi, AddressingMode::Relative, 2, false),
        0x31u8 => entry(Mnemonic::And, AddressingMode::IndirectIndexedY, 5, true),
        0x33u8 => entry(Mnemonic::Rla, AddressingMode::IndirectIndexedY, 8, false),
        0x34u8 => entry(Mnemonic::Nop, AddressingMode::ZeroPageX, 4, false),
        0x35u8 => entry(Mnemonic::And, AddressingMode::ZeroPageX, 4, false),
        0x36u8 => entry(Mnemonic::Rol, AddressingMode::ZeroPageX, 6, false),
        0x37u8 => entry(Mnemonic::Rla, AddressingMode::ZeroPageX, 6, false),
        0x38u8 => entry(Mnemonic::Sec, AddressingMode::Implicit, 2, false),
        0x39u8 => entry(Mnemonic::And, AddressingMode::AbsoluteY, 4, true),
        0x3Au8 => entry(Mnemonic::Nop, AddressingMode::Implicit, 2, false),
        0x3Bu8 => entry(Mnemonic::Rla, AddressingMode::AbsoluteY, 7, false),
        0x3Cu8 => entry(Mnemonic::Nop, AddressingMode::AbsoluteX, 4, true),
        0x3Du8 => entry(Mnemonic::And, AddressingMode::AbsoluteX, 4, true),
        0x3Eu8 => entry(Mnemonic::Rol, AddressingMode::AbsoluteX, 7, false),
        0x3Fu8 => entry(Mnemonic::Rla, AddressingMode::AbsoluteX, 7, false),
        0x40u8 => entry(Mnemonic::Rti, AddressingMode::Implicit, 6, false),
        0x41u8 => entry(Mnemonic::Eor, AddressingMode::IndexedIndirectX, 6, false),
        0x43u8 => entry(Mnemonic::Sre, AddressingMode::IndexedIndirectX, 8, false),
        0x44u8 => entry(Mnemonic::Nop, AddressingMode::ZeroPage, 3, false),
        0x45u8 => entry(Mnemonic::Eor, AddressingMode::ZeroPage, 3, false),
        0x46u8 => entry(Mnemonic::Lsr, AddressingMode::ZeroPage, 5, false),
        0x47u8 => entry(Mnemonic::Sre, AddressingMode::ZeroPage, 5, false),
        0x48u8 => entry(Mnemonic::Pha, AddressingMode::Implicit, 3, false),
        0x49u8 => entry(Mnemonic::Eor, AddressingMode::Immediate, 2, false),
        0x4Au8 => entry(Mnemonic::Lsr, AddressingMode::Accumulator, 2, false),
        0x4Bu8 => entry(Mnemonic::Alr, AddressingMode::Immediate, 2, false),
        0x4Cu8 => entry(Mnemonic::Jmp, AddressingMode::Absolute, 3, false),
        0x4Du8 => entry(Mnemonic::Eor, AddressingMode::Absolute, 4, false),
        0x4Eu8 => entry(Mnemonic::Lsr, AddressingMode::Absolute, 6, false),
        0x4Fu8 => entry(Mnemonic::Sre, AddressingMode::Absolute, 6, false),
        0x50u8 => entry(Mnemonic::Bvc, AddressingMode::Relative, 2, false),
        0x51u8 => entry(Mnemonic::Eor, AddressingMode::IndirectIndexedY, 5, true),
        0x53u8 => entry(Mnemonic::Sre, AddressingMode::IndirectIndexedY, 8, false),
        0x54u8 => entry(Mnemonic::Nop, AddressingMode::ZeroPageX, 4, false),
        0x55u8 => entry(Mnemonic::Eor, AddressingMode::ZeroPageX, 4, false),
        0x56u8 => entry(Mnemonic::Lsr, AddressingMode::ZeroPageX, 6, false),
        0x57u8 => entry(Mnemonic::Sre, AddressingMode::ZeroPageX, 6, false),
        0x58u8 => entry(Mnemonic::Cli, AddressingMode::Implicit, 2, false),
        0x59u8 => entry(Mnemonic::Eor, AddressingMode::AbsoluteY, 4, true),
        0x5Au8 => entry(Mnemonic::Nop, AddressingMode::Implicit, 2, false),
        0x5Bu8 => entry(Mnemonic::Sre, AddressingMode::AbsoluteY, 7, false),
        0x5Cu8 => entry(Mnemonic::Nop, AddressingMode::AbsoluteX, 4, true),
        0x5Du8 => entry(Mnemonic::Eor, AddressingMode::AbsoluteX, 4, true),
        0x5Eu8 => entry(Mnemonic::Lsr, AddressingMode::AbsoluteX, 7, false),
        0x5Fu8 => entry(Mnemonic::Sre, AddressingMode::AbsoluteX, 7, false),
        0x60u8 => entry(Mnemonic::Rts, AddressingMode::Implicit, 6, false),
        0x61u8 => entry(Mnemonic::Adc, AddressingMode::IndexedIndirectX, 6, false),
        0x63u8 => entry(Mnemonic::Rra, AddressingMode::IndexedIndirectX, 8, false),
        0x64u8 => entry(Mnemonic::Nop, AddressingMode::ZeroPage, 3, false),
        0x65u8 => entry(Mnemonic::Adc, AddressingMode::ZeroPage, 3, false),
        0x66u8 => entry(Mnemonic::Ror, AddressingMode::ZeroPage, 5, false),
        0x67u8 => entry(Mnemonic::Rra, AddressingMode::ZeroPage, 5, false),
        0x68u8 => entry(Mnemonic::Pla, AddressingMode::Implicit, 4, false),
        0x69u8 => entry(Mnemonic::Adc, AddressingMode::Immediate, 2, false),
        0x6Au8 => entry(Mnemonic::Ror, AddressingMode::Accumulator, 2, false),
        0x6Bu8 => entry(Mnemonic::Arr, AddressingMode::Immediate, 2, false),
        0x6Cu8 => entry(Mnemonic::Jmp, AddressingMode::Indirect, 5, false),
        0x6Du8 => entry(Mnemonic::Adc, AddressingMode::Absolute, 4, false),
        0x6Eu8 => entry(Mnemonic::Ror, AddressingMode::Absolute, 6, false),
        0x6Fu8 => entry(Mnemonic::Rra, AddressingMode::Absolute, 6, false),
        0x70u8 => entry(Mnemonic::Bvs, AddressingMode::Relative, 2, false),
        0x71u8 => entry(Mnemonic::Adc, AddressingMode::IndirectIndexedY, 5, true),
        0x73u8 => entry(Mnemonic::Rra, AddressingMode::IndirectIndexedY, 8, false),
        0x74u8 => entry(Mnemonic::Nop, AddressingMode::ZeroPageX, 4, false),
        0x75u8 => entry(Mnemonic::Adc, AddressingMode::ZeroPageX, 4, false),
        0x76u8 => entry(Mnemonic::Ror, AddressingMode::ZeroPageX, 6, false),
        0x77u8 => entry(Mnemonic::Rra, AddressingMode::ZeroPageX, 6, false),
        0x78u8 => entry(Mnemonic::Sei, AddressingMode::Implicit, 2, false),
        0x79u8 => entry(Mnemonic::Adc, AddressingMode::AbsoluteY, 4, true),
        0x7Au8 => entry(Mnemonic::Nop, AddressingMode::Implicit, 2, false),
        0x7Bu8 => entry(Mnemonic::Rra, AddressingMode::AbsoluteY, 7, false),
        0x7Cu8 => entry(Mnemonic::Nop, AddressingMode::AbsoluteX, 4, true),
        0x7Du8 => entry(Mnemonic::Adc, AddressingMode::AbsoluteX, 4, true),
        0x7Eu8 => entry(Mnemonic::Ror, AddressingMode::AbsoluteX, 7, false),
        0x7Fu8 => entry(Mnemonic::Rra, AddressingMode::AbsoluteX, 7, false),
        0x80u8 => entry(Mnemonic::Nop, AddressingMode::Immediate, 2, false),
        0x81u8 => entry(Mnemonic::Sta, AddressingMode::IndexedIndirectX, 6, false),
        0x82u8 => entry(Mnemonic::Nop, AddressingMode::Immediate, 2, false),
        0x83u8 => entry(Mnemonic::Aax, AddressingMode::IndexedIndirectX, 6, false),
        0x84u8 => entry(Mnemonic::Sty, AddressingMode::ZeroPage, 3, false),
        0x85u8 => entry(Mnemonic::Sta, AddressingMode::ZeroPage, 3, false),
        0x86u8 => entry(Mnemonic::Stx, AddressingMode::ZeroPage, 3, false),
        0x87u8 => entry(Mnemonic::Aax, AddressingMode::ZeroPage, 3, false),
        0x88u8 => entry(Mnemonic::Dey, AddressingMode::Implicit, 2, false),
        0x89u8 => entry(Mnemonic::Nop, AddressingMode::Immediate, 2, false),
        0x8Au8 => entry(Mnemonic::Txa, AddressingMode::Implicit, 2, false),
        0x8Bu8 => entry(Mnemonic::Xaa, AddressingMode::Immediate, 2, false),
        0x8Cu8 => entry(Mnemonic::Sty, AddressingMode::Absolute, 4, false),
        0x8Du8 => entry(Mnemonic::Sta, AddressingMode::Absolute, 4, false),
        0x8Eu8 => entry(Mnemonic::Stx, AddressingMode::Absolute, 4, false),
        0x8Fu8 => entry(Mnemonic::Aax, AddressingMode::Absolute, 4, false),
        0x90u8 => entry(Mnemonic::Bcc, AddressingMode::Relative, 2, false),
        0x91u8 => entry(Mnemonic::Sta, AddressingMode::IndirectIndexedY, 6, false),
        0x93u8 => entry(Mnemonic::Axa, AddressingMode::ZeroPageY, 6, false),
        0x94u8 => entry(Mnemonic::Sty, AddressingMode::ZeroPageX, 4, false),
        0x95u8 => entry(Mnemonic::Sta, AddressingMode::ZeroPageX, 4, false),
        0x96u8 => entry(Mnemonic::Stx, AddressingMode::ZeroPageY, 4, false),
        0x97u8 => entry(Mnemonic::Aax, AddressingMode::ZeroPageY, 4, false),
        0x98u8 => entry(Mnemonic::Tya, AddressingMode::Implicit, 2, false),
        0x99u8 => entry(Mnemonic::Sta, AddressingMode::AbsoluteY, 5, false),
        0x9Au8 => entry(Mnemonic::Txs, AddressingMode::Implicit, 2, false),
        0x9Bu8 => entry(Mnemonic::Tas, AddressingMode::AbsoluteY, 5, false),
        0x9Cu8 => entry(Mnemonic::Say, AddressingMode::AbsoluteX, 5, false),
        0x9Du8 => entry(Mnemonic::Sta, AddressingMode::AbsoluteX, 5, false),
        0x9Eu8 => entry(Mnemonic::Xas, AddressingMode::AbsoluteY, 5, false),
        0x9Fu8 => entry(Mnemonic::Axa, AddressingMode::AbsoluteY, 5, false),
        0xA0u8 => entry(Mnemonic::Ldy, AddressingMode::Immediate, 2, false),
        0xA1u8 => entry(Mnemonic::Lda, AddressingMode::IndexedIndirectX, 6, false),
        0xA2u8 => entry(Mnemonic::Ldx, AddressingMode::Immediate, 2, false),
        0xA3u8 => entry(Mnemonic::Lax, AddressingMode::IndexedIndirectX, 6, false),
        0xA4u8 => entry(Mnemonic::Ldy, AddressingMode::ZeroPage, 3, false),
        0xA5u8 => entry(Mnemonic::Lda, AddressingMode::ZeroPage, 3, false),
        0xA6u8 => entry(Mnemonic::Ldx, AddressingMode::ZeroPage, 3, false),
        0xA7u8 => entry(Mnemonic::Lax, AddressingMode::ZeroPage, 3, false),
        0xA8u8 => entry(Mnemonic::Tay, AddressingMode::Implicit, 2, false),
        0xA9u8 => entry(Mnemonic::Lda, AddressingMode::Immediate, 2, false),
        0xAAu8 => entry(Mnemonic::Tax, AddressingMode::Implicit, 2, false),
        0xABu8 => entry(Mnemonic::Oal, AddressingMode::Immediate, 2, false),
        0xACu8 => entry(Mnemonic::Ldy, AddressingMode::Absolute, 4, false),
        0xADu8 => entry(Mnemonic::Lda, AddressingMode::Absolute, 4, false),
        0xAEu8 => entry(Mnemonic::Ldx, AddressingMode::Absolute, 4, false),
        0xAFu8 => entry(Mnemonic::Lax, AddressingMode::Absolute, 4, false),
        0xB0u8 => entry(Mnemonic::Bcs, AddressingMode::Relative, 2, false),
        0xB1u8 => entry(Mnemonic::Lda, AddressingMode::IndirectIndexedY, 5, true),
        0xB3u8 => entry(Mnemonic::Lax, AddressingMode::IndirectIndexedY, 5, true),
        0xB4u8 => entry(Mnemonic::Ldy, AddressingMode::ZeroPageX, 4, false),
        0xB5u8 => entry(Mnemonic::Lda, AddressingMode::ZeroPageX, 4, false),
        0xB6u8 => entry(Mnemonic::Ldx, AddressingMode::ZeroPageY, 4, false),
        0xB7u8 => entry(Mnemonic::Lax, AddressingMode::ZeroPageY, 4, false),
        0xB8u8 => entry(Mnemonic::Clv, AddressingMode::Implicit, 2, false),
        0xB9u8 => entry(Mnemonic::Lda, AddressingMode::AbsoluteY, 4, true),
        0xBAu8 => entry(Mnemonic::Tsx, AddressingMode::Implicit, 2, false),
        0xBBu8 => entry(Mnemonic::Las, AddressingMode::AbsoluteY, 4, true),
        0xBCu8 => entry(Mnemonic::Ldy, AddressingMode::AbsoluteX, 4, true),
        0xBDu8 => entry(Mnemonic::Lda, AddressingMode::AbsoluteX, 4, true),
        0xBEu8 => entry(Mnemonic::Ldx, AddressingMode::AbsoluteY, 4, true),
        0xBFu8 => entry(Mnemonic::Lax, AddressingMode::AbsoluteY, 4, true),
        0xC0u8 => entry(Mnemonic::Cpy, AddressingMode::Immediate, 2, false),
        0xC1u8 => entry(Mnemonic::Cmp, AddressingMode::IndexedIndirectX, 6, false),
        0xC2u8 => entry(Mnemonic::Nop, AddressingMode::Immediate, 2, false),
        0xC3u8 => entry(Mnemonic::Dcp, AddressingMode::IndexedIndirectX, 8, false),
        0xC4u8 => entry(Mnemonic::Cpy, AddressingMode::ZeroPage, 3, false),
        0xC5u8 => entry(Mnemonic::Cmp, AddressingMode::ZeroPage, 3, false),
        0xC6u8 => entry(Mnemonic::Dec, AddressingMode::ZeroPage, 5, false),
        0xC7u8 => entry(Mnemonic::Dcp, AddressingMode::ZeroPage, 5, false),
        0xC8u8 => entry(Mnemonic::Iny, AddressingMode::Implicit, 2, false),
        0xC9u8 => entry(Mnemonic::Cmp, AddressingMode::Immediate, 2, false),
        0xCAu8 => entry(Mnemonic::Dex, AddressingMode::Implicit, 2, false),
        0xCBu8 => entry(Mnemonic::Sax, AddressingMode::Immediate, 2, false),
        0xCCu8 => entry(Mnemonic::Cpy, AddressingMode::Absolute, 4, false),
        0xCDu8 => entry(Mnemonic::Cmp, AddressingMode::Absolute, 4, false),
        0xCEu8 => entry(Mnemonic::Dec, AddressingMode::Absolute, 6, false),
        0xCFu8 => entry(Mnemonic::Dcp, AddressingMode::Absolute, 6, false),
        0xD0u8 => entry(Mnemonic::Bne, AddressingMode::Relative, 2, false),
        0xD1u8 => entry(Mnemonic::Cmp, AddressingMode::IndirectIndexedY, 5, true),
        0xD3u8 => entry(Mnemonic::Dcp, AddressingMode::IndirectIndexedY, 8, false),
        0xD4u8 => entry(Mnemonic::Nop, AddressingMode::ZeroPageX, 4, false),
        0xD5u8 => entry(Mnemonic::Cmp, AddressingMode::ZeroPageX, 4, false),
        0xD6u8 => entry(Mnemonic::Dec, AddressingMode::ZeroPageX, 6, false),
        0xD7u8 => entry(Mnemonic::Dcp, AddressingMode::ZeroPageX, 6, false),
        0xD8u8 => entry(Mnemonic::Cld, AddressingMode::Implicit, 2, false),
        0xD9u8 => entry(Mnemonic::Cmp, AddressingMode::AbsoluteY, 4, true),
        0xDAu8 => entry(Mnemonic::Nop, AddressingMode::Implicit, 2, false),
        0xDBu8 => entry(Mnemonic::Dcp, AddressingMode::AbsoluteY, 7, false),
        0xDCu8 => entry(Mnemonic::Nop, AddressingMode::AbsoluteX, 4, true),
        0xDDu8 => entry(Mnemonic::Cmp, AddressingMode::AbsoluteX, 4, true),
        0xDEu8 => entry(Mnemonic::Dec, AddressingMode::AbsoluteX, 7, false),
        0xDFu8 => entry(Mnemonic::Dcp, AddressingMode::AbsoluteX, 7, false),
        0xE0u8 => entry(Mnemonic::Cpx, AddressingMode::Immediate, 2, false),
        0xE1u8 => entry(Mnemonic::Sbc, AddressingMode::IndexedIndirectX, 6, false),
        0xE2u8 => entry(Mnemonic::Nop, AddressingMode::Immediate, 2, false),
        0xE3u8 => entry(Mnemonic::Isc, AddressingMode::IndexedIndirectX, 8, false),
        0xE4u8 => entry(Mnemonic::Cpx, AddressingMode::ZeroPage, 3, false),
        0xE5u8 => entry(Mnemonic::Sbc, AddressingMode::ZeroPage, 3, false),
        0xE6u8 => entry(Mnemonic::Inc, AddressingMode::ZeroPage, 5, false),
        0xE7u8 => entry(Mnemonic::Isc, AddressingMode::ZeroPage, 5, false),
        0xE8u8 => entry(Mnemonic::Inx, AddressingMode::Implicit, 2, false),
        0xE9u8 => entry(Mnemonic::Sbc, AddressingMode::Immediate, 2, false),
        0xEAu8 => entry(Mnemonic::Nop, AddressingMode::Implicit, 2, false),
        0xEBu8 => entry(Mnemonic::Sbc, AddressingMode::Immediate, 2, false),
        0xECu8 => entry(Mnemonic::Cpx, AddressingMode::Absolute, 4, false),
        0xEDu8 => entry(Mnemonic::Sbc, AddressingMode::Absolute, 4, false),
        0xEEu8 => entry(Mnemonic::Inc, AddressingMode::Absolute, 6, false),
        0xEFu8 => entry(Mnemonic::Isc, AddressingMode::Absolute, 6, false),
        0xF0u8 => entry(Mnemonic::Beq, AddressingMode::Relative, 2, false),
        0xF1u8 => entry(Mnemonic::Sbc, AddressingMode::IndirectIndexedY, 5, true),
        0xF3u8 => entry(Mnemonic::Isc, AddressingMode::IndirectIndexedY, 8, false),
        0xF4u8 => entry(Mnemonic::Nop, AddressingMode::ZeroPageX, 4, false),
        0xF5u8 => entry(Mnemonic::Sbc, AddressingMode::ZeroPageX, 4, false),
        0xF6u8 => entry(Mnemonic::Inc, AddressingMode::ZeroPageX, 6, false),
        0xF7u8 => entry(Mnemonic::Isc, AddressingMode::ZeroPageX, 6, false),
        0xF8u8 => entry(Mnemonic::Sed, AddressingMode::Implicit, 2, false),
        0xF9u8 => entry(Mnemonic::Sbc, AddressingMode::AbsoluteY, 4, true),
        0xFAu8 => entry(Mnemonic::Nop, AddressingMode::Implicit, 2, false),
        0xFBu8 => entry(Mnemonic::Isc, AddressingMode::AbsoluteY, 7, false),
        0xFCu8 => entry(Mnemonic::Nop, AddressingMode::AbsoluteX, 4, true),
        0xFDu8 => entry(Mnemonic::Sbc, AddressingMode::AbsoluteX, 4, true),
        0xFEu8 => entry(Mnemonic::Inc, AddressingMode::AbsoluteX, 7, false),
        0xFFu8 => entry(Mnemonic::Isc, AddressingMode::AbsoluteX, 7, false),
        _ => None,
    }
}

/// Looks one opcode up in the instruction set.
pub fn decode_opcode(op: u8) -> (r: Option<OpCode>)
    ensures
        r == opcode_spec(op),
{
    match op {
        0x00u8 => Some(OpCode { instruction: Mnemonic::Brk, mode: AddressingMode::Implicit, base_cycles: 7, extra_cycle_on_page_crossing: false }),
        0x01u8 => Some(OpCode { instruction: Mnemonic::Ora, mode: AddressingMode::IndexedIndirectX, base_cycles: 6, extra_cycle_on_page_crossing: false }),
        0x02u8 => Some(OpCode { instruction: Mnemonic::Nmi, mode: AddressingMode::Implicit, base_cycles: 7, extra_cycle_on_page_crossing: false }),
        0x03u8 => Some(OpCode { instruction: Mnemonic::Slo, mode: AddressingMode::IndexedIndirectX, base_cycles: 8, extra_cycle_on_page_crossing: false }),
        0x04u8 => Some(OpCode { instruction: Mnemonic::Nop, mode: AddressingMode::ZeroPage, base_cycles: 3, extra_cycle_on_page_crossing: false }),
        0x05u8 => Some(OpCode { instruction: Mnemonic::Ora, mode: AddressingMode::ZeroPage, base_cycles: 3, extra_cycle_on_page_crossing: false }),
        0x06u8 => Some(OpCode { instruction: Mnemonic::Asl, mode: AddressingMode::ZeroPage, base_cycles: 5, extra_cycle_on_page_crossing: false }),
        0x07u8 => Some(OpCode { instruction: Mnemonic::Slo, mode: AddressingMode::ZeroPage, base_cycles: 5, extra_cycle_on_page_crossing: false }),
        0x08u8 => Some(OpCode { instruction: Mnemonic::Php, mode: AddressingMode::Implicit, base_cycles: 3, extra_cycle_on_page_crossing: false }),
        0x09u8 => Some(OpCode { instruction: Mnemonic::Ora, mode: AddressingMode::Immediate, base_cycles: 2, extra_cycle_on_page_crossing: false }),
        0x0Au8 => Some(OpCode { instruction: Mnemonic::Asl, mode: AddressingMode::Accumulator, base_cycles: 2, extra_cycle_on_page_crossing: false }),
        0x0Bu8 => Some(OpCode { instruction: Mnemonic::Anc, mode: AddressingMode::Immediate, base_cycles: 2, extra_cycle_on_page_crossing: false }),
        0x0Cu8 => Some(OpCode { instruction: Mnemonic::Nop, mode: AddressingMode::Absolute, base_cycles: 4, extra_cycle_on_page_crossing: true }),
        0x0Du8 => Some(OpCode { instruction: Mnemonic::Ora, mode: AddressingMode::Absolute, base_cycles: 4, extra_cycle_on_page_crossing: false }),
        0x0Eu8 => Some(OpCode { instruction: Mnemonic::Asl, mode: AddressingMode::Absolute, base_cycles: 6, extra_cycle_on_page_crossing: false }),
        0x0Fu8 => Some(OpCode { instruction: Mnemonic::Slo, mode: AddressingMode::Absolute, base_cycles: 6, extra_cycle_on_page_crossing: false }),
        0x10u8 => Some(OpCode { instruction: Mnemonic::Bpl, mode: AddressingMode::Relative, base_cycles: 2, extra_cycle_on_page_crossing: false }),
        0x11u8 => Some(OpCode { instruction: Mnemonic::Ora, mode: AddressingMode::IndirectIndexedY, base_cycles: 5, extra_cycle_on_page_crossing: true }),
        0x12u8 => Some(OpCode { instruction: Mnemonic::Irq, mode: AddressingMode::Implicit, base_cycles: 7, extra_cycle_on_page_crossing: false }),
        0x13u8 => Some(OpCode { instruction: Mnemonic::Slo, mode: AddressingMode::IndirectIndexedY, base_cycles: 8, extra_cycle_on_page_crossing: false }),
        0x14u8 => Some(OpCode { instruction: Mnemonic::Nop, mode: AddressingMode::ZeroPageX, base_cycles: 4, extra_cycle_on_page_crossing: false }),
        0x15u8 => Some(OpCode { instruction: Mnemonic::Ora, mode: AddressingMode::ZeroPageX, base_cycles: 4, extra_cycle_on_page_crossing: false }),
        0x16u8 => Some(OpCode { instruction: Mnemonic::Asl, mode: AddressingMode::ZeroPageX, base_cycles: 6, extra_cycle_on_page_crossing: false }),
        0x17u8 => Some(OpCode { instruction: Mnemonic::Slo, mode: AddressingMode::ZeroPageX, base_cycles: 6, extra_cycle_on_page_crossing: false }),
        0x18u8 => Some(OpCode { instruction: Mnemonic::Clc, mode: AddressingMode::Implicit, base_cycles: 2, extra_cycle_on_page_crossing: false }),
        0x19u8 => Some(OpCode { instruction: Mnemonic::Ora, mode: AddressingMode::AbsoluteY, base_cycles: 4, extra_cycle_on_page_crossing: true }),
        0x1Au8 => Some(OpCode { instruction: Mnemonic::Nop, mode: AddressingMode::Implicit, base_cycles: 2, extra_cycle_on_page_crossing: false }),
        0x1Bu8 => Some(OpCode { instruction: Mnemonic::Slo, mode: AddressingMode::AbsoluteY, base_cycles: 7, extra_cycle_on_page_crossing: false }),
        0x1Cu8 => Some(OpCode { instruction: Mnemonic::Nop, mode: AddressingMode::AbsoluteX, base_cycles: 4, extra_cycle_on_page_crossing: true }),
        0x1Du8 => Some(OpCode { instruction: Mnemonic::Ora, mode: AddressingMode::AbsoluteX, base_cycles: 4, extra_cycle_on_page_crossing: true }),
        0x1Eu8 => Some(OpCode { instruction: Mnemonic::Asl, mode: AddressingMode::AbsoluteX, base_cycles: 7, extra_cycle_on_page_crossing: false }),
        0x1Fu8 => Some(OpCode { instruction: Mnemonic::Slo, mode: AddressingMode::AbsoluteX, base_cycles: 7, extra_cycle_on_page_crossing: false }),
        0x20u8 => Some(OpCode { instruction: Mnemonic::Jsr, mode: AddressingMode::Absolute, base_cycles: 6, extra_cycle_on_page_crossing: false }),
        0x21u8 => Some(OpCode { instruction: Mnemonic::And, mode: AddressingMode::IndexedIndirectX, base_cycles: 6, extra_cycle_on_page_crossing: false }),
        0x23u8 => Some(OpCode { instruction: Mnemonic::Rla, mode: AddressingMode::IndexedIndirectX, base_cycles: 8, extra_cycle_on_page_crossing: false }),
        0x24u8 => Some(OpCode { instruction: Mnemonic::Bit, mode: AddressingMode::ZeroPage, base_cycles: 3, extra_cycle_on_page_crossing: false }),
        0x25u8 => Some(OpCode { instruction: Mnemonic::And, mode: AddressingMode::ZeroPage, base_cycles: 3, extra_cycle_on_page_crossing: false }),
        0x26u8 => Some(OpCode { instruction: Mnemonic::Rol, mode: AddressingMode::ZeroPage, base_cycles: 5, extra_cycle_on_page_crossing: false }),
        0x27u8 => Some(OpCode { instruction: Mnemonic::Rla, mode: AddressingMode::ZeroPage, base_cycles: 5, extra_cycle_on_page_crossing: false }),
        0x28u8 => Some(OpCode { instruction: Mnemonic::Plp, mode: AddressingMode::Implicit, base_cycles: 4, extra_cycle_on_page_crossing: false }),
        0x29u8 => Some(OpCode { instruction: Mnemonic::And, mode: AddressingMode::Immediate, base_cycles: 2, extra_cycle_on_page_crossing: false }),
        0x2Au8 => Some(OpCode { instruction: Mnemonic::Rol, mode: AddressingMode::Accumulator, base_cycles: 2, extra_cycle_on_page_crossing: false }),
        0x2Bu8 => Some(OpCode { instruction: Mnemonic::Anc, mode: AddressingMode::Immediate, base_cycles: 2, extra_cycle_on_page_crossing: false }),
        0x2Cu8 => Some(OpCode { instruction: Mnemonic::Bit, mode: AddressingMode::Absolute, base_cycles: 4, extra_cycle_on_page_crossing: false }),
        0x2Du8 => Some(OpCode { instruction: Mnemonic::And, mode: AddressingMode::Absolute, base_cycles: 4, extra_cycle_on_page_crossing: false }),
        0x2Eu8 => Some(OpCode { instruction: Mnemonic::Rol, mode: AddressingMode::Absolute, base_cycles: 6, extra_cycle_on_page_crossing: false }),
        0x2Fu8 => Some(OpCode { instruction: Mnemonic::Rla, mode: AddressingMode::Absolute, base_cycles: 6, extra_cycle_on_page_crossing: false }),
        0x30u8 => Some(OpCode { instruction: Mnemonic::Bmi, mode: AddressingMode::Relative, base_cycles: 2, extra_cycle_on_page_crossing: false }),
        0x31u8 => Some(OpCode { instruction: Mnemonic::And, mode: AddressingMode::IndirectIndexedY, base_cycles: 5, extra_cycle_on_page_crossing: true }),
        0x33u8 => Some(OpCode { instruction: Mnemonic::Rla, mode: AddressingMode::IndirectIndexedY, base_cycles: 8, extra_cycle_on_page_crossing: false }),
        0x34u8 => Some(OpCode { instruction: Mnemonic::Nop, mode: AddressingMode::ZeroPageX, base_cycles: 4, extra_cycle_on_page_crossing: false }),
        0x35u8 => Some(OpCode { instruction: Mnemonic::And, mode: AddressingMode::ZeroPageX, base_cycles: 4, extra_cycle_on_page_crossing: false }),
        0x36u8 => Some(OpCode { instruction: Mnemonic::Rol, mode: AddressingMode::ZeroPageX, base_cycles: 6, extra_cycle_on_page_crossing: false }),
        0x37u8 => Some(OpCode { instruction: Mnemonic::Rla, mode: AddressingMode::ZeroPageX, base_cycles: 6, extra_cycle_on_page_crossing: false }),
        0x38u8 => Some(OpCode { instruction: Mnemonic::Sec, mode: AddressingMode::Implicit, base_cycles: 2, extra_cycle_on_page_crossing: false }),
        0x39u8 => Some(OpCode { instruction: Mnemonic::And, mode: AddressingMode::AbsoluteY, base_cycles: 4, extra_cycle_on_page_crossing: true }),
        0x3Au8 => Some(OpCode { instruction: Mnemonic::Nop, mode: AddressingMode::Implicit, base_cycles: 2, extra_cycle_on_page_crossing: false }),
        0x3Bu8 => Some(OpCode { instruction: Mnemonic::Rla, mode: AddressingMode::AbsoluteY, base_cycles: 7, extra_cycle_on_page_crossing: false }),
        0x3Cu8 => Some(OpCode { instruction: Mnemonic::Nop, mode: AddressingMode::AbsoluteX, base_cycles: 4, extra_cycle_on_page_crossing: true }),
        0x3Du8 => Some(OpCode { instruction: Mnemonic::And, mode: AddressingMode::AbsoluteX, base_cycles: 4, extra_cycle_on_page_crossing: true }),
        0x3Eu8 => Some(OpCode { instruction: Mnemonic::Rol, mode: AddressingMode::AbsoluteX, base_cycles: 7, extra_cycle_on_page_crossing: false }),
        0x3Fu8 => Some(OpCode { instruction: Mnemonic::Rla, mode: AddressingMode::AbsoluteX, base_cycles: 7, extra_cycle_on_page_crossing: false }),
        0x40u8 => Some(OpCode { instruction: Mnemonic::Rti, mode: AddressingMode::Implicit, base_cycles: 6, extra_cycle_on_page_crossing: false }),
        0x41u8 => Some(OpCode { instruction: Mnemonic::Eor, mode: AddressingMode::IndexedIndirectX, base_cycles: 6, extra_cycle_on_page_crossing: false }),
        0x43u8 => Some(OpCode { instruction: Mnemonic::Sre, mode: AddressingMode::IndexedIndirectX, base_cycles: 8, extra_cycle_on_page_crossing: false }),
        0x44u8 => Some(OpCode { instruction: Mnemonic::Nop, mode: AddressingMode::ZeroPage, base_cycles: 3, extra_cycle_on_page_crossing: false }),
        0x45u8 => Some(OpCode { instruction: Mnemonic::Eor, mode: AddressingMode::ZeroPage, base_cycles: 3, extra_cycle_on_page_crossing: false }),
        0x46u8 => Some(OpCode { instruction: Mnemonic::Lsr, mode: AddressingMode::ZeroPage, base_cycles: 5, extra_cycle_on_page_crossing: false }),
        0x47u8 => Some(OpCode { instruction: Mnemonic::Sre, mode: AddressingMode::ZeroPage, base_cycles: 5, extra_cycle_on_page_crossing: false }),
        0x48u8 => Some(OpCode { instruction: Mnemonic::Pha, mode: AddressingMode::Implicit, base_cycles: 3, extra_cycle_on_page_crossing: false }),
        0x49u8 => Some(OpCode { instruction: Mnemonic::Eor, mode: AddressingMode::Immediate, base_cycles: 2, extra_cycle_on_page_crossing: false }),
        0x4Au8 => Some(OpCode { instruction: Mnemonic::Lsr, mode: AddressingMode::Accumulator, base_cycles: 2, extra_cycle_on_page_crossing: false }),
        0x4Bu8 => Some(OpCode { instruction: Mnemonic::Alr, mode: AddressingMode::Immediate, base_cycles: 2, extra_cycle_on_page_crossing: false }),
        0x4Cu8 => Some(OpCode { instruction: Mnemonic::Jmp, mode: AddressingMode::Absolute, base_cycles: 3, extra_cycle_on_page_crossing: false }),
        0x4Du8 => Some(OpCode { instruction: Mnemonic::Eor, mode: AddressingMode::Absolute, base_cycles: 4, extra_cycle_on_page_crossing: false }),
        0x4Eu8 => Some(OpCode { instruction: Mnemonic::Lsr, mode: AddressingMode::Absolute, base_cycles: 6, extra_cycle_on_page_crossing: false }),
        0x4Fu8 => Some(OpCode { instruction: Mnemonic::Sre, mode: AddressingMode::Absolute, base_cycles: 6, extra_cycle_on_page_crossing: false }),
        0x50u8 => Some(OpCode { instruction: Mnemonic::Bvc, mode: AddressingMode::Relative, base_cycles: 2, extra_cycle_on_page_crossing: false }),
        0x51u8 => Some(OpCode { instruction: Mnemonic::Eor, mode: AddressingMode::IndirectIndexedY, base_cycles: 5, extra_cycle_on_page_crossing: true }),
        0x53u8 => Some(OpCode { instruction: Mnemonic::Sre, mode: AddressingMode::IndirectIndexedY, base_cycles: 8, extra_cycle_on_page_crossing: false }),
        0x54u8 => Some(OpCode { instruction: Mnemonic::Nop, mode: AddressingMode::ZeroPageX, base_cycles: 4, extra_cycle_on_page_crossing: false }),
        0x55u8 => Some(OpCode { instruction: Mnemonic::Eor, mode: AddressingMode::ZeroPageX, base_cycles: 4, extra_cycle_on_page_crossing: false }),
        0x56u8 => Some(OpCode { instruction: Mnemonic::Lsr, mode: AddressingMode::ZeroPageX, base_cycles: 6, extra_cycle_on_page_crossing: false }),
        0x57u8 => Some(OpCode { instruction: Mnemonic::Sre, mode: AddressingMode::ZeroPageX, base_cycles: 6, extra_cycle_on_page_crossing: false }),
        0x58u8 => Some(OpCode { instruction: Mnemonic::Cli, mode: AddressingMode::Implicit, base_cycles: 2, extra_cycle_on_page_crossing: false }),
        0x59u8 => Some(OpCode { instruction: Mnemonic::Eor, mode: AddressingMode::AbsoluteY, base_cycles: 4, extra_cycle_on_page_crossing: true }),
        0x5Au8 => Some(OpCode { instruction: Mnemonic::Nop, mode: AddressingMode::Implicit, base_cycles: 2, extra_cycle_on_page_crossing: false }),
        0x5Bu8 => Some(OpCode { instruction: Mnemonic::Sre, mode: AddressingMode::AbsoluteY, base_cycles: 7, extra_cycle_on_page_crossing: false }),
        0x5Cu8 => Some(OpCode { instruction: Mnemonic::Nop, mode: AddressingMode::AbsoluteX, base_cycles: 4, extra_cycle_on_page_crossing: true }),
        0x5Du8 => Some(OpCode { instruction: Mnemonic::Eor, mode: AddressingMode::AbsoluteX, base_cycles: 4, extra_cycle_on_page_crossing: true }),
        0x5Eu8 => Some(OpCode { instruction: Mnemonic::Lsr, mode: AddressingMode::AbsoluteX, base_cycles: 7, extra_cycle_on_page_crossing: false }),
        0x5Fu8 => Some(OpCode { instruction: Mnemonic::Sre, mode: AddressingMode::AbsoluteX, base_cycles: 7, extra_cycle_on_page_crossing: false }),
        0x60u8 => Some(OpCode { instruction: Mnemonic::Rts, mode: AddressingMode::Implicit, base_cycles: 6, extra_cycle_on_page_crossing: false }),
        0x61u8 => Some(OpCode { instruction: Mnemonic::Adc, mode: AddressingMode::IndexedIndirectX, base_cycles: 6, extra_cycle_on_page_crossing: false }),
        0x63u8 => Some(OpCode { instruction: Mnemonic::Rra, mode: AddressingMode::IndexedIndirectX, base_cycles: 8, extra_cycle_on_page_crossing: false }),
        0x64u8 => Some(OpCode { instruction: Mnemonic::Nop, mode: AddressingMode::ZeroPage, base_cycles: 3, extra_cycle_on_page_crossing: false }),
        0x65u8 => Some(OpCode { instruction: Mnemonic::Adc, mode: AddressingMode::ZeroPage, base_cycles: 3, extra_cycle_on_page_crossing: false }),
        0x66u8 => Some(OpCode { instruction: Mnemonic::Ror, mode: AddressingMode::ZeroPage, base_cycles: 5, extra_cycle_on_page_crossing: false }),
        0x67u8 => Some(OpCode { instruction: Mnemonic::Rra, mode: AddressingMode::ZeroPage, base_cycles: 5, extra_cycle_on_page_crossing: false }),
        0x68u8 => Some(OpCode { instruction: Mnemonic::Pla, mode: AddressingMode::Implicit, base_cycles: 4, extra_cycle_on_page_crossing: false }),
        0x69u8 => Some(OpCode { instruction: Mnemonic::Adc, mode: AddressingMode::Immediate, base_cycles: 2, extra_cycle_on_page_crossing: false }),
        0x6Au8 => Some(OpCode { instruction: Mnemonic::Ror, mode: AddressingMode::Accumulator, base_cycles: 2, extra_cycle_on_page_crossing: false }),
        0x6Bu8 => Some(OpCode { instruction: Mnemonic::Arr, mode: AddressingMode::Immediate, base_cycles: 2, extra_cycle_on_page_crossing: false }),
        0x6Cu8 => Some(OpCode { instruction: Mnemonic::Jmp, mode: AddressingMode::Indirect, base_cycles: 5, extra_cycle_on_page_crossing: false }),
        0x6Du8 => Some(OpCode { instruction: Mnemonic::Adc, mode: AddressingMode::Absolute, base_cycles: 4, extra_cycle_on_page_crossing: false }),
        0x6Eu8 => Some(OpCode { instruction: Mnemonic::Ror, mode: AddressingMode::Absolute, base_cycles: 6, extra_cycle_on_page_crossing: false }),
        0x6Fu8 => Some(OpCode { instruction: Mnemonic::Rra, mode: AddressingMode::Absolute, base_cycles: 6, extra_cycle_on_page_crossing: false }),
        0x70u8 => Some(OpCode { instruction: Mnemonic::Bvs, mode: AddressingMode::Relative, base_cycles: 2, extra_cycle_on_page_crossing: false }),
        0x71u8 => Some(OpCode { instruction: Mnemonic::Adc, mode: AddressingMode::IndirectIndexedY, base_cycles: 5, extra_cycle_on_page_crossing: true }),
        0x73u8 => Some(OpCode { instruction: Mnemonic::Rra, mode: AddressingMode::IndirectIndexedY, base_cycles: 8, extra_cycle_on_page_crossing: false }),
        0x74u8 => Some(OpCode { instruction: Mnemonic::Nop, mode: AddressingMode::ZeroPageX, base_cycles: 4, extra_cycle_on_page_crossing: false }),
        0x75u8 => Some(OpCode { instruction: Mnemonic::Adc, mode: AddressingMode::ZeroPageX, base_cycles: 4, extra_cycle_on_page_crossing: false }),
        0x76u8 => Some(OpCode { instruction: Mnemonic::Ror, mode: AddressingMode::ZeroPageX, base_cycles: 6, extra_cycle_on_page_crossing: false }),
        0x77u8 => Some(OpCode { instruction: Mnemonic::Rra, mode: AddressingMode::ZeroPageX, base_cycles: 6, extra_cycle_on_page_crossing: false }),
        0x78u8 => Some(OpCode { instruction: Mnemonic::Sei, mode: AddressingMode::Implicit, base_cycles: 2, extra_cycle_on_page_crossing: false }),
        0x79u8 => Some(OpCode { instruction: Mnemonic::Adc, mode: AddressingMode::AbsoluteY, base_cycles: 4, extra_cycle_on_page_crossing: true }),
        0x7Au8 => Some(OpCode { instruction: Mnemonic::Nop, mode: AddressingMode::Implicit, base_cycles: 2, extra_cycle_on_page_crossing: false }),
        0x7Bu8 => Some(OpCode { instruction: Mnemonic::Rra, mode: AddressingMode::AbsoluteY, base_cycles: 7, extra_cycle_on_page_crossing: false }),
        0x7Cu8 => Some(OpCode { instruction: Mnemonic::Nop, mode: AddressingMode::AbsoluteX, base_cycles: 4, extra_cycle_on_page_crossing: true }),
        0x7Du8 => Some(OpCode { instruction: Mnemonic::Adc, mode: AddressingMode::AbsoluteX, base_cycles: 4, extra_cycle_on_page_crossing: true }),
        0x7Eu8 => Some(OpCode { instruction: Mnemonic::Ror, mode: AddressingMode::AbsoluteX, base_cycles: 7, extra_cycle_on_page_crossing: false }),
        0x7Fu8 => Some(OpCode { instruction: Mnemonic::Rra, mode: AddressingMode::AbsoluteX, base_cycles: 7, extra_cycle_on_page_crossing: false }),
        0x80u8 => Some(OpCode { instruction: Mnemonic::Nop, mode: AddressingMode::Immediate, base_cycles: 2, extra_cycle_on_page_crossing: false }),
        0x81u8 => Some(OpCode { instruction: Mnemonic::Sta, mode: AddressingMode::IndexedIndirectX, base_cycles: 6, extra_cycle_on_page_crossing: false }),
        0x82u8 => Some(OpCode { instruction: Mnemonic::Nop, mode: AddressingMode::Immediate, base_cycles: 2, extra_cycle_on_page_crossing: false }),
        0x83u8 => Some(OpCode { instruction: Mnemonic::Aax, mode: AddressingMode::IndexedIndirectX, base_cycles: 6, extra_cycle_on_page_crossing: false }),
        0x84u8 => Some(OpCode { instruction: Mnemonic::Sty, mode: AddressingMode::ZeroPage, base_cycles: 3, extra_cycle_on_page_crossing: false }),
        0x85u8 => Some(OpCode { instruction: Mnemonic::Sta, mode: AddressingMode::ZeroPage, base_cycles: 3, extra_cycle_on_page_crossing: false }),
        0x86u8 => Some(OpCode { instruction: Mnemonic::Stx, mode: AddressingMode::ZeroPage, base_cycles: 3, extra_cycle_on_page_crossing: false }),
        0x87u8 => Some(OpCode { instruction: Mnemonic::Aax, mode: AddressingMode::ZeroPage, base_cycles: 3, extra_cycle_on_page_crossing: false }),
        0x88u8 => Some(OpCode { instruction: Mnemonic::Dey, mode: AddressingMode::Implicit, base_cycles: 2, extra_cycle_on_page_crossing: false }),
        0x89u8 => Some(OpCode { instruction: Mnemonic::Nop, mode: AddressingMode::Immediate, base_cycles: 2, extra_cycle_on_page_crossing: false }),
        0x8Au8 => Some(OpCode { instruction: Mnemonic::Txa, mode: AddressingMode::Implicit, base_cycles: 2, extra_cycle_on_page_crossing: false }),
        0x8Bu8 => Some(OpCode { instruction: Mnemonic::Xaa, mode: AddressingMode::Immediate, base_cycles: 2, extra_cycle_on_page_crossing: false }),
        0x8Cu8 => Some(OpCode { instruction: Mnemonic::Sty, mode: AddressingMode::Absolute, base_cycles: 4, extra_cycle_on_page_crossing: false }),
        0x8Du8 => Some(OpCode { instruction: Mnemonic::Sta, mode: AddressingMode::Absolute, base_cycles: 4, extra_cycle_on_page_crossing: false }),
        0x8Eu8 => Some(OpCode { instruction: Mnemonic::Stx, mode: AddressingMode::Absolute, base_cycles: 4, extra_cycle_on_page_crossing: false }),
        0x8Fu8 => Some(OpCode { instruction: Mnemonic::Aax, mode: AddressingMode::Absolute, base_cycles: 4, extra_cycle_on_page_crossing: false }),
        0x90u8 => Some(OpCode { instruction: Mnemonic::Bcc, mode: AddressingMode::Relative, base_cycles: 2, extra_cycle_on_page_crossing: false }),
        0x91u8 => Some(OpCode { instruction: Mnemonic::Sta, mode: AddressingMode::IndirectIndexedY, base_cycles: 6, extra_cycle_on_page_crossing: false }),
        0x93u8 => Some(OpCode { instruction: Mnemonic::Axa, mode: AddressingMode::ZeroPageY, base_cycles: 6, extra_cycle_on_page_crossing: false }),
        0x94u8 => Some(OpCode { instruction: Mnemonic::Sty, mode: AddressingMode::ZeroPageX, base_cycles: 4, extra_cycle_on_page_crossing: false }),
        0x95u8 => Some(OpCode { instruction: Mnemonic::Sta, mode: AddressingMode::ZeroPageX, base_cycles: 4, extra_cycle_on_page_crossing: false }),
        0x96u8 => Some(OpCode { instruction: Mnemonic::Stx, mode: AddressingMode::ZeroPageY, base_cycles: 4, extra_cycle_on_page_crossing: false }),
        0x97u8 => Some(OpCode { instruction: Mnemonic::Aax, mode: AddressingMode::ZeroPageY, base_cycles: 4, extra_cycle_on_page_crossing: false }),
        0x98u8 => Some(OpCode { instruction: Mnemonic::Tya, mode: AddressingMode::Implicit, base_cycles: 2, extra_cycle_on_page_crossing: false }),
        0x99u8 => Some(OpCode { instruction: Mnemonic::Sta, mode: AddressingMode::AbsoluteY, base_cycles: 5, extra_cycle_on_page_crossing: false }),
        0x9Au8 => Some(OpCode { instruction: Mnemonic::Txs, mode: AddressingMode::Implicit, base_cycles: 2, extra_cycle_on_page_crossing: false }),
        0x9Bu8 => Some(OpCode { instruction: Mnemonic::Tas, mode: AddressingMode::AbsoluteY, base_cycles: 5, extra_cycle_on_page_crossing: false }),
        0x9Cu8 => Some(OpCode { instruction: Mnemonic::Say, mode: AddressingMode::AbsoluteX, base_cycles: 5, extra_cycle_on_page_crossing: false }),
        0x9Du8 => Some(OpCode { instruction: Mnemonic::Sta, mode: AddressingMode::AbsoluteX, base_cycles: 5, extra_cycle_on_page_crossing: false }),
        0x9Eu8 => Some(OpCode { instruction: Mnemonic::Xas, mode: AddressingMode::AbsoluteY, base_cycles: 5, extra_cycle_on_page_crossing: false }),
        0x9Fu8 => Some(OpCode { instruction: Mnemonic::Axa, mode: AddressingMode::AbsoluteY, base_cycles: 5, extra_cycle_on_page_crossing: false }),
        0xA0u8 => Some(OpCode { instruction: Mnemonic::Ldy, mode: AddressingMode::Immediate, base_cycles: 2, extra_cycle_on_page_crossing: false }),
        0xA1u8 => Some(OpCode { instruction: Mnemonic::Lda, mode: AddressingMode::IndexedIndirectX, base_cycles: 6, extra_cycle_on_page_crossing: false }),
        0xA2u8 => Some(OpCode { instruction: Mnemonic::Ldx, mode: AddressingMode::Immediate, base_cycles: 2, extra_cycle_on_page_crossing: false }),
        0xA3u8 => Some(OpCode { instruction: Mnemonic::Lax, mode: AddressingMode::IndexedIndirectX, base_cycles: 6, extra_cycle_on_page_crossing: false }),
        0xA4u8 => Some(OpCode { instruction: Mnemonic::Ldy, mode: AddressingMode::ZeroPage, base_cycles: 3, extra_cycle_on_page_crossing: false }),
        0xA5u8 => Some(OpCode { instruction: Mnemonic::Lda, mode: AddressingMode::ZeroPage, base_cycles: 3, extra_cycle_on_page_crossing: false }),
        0xA6u8 => Some(OpCode { instruction: Mnemonic::Ldx, mode: AddressingMode::ZeroPage, base_cycles: 3, extra_cycle_on_page_crossing: false }),
        0xA7u8 => Some(OpCode { instruction: Mnemonic::Lax, mode: AddressingMode::ZeroPage, base_cycles: 3, extra_cycle_on_page_crossing: false }),
        0xA8u8 => Some(OpCode { instruction: Mnemonic::Tay, mode: AddressingMode::Implicit, base_cycles: 2, extra_cycle_on_page_crossing: false }),
        0xA9u8 => Some(OpCode { instruction: Mnemonic::Lda, mode: AddressingMode::Immediate, base_cycles: 2, extra_cycle_on_page_crossing: false }),
        0xAAu8 => Some(OpCode { instruction: Mnemonic::Tax, mode: AddressingMode::Implicit, base_cycles: 2, extra_cycle_on_page_crossing: false }),
        0xABu8 => Some(OpCode { instruction: Mnemonic::Oal, mode: AddressingMode::Immediate, base_cycles: 2, extra_cycle_on_page_crossing: false }),
        0xACu8 => Some(OpCode { instruction: Mnemonic::Ldy, mode: AddressingMode::Absolute, base_cycles: 4, extra_cycle_on_page_crossing: false }),
        0xADu8 => Some(OpCode { instruction: Mnemonic::Lda, mode: AddressingMode::Absolute, base_cycles: 4, extra_cycle_on_page_crossing: false }),
        0xAEu8 => Some(OpCode { instruction: Mnemonic::Ldx, mode: AddressingMode::Absolute, base_cycles: 4, extra_cycle_on_page_crossing: false }),
        0xAFu8 => Some(OpCode { instruction: Mnemonic::Lax, mode: AddressingMode::Absolute, base_cycles: 4, extra_cycle_on_page_crossing: false }),
        0xB0u8 => Some(OpCode { instruction: Mnemonic::Bcs, mode: AddressingMode::Relative, base_cycles: 2, extra_cycle_on_page_crossing: false }),
        0xB1u8 => Some(OpCode { instruction: Mnemonic::Lda, mode: AddressingMode::IndirectIndexedY, base_cycles: 5, extra_cycle_on_page_crossing: true }),
        0xB3u8 => Some(OpCode { instruction: Mnemonic::Lax, mode: AddressingMode::IndirectIndexedY, base_cycles: 5, extra_cycle_on_page_crossing: true }),
        0xB4u8 => Some(OpCode { instruction: Mnemonic::Ldy, mode: AddressingMode::ZeroPageX, base_cycles: 4, extra_cycle_on_page_crossing: false }),
        0xB5u8 => Some(OpCode { instruction: Mnemonic::Lda, mode: AddressingMode::ZeroPageX, base_cycles: 4, extra_cycle_on_page_crossing: false }),
        0xB6u8 => Some(OpCode { instruction: Mnemonic::Ldx, mode: AddressingMode::ZeroPageY, base_cycles: 4, extra_cycle_on_page_crossing: false }),
        0xB7u8 => Some(OpCode { instruction: Mnemonic::Lax, mode: AddressingMode::ZeroPageY, base_cycles: 4, extra_cycle_on_page_crossing: false }),
        0xB8u8 => Some(OpCode { instruction: Mnemonic::Clv, mode: AddressingMode::Implicit, base_cycles: 2, extra_cycle_on_page_crossing: false }),
        0xB9u8 => Some(OpCode { instruction: Mnemonic::Lda, mode: AddressingMode::AbsoluteY, base_cycles: 4, extra_cycle_on_page_crossing: true }),
        0xBAu8 => Some(OpCode { instruction: Mnemonic::Tsx, mode: AddressingMode::Implicit, base_cycles: 2, extra_cycle_on_page_crossing: false }),
        0xBBu8 => Some(OpCode { instruction: Mnemonic::Las, mode: AddressingMode::AbsoluteY, base_cycles: 4, extra_cycle_on_page_crossing: true }),
        0xBCu8 => Some(OpCode { instruction: Mnemonic::Ldy, mode: AddressingMode::AbsoluteX, base_cycles: 4, extra_cycle_on_page_crossing: true }),
        0xBDu8 => Some(OpCode { instruction: Mnemonic::Lda, mode: AddressingMode::AbsoluteX, base_cycles: 4, extra_cycle_on_page_crossing: true }),
        0xBEu8 => Some(OpCode { instruction: Mnemonic::Ldx, mode: AddressingMode::AbsoluteY, base_cycles: 4, extra_cycle_on_page_crossing: true }),
        0xBFu8 => Some(OpCode { instruction: Mnemonic::Lax, mode: AddressingMode::AbsoluteY, base_cycles: 4, extra_cycle_on_page_crossing: true }),
        0xC0u8 => Some(OpCode { instruction: Mnemonic::Cpy, mode: AddressingMode::Immediate, base_cycles: 2, extra_cycle_on_page_crossing: false }),
        0xC1u8 => Some(OpCode { instruction: Mnemonic::Cmp, mode: AddressingMode::IndexedIndirectX, base_cycles: 6, extra_cycle_on_page_crossing: false }),
        0xC2u8 => Some(OpCode { instruction: Mnemonic::Nop, mode: AddressingMode::Immediate, base_cycles: 2, extra_cycle_on_page_crossing: false }),
        0xC3u8 => Some(OpCode { instruction: Mnemonic::Dcp, mode: AddressingMode::IndexedIndirectX, base_cycles: 8, extra_cycle_on_page_crossing: false }),
        0xC4u8 => Some(OpCode { instruction: Mnemonic::Cpy, mode: AddressingMode::ZeroPage, base_cycles: 3, extra_cycle_on_page_crossing: false }),
        0xC5u8 => Some(OpCode { instruction: Mnemonic::Cmp, mode: AddressingMode::ZeroPage, base_cycles: 3, extra_cycle_on_page_crossing: false }),
        0xC6u8 => Some(OpCode { instruction: Mnemonic::Dec, mode: AddressingMode::ZeroPage, base_cycles: 5, extra_cycle_on_page_crossing: false }),
        0xC7u8 => Some(OpCode { instruction: Mnemonic::Dcp, mode: AddressingMode::ZeroPage, base_cycles: 5, extra_cycle_on_page_crossing: false }),
        0xC8u8 => Some(OpCode { instruction: Mnemonic::Iny, mode: AddressingMode::Implicit, base_cycles: 2, extra_cycle_on_page_crossing: false }),
        0xC9u8 => Some(OpCode { instruction: Mnemonic::Cmp, mode: AddressingMode::Immediate, base_cycles: 2, extra_cycle_on_page_crossing: false }),
        0xCAu8 => Some(OpCode { instruction: Mnemonic::Dex, mode: AddressingMode::Implicit, base_cycles: 2, extra_cycle_on_page_crossing: false }),
        0xCBu8 => Some(OpCode { instruction: Mnemonic::Sax, mode: AddressingMode::Immediate, base_cycles: 2, extra_cycle_on_page_crossing: false }),
        0xCCu8 => Some(OpCode { instruction: Mnemonic::Cpy, mode: AddressingMode::Absolute, base_cycles: 4, extra_cycle_on_page_crossing: false }),
        0xCDu8 => Some(OpCode { instruction: Mnemonic::Cmp, mode: AddressingMode::Absolute, base_cycles: 4, extra_cycle_on_page_crossing: false }),
        0xCEu8 => Some(OpCode { instruction: Mnemonic::Dec, mode: AddressingMode::Absolute, base_cycles: 6, extra_cycle_on_page_crossing: false }),
        0xCFu8 => Some(OpCode { instruction: Mnemonic::Dcp, mode: AddressingMode::Absolute, base_cycles: 6, extra_cycle_on_page_crossing: false }),
        0xD0u8 => Some(OpCode { instruction: Mnemonic::Bne, mode: AddressingMode::Relative, base_cycles: 2, extra_cycle_on_page_crossing: false }),
        0xD1u8 => Some(OpCode { instruction: Mnemonic::Cmp, mode: AddressingMode::IndirectIndexedY, base_cycles: 5, extra_cycle_on_page_crossing: true }),
        0xD3u8 => Some(OpCode { instruction: Mnemonic::Dcp, mode: AddressingMode::IndirectIndexedY, base_cycles: 8, extra_cycle_on_page_crossing: false }),
        0xD4u8 => Some(OpCode { instruction: Mnemonic::Nop, mode: AddressingMode::ZeroPageX, base_cycles: 4, extra_cycle_on_page_crossing: false }),
        0xD5u8 => Some(OpCode { instruction: Mnemonic::Cmp, mode: AddressingMode::ZeroPageX, base_cycles: 4, extra_cycle_on_page_crossing: false }),
        0xD6u8 => Some(OpCode { instruction: Mnemonic::Dec, mode: AddressingMode::ZeroPageX, base_cycles: 6, extra_cycle_on_page_crossing: false }),
        0xD7u8 => Some(OpCode { instruction: Mnemonic::Dcp, mode: AddressingMode::ZeroPageX, base_cycles: 6, extra_cycle_on_page_crossing: false }),
        0xD8u8 => Some(OpCode { instruction: Mnemonic::Cld, mode: AddressingMode::Implicit, base_cycles: 2, extra_cycle_on_page_crossing: false }),
        0xD9u8 => Some(OpCode { instruction: Mnemonic::Cmp, mode: AddressingMode::AbsoluteY, base_cycles: 4, extra_cycle_on_page_crossing: true }),
        0xDAu8 => Some(OpCode { instruction: Mnemonic::Nop, mode: AddressingMode::Implicit, base_cycles: 2, extra_cycle_on_page_crossing: false }),
        0xDBu8 => Some(OpCode { instruction: Mnemonic::Dcp, mode: AddressingMode::AbsoluteY, base_cycles: 7, extra_cycle_on_page_crossing: false }),
        0xDCu8 => Some(OpCode { instruction: Mnemonic::Nop, mode: AddressingMode::AbsoluteX, base_cycles: 4, extra_cycle_on_page_crossing: true }),
        0xDDu8 => Some(OpCode { instruction: Mnemonic::Cmp, mode: AddressingMode::AbsoluteX, base_cycles: 4, extra_cycle_on_page_crossing: true }),
        0xDEu8 => Some(OpCode { instruction: Mnemonic::Dec, mode: AddressingMode::AbsoluteX, base_cycles: 7, extra_cycle_on_page_crossing: false }),
        0xDFu8 => Some(OpCode { instruction: Mnemonic::Dcp, mode: AddressingMode::AbsoluteX, base_cycles: 7, extra_cycle_on_page_crossing: false }),
        0xE0u8 => Some(OpCode { instruction: Mnemonic::Cpx, mode: AddressingMode::Immediate, base_cycles: 2, extra_cycle_on_page_crossing: false }),
        0xE1u8 => Some(OpCode { instruction: Mnemonic::Sbc, mode: AddressingMode::IndexedIndirectX, base_cycles: 6, extra_cycle_on_page_crossing: false }),
        0xE2u8 => Some(OpCode { instruction: Mnemonic::Nop, mode: AddressingMode::Immediate, base_cycles: 2, extra_cycle_on_page_crossing: false }),
        0xE3u8 => Some(OpCode { instruction: Mnemonic::Isc, mode: AddressingMode::IndexedIndirectX, base_cycles: 8, extra_cycle_on_page_crossing: false }),
        0xE4u8 => Some(OpCode { instruction: Mnemonic::Cpx, mode: AddressingMode::ZeroPage, base_cycles: 3, extra_cycle_on_page_crossing: false }),
        0xE5u8 => Some(OpCode { instruction: Mnemonic::Sbc, mode: AddressingMode::ZeroPage, base_cycles: 3, extra_cycle_on_page_crossing: false }),
        0xE6u8 => Some(OpCode { instruction: Mnemonic::Inc, mode: AddressingMode::ZeroPage, base_cycles: 5, extra_cycle_on_page_crossing: false }),
        0xE7u8 => Some(OpCode { instruction: Mnemonic::Isc, mode: AddressingMode::ZeroPage, base_cycles: 5, extra_cycle_on_page_crossing: false }),
        0xE8u8 => Some(OpCode { instruction: Mnemonic::Inx, mode: AddressingMode::Implicit, base_cycles: 2, extra_cycle_on_page_crossing: false }),
        0xE9u8 => Some(OpCode { instruction: Mnemonic::Sbc, mode: AddressingMode::Immediate, base_cycles: 2, extra_cycle_on_page_crossing: false }),
        0xEAu8 => Some(OpCode { instruction: Mnemonic::Nop, mode: AddressingMode::Implicit, base_cycles: 2, extra_cycle_on_page_crossing: false }),
        0xEBu8 => Some(OpCode { instruction: Mnemonic::Sbc, mode: AddressingMode::Immediate, base_cycles: 2, extra_cycle_on_page_crossing: false }),
        0xECu8 => Some(OpCode { instruction: Mnemonic::Cpx, mode: AddressingMode::Absolute, base_cycles: 4, extra_cycle_on_page_crossing: false }),
        0xEDu8 => Some(OpCode { instruction: Mnemonic::Sbc, mode: AddressingMode::Absolute, base_cycles: 4, extra_cycle_on_page_crossing: false }),
        0xEEu8 => Some(OpCode { instruction: Mnemonic::Inc, mode: AddressingMode::Absolute, base_cycles: 6, extra_cycle_on_page_crossing: false }),
        0xEFu8 => Some(OpCode { instruction: Mnemonic::Isc, mode: AddressingMode::Absolute, base_cycles: 6, extra_cycle_on_page_crossing: false }),
        0xF0u8 => Some(OpCode { instruction: Mnemonic::Beq, mode: AddressingMode::Relative, base_cycles: 2, extra_cycle_on_page_crossing: false }),
        0xF1u8 => Some(OpCode { instruction: Mnemonic::Sbc, mode: AddressingMode::IndirectIndexedY, base_cycles: 5, extra_cycle_on_page_crossing: true }),
        0xF3u8 => Some(OpCode { instruction: Mnemonic::Isc, mode: AddressingMode::IndirectIndexedY, base_cycles: 8, extra_cycle_on_page_crossing: false }),
        0xF4u8 => Some(OpCode { instruction: Mnemonic::Nop, mode: AddressingMode::ZeroPageX, base_cycles: 4, extra_cycle_on_page_crossing: false }),
        0xF5u8 => Some(OpCode { instruction: Mnemonic::Sbc, mode: AddressingMode::ZeroPageX, base_cycles: 4, extra_cycle_on_page_crossing: false }),
        0xF6u8 => Some(OpCode { instruction: Mnemonic::Inc, mode: AddressingMode::ZeroPageX, base_cycles: 6, extra_cycle_on_page_crossing: false }),
        0xF7u8 => Some(OpCode { instruction: Mnemonic::Isc, mode: AddressingMode::ZeroPageX, base_cycles: 6, extra_cycle_on_page_crossing: false }),
        0xF8u8 => Some(OpCode { instruction: Mnemonic::Sed, mode: AddressingMode::Implicit, base_cycles: 2, extra_cycle_on_page_crossing: false }),
        0xF9u8 => Some(OpCode { instruction: Mnemonic::Sbc, mode: AddressingMode::AbsoluteY, base_cycles: 4, extra_cycle_on_page_crossing: true }),
        0xFAu8 => Some(OpCode { instruction: Mnemonic::Nop, mode: AddressingMode::Implicit, base_cycles: 2, extra_cycle_on_page_crossing: false }),
        0xFBu8 => Some(OpCode { instruction: Mnemonic::Isc, mode: AddressingMode::AbsoluteY, base_cycles: 7, extra_cycle_on_page_crossing: false }),
        0xFCu8 => Some(OpCode { instruction: Mnemonic::Nop, mode: AddressingMode::AbsoluteX, base_cycles: 4, extra_cycle_on_page_crossing: true }),
        0xFDu8 => Some(OpCode { instruction: Mnemonic::Sbc, mode: AddressingMode::AbsoluteX, base_cycles: 4, extra_cycle_on_page_crossing: true }),
        0xFEu8 => Some(OpCode { instruction: Mnemonic::Inc, mode: AddressingMode::AbsoluteX, base_cycles: 7, extra_cycle_on_page_crossing: false }),
        0xFFu8 => Some(OpCode { instruction: Mnemonic::Isc, mode: AddressingMode::AbsoluteX, base_cycles: 7, extra_cycle_on_page_crossing: false }),
        _ => None,
    }
}

/// The table of all 256 opcodes.
pub fn get_opcodes() -> (r: Vec<Option<OpCode>>)
    ensures
        r@.len() == 256,
        forall|i: int| 0 <= i < 256 ==> #[trigger] r@[i] == opcode_spec(i as u8),
{
    let mut r: Vec<Option<OpCode>> = Vec::new();
    let mut i: u16 = 0;
    while i < 256
        invariant
            i <= 256,
            r@.len() == i,
            forall|j: int| 0 <= j < i ==> #[trigger] r@[j] == opcode_spec(j as u8),
        decreases 256 - i,
    {
        r.push(decode_opcode(i as u8));
        i = i + 1;
    }
    r
}

} // verus!
