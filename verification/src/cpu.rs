pub mod opcodes;
pub mod semantics;
pub mod laws;

use self::opcodes::{decode_opcode, get_opcodes, opcode_spec, IRQ_OPCODE, NMI_OPCODE};
use self::semantics::{
    address_matches, address_spec, advance_cycle, branch_condition, branch_extra, carry,
    check_interrupts, counted, current_mnemonic, execute, fetch,
    fetch_defined, fetched_opcode, flag, is_branch, is_loadable, is_storable, load, oam_dma_extra,
    operand_1, operand_2, operand_ok, page, pop, pop_value, pop_word, pop_word_value, push,
    push_word, read, read_word, relative_target, run_cycle, signed8, store, wrap16,
};
use crate::common::{convert_2u8_to_u16, word_of};
use crate::apu::ApuState;
use crate::cpu_ppu::PpuState;
use crate::mappers::Mapper;
use crate::memory::Memory;
use vstd::prelude::*;

verus! {

pub const STACK_PAGE: u16 = 0x0100;

/// The address of the OAM DMA register; a write there stalls the CPU.
pub const OAM_DMA: u16 = 0x4014;

/// How an instruction finds its operand.
#[derive(Copy, Clone, Debug, PartialEq, Eq, Structural)]
pub enum AddressingMode {
    Implicit,
    Accumulator,
    Immediate,
    ZeroPage,
    ZeroPageX,
    ZeroPageY,
    Relative,
    Absolute,
    AbsoluteX,
    AbsoluteY,
    Indirect,
    IndexedIndirectX,
    IndirectIndexedY,
}

/// The length in bytes of an instruction in the given mode.
pub open spec fn mode_bytes(mode: AddressingMode) -> u8 {
    match mode {
        AddressingMode::Implicit | AddressingMode::Accumulator => 1,
        AddressingMode::Absolute | AddressingMode::AbsoluteX | AddressingMode::AbsoluteY
        | AddressingMode::Indirect => 3,
        _ => 2,
    }
}

impl AddressingMode {
    pub fn get_bytes(&self) -> (r: u8)
        ensures
            r == mode_bytes(*self),
    {
        match self {
            AddressingMode::Implicit => 1,
            AddressingMode::Accumulator => 1,
            AddressingMode::Immediate => 2,
            AddressingMode::ZeroPage => 2,
            AddressingMode::ZeroPageX => 2,
            AddressingMode::ZeroPageY => 2,
            AddressingMode::Relative => 2,
            AddressingMode::Absolute => 3,
            AddressingMode::AbsoluteX => 3,
            AddressingMode::AbsoluteY => 3,
            AddressingMode::Indirect => 3,
            AddressingMode::IndexedIndirectX => 2,
            AddressingMode::IndirectIndexedY => 2,
        }
    }
}

/// The operand location of the instruction being executed.
#[derive(Copy, Clone, Debug, PartialEq, Eq, Structural)]
pub enum Address {
    Implicit,
    Accumulator,
    Immediate(u8),
    Ram(u16),
    Relative(u16),
}

/// The operations of the 6502 as the emulator knows them, official and not,
/// and the two interrupt sequences.
#[derive(Copy, Clone, Debug, PartialEq, Eq, Structural)]
pub enum Mnemonic {
    Aax, Adc, Alr, Anc, And, Arr, Asl, Axa, Bcc, Bcs, Beq, Bit, Bmi, Bne, Bpl, Brk, Bvc, Bvs,
    Clc, Cld, Cli, Clv, Cmp, Cpx, Cpy, Dcp, Dec, Dex, Dey, Eor, Inc, Inx, Iny, Irq, Isc, Jmp,
    Jsr, Las, Lax, Lda, Ldx, Ldy, Lsr, Nmi, Nop, Oal, Ora, Pha, Php, Pla, Plp, Rla, Rol, Ror,
    Rra, Rti, Rts, Sax, Say, Sbc, Sec, Sed, Sei, Slo, Sre, Sta, Stx, Sty, Tas, Tax, Tay, Tsx,
    Txa, Txs, Tya, Xaa, Xas,
}

/// One entry of the instruction set.
#[derive(Copy, Clone, Debug, PartialEq, Eq, Structural)]
pub struct OpCode {
    pub instruction: Mnemonic,
    pub mode: AddressingMode,
    pub base_cycles: u8,
    pub extra_cycle_on_page_crossing: bool,
}

} // verus!

verus! {

/// The bits of the processor status register.
#[derive(Copy, Clone, Debug, PartialEq, Eq, Structural)]
pub enum ProcessorFlag {
    CarryFlag,
    ZeroFlag,
    InterruptDisable,
    DecimalMode,
    BFlagBit4,
    BFlagBit5,
    OverflowFlag,
    NegativeFlag,
}

/// The bit of the status register that holds a flag.
pub open spec fn flag_mask(flag: ProcessorFlag) -> u8 {
    match flag {
        ProcessorFlag::CarryFlag => 0x01,
        ProcessorFlag::ZeroFlag => 0x02,
        ProcessorFlag::InterruptDisable => 0x04,
        ProcessorFlag::DecimalMode => 0x08,
        ProcessorFlag::BFlagBit4 => 0x10,
        ProcessorFlag::BFlagBit5 => 0x20,
        ProcessorFlag::OverflowFlag => 0x40,
        ProcessorFlag::NegativeFlag => 0x80,
    }
}

impl ProcessorFlag {
    pub fn mask(self) -> (r: u8)
        ensures
            r == flag_mask(self),
    {
        match self {
            ProcessorFlag::CarryFlag => 0x01,
            ProcessorFlag::ZeroFlag => 0x02,
            ProcessorFlag::InterruptDisable => 0x04,
            ProcessorFlag::DecimalMode => 0x08,
            ProcessorFlag::BFlagBit4 => 0x10,
            ProcessorFlag::BFlagBit5 => 0x20,
            ProcessorFlag::OverflowFlag => 0x40,
            ProcessorFlag::NegativeFlag => 0x80,
        }
    }
}

/// Whether a flag is set in a status byte.
pub open spec fn flag_set(ps: u8, flag: ProcessorFlag) -> bool {
    ps & flag_mask(flag) != 0
}

/// The status byte with one flag set or cleared.
pub open spec fn with_flag(ps: u8, flag: ProcessorFlag, cond: bool) -> u8 {
    if cond {
        ps | flag_mask(flag)
    } else {
        ps & !flag_mask(flag)
    }
}

/// The instruction being executed: its opcode, how many cycles it takes in
/// all, how many of them have passed, and its length in bytes.
#[derive(Copy, Clone, Debug, PartialEq, Eq, Structural)]
pub struct Instruction {
    pub opcode: u8,
    pub total_cycles: u16,
    pub cycle: u16,
    pub bytes: u8,
}

/// The state of the interrupt lines that the CPU samples.
#[derive(Copy, Clone, Debug, PartialEq, Eq, Structural)]
pub struct InterruptLines {
    /// The PPU asks for a non-maskable interrupt.
    pub nmi_pending: bool,
    /// The mapper or the APU asks for a maskable interrupt.
    pub irq_pending: bool,
}

/// The 6502 core of the NES.
pub struct Cpu {
    pub pc: u16,
    pub sp: u8,
    pub ps: u8,
    pub a: u8,
    pub x: u8,
    pub y: u8,
    pub cycle: u128,
    pub instruction: Option<Instruction>,
    pub address: Address,
    pub code_segment: (u16, u16),
    pub opcodes: Vec<Option<OpCode>>,
    pub interrupt: Option<u8>,
    pub is_brk_or_irq_hijacked_by_nmi: bool,
    pub oam_dma_in_progress: Option<u16>,
}

} // verus!

verus! {

/// Every opcode of the instruction set comes with addressing modes that give
/// its operation the operand location it needs.
pub proof fn lemma_operand_ok(op: u8, address: Address)
    requires
        opcode_spec(op) is Some,
        address_matches(opcode_spec(op).unwrap().mode, address),
    ensures
        operand_ok(opcode_spec(op).unwrap().instruction, address),
{
}

impl Cpu {
    /// The opcode table is the instruction set, a pending interrupt is one of
    /// the two interrupt sequences, and an instruction in progress is known,
    /// has cycles left, and has the operand location its mode gives.
    pub open spec fn wf(&self) -> bool {
        &&& self.opcodes@.len() == 256
        &&& forall|i: int| 0 <= i < 256 ==> #[trigger] self.opcodes@[i] == opcode_spec(i as u8)
        &&& match self.interrupt {
            Some(op) => op == NMI_OPCODE || op == IRQ_OPCODE,
            None => true,
        }
        &&& match self.instruction {
            Some(ins) => {
                &&& opcode_spec(ins.opcode) is Some
                &&& ins.cycle < ins.total_cycles
                &&& address_matches(opcode_spec(ins.opcode).unwrap().mode, self.address)
                &&& (self.oam_dma_in_progress matches Some(v) ==> v >= 1)
            },
            None => true,
        }
    }

    pub fn new() -> (r: Cpu)
        ensures
            r.wf(),
            r.pc == 0,
            r.sp == 0xFD,
            r.ps == 0x24,
            r.a == 0,
            r.x == 0,
            r.y == 0,
            r.cycle == 0,
            r.instruction is None,
            r.address == Address::Implicit,
            r.code_segment == (0u16, 0u16),
            r.interrupt is None,
            !r.is_brk_or_irq_hijacked_by_nmi,
            r.oam_dma_in_progress is None,
    {
        Cpu {
            pc: 0,
            sp: 0xFD,
            ps: 0x24,
            a: 0,
            x: 0,
            y: 0,
            cycle: 0,
            instruction: None,
            address: Address::Implicit,
            code_segment: (0, 0),
            opcodes: get_opcodes(),
            interrupt: None,
            is_brk_or_irq_hijacked_by_nmi: false,
            oam_dma_in_progress: None,
        }
    }

    /// Reads the little-endian word at `addr`.
    fn get_word<M: Memory>(bus: &M, addr: u16) -> (r: u16)
        requires
            bus.inv(),
            addr < 0xFFFF,
        ensures
            r == read_word::<M>(bus.model(), addr),
    {
        let lo = bus.get_byte(addr);
        let hi = bus.get_byte(addr + 1);
        convert_2u8_to_u16(lo, hi)
    }

    /// Puts the CPU in its power-up state and loads the reset vector.
    pub fn power_cycle<M: Memory>(&mut self, bus: &M)
        requires
            old(self).wf(),
            bus.inv(),
        ensures
            final(self).wf(),
            final(self).pc == read_word::<M>(bus.model(), 0xFFFC),
            final(self).sp == 0xFD,
            final(self).ps == 0x04,
            final(self).a == 0,
            final(self).x == 0,
            final(self).y == 0,
            final(self).cycle == 8,
            final(self).instruction is None,
            final(self).code_segment == (0u16, 0xFFFFu16),
            final(self).address == Address::Implicit,
            final(self).interrupt == old(self).interrupt,
            !final(self).is_brk_or_irq_hijacked_by_nmi,
            final(self).oam_dma_in_progress is None,
    {
        self.pc = 0xC000;
        self.pc = Self::get_word(bus, 0xFFFC);
        self.sp = 0xFD;
        self.ps = 0x04;
        self.a = 0;
        self.x = 0;
        self.y = 0;
        self.cycle = 8;
        self.instruction = None;
        self.code_segment = (0, 0xFFFF);
        self.address = Address::Implicit;
        self.is_brk_or_irq_hijacked_by_nmi = false;
        self.oam_dma_in_progress = None;
        self.opcodes = get_opcodes();
    }
}

} // verus!

verus! {

impl Default for Cpu {
    /// The state `new` gives.
    fn default() -> (r: Cpu)
        ensures
            r.wf(),
            r.pc == 0,
            r.sp == 0xFD,
            r.ps == 0x24,
            r.a == 0,
            r.x == 0,
            r.y == 0,
            r.cycle == 0,
            r.instruction is None,
            r.address == Address::Implicit,
            r.code_segment == (0u16, 0u16),
            r.interrupt is None,
            !r.is_brk_or_irq_hijacked_by_nmi,
            r.oam_dma_in_progress is None,
    {
        Cpu::new()
    }
}

impl Cpu {
    fn set_flag(&mut self, flag: ProcessorFlag)
        ensures
            *final(self) == semantics::flag(*old(self), flag, true),
    {
        self.ps = self.ps | flag.mask();
    }

    fn clear_flag(&mut self, flag: ProcessorFlag)
        ensures
            *final(self) == semantics::flag(*old(self), flag, false),
    {
        self.ps = self.ps & !flag.mask();
    }

    fn get_flag(&self, flag: ProcessorFlag) -> (r: bool)
        ensures
            r == flag_set(self.ps, flag),
    {
        (self.ps & flag.mask()) != 0
    }

    fn set_or_clear_flag(&mut self, flag: ProcessorFlag, cond: bool)
        ensures
            *final(self) == semantics::flag(*old(self), flag, cond),
    {
        if cond {
            self.set_flag(flag);
        } else {
            self.clear_flag(flag);
        }
    }

    /// Sets the zero and negative flags from a result.
    fn set_zn(&mut self, v: u8)
        ensures
            *final(self) == semantics::zn(*old(self), v),
    {
        self.set_or_clear_flag(ProcessorFlag::ZeroFlag, v == 0);
        self.set_or_clear_flag(ProcessorFlag::NegativeFlag, v >= 0x80);
    }

    fn carry(&self) -> (r: u8)
        ensures
            r == semantics::carry(*self),
    {
        if self.get_flag(ProcessorFlag::CarryFlag) {
            1
        } else {
            0
        }
    }

    fn pop_byte<M: Memory>(&mut self, bus: &M) -> (r: u8)
        requires
            bus.inv(),
        ensures
            r == pop_value::<M>(*old(self), bus.model()),
            *final(self) == pop::<M>(*old(self)),
    {
        self.sp = self.sp.wrapping_add(1);
        bus.get_byte(self.sp as u16 + STACK_PAGE)
    }

    fn push_byte<M: Memory>(&mut self, bus: &mut M, val: u8)
        requires
            old(bus).inv(),
        ensures
            final(bus).inv(),
            (*final(self), final(bus).model()) == push::<M>(*old(self), old(bus).model(), val),
    {
        bus.store_byte(self.sp as u16 + STACK_PAGE, val);
        self.sp = self.sp.wrapping_sub(1);
    }

    fn push_word<M: Memory>(&mut self, bus: &mut M, val: u16)
        requires
            old(bus).inv(),
        ensures
            final(bus).inv(),
            (*final(self), final(bus).model()) == push_word::<M>(*old(self), old(bus).model(), val),
    {
        self.push_byte(bus, (val / 256) as u8);
        self.push_byte(bus, (val % 256) as u8);
    }

    fn pop_word<M: Memory>(&mut self, bus: &M) -> (r: u16)
        requires
            bus.inv(),
        ensures
            r == pop_word_value::<M>(*old(self), bus.model()),
            *final(self) == pop_word::<M>(*old(self)),
    {
        let low_byte = self.pop_byte(bus);
        let high_byte = self.pop_byte(bus);
        convert_2u8_to_u16(low_byte, high_byte)
    }

    fn load_from_address<M: Memory>(&self, bus: &M) -> (r: u8)
        requires
            bus.inv(),
            is_loadable(self.address),
        ensures
            r == load::<M>(*self, bus.model()),
    {
        match self.address {
            Address::Accumulator => self.a,
            Address::Immediate(i) => i,
            Address::Ram(address) => bus.get_byte(address),
            _ => 0,
        }
    }

    fn get_ram_address(&self) -> (r: u16)
        requires
            self.address is Ram,
        ensures
            r == semantics::ram_address(*self),
    {
        match self.address {
            Address::Ram(address) => address,
            _ => 0,
        }
    }

    fn store_to_address<M: Memory>(&mut self, bus: &mut M, byte: u8)
        requires
            old(bus).inv(),
            is_storable(old(self).address),
        ensures
            final(bus).inv(),
            (*final(self), final(bus).model()) == store::<M>(*old(self), old(bus).model(), byte),
    {
        match self.address {
            Address::Accumulator => {
                self.a = byte;
            },
            Address::Ram(address) => {
                bus.store_byte(address, byte);
            },
            _ => {},
        }
    }

    /// Addition with carry of `m` to the accumulator.
    fn _adc(&mut self, m: u8)
        ensures
            *final(self) == semantics::adc_value(*old(self), m),
    {
        let sum: u16 = m as u16 + self.a as u16 + self.carry() as u16;
        let a = (sum % 256) as u8;
        self.set_or_clear_flag(
            ProcessorFlag::OverflowFlag,
            (m >= 0x80) == (self.a >= 0x80) && (a >= 0x80) != (m >= 0x80),
        );
        self.a = a;
        self.set_zn(a);
        self.set_or_clear_flag(ProcessorFlag::CarryFlag, sum > 255);
    }

    /// Restores the status register from the stack; the B bits keep their
    /// value in the register.
    fn rti_restore_ps<M: Memory>(&mut self, bus: &M)
        requires
            bus.inv(),
        ensures
            *final(self) == semantics::plp::<M>(*old(self), bus.model()),
    {
        let b_flag_mask: u8 = 0x30;
        let b_flag_bits = self.ps & b_flag_mask;
        let popped = self.pop_byte(bus);
        self.ps = (popped & !0x30u8) | b_flag_bits;
    }

    fn update_pc_for_brk_or_irq<M: Memory>(&mut self, bus: &M)
        requires
            bus.inv(),
        ensures
            *final(self) == semantics::update_pc_for_brk_or_irq::<M>(*old(self), bus.model()),
    {
        let new_pc = if self.is_brk_or_irq_hijacked_by_nmi {
            Self::get_word(bus, 0xFFFA)
        } else {
            Self::get_word(bus, 0xFFFE)
        };
        if new_pc > 0 {
            self.pc = new_pc - 1;
        } else {
            self.pc = 0xFFFF;
        }
        self.is_brk_or_irq_hijacked_by_nmi = false;
    }

    fn branch_if(&mut self, condition: bool)
        requires
            condition ==> old(self).address is Relative,
        ensures
            *final(self) == semantics::branch(*old(self), condition),
    {
        if condition {
            if let Address::Relative(new_pc) = self.address {
                self.pc = new_pc;
            }
        }
    }

    fn check_condition_for_beq(&self) -> (r: bool)
        ensures
            r == branch_condition(Mnemonic::Beq, self.ps),
    {
        self.get_flag(ProcessorFlag::ZeroFlag)
    }

    fn check_condition_for_bne(&self) -> (r: bool)
        ensures
            r == branch_condition(Mnemonic::Bne, self.ps),
    {
        !self.check_condition_for_beq()
    }

    fn check_condition_for_bmi(&self) -> (r: bool)
        ensures
            r == branch_condition(Mnemonic::Bmi, self.ps),
    {
        self.get_flag(ProcessorFlag::NegativeFlag)
    }

    fn check_condition_for_bpl(&self) -> (r: bool)
        ensures
            r == branch_condition(Mnemonic::Bpl, self.ps),
    {
        !self.check_condition_for_bmi()
    }

    fn check_condition_for_bvs(&self) -> (r: bool)
        ensures
            r == branch_condition(Mnemonic::Bvs, self.ps),
    {
        self.get_flag(ProcessorFlag::OverflowFlag)
    }

    fn check_condition_for_bvc(&self) -> (r: bool)
        ensures
            r == branch_condition(Mnemonic::Bvc, self.ps),
    {
        !self.check_condition_for_bvs()
    }

    fn check_condition_for_bcs(&self) -> (r: bool)
        ensures
            r == branch_condition(Mnemonic::Bcs, self.ps),
    {
        self.get_flag(ProcessorFlag::CarryFlag)
    }

    fn check_condition_for_bcc(&self) -> (r: bool)
        ensures
            r == branch_condition(Mnemonic::Bcc, self.ps),
    {
        !self.check_condition_for_bcs()
    }

    fn adc<M: Memory>(&mut self, bus: &mut M)
        requires
            old(bus).inv(),
            operand_ok(Mnemonic::Adc, old(self).address),
        ensures
            final(bus).inv(),
            (*final(self), final(bus).model()) == execute::<M>(Mnemonic::Adc, *old(self), old(bus).model()),
    {
        let m = self.load_from_address(bus);
        self._adc(m);
    }

    fn sbc<M: Memory>(&mut self, bus: &mut M)
        requires
            old(bus).inv(),
            operand_ok(Mnemonic::Sbc, old(self).address),
        ensures
            final(bus).inv(),
            (*final(self), final(bus).model()) == execute::<M>(Mnemonic::Sbc, *old(self), old(bus).model()),
    {
        let m = self.load_from_address(bus);
        self._adc(0xFF - m);
    }

    fn asl<M: Memory>(&mut self, bus: &mut M)
        requires
            old(bus).inv(),
            operand_ok(Mnemonic::Asl, old(self).address),
        ensures
            final(bus).inv(),
            (*final(self), final(bus).model()) == execute::<M>(Mnemonic::Asl, *old(self), old(bus).model()),
    {
        let m = self.load_from_address(bus);
        let r = if m >= 0x80 { (m - 0x80) * 2 } else { m * 2 };
        self.store_to_address(bus, r);
        self.set_or_clear_flag(ProcessorFlag::CarryFlag, m >= 0x80);
        self.set_or_clear_flag(ProcessorFlag::NegativeFlag, r >= 0x80);
        self.set_or_clear_flag(ProcessorFlag::ZeroFlag, r == 0);
    }

    fn lsr<M: Memory>(&mut self, bus: &mut M)
        requires
            old(bus).inv(),
            operand_ok(Mnemonic::Lsr, old(self).address),
        ensures
            final(bus).inv(),
            (*final(self), final(bus).model()) == execute::<M>(Mnemonic::Lsr, *old(self), old(bus).model()),
    {
        let m = self.load_from_address(bus);
        let r = m / 2;
        self.store_to_address(bus, r);
        self.set_or_clear_flag(ProcessorFlag::CarryFlag, m % 2 == 1);
        self.set_or_clear_flag(ProcessorFlag::NegativeFlag, r >= 0x80);
        self.set_or_clear_flag(ProcessorFlag::ZeroFlag, r == 0);
    }

    fn rol<M: Memory>(&mut self, bus: &mut M)
        requires
            old(bus).inv(),
            operand_ok(Mnemonic::Rol, old(self).address),
        ensures
            final(bus).inv(),
            (*final(self), final(bus).model()) == execute::<M>(Mnemonic::Rol, *old(self), old(bus).model()),
    {
        let m = self.load_from_address(bus);
        let r = (if m >= 0x80 { (m - 0x80) * 2 } else { m * 2 }) + self.carry();
        self.store_to_address(bus, r);
        self.set_or_clear_flag(ProcessorFlag::CarryFlag, m >= 0x80);
        self.set_or_clear_flag(ProcessorFlag::NegativeFlag, r >= 0x80);
        self.set_or_clear_flag(ProcessorFlag::ZeroFlag, r == 0);
    }

    fn ror<M: Memory>(&mut self, bus: &mut M)
        requires
            old(bus).inv(),
            operand_ok(Mnemonic::Ror, old(self).address),
        ensures
            final(bus).inv(),
            (*final(self), final(bus).model()) == execute::<M>(Mnemonic::Ror, *old(self), old(bus).model()),
    {
        let m = self.load_from_address(bus);
        let r = m / 2 + 0x80 * self.carry();
        self.store_to_address(bus, r);
        self.set_or_clear_flag(ProcessorFlag::CarryFlag, m % 2 == 1);
        self.set_or_clear_flag(ProcessorFlag::NegativeFlag, r >= 0x80);
        self.set_or_clear_flag(ProcessorFlag::ZeroFlag, r == 0);
    }

    fn and<M: Memory>(&mut self, bus: &mut M)
        requires
            old(bus).inv(),
            operand_ok(Mnemonic::And, old(self).address),
        ensures
            final(bus).inv(),
            (*final(self), final(bus).model()) == execute::<M>(Mnemonic::And, *old(self), old(bus).model()),
    {
        let m = self.load_from_address(bus);
        self.a = self.a & m;
        self.set_zn(self.a);
    }

    fn ora<M: Memory>(&mut self, bus: &mut M)
        requires
            old(bus).inv(),
            operand_ok(Mnemonic::Ora, old(self).address),
        ensures
            final(bus).inv(),
            (*final(self), final(bus).model()) == execute::<M>(Mnemonic::Ora, *old(self), old(bus).model()),
    {
        let m = self.load_from_address(bus);
        self.a = self.a | m;
        self.set_zn(self.a);
    }

    fn eor<M: Memory>(&mut self, bus: &mut M)
        requires
            old(bus).inv(),
            operand_ok(Mnemonic::Eor, old(self).address),
        ensures
            final(bus).inv(),
            (*final(self), final(bus).model()) == execute::<M>(Mnemonic::Eor, *old(self), old(bus).model()),
    {
        let m = self.load_from_address(bus);
        self.a = self.a ^ m;
        self.set_zn(self.a);
    }

    fn lda<M: Memory>(&mut self, bus: &mut M)
        requires
            old(bus).inv(),
            operand_ok(Mnemonic::Lda, old(self).address),
        ensures
            final(bus).inv(),
            (*final(self), final(bus).model()) == execute::<M>(Mnemonic::Lda, *old(self), old(bus).model()),
    {
        self.a = self.load_from_address(bus);
        self.set_zn(self.a);
    }

    fn ldx<M: Memory>(&mut self, bus: &mut M)
        requires
            old(bus).inv(),
            operand_ok(Mnemonic::Ldx, old(self).address),
        ensures
            final(bus).inv(),
            (*final(self), final(bus).model()) == execute::<M>(Mnemonic::Ldx, *old(self), old(bus).model()),
    {
        self.x = self.load_from_address(bus);
        self.set_zn(self.x);
    }

    fn ldy<M: Memory>(&mut self, bus: &mut M)
        requires
            old(bus).inv(),
            operand_ok(Mnemonic::Ldy, old(self).address),
        ensures
            final(bus).inv(),
            (*final(self), final(bus).model()) == execute::<M>(Mnemonic::Ldy, *old(self), old(bus).model()),
    {
        self.y = self.load_from_address(bus);
        self.set_zn(self.y);
    }

    fn sta<M: Memory>(&mut self, bus: &mut M)
        requires
            old(bus).inv(),
            operand_ok(Mnemonic::Sta, old(self).address),
        ensures
            final(bus).inv(),
            (*final(self), final(bus).model()) == execute::<M>(Mnemonic::Sta, *old(self), old(bus).model()),
    {
        self.store_to_address(bus, self.a);
    }

    fn stx<M: Memory>(&mut self, bus: &mut M)
        requires
            old(bus).inv(),
            operand_ok(Mnemonic::Stx, old(self).address),
        ensures
            final(bus).inv(),
            (*final(self), final(bus).model()) == execute::<M>(Mnemonic::Stx, *old(self), old(bus).model()),
    {
        self.store_to_address(bus, self.x);
    }

    fn sty<M: Memory>(&mut self, bus: &mut M)
        requires
            old(bus).inv(),
            operand_ok(Mnemonic::Sty, old(self).address),
        ensures
            final(bus).inv(),
            (*final(self), final(bus).model()) == execute::<M>(Mnemonic::Sty, *old(self), old(bus).model()),
    {
        self.store_to_address(bus, self.y);
    }

    fn txs<M: Memory>(&mut self, bus: &mut M)
        requires
            old(bus).inv(),
            operand_ok(Mnemonic::Txs, old(self).address),
        ensures
            final(bus).inv(),
            (*final(self), final(bus).model()) == execute::<M>(Mnemonic::Txs, *old(self), old(bus).model()),
    {
        self.sp = self.x;
    }

    fn tsx<M: Memory>(&mut self, bus: &mut M)
        requires
            old(bus).inv(),
            operand_ok(Mnemonic::Tsx, old(self).address),
        ensures
            final(bus).inv(),
            (*final(self), final(bus).model()) == execute::<M>(Mnemonic::Tsx, *old(self), old(bus).model()),
    {
        self.x = self.sp;
        self.set_zn(self.x);
    }

    fn txa<M: Memory>(&mut self, bus: &mut M)
        requires
            old(bus).inv(),
            operand_ok(Mnemonic::Txa, old(self).address),
        ensures
            final(bus).inv(),
            (*final(self), final(bus).model()) == execute::<M>(Mnemonic::Txa, *old(self), old(bus).model()),
    {
        self.a = self.x;
        self.set_zn(self.a);
    }

    fn tax<M: Memory>(&mut self, bus: &mut M)
        requires
            old(bus).inv(),
            operand_ok(Mnemonic::Tax, old(self).address),
        ensures
            final(bus).inv(),
            (*final(self), final(bus).model()) == execute::<M>(Mnemonic::Tax, *old(self), old(bus).model()),
    {
        self.x = self.a;
        self.set_zn(self.x);
    }

    fn tya<M: Memory>(&mut self, bus: &mut M)
        requires
            old(bus).inv(),
            operand_ok(Mnemonic::Tya, old(self).address),
        ensures
            final(bus).inv(),
            (*final(self), final(bus).model()) == execute::<M>(Mnemonic::Tya, *old(self), old(bus).model()),
    {
        self.a = self.y;
        self.set_zn(self.a);
    }

    fn tay<M: Memory>(&mut self, bus: &mut M)
        requires
            old(bus).inv(),
            operand_ok(Mnemonic::Tay, old(self).address),
        ensures
            final(bus).inv(),
            (*final(self), final(bus).model()) == execute::<M>(Mnemonic::Tay, *old(self), old(bus).model()),
    {
        self.y = self.a;
        self.set_zn(self.y);
    }

    fn sei<M: Memory>(&mut self, bus: &mut M)
        requires
            old(bus).inv(),
            operand_ok(Mnemonic::Sei, old(self).address),
        ensures
            final(bus).inv(),
            (*final(self), final(bus).model()) == execute::<M>(Mnemonic::Sei, *old(self), old(bus).model()),
    {
        self.set_flag(ProcessorFlag::InterruptDisable);
    }

    fn cld<M: Memory>(&mut self, bus: &mut M)
        requires
            old(bus).inv(),
            operand_ok(Mnemonic::Cld, old(self).address),
        ensures
            final(bus).inv(),
            (*final(self), final(bus).model()) == execute::<M>(Mnemonic::Cld, *old(self), old(bus).model()),
    {
        self.clear_flag(ProcessorFlag::DecimalMode);
    }

    fn cli<M: Memory>(&mut self, bus: &mut M)
        requires
            old(bus).inv(),
            operand_ok(Mnemonic::Cli, old(self).address),
        ensures
            final(bus).inv(),
            (*final(self), final(bus).model()) == execute::<M>(Mnemonic::Cli, *old(self), old(bus).model()),
    {
        self.clear_flag(ProcessorFlag::InterruptDisable);
    }

    fn clv<M: Memory>(&mut self, bus: &mut M)
        requires
            old(bus).inv(),
            operand_ok(Mnemonic::Clv, old(self).address),
        ensures
            final(bus).inv(),
            (*final(self), final(bus).model()) == execute::<M>(Mnemonic::Clv, *old(self), old(bus).model()),
    {
        self.clear_flag(ProcessorFlag::OverflowFlag);
    }

    fn clc<M: Memory>(&mut self, bus: &mut M)
        requires
            old(bus).inv(),
            operand_ok(Mnemonic::Clc, old(self).address),
        ensures
            final(bus).inv(),
            (*final(self), final(bus).model()) == execute::<M>(Mnemonic::Clc, *old(self), old(bus).model()),
    {
        self.clear_flag(ProcessorFlag::CarryFlag);
    }

    fn sec<M: Memory>(&mut self, bus: &mut M)
        requires
            old(bus).inv(),
            operand_ok(Mnemonic::Sec, old(self).address),
        ensures
            final(bus).inv(),
            (*final(self), final(bus).model()) == execute::<M>(Mnemonic::Sec, *old(self), old(bus).model()),
    {
        self.set_flag(ProcessorFlag::CarryFlag);
    }

    fn sed<M: Memory>(&mut self, bus: &mut M)
        requires
            old(bus).inv(),
            operand_ok(Mnemonic::Sed, old(self).address),
        ensures
            final(bus).inv(),
            (*final(self), final(bus).model()) == execute::<M>(Mnemonic::Sed, *old(self), old(bus).model()),
    {
        self.set_flag(ProcessorFlag::DecimalMode);
    }

    fn nop<M: Memory>(&mut self, bus: &mut M)
        requires
            old(bus).inv(),
            operand_ok(Mnemonic::Nop, old(self).address),
        ensures
            final(bus).inv(),
            (*final(self), final(bus).model()) == execute::<M>(Mnemonic::Nop, *old(self), old(bus).model()),
    {
    }

    fn las<M: Memory>(&mut self, bus: &mut M)
        requires
            old(bus).inv(),
            operand_ok(Mnemonic::Las, old(self).address),
        ensures
            final(bus).inv(),
            (*final(self), final(bus).model()) == execute::<M>(Mnemonic::Las, *old(self), old(bus).model()),
    {
    }

    fn oal<M: Memory>(&mut self, bus: &mut M)
        requires
            old(bus).inv(),
            operand_ok(Mnemonic::Oal, old(self).address),
        ensures
            final(bus).inv(),
            (*final(self), final(bus).model()) == execute::<M>(Mnemonic::Oal, *old(self), old(bus).model()),
    {
    }

    fn sax<M: Memory>(&mut self, bus: &mut M)
        requires
            old(bus).inv(),
            operand_ok(Mnemonic::Sax, old(self).address),
        ensures
            final(bus).inv(),
            (*final(self), final(bus).model()) == execute::<M>(Mnemonic::Sax, *old(self), old(bus).model()),
    {
    }

    fn say<M: Memory>(&mut self, bus: &mut M)
        requires
            old(bus).inv(),
            operand_ok(Mnemonic::Say, old(self).address),
        ensures
            final(bus).inv(),
            (*final(self), final(bus).model()) == execute::<M>(Mnemonic::Say, *old(self), old(bus).model()),
    {
    }

    fn tas<M: Memory>(&mut self, bus: &mut M)
        requires
            old(bus).inv(),
            operand_ok(Mnemonic::Tas, old(self).address),
        ensures
            final(bus).inv(),
            (*final(self), final(bus).model()) == execute::<M>(Mnemonic::Tas, *old(self), old(bus).model()),
    {
    }

    fn xas<M: Memory>(&mut self, bus: &mut M)
        requires
            old(bus).inv(),
            operand_ok(Mnemonic::Xas, old(self).address),
        ensures
            final(bus).inv(),
            (*final(self), final(bus).model()) == execute::<M>(Mnemonic::Xas, *old(self), old(bus).model()),
    {
    }

    fn bit<M: Memory>(&mut self, bus: &mut M)
        requires
            old(bus).inv(),
            operand_ok(Mnemonic::Bit, old(self).address),
        ensures
            final(bus).inv(),
            (*final(self), final(bus).model()) == execute::<M>(Mnemonic::Bit, *old(self), old(bus).model()),
    {
        let m = self.load_from_address(bus);
        self.set_or_clear_flag(ProcessorFlag::ZeroFlag, self.a & m == 0);
        self.set_or_clear_flag(ProcessorFlag::OverflowFlag, (m / 64) % 2 == 1);
        self.set_or_clear_flag(ProcessorFlag::NegativeFlag, m >= 0x80);
    }

    fn cmp<M: Memory>(&mut self, bus: &mut M)
        requires
            old(bus).inv(),
            operand_ok(Mnemonic::Cmp, old(self).address),
        ensures
            final(bus).inv(),
            (*final(self), final(bus).model()) == execute::<M>(Mnemonic::Cmp, *old(self), old(bus).model()),
    {
        let m = self.load_from_address(bus);
        let result = self.a.wrapping_sub(m);
        self.set_or_clear_flag(ProcessorFlag::ZeroFlag, self.a == m);
        self.set_or_clear_flag(ProcessorFlag::CarryFlag, self.a >= m);
        self.set_or_clear_flag(ProcessorFlag::NegativeFlag, result >= 0x80);
    }

    fn cpx<M: Memory>(&mut self, bus: &mut M)
        requires
            old(bus).inv(),
            operand_ok(Mnemonic::Cpx, old(self).address),
        ensures
            final(bus).inv(),
            (*final(self), final(bus).model()) == execute::<M>(Mnemonic::Cpx, *old(self), old(bus).model()),
    {
        let m = self.load_from_address(bus);
        let result = self.x.wrapping_sub(m);
        self.set_or_clear_flag(ProcessorFlag::ZeroFlag, self.x == m);
        self.set_or_clear_flag(ProcessorFlag::CarryFlag, self.x >= m);
        self.set_or_clear_flag(ProcessorFlag::NegativeFlag, result >= 0x80);
    }

    fn cpy<M: Memory>(&mut self, bus: &mut M)
        requires
            old(bus).inv(),
            operand_ok(Mnemonic::Cpy, old(self).address),
        ensures
            final(bus).inv(),
            (*final(self), final(bus).model()) == execute::<M>(Mnemonic::Cpy, *old(self), old(bus).model()),
    {
        let m = self.load_from_address(bus);
        let result = self.y.wrapping_sub(m);
        self.set_or_clear_flag(ProcessorFlag::ZeroFlag, self.y == m);
        self.set_or_clear_flag(ProcessorFlag::CarryFlag, self.y >= m);
        self.set_or_clear_flag(ProcessorFlag::NegativeFlag, result >= 0x80);
    }

    fn dey<M: Memory>(&mut self, bus: &mut M)
        requires
            old(bus).inv(),
            operand_ok(Mnemonic::Dey, old(self).address),
        ensures
            final(bus).inv(),
            (*final(self), final(bus).model()) == execute::<M>(Mnemonic::Dey, *old(self), old(bus).model()),
    {
        if self.y == 0 {
            self.y = 0xFF;
        } else {
            self.y = self.y - 1;
        }
        self.set_zn(self.y);
    }

    fn dex<M: Memory>(&mut self, bus: &mut M)
        requires
            old(bus).inv(),
            operand_ok(Mnemonic::Dex, old(self).address),
        ensures
            final(bus).inv(),
            (*final(self), final(bus).model()) == execute::<M>(Mnemonic::Dex, *old(self), old(bus).model()),
    {
        if self.x == 0 {
            self.x = 0xFF;
        } else {
            self.x = self.x - 1;
        }
        self.set_zn(self.x);
    }

    fn dec<M: Memory>(&mut self, bus: &mut M)
        requires
            old(bus).inv(),
            operand_ok(Mnemonic::Dec, old(self).address),
        ensures
            final(bus).inv(),
            (*final(self), final(bus).model()) == execute::<M>(Mnemonic::Dec, *old(self), old(bus).model()),
    {
        let mut m = self.load_from_address(bus);
        if m == 0 {
            m = 0xFF;
        } else {
            m = m - 1;
        }
        self.set_zn(m);
        self.store_to_address(bus, m);
    }

    fn inc<M: Memory>(&mut self, bus: &mut M)
        requires
            old(bus).inv(),
            operand_ok(Mnemonic::Inc, old(self).address),
        ensures
            final(bus).inv(),
            (*final(self), final(bus).model()) == execute::<M>(Mnemonic::Inc, *old(self), old(bus).model()),
    {
        let m = self.load_from_address(bus);
        let r = m.wrapping_add(1);
        self.set_zn(r);
        self.store_to_address(bus, r);
    }

    fn inx<M: Memory>(&mut self, bus: &mut M)
        requires
            old(bus).inv(),
            operand_ok(Mnemonic::Inx, old(self).address),
        ensures
            final(bus).inv(),
            (*final(self), final(bus).model()) == execute::<M>(Mnemonic::Inx, *old(self), old(bus).model()),
    {
        self.x = self.x.wrapping_add(1);
        self.set_zn(self.x);
    }

    fn iny<M: Memory>(&mut self, bus: &mut M)
        requires
            old(bus).inv(),
            operand_ok(Mnemonic::Iny, old(self).address),
        ensures
            final(bus).inv(),
            (*final(self), final(bus).model()) == execute::<M>(Mnemonic::Iny, *old(self), old(bus).model()),
    {
        self.y = self.y.wrapping_add(1);
        self.set_zn(self.y);
    }

    fn pha<M: Memory>(&mut self, bus: &mut M)
        requires
            old(bus).inv(),
            operand_ok(Mnemonic::Pha, old(self).address),
        ensures
            final(bus).inv(),
            (*final(self), final(bus).model()) == execute::<M>(Mnemonic::Pha, *old(self), old(bus).model()),
    {
        self.push_byte(bus, self.a);
    }

    fn php<M: Memory>(&mut self, bus: &mut M)
        requires
            old(bus).inv(),
            operand_ok(Mnemonic::Php, old(self).address),
        ensures
            final(bus).inv(),
            (*final(self), final(bus).model()) == execute::<M>(Mnemonic::Php, *old(self), old(bus).model()),
    {
        let ps = self.ps | 0x30;
        self.push_byte(bus, ps);
    }

    fn pla<M: Memory>(&mut self, bus: &mut M)
        requires
            old(bus).inv(),
            operand_ok(Mnemonic::Pla, old(self).address),
        ensures
            final(bus).inv(),
            (*final(self), final(bus).model()) == execute::<M>(Mnemonic::Pla, *old(self), old(bus).model()),
    {
        self.a = self.pop_byte(bus);
        self.set_zn(self.a);
    }

    fn plp<M: Memory>(&mut self, bus: &mut M)
        requires
            old(bus).inv(),
            operand_ok(Mnemonic::Plp, old(self).address),
        ensures
            final(bus).inv(),
            (*final(self), final(bus).model()) == execute::<M>(Mnemonic::Plp, *old(self), old(bus).model()),
    {
        self.rti_restore_ps(bus);
    }

    fn lax<M: Memory>(&mut self, bus: &mut M)
        requires
            old(bus).inv(),
            operand_ok(Mnemonic::Lax, old(self).address),
        ensures
            final(bus).inv(),
            (*final(self), final(bus).model()) == execute::<M>(Mnemonic::Lax, *old(self), old(bus).model()),
    {
        let m = self.load_from_address(bus);
        self.a = m;
        self.x = m;
        self.set_zn(m);
    }

    fn aax<M: Memory>(&mut self, bus: &mut M)
        requires
            old(bus).inv(),
            operand_ok(Mnemonic::Aax, old(self).address),
        ensures
            final(bus).inv(),
            (*final(self), final(bus).model()) == execute::<M>(Mnemonic::Aax, *old(self), old(bus).model()),
    {
        let result = self.a & self.x;
        self.store_to_address(bus, result);
    }

    fn alr<M: Memory>(&mut self, bus: &mut M)
        requires
            old(bus).inv(),
            operand_ok(Mnemonic::Alr, old(self).address),
        ensures
            final(bus).inv(),
            (*final(self), final(bus).model()) == execute::<M>(Mnemonic::Alr, *old(self), old(bus).model()),
    {
        self.and(bus);
        self.address = Address::Accumulator;
        self.lsr(bus);
    }

    fn arr<M: Memory>(&mut self, bus: &mut M)
        requires
            old(bus).inv(),
            operand_ok(Mnemonic::Arr, old(self).address),
        ensures
            final(bus).inv(),
            (*final(self), final(bus).model()) == execute::<M>(Mnemonic::Arr, *old(self), old(bus).model()),
    {
        self.and(bus);
        self.address = Address::Accumulator;
        self.ror(bus);
    }

    fn anc<M: Memory>(&mut self, bus: &mut M)
        requires
            old(bus).inv(),
            operand_ok(Mnemonic::Anc, old(self).address),
        ensures
            final(bus).inv(),
            (*final(self), final(bus).model()) == execute::<M>(Mnemonic::Anc, *old(self), old(bus).model()),
    {
        self.and(bus);
        let n = self.get_flag(ProcessorFlag::NegativeFlag);
        self.set_or_clear_flag(ProcessorFlag::CarryFlag, n);
    }

    fn axa<M: Memory>(&mut self, bus: &mut M)
        requires
            old(bus).inv(),
            operand_ok(Mnemonic::Axa, old(self).address),
        ensures
            final(bus).inv(),
            (*final(self), final(bus).model()) == execute::<M>(Mnemonic::Axa, *old(self), old(bus).model()),
    {
        self.and(bus);
        self.lsr(bus);
    }

    fn dcp<M: Memory>(&mut self, bus: &mut M)
        requires
            old(bus).inv(),
            operand_ok(Mnemonic::Dcp, old(self).address),
        ensures
            final(bus).inv(),
            (*final(self), final(bus).model()) == execute::<M>(Mnemonic::Dcp, *old(self), old(bus).model()),
    {
        self.dec(bus);
        self.cmp(bus);
    }

    fn isc<M: Memory>(&mut self, bus: &mut M)
        requires
            old(bus).inv(),
            operand_ok(Mnemonic::Isc, old(self).address),
        ensures
            final(bus).inv(),
            (*final(self), final(bus).model()) == execute::<M>(Mnemonic::Isc, *old(self), old(bus).model()),
    {
        self.inc(bus);
        self.sbc(bus);
    }

    fn slo<M: Memory>(&mut self, bus: &mut M)
        requires
            old(bus).inv(),
            operand_ok(Mnemonic::Slo, old(self).address),
        ensures
            final(bus).inv(),
            (*final(self), final(bus).model()) == execute::<M>(Mnemonic::Slo, *old(self), old(bus).model()),
    {
        self.asl(bus);
        self.ora(bus);
    }

    fn rla<M: Memory>(&mut self, bus: &mut M)
        requires
            old(bus).inv(),
            operand_ok(Mnemonic::Rla, old(self).address),
        ensures
            final(bus).inv(),
            (*final(self), final(bus).model()) == execute::<M>(Mnemonic::Rla, *old(self), old(bus).model()),
    {
        self.rol(bus);
        self.and(bus);
    }

    fn sre<M: Memory>(&mut self, bus: &mut M)
        requires
            old(bus).inv(),
            operand_ok(Mnemonic::Sre, old(self).address),
        ensures
            final(bus).inv(),
            (*final(self), final(bus).model()) == execute::<M>(Mnemonic::Sre, *old(self), old(bus).model()),
    {
        self.lsr(bus);
        self.eor(bus);
    }

    fn rra<M: Memory>(&mut self, bus: &mut M)
        requires
            old(bus).inv(),
            operand_ok(Mnemonic::Rra, old(self).address),
        ensures
            final(bus).inv(),
            (*final(self), final(bus).model()) == execute::<M>(Mnemonic::Rra, *old(self), old(bus).model()),
    {
        self.ror(bus);
        self.adc(bus);
    }

    fn xaa<M: Memory>(&mut self, bus: &mut M)
        requires
            old(bus).inv(),
            operand_ok(Mnemonic::Xaa, old(self).address),
        ensures
            final(bus).inv(),
            (*final(self), final(bus).model()) == execute::<M>(Mnemonic::Xaa, *old(self), old(bus).model()),
    {
        self.txa(bus);
        self.and(bus);
    }

    fn jmp<M: Memory>(&mut self, bus: &mut M)
        requires
            old(bus).inv(),
            operand_ok(Mnemonic::Jmp, old(self).address),
        ensures
            final(bus).inv(),
            (*final(self), final(bus).model()) == execute::<M>(Mnemonic::Jmp, *old(self), old(bus).model()),
    {
        self.pc = self.get_ram_address().wrapping_sub(3);
    }

    fn jsr<M: Memory>(&mut self, bus: &mut M)
        requires
            old(bus).inv(),
            operand_ok(Mnemonic::Jsr, old(self).address),
        ensures
            final(bus).inv(),
            (*final(self), final(bus).model()) == execute::<M>(Mnemonic::Jsr, *old(self), old(bus).model()),
    {
        self.push_word(bus, self.pc.wrapping_add(2));
        self.pc = self.get_ram_address().wrapping_sub(3);
    }

    fn rts<M: Memory>(&mut self, bus: &mut M)
        requires
            old(bus).inv(),
            operand_ok(Mnemonic::Rts, old(self).address),
        ensures
            final(bus).inv(),
            (*final(self), final(bus).model()) == execute::<M>(Mnemonic::Rts, *old(self), old(bus).model()),
    {
        self.pc = self.pop_word(bus);
    }

    fn rti<M: Memory>(&mut self, bus: &mut M)
        requires
            old(bus).inv(),
            operand_ok(Mnemonic::Rti, old(self).address),
        ensures
            final(bus).inv(),
            (*final(self), final(bus).model()) == execute::<M>(Mnemonic::Rti, *old(self), old(bus).model()),
    {
        let popped = self.pop_word(bus);
        self.pc = popped.wrapping_sub(1);
    }

    fn brk<M: Memory>(&mut self, bus: &mut M)
        requires
            old(bus).inv(),
            operand_ok(Mnemonic::Brk, old(self).address),
        ensures
            final(bus).inv(),
            (*final(self), final(bus).model()) == execute::<M>(Mnemonic::Brk, *old(self), old(bus).model()),
    {
        self.push_word(bus, self.pc.wrapping_add(2));
        let ps = self.ps | 0x30;
        self.push_byte(bus, ps);
        self.set_flag(ProcessorFlag::InterruptDisable);
        self.update_pc_for_brk_or_irq(bus);
    }

    fn irq<M: Memory>(&mut self, bus: &mut M)
        requires
            old(bus).inv(),
            operand_ok(Mnemonic::Irq, old(self).address),
        ensures
            final(bus).inv(),
            (*final(self), final(bus).model()) == execute::<M>(Mnemonic::Irq, *old(self), old(bus).model()),
    {
        self.push_word(bus, self.pc);
        let ps = (self.ps & !0x10u8) | 0x20;
        self.push_byte(bus, ps);
        self.set_flag(ProcessorFlag::InterruptDisable);
        self.update_pc_for_brk_or_irq(bus);
    }

    fn nmi<M: Memory>(&mut self, bus: &mut M)
        requires
            old(bus).inv(),
            operand_ok(Mnemonic::Nmi, old(self).address),
        ensures
            final(bus).inv(),
            (*final(self), final(bus).model()) == execute::<M>(Mnemonic::Nmi, *old(self), old(bus).model()),
    {
        self.push_word(bus, self.pc);
        let ps = (self.ps & !0x10u8) | 0x20;
        self.push_byte(bus, ps);
        self.set_flag(ProcessorFlag::InterruptDisable);
        self.pc = Self::get_word(bus, 0xFFFA).wrapping_sub(1);
    }

    fn beq<M: Memory>(&mut self, bus: &mut M)
        requires
            old(bus).inv(),
            operand_ok(Mnemonic::Beq, old(self).address),
        ensures
            final(bus).inv(),
            (*final(self), final(bus).model()) == execute::<M>(Mnemonic::Beq, *old(self), old(bus).model()),
    {
        let cond = self.check_condition_for_beq();
        self.branch_if(cond);
    }

    fn bne<M: Memory>(&mut self, bus: &mut M)
        requires
            old(bus).inv(),
            operand_ok(Mnemonic::Bne, old(self).address),
        ensures
            final(bus).inv(),
            (*final(self), final(bus).model()) == execute::<M>(Mnemonic::Bne, *old(self), old(bus).model()),
    {
        let cond = self.check_condition_for_bne();
        self.branch_if(cond);
    }

    fn bmi<M: Memory>(&mut self, bus: &mut M)
        requires
            old(bus).inv(),
            operand_ok(Mnemonic::Bmi, old(self).address),
        ensures
            final(bus).inv(),
            (*final(self), final(bus).model()) == execute::<M>(Mnemonic::Bmi, *old(self), old(bus).model()),
    {
        let cond = self.check_condition_for_bmi();
        self.branch_if(cond);
    }

    fn bpl<M: Memory>(&mut self, bus: &mut M)
        requires
            old(bus).inv(),
            operand_ok(Mnemonic::Bpl, old(self).address),
        ensures
            final(bus).inv(),
            (*final(self), final(bus).model()) == execute::<M>(Mnemonic::Bpl, *old(self), old(bus).model()),
    {
        let cond = self.check_condition_for_bpl();
        self.branch_if(cond);
    }

    fn bvs<M: Memory>(&mut self, bus: &mut M)
        requires
            old(bus).inv(),
            operand_ok(Mnemonic::Bvs, old(self).address),
        ensures
            final(bus).inv(),
            (*final(self), final(bus).model()) == execute::<M>(Mnemonic::Bvs, *old(self), old(bus).model()),
    {
        let cond = self.check_condition_for_bvs();
        self.branch_if(cond);
    }

    fn bvc<M: Memory>(&mut self, bus: &mut M)
        requires
            old(bus).inv(),
            operand_ok(Mnemonic::Bvc, old(self).address),
        ensures
            final(bus).inv(),
            (*final(self), final(bus).model()) == execute::<M>(Mnemonic::Bvc, *old(self), old(bus).model()),
    {
        let cond = self.check_condition_for_bvc();
        self.branch_if(cond);
    }

    fn bcs<M: Memory>(&mut self, bus: &mut M)
        requires
            old(bus).inv(),
            operand_ok(Mnemonic::Bcs, old(self).address),
        ensures
            final(bus).inv(),
            (*final(self), final(bus).model()) == execute::<M>(Mnemonic::Bcs, *old(self), old(bus).model()),
    {
        let cond = self.check_condition_for_bcs();
        self.branch_if(cond);
    }

    fn bcc<M: Memory>(&mut self, bus: &mut M)
        requires
            old(bus).inv(),
            operand_ok(Mnemonic::Bcc, old(self).address),
        ensures
            final(bus).inv(),
            (*final(self), final(bus).model()) == execute::<M>(Mnemonic::Bcc, *old(self), old(bus).model()),
    {
        let cond = self.check_condition_for_bcc();
        self.branch_if(cond);
    }
}

} // verus!

verus! {

/// Executing an operation changes neither the opcode table, nor the pending
/// interrupt, nor the OAM DMA bookkeeping, nor the instruction in progress.
proof fn lemma_execute_frame<M: Memory>(mn: Mnemonic, c: Cpu, mm: M::Model)
    ensures
        execute::<M>(mn, c, mm).0.opcodes == c.opcodes,
        execute::<M>(mn, c, mm).0.interrupt == c.interrupt,
        execute::<M>(mn, c, mm).0.oam_dma_in_progress == c.oam_dma_in_progress,
        execute::<M>(mn, c, mm).0.instruction == c.instruction,
        execute::<M>(mn, c, mm).0.cycle == c.cycle,
{
    match mn {
        Mnemonic::Aax => {},
        Mnemonic::Adc => {},
        Mnemonic::Alr => {},
        Mnemonic::Anc => {},
        Mnemonic::And => {},
        Mnemonic::Arr => {},
        Mnemonic::Asl => {},
        Mnemonic::Axa => {},
        Mnemonic::Bcc => {},
        Mnemonic::Bcs => {},
        Mnemonic::Beq => {},
        Mnemonic::Bit => {},
        Mnemonic::Bmi => {},
        Mnemonic::Bne => {},
        Mnemonic::Bpl => {},
        Mnemonic::Brk => {},
        Mnemonic::Bvc => {},
        Mnemonic::Bvs => {},
        Mnemonic::Clc => {},
        Mnemonic::Cld => {},
        Mnemonic::Cli => {},
        Mnemonic::Clv => {},
        Mnemonic::Cmp => {},
        Mnemonic::Cpx => {},
        Mnemonic::Cpy => {},
        Mnemonic::Dcp => {},
        Mnemonic::Dec => {},
        Mnemonic::Dex => {},
        Mnemonic::Dey => {},
        Mnemonic::Eor => {},
        Mnemonic::Inc => {},
        Mnemonic::Inx => {},
        Mnemonic::Iny => {},
        Mnemonic::Irq => {},
        Mnemonic::Isc => {},
        Mnemonic::Jmp => {},
        Mnemonic::Jsr => {},
        Mnemonic::Las => {},
        Mnemonic::Lax => {},
        Mnemonic::Lda => {},
        Mnemonic::Ldx => {},
        Mnemonic::Ldy => {},
        Mnemonic::Lsr => {},
        Mnemonic::Nmi => {},
        Mnemonic::Nop => {},
        Mnemonic::Oal => {},
        Mnemonic::Ora => {},
        Mnemonic::Pha => {},
        Mnemonic::Php => {},
        Mnemonic::Pla => {},
        Mnemonic::Plp => {},
        Mnemonic::Rla => {},
        Mnemonic::Rol => {},
        Mnemonic::Ror => {},
        Mnemonic::Rra => {},
        Mnemonic::Rti => {},
        Mnemonic::Rts => {},
        Mnemonic::Sax => {},
        Mnemonic::Say => {},
        Mnemonic::Sbc => {},
        Mnemonic::Sec => {},
        Mnemonic::Sed => {},
        Mnemonic::Sei => {},
        Mnemonic::Slo => {},
        Mnemonic::Sre => {},
        Mnemonic::Sta => {},
        Mnemonic::Stx => {},
        Mnemonic::Sty => {},
        Mnemonic::Tas => {},
        Mnemonic::Tax => {},
        Mnemonic::Tay => {},
        Mnemonic::Tsx => {},
        Mnemonic::Txa => {},
        Mnemonic::Txs => {},
        Mnemonic::Tya => {},
        Mnemonic::Xaa => {},
        Mnemonic::Xas => {},
    }
}

/// Every entry of the instruction set takes at least two cycles, and the
/// branches come in relative mode.
pub proof fn lemma_opcode_table(op: u8)
    requires
        opcode_spec(op) is Some,
    ensures
        opcode_spec(op).unwrap().base_cycles >= 2,
        is_branch(opcode_spec(op).unwrap().instruction) ==> opcode_spec(op).unwrap().mode
            == AddressingMode::Relative,
{
    match op {
        0x00u8 => {},
        0x01u8 => {},
        0x02u8 => {},
        0x03u8 => {},
        0x04u8 => {},
        0x05u8 => {},
        0x06u8 => {},
        0x07u8 => {},
        0x08u8 => {},
        0x09u8 => {},
        0x0Au8 => {},
        0x0Bu8 => {},
        0x0Cu8 => {},
        0x0Du8 => {},
        0x0Eu8 => {},
        0x0Fu8 => {},
        0x10u8 => {},
        0x11u8 => {},
        0x12u8 => {},
        0x13u8 => {},
        0x14u8 => {},
        0x15u8 => {},
        0x16u8 => {},
        0x17u8 => {},
        0x18u8 => {},
        0x19u8 => {},
        0x1Au8 => {},
        0x1Bu8 => {},
        0x1Cu8 => {},
        0x1Du8 => {},
        0x1Eu8 => {},
        0x1Fu8 => {},
        0x20u8 => {},
        0x21u8 => {},
        0x22u8 => {},
        0x23u8 => {},
        0x24u8 => {},
        0x25u8 => {},
        0x26u8 => {},
        0x27u8 => {},
        0x28u8 => {},
        0x29u8 => {},
        0x2Au8 => {},
        0x2Bu8 => {},
        0x2Cu8 => {},
        0x2Du8 => {},
        0x2Eu8 => {},
        0x2Fu8 => {},
        0x30u8 => {},
        0x31u8 => {},
        0x32u8 => {},
        0x33u8 => {},
        0x34u8 => {},
        0x35u8 => {},
        0x36u8 => {},
        0x37u8 => {},
        0x38u8 => {},
        0x39u8 => {},
        0x3Au8 => {},
        0x3Bu8 => {},
        0x3Cu8 => {},
        0x3Du8 => {},
        0x3Eu8 => {},
        0x3Fu8 => {},
        0x40u8 => {},
        0x41u8 => {},
        0x42u8 => {},
        0x43u8 => {},
        0x44u8 => {},
        0x45u8 => {},
        0x46u8 => {},
        0x47u8 => {},
        0x48u8 => {},
        0x49u8 => {},
        0x4Au8 => {},
        0x4Bu8 => {},
        0x4Cu8 => {},
        0x4Du8 => {},
        0x4Eu8 => {},
        0x4Fu8 => {},
        0x50u8 => {},
        0x51u8 => {},
        0x52u8 => {},
        0x53u8 => {},
        0x54u8 => {},
        0x55u8 => {},
        0x56u8 => {},
        0x57u8 => {},
        0x58u8 => {},
        0x59u8 => {},
        0x5Au8 => {},
        0x5Bu8 => {},
        0x5Cu8 => {},
        0x5Du8 => {},
        0x5Eu8 => {},
        0x5Fu8 => {},
        0x60u8 => {},
        0x61u8 => {},
        0x62u8 => {},
        0x63u8 => {},
        0x64u8 => {},
        0x65u8 => {},
        0x66u8 => {},
        0x67u8 => {},
        0x68u8 => {},
        0x69u8 => {},
        0x6Au8 => {},
        0x6Bu8 => {},
        0x6Cu8 => {},
        0x6Du8 => {},
        0x6Eu8 => {},
        0x6Fu8 => {},
        0x70u8 => {},
        0x71u8 => {},
        0x72u8 => {},
        0x73u8 => {},
        0x74u8 => {},
        0x75u8 => {},
        0x76u8 => {},
        0x77u8 => {},
        0x78u8 => {},
        0x79u8 => {},
        0x7Au8 => {},
        0x7Bu8 => {},
        0x7Cu8 => {},
        0x7Du8 => {},
        0x7Eu8 => {},
        0x7Fu8 => {},
        0x80u8 => {},
        0x81u8 => {},
        0x82u8 => {},
        0x83u8 => {},
        0x84u8 => {},
        0x85u8 => {},
        0x86u8 => {},
        0x87u8 => {},
        0x88u8 => {},
        0x89u8 => {},
        0x8Au8 => {},
        0x8Bu8 => {},
        0x8Cu8 => {},
        0x8Du8 => {},
        0x8Eu8 => {},
        0x8Fu8 => {},
        0x90u8 => {},
        0x91u8 => {},
        0x92u8 => {},
        0x93u8 => {},
        0x94u8 => {},
        0x95u8 => {},
        0x96u8 => {},
        0x97u8 => {},
        0x98u8 => {},
        0x99u8 => {},
        0x9Au8 => {},
        0x9Bu8 => {},
        0x9Cu8 => {},
        0x9Du8 => {},
        0x9Eu8 => {},
        0x9Fu8 => {},
        0xA0u8 => {},
        0xA1u8 => {},
        0xA2u8 => {},
        0xA3u8 => {},
        0xA4u8 => {},
        0xA5u8 => {},
        0xA6u8 => {},
        0xA7u8 => {},
        0xA8u8 => {},
        0xA9u8 => {},
        0xAAu8 => {},
        0xABu8 => {},
        0xACu8 => {},
        0xADu8 => {},
        0xAEu8 => {},
        0xAFu8 => {},
        0xB0u8 => {},
        0xB1u8 => {},
        0xB2u8 => {},
        0xB3u8 => {},
        0xB4u8 => {},
        0xB5u8 => {},
        0xB6u8 => {},
        0xB7u8 => {},
        0xB8u8 => {},
        0xB9u8 => {},
        0xBAu8 => {},
        0xBBu8 => {},
        0xBCu8 => {},
        0xBDu8 => {},
        0xBEu8 => {},
        0xBFu8 => {},
        0xC0u8 => {},
        0xC1u8 => {},
        0xC2u8 => {},
        0xC3u8 => {},
        0xC4u8 => {},
        0xC5u8 => {},
        0xC6u8 => {},
        0xC7u8 => {},
        0xC8u8 => {},
        0xC9u8 => {},
        0xCAu8 => {},
        0xCBu8 => {},
        0xCCu8 => {},
        0xCDu8 => {},
        0xCEu8 => {},
        0xCFu8 => {},
        0xD0u8 => {},
        0xD1u8 => {},
        0xD2u8 => {},
        0xD3u8 => {},
        0xD4u8 => {},
        0xD5u8 => {},
        0xD6u8 => {},
        0xD7u8 => {},
        0xD8u8 => {},
        0xD9u8 => {},
        0xDAu8 => {},
        0xDBu8 => {},
        0xDCu8 => {},
        0xDDu8 => {},
        0xDEu8 => {},
        0xDFu8 => {},
        0xE0u8 => {},
        0xE1u8 => {},
        0xE2u8 => {},
        0xE3u8 => {},
        0xE4u8 => {},
        0xE5u8 => {},
        0xE6u8 => {},
        0xE7u8 => {},
        0xE8u8 => {},
        0xE9u8 => {},
        0xEAu8 => {},
        0xEBu8 => {},
        0xECu8 => {},
        0xEDu8 => {},
        0xEEu8 => {},
        0xEFu8 => {},
        0xF0u8 => {},
        0xF1u8 => {},
        0xF2u8 => {},
        0xF3u8 => {},
        0xF4u8 => {},
        0xF5u8 => {},
        0xF6u8 => {},
        0xF7u8 => {},
        0xF8u8 => {},
        0xF9u8 => {},
        0xFAu8 => {},
        0xFBu8 => {},
        0xFCu8 => {},
        0xFDu8 => {},
        0xFEu8 => {},
        0xFFu8 => {},
    }
}

impl Cpu {
    fn execute_instruction<M: Memory>(&mut self, mn: Mnemonic, bus: &mut M)
        requires
            old(bus).inv(),
            operand_ok(mn, old(self).address),
        ensures
            final(bus).inv(),
            (*final(self), final(bus).model()) == execute::<M>(mn, *old(self), old(bus).model()),
    {
        match mn {
            Mnemonic::Aax => self.aax(bus),
            Mnemonic::Adc => self.adc(bus),
            Mnemonic::Alr => self.alr(bus),
            Mnemonic::Anc => self.anc(bus),
            Mnemonic::And => self.and(bus),
            Mnemonic::Arr => self.arr(bus),
            Mnemonic::Asl => self.asl(bus),
            Mnemonic::Axa => self.axa(bus),
            Mnemonic::Bcc => self.bcc(bus),
            Mnemonic::Bcs => self.bcs(bus),
            Mnemonic::Beq => self.beq(bus),
            Mnemonic::Bit => self.bit(bus),
            Mnemonic::Bmi => self.bmi(bus),
            Mnemonic::Bne => self.bne(bus),
            Mnemonic::Bpl => self.bpl(bus),
            Mnemonic::Brk => self.brk(bus),
            Mnemonic::Bvc => self.bvc(bus),
            Mnemonic::Bvs => self.bvs(bus),
            Mnemonic::Clc => self.clc(bus),
            Mnemonic::Cld => self.cld(bus),
            Mnemonic::Cli => self.cli(bus),
            Mnemonic::Clv => self.clv(bus),
            Mnemonic::Cmp => self.cmp(bus),
            Mnemonic::Cpx => self.cpx(bus),
            Mnemonic::Cpy => self.cpy(bus),
            Mnemonic::Dcp => self.dcp(bus),
            Mnemonic::Dec => self.dec(bus),
            Mnemonic::Dex => self.dex(bus),
            Mnemonic::Dey => self.dey(bus),
            Mnemonic::Eor => self.eor(bus),
            Mnemonic::Inc => self.inc(bus),
            Mnemonic::Inx => self.inx(bus),
            Mnemonic::Iny => self.iny(bus),
            Mnemonic::Irq => self.irq(bus),
            Mnemonic::Isc => self.isc(bus),
            Mnemonic::Jmp => self.jmp(bus),
            Mnemonic::Jsr => self.jsr(bus),
            Mnemonic::Las => self.las(bus),
            Mnemonic::Lax => self.lax(bus),
            Mnemonic::Lda => self.lda(bus),
            Mnemonic::Ldx => self.ldx(bus),
            Mnemonic::Ldy => self.ldy(bus),
            Mnemonic::Lsr => self.lsr(bus),
            Mnemonic::Nmi => self.nmi(bus),
            Mnemonic::Nop => self.nop(bus),
            Mnemonic::Oal => self.oal(bus),
            Mnemonic::Ora => self.ora(bus),
            Mnemonic::Pha => self.pha(bus),
            Mnemonic::Php => self.php(bus),
            Mnemonic::Pla => self.pla(bus),
            Mnemonic::Plp => self.plp(bus),
            Mnemonic::Rla => self.rla(bus),
            Mnemonic::Rol => self.rol(bus),
            Mnemonic::Ror => self.ror(bus),
            Mnemonic::Rra => self.rra(bus),
            Mnemonic::Rti => self.rti(bus),
            Mnemonic::Rts => self.rts(bus),
            Mnemonic::Sax => self.sax(bus),
            Mnemonic::Say => self.say(bus),
            Mnemonic::Sbc => self.sbc(bus),
            Mnemonic::Sec => self.sec(bus),
            Mnemonic::Sed => self.sed(bus),
            Mnemonic::Sei => self.sei(bus),
            Mnemonic::Slo => self.slo(bus),
            Mnemonic::Sre => self.sre(bus),
            Mnemonic::Sta => self.sta(bus),
            Mnemonic::Stx => self.stx(bus),
            Mnemonic::Sty => self.sty(bus),
            Mnemonic::Tas => self.tas(bus),
            Mnemonic::Tax => self.tax(bus),
            Mnemonic::Tay => self.tay(bus),
            Mnemonic::Tsx => self.tsx(bus),
            Mnemonic::Txa => self.txa(bus),
            Mnemonic::Txs => self.txs(bus),
            Mnemonic::Tya => self.tya(bus),
            Mnemonic::Xaa => self.xaa(bus),
            Mnemonic::Xas => self.xas(bus),
        }
    }

    fn is_page_crossed(addr_1: u16, addr_2: u16) -> (r: bool)
        ensures
            r == (page(addr_1) != page(addr_2)),
    {
        addr_1 / 256 != addr_2 / 256
    }

    fn get_address_and_extra_cycle_from_page_crossing<M: Memory>(
        &self,
        bus: &M,
        operand_1: u8,
        operand_2: u8,
        mode: AddressingMode,
        extra_cycle_on_page_crossing: bool,
    ) -> (r: (Address, u16))
        requires
            bus.inv(),
        ensures
            r == address_spec::<M>(*self, bus.model(), operand_1, operand_2, mode, extra_cycle_on_page_crossing),
    {
        let b0_u16 = operand_1 as u16;
        let b1_u16 = operand_2 as u16;
        let x_u16 = self.x as u16;
        let y_u16 = self.y as u16;
        let zero_page_x = (b0_u16 + x_u16) % 256;
        let zero_page_x_hi = (b0_u16 + x_u16 + 1) % 256;
        let zero_page_y = (b0_u16 + y_u16) % 256;
        let mut extra_cycle: u16 = 0;
        let address = match mode {
            AddressingMode::Implicit => Address::Implicit,
            AddressingMode::Accumulator => Address::Accumulator,
            AddressingMode::Immediate => Address::Immediate(operand_1),
            AddressingMode::ZeroPage => Address::Ram(b0_u16),
            AddressingMode::ZeroPageX => Address::Ram(zero_page_x),
            AddressingMode::ZeroPageY => Address::Ram(zero_page_y),
            AddressingMode::Absolute => Address::Ram(convert_2u8_to_u16(operand_1, operand_2)),
            AddressingMode::AbsoluteX => {
                if extra_cycle_on_page_crossing && b0_u16 + x_u16 > 0xFF {
                    extra_cycle = 1;
                }
                let address = (b0_u16 as u32 + x_u16 as u32 + b1_u16 as u32 * 256) % 0x10000;
                Address::Ram(address as u16)
            },
            AddressingMode::AbsoluteY => {
                if extra_cycle_on_page_crossing && b0_u16 + y_u16 > 0xFF {
                    extra_cycle = 1;
                }
                let address = (b0_u16 as u32 + y_u16 as u32 + b1_u16 as u32 * 256) % 0x10000;
                Address::Ram(address as u16)
            },
            AddressingMode::IndexedIndirectX => {
                let indexed_indirect = convert_2u8_to_u16(
                    bus.get_byte(zero_page_x),
                    bus.get_byte(zero_page_x_hi),
                );
                Address::Ram(indexed_indirect)
            },
            AddressingMode::IndirectIndexedY => {
                let indirect = convert_2u8_to_u16(
                    bus.get_byte(b0_u16),
                    bus.get_byte((b0_u16 + 1) % 256),
                );
                let indirect_indexed = ((indirect as u32 + y_u16 as u32) % 0x10000) as u16;
                if extra_cycle_on_page_crossing && Self::is_page_crossed(indirect_indexed, indirect) {
                    extra_cycle = 1;
                }
                Address::Ram(indirect_indexed)
            },
            AddressingMode::Relative => {
                let new_pc = if operand_1 < 0x80 {
                    self.pc.wrapping_add(operand_1 as u16)
                } else {
                    self.pc.wrapping_sub(0x100 - operand_1 as u16)
                };
                Address::Relative(new_pc)
            },
            AddressingMode::Indirect => {
                let base = b1_u16 * 256;
                let indirect = if b0_u16 == 0xFF {
                    convert_2u8_to_u16(bus.get_byte(base + 0xFF), bus.get_byte(base))
                } else {
                    convert_2u8_to_u16(bus.get_byte(base + b0_u16), bus.get_byte(base + b0_u16 + 1))
                };
                Address::Ram(indirect)
            },
        };
        (address, extra_cycle)
    }

    fn get_extra_cycles_from_branching(&self, ins: Mnemonic) -> (r: u16)
        requires
            (is_branch(ins) && branch_condition(ins, self.ps)) ==> self.address is Relative,
        ensures
            r == branch_extra(ins, *self),
    {
        if (ins == Mnemonic::Bcc && self.check_condition_for_bcc())
            || (ins == Mnemonic::Bcs && self.check_condition_for_bcs())
            || (ins == Mnemonic::Bpl && self.check_condition_for_bpl())
            || (ins == Mnemonic::Bmi && self.check_condition_for_bmi())
            || (ins == Mnemonic::Bne && self.check_condition_for_bne())
            || (ins == Mnemonic::Beq && self.check_condition_for_beq())
            || (ins == Mnemonic::Bvc && self.check_condition_for_bvc())
            || (ins == Mnemonic::Bvs && self.check_condition_for_bvs()) {
            let mut extra_cycles: u16 = 1;
            if let Address::Relative(new_pc) = self.address {
                if Self::is_page_crossed(new_pc.wrapping_add(2), self.pc.wrapping_add(2)) {
                    extra_cycles = 2;
                }
            }
            extra_cycles
        } else {
            0
        }
    }

    fn get_extra_cycles_from_oam_dma(&self) -> (r: u16)
        ensures
            r == oam_dma_extra(*self),
    {
        let mut extra_cycles: u16 = 0;
        if self.address == Address::Ram(OAM_DMA) {
            extra_cycles = 513;
            if self.cycle % 2 == 1 {
                extra_cycles = extra_cycles + 1;
            }
        }
        extra_cycles
    }

    fn fetch_next_instruction<M: Memory>(&mut self, bus: &M)
        requires
            old(self).wf(),
            bus.inv(),
            fetch_defined::<M>(*old(self), bus.model()),
        ensures
            final(self).wf(),
            *final(self) == fetch::<M>(*old(self), bus.model()),
    {
        let op = match self.interrupt {
            Some(op) => op,
            None => bus.get_byte(self.pc),
        };
        self.interrupt = None;
        let code_segment_end = self.code_segment.1;
        let entry = self.opcodes[op as usize];
        if let Some(opcode) = entry {
            proof {
                lemma_opcode_table(op);
            }
            let mut operand_1: u8 = 0;
            let mut operand_2: u8 = 0;
            if self.pc < code_segment_end {
                operand_1 = bus.get_byte(self.pc.wrapping_add(1));
            }
            if self.pc.wrapping_add(1) < code_segment_end {
                operand_2 = bus.get_byte(self.pc.wrapping_add(2));
            }
            let (address, extra_cycles_from_page_crossing) = self.get_address_and_extra_cycle_from_page_crossing(
                bus,
                operand_1,
                operand_2,
                opcode.mode,
                opcode.extra_cycle_on_page_crossing,
            );
            self.address = address;
            let extra_cycles_from_branching = self.get_extra_cycles_from_branching(opcode.instruction);
            let extra_cycles_from_oam_dma = self.get_extra_cycles_from_oam_dma();
            if extra_cycles_from_oam_dma != 0 {
                self.oam_dma_in_progress = Some(
                    opcode.base_cycles as u16 + extra_cycles_from_page_crossing + extra_cycles_from_branching,
                );
            } else {
                self.oam_dma_in_progress = None;
            }
            let total_cycles = opcode.base_cycles as u16 + extra_cycles_from_page_crossing
                + extra_cycles_from_branching + extra_cycles_from_oam_dma;
            self.instruction = Some(
                Instruction { opcode: op, total_cycles, cycle: 0, bytes: opcode.mode.get_bytes() },
            );
            if opcode.instruction == Mnemonic::Rti {
                self.rti_restore_ps(bus);
            }
        }
    }

    /// Fetches and decodes the next instruction where none is in progress.
    pub fn maybe_fetch_next_instruction<M: Memory>(&mut self, bus: &M)
        requires
            old(self).wf(),
            bus.inv(),
            old(self).instruction is None ==> fetch_defined::<M>(*old(self), bus.model()),
        ensures
            final(self).wf(),
            *final(self) == if old(self).instruction is None {
                fetch::<M>(*old(self), bus.model())
            } else {
                *old(self)
            },
    {
        if self.instruction.is_none() {
            self.fetch_next_instruction(bus);
        }
    }

    /// Samples the interrupt lines; returns whether a pending NMI was taken.
    fn check_for_interrupts(&mut self, lines: InterruptLines) -> (r: bool)
        ensures
            (*final(self), r) == check_interrupts(*old(self), lines),
    {
        if lines.nmi_pending {
            self.interrupt = Some(NMI_OPCODE);
            true
        } else if !self.get_flag(ProcessorFlag::InterruptDisable) && lines.irq_pending {
            self.interrupt = Some(IRQ_OPCODE);
            false
        } else {
            false
        }
    }

    fn is_current_instruction_branching(&self) -> (r: bool)
        requires
            self.wf(),
            self.instruction is Some,
        ensures
            r == is_branch(current_mnemonic(*self)),
    {
        let ins = self.current_mnemonic();
        ins == Mnemonic::Bcc || ins == Mnemonic::Bcs || ins == Mnemonic::Bpl || ins == Mnemonic::Bmi
            || ins == Mnemonic::Bne || ins == Mnemonic::Beq || ins == Mnemonic::Bvc || ins == Mnemonic::Bvs
    }

    fn current_mnemonic(&self) -> (r: Mnemonic)
        requires
            self.wf(),
            self.instruction is Some,
        ensures
            r == current_mnemonic(*self),
    {
        let opcode = self.instruction.unwrap().opcode;
        match self.opcodes[opcode as usize] {
            Some(entry) => entry.instruction,
            None => Mnemonic::Nop,
        }
    }

    /// Runs one CPU cycle of the instruction in progress, executing it on its
    /// last cycle. Returns whether a pending NMI was acknowledged, which the
    /// caller then clears on the PPU.
    pub fn run_single_cycle<M: Memory>(&mut self, bus: &mut M, lines: InterruptLines) -> (r: bool)
        requires
            old(self).wf(),
            old(bus).inv(),
            old(self).instruction is Some,
        ensures
            final(self).wf(),
            final(bus).inv(),
            (*final(self), final(bus).model(), r) == run_cycle::<M>(*old(self), old(bus).model(), lines),
    {
        let mnemonic = self.current_mnemonic();
        let is_branching_executing = self.is_current_instruction_branching();
        let mut instruction = self.instruction.unwrap();
        instruction.cycle = instruction.cycle + 1;
        self.instruction = Some(instruction);
        let is_brk_or_irq_executing = mnemonic == Mnemonic::Brk || mnemonic == Mnemonic::Irq;
        let is_nmi_executing = mnemonic == Mnemonic::Nmi;
        if instruction.cycle == instruction.total_cycles {
            assert(opcode_spec(instruction.opcode) is Some);
            assert(address_matches(opcode_spec(instruction.opcode).unwrap().mode, self.address));
            proof {
                lemma_operand_ok(instruction.opcode, self.address);
                lemma_execute_frame::<M>(mnemonic, *self, bus.model());
            }
            self.execute_instruction(mnemonic, bus);
            self.pc = advance_pc(self.pc, instruction.bytes);
            let cycles_left = u128::MAX - self.cycle;
            if cycles_left < instruction.total_cycles as u128 {
                self.cycle = instruction.total_cycles as u128 - cycles_left;
            } else {
                self.cycle = self.cycle + instruction.total_cycles as u128;
            }
            self.instruction = None;
            false
        } else if is_brk_or_irq_executing {
            if lines.nmi_pending && instruction.cycle <= 4 {
                self.is_brk_or_irq_hijacked_by_nmi = true;
                true
            } else {
                false
            }
        } else if is_branching_executing {
            if instruction.cycle == 1 || (instruction.cycle == 3 && instruction.total_cycles == 4) {
                self.check_for_interrupts(lines)
            } else {
                false
            }
        } else if !is_nmi_executing && ((self.oam_dma_in_progress.is_some() && instruction.cycle
            == self.oam_dma_in_progress.unwrap() - 1) || (self.oam_dma_in_progress.is_none()
            && instruction.cycle == instruction.total_cycles - 1)) {
            self.check_for_interrupts(lines)
        } else {
            false
        }
    }
}

} // verus!

verus! {

impl Cpu {
    /// Whether the next instruction is in the instruction set; fetching an
    /// opcode outside it stops the emulation.
    pub fn fetch_is_defined<M: Memory>(&self, bus: &M) -> (r: bool)
        requires
            self.wf(),
            bus.inv(),
        ensures
            r == fetch_defined::<M>(*self, bus.model()),
    {
        let op = match self.interrupt {
            Some(op) => op,
            None => bus.get_byte(self.pc),
        };
        self.opcodes[op as usize].is_some()
    }
}

impl Cpu {
    /// One CPU cycle with the interrupt lines read from the devices: the
    /// picture unit's NMI, and the IRQ of the cartridge (none of the
    /// supported mappers raises one) or else of the APU. A taken NMI is
    /// acknowledged to the picture unit.
    pub fn run_single_cycle_with_devices<M: Memory, P: PpuState, A: ApuState, Mp: Mapper>(
        &mut self,
        bus: &mut M,
        ppu: &mut P,
        apu: &A,
        mapper: &mut Mp,
    ) -> (r: bool)
        requires
            old(self).wf(),
            old(bus).inv(),
            old(self).instruction is Some,
        ensures
            final(self).wf(),
            final(bus).inv(),
            (*final(self), final(bus).model(), r) == run_cycle::<M>(
                *old(self),
                old(bus).model(),
                InterruptLines { nmi_pending: old(ppu).nmi_requested(), irq_pending: apu.irq_requested() },
            ),
            r ==> !final(ppu).nmi_requested() && final(ppu).time() == old(ppu).time(),
            !r ==> *final(ppu) == *old(ppu),
            *final(mapper) == *old(mapper),
    {
        let nmi_pending = ppu.is_nmi_pending();
        let irq_pending = mapper.is_irq_pending() || apu.is_irq_pending();
        let lines = InterruptLines { nmi_pending, irq_pending };
        let r = self.run_single_cycle(bus, lines);
        if r {
            ppu.clear_nmi_pending();
        }
        r
    }
}

/// The program counter moved past an instruction of `bytes` bytes, wrapping
/// at the end of the 64 KiB address space.
fn advance_pc(pc: u16, bytes: u8) -> (r: u16)
    ensures
        r == ((pc + bytes) % 0x10000) as u16,
{
    pc.wrapping_add(bytes as u16)
}

/// Whether an operation is one of the eight branches.
pub fn is_branch_mnemonic(mn: Mnemonic) -> (r: bool)
    ensures
        r == is_branch(mn),
{
    mn == Mnemonic::Bcc || mn == Mnemonic::Bcs || mn == Mnemonic::Bpl || mn == Mnemonic::Bmi
        || mn == Mnemonic::Bne || mn == Mnemonic::Beq || mn == Mnemonic::Bvc || mn == Mnemonic::Bvs
}

} // verus!
