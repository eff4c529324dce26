use nes_rs::cpu::{is_branch_mnemonic, Cpu, InterruptLines, Mnemonic};
use nes_rs::apu::APU;
use nes_rs::common::Mirroring;
use nes_rs::cpu_ppu::{PpuStatus, PpuTime};
use nes_rs::mappers::mapper0::Mapper0;
use nes_rs::memory::MemoryImpl;

const NO_INTERRUPT: InterruptLines = InterruptLines { nmi_pending: false, irq_pending: false };

fn memory_with_program(start: u16, program: &[u8]) -> MemoryImpl<0x10000> {
    let mut mem = MemoryImpl::<0x10000>::new();
    for (i, b) in program.iter().enumerate() {
        mem.store_byte(start + i as u16, *b);
    }
    mem.store_byte(0xFFFC, (start & 0xFF) as u8);
    mem.store_byte(0xFFFD, (start >> 8) as u8);
    mem
}

fn powered_cpu(mem: &MemoryImpl<0x10000>) -> Cpu {
    let mut cpu = Cpu::new();
    cpu.power_cycle(mem);
    cpu
}

/// Runs one whole instruction; gives the cycles it took and whether an NMI
/// was acknowledged during it.
fn run_instruction(cpu: &mut Cpu, mem: &mut MemoryImpl<0x10000>, lines: InterruptLines) -> (u32, bool) {
    cpu.maybe_fetch_next_instruction(mem);
    let mut cycles = 0;
    let mut acked = false;
    while cpu.instruction.is_some() {
        acked |= cpu.run_single_cycle(mem, lines);
        cycles += 1;
    }
    (cycles, acked)
}

#[test]
fn new_cpu_state() {
    let cpu = Cpu::new();
    assert_eq!(cpu.pc, 0);
    assert_eq!(cpu.sp, 0xFD);
    assert_eq!(cpu.ps, 0x24);
    assert_eq!(cpu.a, 0);
    assert!(cpu.instruction.is_none());
}

#[test]
fn power_cycle_reads_reset_vector() {
    let mem = memory_with_program(0x8123, &[0xEA]);
    let cpu = powered_cpu(&mem);
    assert_eq!(cpu.pc, 0x8123);
    assert_eq!(cpu.sp, 0xFD);
    assert_eq!(cpu.ps, 0x04);
    assert_eq!((cpu.a, cpu.x, cpu.y), (0, 0, 0));
}

#[test]
fn lda_immediate_sets_flags() {
    let mut mem = memory_with_program(0x8000, &[0xA9, 0x00, 0xA9, 0x80, 0xA9, 0x42]);
    let mut cpu = powered_cpu(&mem);
    let (cycles, _) = run_instruction(&mut cpu, &mut mem, NO_INTERRUPT);
    assert_eq!(cycles, 2);
    assert_eq!(cpu.a, 0);
    assert_eq!(cpu.pc, 0x8002);
    assert!(cpu.ps & 0x02 != 0, "zero flag");
    run_instruction(&mut cpu, &mut mem, NO_INTERRUPT);
    assert_eq!(cpu.a, 0x80);
    assert!(cpu.ps & 0x80 != 0, "negative flag");
    assert!(cpu.ps & 0x02 == 0);
    run_instruction(&mut cpu, &mut mem, NO_INTERRUPT);
    assert_eq!(cpu.a, 0x42);
    assert!(cpu.ps & 0x82 == 0);
    assert_eq!(cpu.pc, 0x8006);
}

#[test]
fn adc_signed_overflow() {
    // CLC; LDA #$50; ADC #$50
    let mut mem = memory_with_program(0x8000, &[0x18, 0xA9, 0x50, 0x69, 0x50]);
    let mut cpu = powered_cpu(&mem);
    for _ in 0..3 {
        run_instruction(&mut cpu, &mut mem, NO_INTERRUPT);
    }
    assert_eq!(cpu.a, 0xA0);
    assert!(cpu.ps & 0x40 != 0, "overflow");
    assert!(cpu.ps & 0x01 == 0, "no carry");
    assert!(cpu.ps & 0x80 != 0, "negative");
}

#[test]
fn adc_carry_out() {
    // SEC; LDA #$FF; ADC #$01 gives 1 with carry
    let mut mem = memory_with_program(0x8000, &[0x38, 0xA9, 0xFF, 0x69, 0x01]);
    let mut cpu = powered_cpu(&mem);
    for _ in 0..3 {
        run_instruction(&mut cpu, &mut mem, NO_INTERRUPT);
    }
    assert_eq!(cpu.a, 0x01);
    assert!(cpu.ps & 0x01 != 0, "carry");
    assert!(cpu.ps & 0x40 == 0);
}

#[test]
fn sbc_borrow() {
    // SEC; LDA #$50; SBC #$F0 gives $60 with a borrow
    let mut mem = memory_with_program(0x8000, &[0x38, 0xA9, 0x50, 0xE9, 0xF0]);
    let mut cpu = powered_cpu(&mem);
    for _ in 0..3 {
        run_instruction(&mut cpu, &mut mem, NO_INTERRUPT);
    }
    assert_eq!(cpu.a, 0x60);
    assert!(cpu.ps & 0x01 == 0, "borrow clears carry");
}

#[test]
fn cmp_sets_carry_and_zero() {
    // LDA #$40; CMP #$40; CMP #$41
    let mut mem = memory_with_program(0x8000, &[0xA9, 0x40, 0xC9, 0x40, 0xC9, 0x41]);
    let mut cpu = powered_cpu(&mem);
    run_instruction(&mut cpu, &mut mem, NO_INTERRUPT);
    run_instruction(&mut cpu, &mut mem, NO_INTERRUPT);
    assert!(cpu.ps & 0x03 == 0x03, "equal: carry and zero");
    run_instruction(&mut cpu, &mut mem, NO_INTERRUPT);
    assert!(cpu.ps & 0x03 == 0, "less: neither");
    assert!(cpu.ps & 0x80 != 0, "difference $FF is negative");
}

#[test]
fn sta_then_lda_absolute() {
    // LDA #$5A; STA $0200; LDA #$00; LDA $0200
    let mut mem = memory_with_program(0x8000, &[0xA9, 0x5A, 0x8D, 0x00, 0x02, 0xA9, 0x00, 0xAD, 0x00, 0x02]);
    let mut cpu = powered_cpu(&mem);
    run_instruction(&mut cpu, &mut mem, NO_INTERRUPT);
    let (cycles, _) = run_instruction(&mut cpu, &mut mem, NO_INTERRUPT);
    assert_eq!(cycles, 4);
    assert_eq!(mem.get_byte(0x0200), 0x5A);
    run_instruction(&mut cpu, &mut mem, NO_INTERRUPT);
    assert_eq!(cpu.a, 0);
    run_instruction(&mut cpu, &mut mem, NO_INTERRUPT);
    assert_eq!(cpu.a, 0x5A);
}

#[test]
fn pha_pla_restores_accumulator() {
    // LDA #$77; PHA; LDA #$00; PLA
    let mut mem = memory_with_program(0x8000, &[0xA9, 0x77, 0x48, 0xA9, 0x00, 0x68]);
    let mut cpu = powered_cpu(&mem);
    run_instruction(&mut cpu, &mut mem, NO_INTERRUPT);
    run_instruction(&mut cpu, &mut mem, NO_INTERRUPT);
    assert_eq!(cpu.sp, 0xFC);
    assert_eq!(mem.get_byte(0x01FD), 0x77);
    run_instruction(&mut cpu, &mut mem, NO_INTERRUPT);
    let (cycles, _) = run_instruction(&mut cpu, &mut mem, NO_INTERRUPT);
    assert_eq!(cycles, 4);
    assert_eq!(cpu.a, 0x77);
    assert_eq!(cpu.sp, 0xFD);
}

#[test]
fn jsr_rts_returns_after_call() {
    let mut mem = memory_with_program(0x8000, &[0x20, 0x10, 0x80]);
    mem.store_byte(0x8010, 0x60);
    let mut cpu = powered_cpu(&mem);
    let (cycles, _) = run_instruction(&mut cpu, &mut mem, NO_INTERRUPT);
    assert_eq!(cycles, 6);
    assert_eq!(cpu.pc, 0x8010);
    assert_eq!(cpu.sp, 0xFB);
    let (cycles, _) = run_instruction(&mut cpu, &mut mem, NO_INTERRUPT);
    assert_eq!(cycles, 6);
    assert_eq!(cpu.pc, 0x8003);
    assert_eq!(cpu.sp, 0xFD);
}

#[test]
fn branch_taken_and_not_taken() {
    // LDA #$00 (zero set); BEQ +2; (skipped 2 bytes); BNE +2 (not taken)
    let mut mem = memory_with_program(0x8000, &[0xA9, 0x00, 0xF0, 0x02, 0xEA, 0xEA, 0xD0, 0x02]);
    let mut cpu = powered_cpu(&mem);
    run_instruction(&mut cpu, &mut mem, NO_INTERRUPT);
    let (cycles, _) = run_instruction(&mut cpu, &mut mem, NO_INTERRUPT);
    assert_eq!(cycles, 3);
    assert_eq!(cpu.pc, 0x8006);
    let (cycles, _) = run_instruction(&mut cpu, &mut mem, NO_INTERRUPT);
    assert_eq!(cycles, 2);
    assert_eq!(cpu.pc, 0x8008);
}

#[test]
fn inx_wraps_and_sets_zero() {
    // LDX #$FF; INX
    let mut mem = memory_with_program(0x8000, &[0xA2, 0xFF, 0xE8]);
    let mut cpu = powered_cpu(&mem);
    run_instruction(&mut cpu, &mut mem, NO_INTERRUPT);
    run_instruction(&mut cpu, &mut mem, NO_INTERRUPT);
    assert_eq!(cpu.x, 0);
    assert!(cpu.ps & 0x02 != 0);
}

#[test]
fn nmi_enters_handler_and_rti_returns() {
    let mut mem = memory_with_program(0x8000, &[0xEA, 0xEA]);
    mem.store_byte(0xFFFA, 0x00);
    mem.store_byte(0xFFFB, 0x90);
    mem.store_byte(0x9000, 0x40);
    let mut cpu = powered_cpu(&mem);
    let ps_before = cpu.ps;
    let (_, acked) = run_instruction(&mut cpu, &mut mem, InterruptLines { nmi_pending: true, irq_pending: false });
    assert!(acked, "the NMI is taken at the end of the NOP");
    assert_eq!(cpu.pc, 0x8001);
    let (cycles, _) = run_instruction(&mut cpu, &mut mem, NO_INTERRUPT);
    assert_eq!(cycles, 7);
    assert_eq!(cpu.pc, 0x9000);
    assert_eq!(cpu.sp, 0xFA);
    assert!(cpu.ps & 0x04 != 0, "interrupts disabled in the handler");
    run_instruction(&mut cpu, &mut mem, NO_INTERRUPT);
    assert_eq!(cpu.pc, 0x8001);
    assert_eq!(cpu.sp, 0xFD);
    assert_eq!(cpu.ps, ps_before);
}

#[test]
fn irq_ignored_while_disabled() {
    // power-on status has interrupts disabled
    let mut mem = memory_with_program(0x8000, &[0xEA, 0xEA]);
    let mut cpu = powered_cpu(&mem);
    let (_, acked) = run_instruction(&mut cpu, &mut mem, InterruptLines { nmi_pending: false, irq_pending: true });
    assert!(!acked);
    assert!(cpu.interrupt.is_none());
}

#[test]
fn irq_taken_when_enabled() {
    // CLI; NOP with the IRQ line held
    let mut mem = memory_with_program(0x8000, &[0x58, 0xEA, 0xEA]);
    mem.store_byte(0xFFFE, 0x00);
    mem.store_byte(0xFFFF, 0xA0);
    let mut cpu = powered_cpu(&mem);
    run_instruction(&mut cpu, &mut mem, NO_INTERRUPT);
    run_instruction(&mut cpu, &mut mem, InterruptLines { nmi_pending: false, irq_pending: true });
    assert!(cpu.interrupt.is_some());
    run_instruction(&mut cpu, &mut mem, NO_INTERRUPT);
    assert_eq!(cpu.pc, 0xA000);
}

#[test]
fn undefined_opcode_is_reported() {
    let mem = memory_with_program(0x8000, &[0x22]);
    let cpu = powered_cpu(&mem);
    assert!(!cpu.fetch_is_defined(&mem));
    let mem = memory_with_program(0x8000, &[0xEA]);
    let cpu = powered_cpu(&mem);
    assert!(cpu.fetch_is_defined(&mem));
}

#[test]
fn branch_mnemonics() {
    assert!(is_branch_mnemonic(Mnemonic::Beq));
    assert!(is_branch_mnemonic(Mnemonic::Bvs));
    assert!(!is_branch_mnemonic(Mnemonic::Jmp));
}

#[test]
fn quiet_cycles_only_count() {
    // LDA $0200 takes four cycles; the load happens on the last one
    let mut mem = memory_with_program(0x8000, &[0xAD, 0x00, 0x02]);
    mem.store_byte(0x0200, 0x99);
    let mut cpu = powered_cpu(&mem);
    cpu.maybe_fetch_next_instruction(&mem);
    for expected_cycle in 1..4u16 {
        cpu.run_single_cycle(&mut mem, NO_INTERRUPT);
        assert_eq!(cpu.a, 0);
        assert_eq!(cpu.instruction.unwrap().cycle, expected_cycle);
    }
    cpu.run_single_cycle(&mut mem, NO_INTERRUPT);
    assert_eq!(cpu.a, 0x99);
    assert!(cpu.instruction.is_none());
    assert_eq!(cpu.pc, 0x8003);
}

#[test]
fn program_counter_wraps_at_64k() {
    let mut mem = memory_with_program(0xFFFE, &[0xEA]);
    let mut cpu = powered_cpu(&mem);
    assert_eq!(cpu.pc, 0xFFFE);
    run_instruction(&mut cpu, &mut mem, NO_INTERRUPT);
    assert_eq!(cpu.pc, 0xFFFF);
}

#[test]
fn devices_drive_the_interrupt_lines() {
    let mut mem = memory_with_program(0x8000, &[0xEA, 0xEA]);
    mem.store_byte(0xFFFA, 0x00);
    mem.store_byte(0xFFFB, 0x90);
    let mut cpu = powered_cpu(&mem);
    let mut ppu = PpuStatus { nmi_pending: true, time: PpuTime { scanline: 241, cycle: 1, frame: 3 } };
    let apu = APU::new();
    let mut mapper = Mapper0::new(vec![0; 0x4000], vec![], Mirroring::Vertical);
    cpu.maybe_fetch_next_instruction(&mem);
    let mut acked = false;
    while cpu.instruction.is_some() {
        acked |= cpu.run_single_cycle_with_devices(&mut mem, &mut ppu, &apu, &mut mapper);
    }
    assert!(acked);
    assert!(!ppu.nmi_pending, "the taken NMI is acknowledged to the picture unit");
    assert_eq!(ppu.time.frame, 3);
    assert_eq!(cpu.interrupt, Some(0x02));
}

#[test]
fn default_is_new() {
    let cpu = Cpu::default();
    assert_eq!((cpu.pc, cpu.sp, cpu.ps), (0, 0xFD, 0x24));
    assert!(cpu.instruction.is_none());
}
