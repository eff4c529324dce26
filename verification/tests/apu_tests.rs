use nes_rs::apu::{
    dmc_rate_lookup, duty_cycle_lookup, length_counter_lookup, noise_period_lookup, ApuState, DmcMemory, Envelope,
    Noise, PulseWave, StatusRegister, StatusRegisterFlag, SweepUnit, TriangleWave, APU, DMC,
};
use nes_rs::apu::dmc_reader::CpuMemoryReader;
use nes_rs::memory::MemoryImpl;
use nes_rs::cpu_ram_apu::{ReadAccessRegister, ReadAccessRegisters, WriteAccessRegister, WriteAcessRegisters};

#[test]
fn length_counter_table() {
    let expected: [u8; 32] = [
        10, 254, 20, 2, 40, 4, 80, 6, 160, 8, 60, 10, 14, 12, 26, 14, 12, 16, 24, 18, 48, 20, 96, 22, 192, 24, 72,
        26, 16, 28, 32, 30,
    ];
    for (i, e) in expected.iter().enumerate() {
        assert_eq!(length_counter_lookup(i as u8), *e, "index {}", i);
    }
}

#[test]
fn duty_cycle_table() {
    let duties: [[u8; 8]; 4] = [
        [0, 0, 0, 0, 0, 0, 0, 1],
        [0, 0, 0, 0, 0, 0, 1, 1],
        [0, 0, 0, 0, 1, 1, 1, 1],
        [1, 1, 1, 1, 1, 1, 0, 0],
    ];
    for d in 0..4u8 {
        for p in 0..8u8 {
            assert_eq!(duty_cycle_lookup(d, p), duties[d as usize][p as usize], "duty {} position {}", d, p);
        }
    }
}

#[test]
fn dmc_rate_and_noise_period_tables() {
    assert_eq!(dmc_rate_lookup(0), 428);
    assert_eq!(dmc_rate_lookup(15), 54);
    assert_eq!(noise_period_lookup(0), 4);
    assert_eq!(noise_period_lookup(15), 4068);
}

#[test]
fn status_register_flags() {
    let mut status = StatusRegister { data: 0 };
    status.set_flag_status(StatusRegisterFlag::NoiseEnabled, true);
    assert_eq!(status.data, 0x08);
    assert!(status.is_flag_enabled(StatusRegisterFlag::NoiseEnabled));
    assert!(!status.is_flag_enabled(StatusRegisterFlag::Pulse1Enabled));
    status.set_flag_status(StatusRegisterFlag::NoiseEnabled, false);
    assert_eq!(status.data, 0);
}

#[test]
fn envelope_start_then_decay() {
    let mut e = Envelope::new();
    e.start_flag = true;
    e.clock(0, false);
    assert_eq!(e.decay_level_counter, 15);
    assert!(!e.start_flag);
    e.clock(0, false);
    assert_eq!(e.decay_level_counter, 14);
    e.decay_level_counter = 0;
    e.clock(0, true);
    assert_eq!(e.decay_level_counter, 15, "loops back to 15");
    e.decay_level_counter = 0;
    e.clock(0, false);
    assert_eq!(e.decay_level_counter, 0, "stays at 0 without loop");
}

#[test]
fn enabled_channel_loads_length_and_reports_it() {
    let mut apu = APU::new();
    apu.write(WriteAccessRegister::Status, 0x01);
    apu.write(WriteAccessRegister::Pulse1_3, 0x08);
    assert_eq!(apu.pulse_1.length_counter, 254);
    let status = apu.read(ReadAccessRegister::Status);
    assert_eq!(status & 0x01, 0x01);
    assert_eq!(status & 0x02, 0);
}

#[test]
fn disabled_channel_stays_silent() {
    let mut apu = APU::new();
    apu.write(WriteAccessRegister::Status, 0x0F);
    apu.write(WriteAccessRegister::Noise3, 0xF8);
    assert_eq!(apu.noise.length_counter, 30);
    apu.write(WriteAccessRegister::Status, 0x07);
    assert_eq!(apu.noise.length_counter, 0);
    apu.write(WriteAccessRegister::Noise3, 0xF8);
    assert_eq!(apu.noise.length_counter, 0, "a disabled channel does not load");
    assert_eq!(apu.read(ReadAccessRegister::Status) & 0x08, 0);
}

#[test]
fn status_write_clears_dmc_interrupt() {
    let mut apu = APU::new();
    apu.dmc.interrupt = true;
    assert_eq!(apu.read(ReadAccessRegister::Status) & 0x80, 0x80);
    apu.write(WriteAccessRegister::Status, 0x00);
    assert!(!apu.dmc.interrupt);
    assert_eq!(apu.read(ReadAccessRegister::Status) & 0x80, 0);
}

#[test]
fn frame_interrupt_raised_and_acknowledged_by_read() {
    let mut apu = APU::new();
    let silence = MemoryImpl::<0x10000>::new();
    let mut samples = CpuMemoryReader::new(&silence);
    let mut cycles = 0;
    while !apu.frame_interrupt && cycles < 40000 {
        apu.run_single_cpu_cycle(&mut samples);
        cycles += 1;
    }
    assert!(apu.frame_interrupt, "four-step mode raises the frame interrupt");
    assert!(cycles > 29000 && cycles < 29840, "at the end of the sequence, after {} cycles", cycles);
    while apu.cpu_cycle == 0 || apu.cpu_cycle >= 29828 {
        apu.run_single_cpu_cycle(&mut samples);
    }
    assert_eq!(apu.read(ReadAccessRegister::Status) & 0x40, 0x40);
    assert_eq!(apu.read(ReadAccessRegister::Status) & 0x40, 0, "the first read acknowledged it");
}

#[test]
fn inhibited_frame_interrupt() {
    let mut apu = APU::new();
    apu.write(WriteAccessRegister::FrameCounter, 0x40);
    let silence = MemoryImpl::<0x10000>::new();
    let mut samples = CpuMemoryReader::new(&silence);
    for _ in 0..40000 {
        apu.run_single_cpu_cycle(&mut samples);
    }
    assert!(!apu.frame_interrupt);
}

#[test]
fn apu_irq_follows_its_flags() {
    let mut apu = APU::new();
    assert!(!apu.is_irq_pending());
    apu.frame_interrupt = true;
    assert!(apu.is_irq_pending());
}

#[test]
fn sweep_target_periods() {
    let pulse_1 = SweepUnit::new(true);
    let pulse_2 = SweepUnit::new(false);
    assert_eq!(pulse_2.get_target_period(0x100, 0x100, 1, false), 0x180);
    assert_eq!(pulse_2.get_target_period(0x100, 0x100, 1, true), 0x080);
    assert_eq!(pulse_1.get_target_period(0x100, 0x100, 1, true), 0x07F, "ones' complement is one less");
    assert_eq!(pulse_2.get_target_period(0x100, 0x010, 0, true), 0xFF10, "a negative target wraps");
}

#[test]
fn sweep_muting() {
    let mut s = SweepUnit::new(false);
    s.update_muting_status(0x800, 0x100);
    assert!(s.is_muting);
    s.update_muting_status(0x100, 7);
    assert!(s.is_muting);
    s.update_muting_status(0x7FF, 8);
    assert!(!s.is_muting);
}

#[test]
fn pulse_constant_volume_sample() {
    let mut p = PulseWave::new(false);
    p.data0 = 0b1101_0111; // duty 3, constant volume 7
    p.length_counter = 10;
    p.sequencer_position = 0;
    assert_eq!(p.get_volume(), 7);
    assert_eq!(p.get_sample(), 7, "duty 3 is high at position 0");
    p.sequencer_position = 7;
    assert_eq!(p.get_sample(), 0);
    p.length_counter = 0;
    assert_eq!(p.get_volume(), 0, "a silent length counter mutes");
}

#[test]
fn pulse_timer_steps_the_sequencer_backwards() {
    let mut p = PulseWave::new(false);
    p.current_period = 3;
    p.timer_tick = 0;
    p.sequencer_position = 0;
    p.clock_timer();
    assert_eq!(p.sequencer_position, 7);
    assert_eq!(p.timer_tick, 5);
    p.clock_timer();
    assert_eq!(p.timer_tick, 4);
    assert_eq!(p.sequencer_position, 7);
}

#[test]
fn triangle_sequence() {
    let mut t = TriangleWave::new();
    assert_eq!(t.get_sample(), 15);
    t.sequencer_position = 15;
    assert_eq!(t.get_sample(), 0);
    t.sequencer_position = 16;
    assert_eq!(t.get_sample(), 0);
    t.sequencer_position = 31;
    assert_eq!(t.get_sample(), 15);
}

#[test]
fn noise_shift_register_feedback() {
    let mut n = Noise::new();
    assert_eq!(n.shift_register, 1);
    n.clock_timer();
    // bit 0 (1) xor bit 1 (0) = 1 goes into bit 14
    assert_eq!(n.shift_register, 0x4000);
    assert_eq!(n.get_timer(), 8, "twice the first period");
}

#[test]
fn dmc_registers() {
    let mut d = DMC::new();
    d.data0 = 0x8F;
    d.data1 = 0xFF;
    d.data3 = 2;
    assert!(d.is_irq_enabled());
    assert!(!d.is_loop_enabled());
    assert_eq!(d.get_timer(), 54);
    assert_eq!(d.get_direct_load(), 0x7F);
    assert_eq!(d.get_sample_length(), 33);
}

#[test]
fn power_up_channels() {
    let apu = APU::new();
    assert!(apu.pulse_1.sweep_unit.use_ones_complement, "pulse 1 negates as -c-1");
    assert!(!apu.pulse_2.sweep_unit.use_ones_complement, "pulse 2 negates as -c");
    assert_eq!(apu.noise.shift_register, 1);
    assert_eq!(apu.pulse_1.length_counter + apu.pulse_2.length_counter, 0);
    assert_eq!(apu.triangle.length_counter + apu.noise.length_counter, 0);
    assert_eq!(apu.dmc.output_value, 0);
}

#[test]
fn dmc_reads_its_sample_from_cpu_memory() {
    let mut mem = MemoryImpl::<0x10000>::new();
    mem.store_byte(0xC040, 0xAA);
    mem.store_byte(0xC041, 0xBB);
    mem.store_byte(0xFFFF, 0x11);
    mem.store_byte(0x8000, 0x22);
    let mut reader = CpuMemoryReader::new(&mem);
    reader.set_sample_address(1);
    assert_eq!(reader.current_address, 0xC040);
    assert_eq!(reader.get_next_sample_byte(), 0xAA);
    assert_eq!(reader.get_next_sample_byte(), 0xBB);
    reader.current_address = 0xFFFF;
    assert_eq!(reader.get_next_sample_byte(), 0x11);
    assert_eq!(reader.get_next_sample_byte(), 0x22, "reading wraps to $8000");
}

#[test]
fn dmc_start_points_the_reader_at_register_2() {
    let mut mem = MemoryImpl::<0x10000>::new();
    mem.store_byte(0xC080, 0x5A);
    let mut reader = CpuMemoryReader::new(&mem);
    let mut d = DMC::new();
    d.data2 = 2;
    d.next_bytes_remaining = 1;
    d.start_pending = true;
    d.fetch_next_sample_buffer(&mut reader);
    assert_eq!(d.sample_buffer, Some(0x5A));
    assert_eq!(d.bytes_remaining, 0);
    assert!(!d.start_pending);
    assert_eq!(reader.current_address, 0xC081, "one byte read");
}
