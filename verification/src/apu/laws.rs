//! What the APU promises across its register writes and reads.
use super::{
    apu_cycle, bit, pulse_halt, sequencer_mode, triangle_control, Noise,
    apu_written, channel_length_counter, envelope_clocked, is_length_counter_flag, length_counter_value,
    length_load, status_byte, status_mask, status_read, status_read_value, status_written, Envelope,
    StatusRegisterFlag, APU, FRAME_COUNTER_HALF_FRAME_0_MOD_0_CPU_CYCLES, quarter_frame_update, status_enabled,
    timer_period, TriangleWave, duty_cycle_value, triangle_value, target_period, PulseWave, pulse_duty,
    frame_counter_written, sequence_length,
};
use vstd::arithmetic::power2::pow2;
use crate::cpu_ram_apu::WriteAccessRegister;
use vstd::prelude::*;

verus! {

/// The register whose write loads a channel's length counter.
pub open spec fn length_register(flag: StatusRegisterFlag) -> WriteAccessRegister {
    match flag {
        StatusRegisterFlag::Pulse1Enabled => WriteAccessRegister::Pulse1_3,
        StatusRegisterFlag::Pulse2Enabled => WriteAccessRegister::Pulse2_3,
        StatusRegisterFlag::TriangleEnabled => WriteAccessRegister::Triangle3,
        _ => WriteAccessRegister::Noise3,
    }
}

/// The status byte reports each of its seven bits exactly.
proof fn lemma_status_byte_bits(f: bool, d: bool, act: bool, n: bool, t: bool, p2: bool, p1: bool)
    ensures
        (status_byte(f, d, act, n, t, p2, p1) & 0x40 != 0) == f,
        (status_byte(f, d, act, n, t, p2, p1) & 0x80 != 0) == d,
        (status_byte(f, d, act, n, t, p2, p1) & 0x10 != 0) == act,
        (status_byte(f, d, act, n, t, p2, p1) & 0x08 != 0) == n,
        (status_byte(f, d, act, n, t, p2, p1) & 0x04 != 0) == t,
        (status_byte(f, d, act, n, t, p2, p1) & 0x02 != 0) == p2,
        (status_byte(f, d, act, n, t, p2, p1) & 0x01 != 0) == p1,
{
    assert(
        (status_byte(f, d, act, n, t, p2, p1) & 0x40 != 0) == f
        && (status_byte(f, d, act, n, t, p2, p1) & 0x80 != 0) == d
        && (status_byte(f, d, act, n, t, p2, p1) & 0x10 != 0) == act
        && (status_byte(f, d, act, n, t, p2, p1) & 0x08 != 0) == n
        && (status_byte(f, d, act, n, t, p2, p1) & 0x04 != 0) == t
        && (status_byte(f, d, act, n, t, p2, p1) & 0x02 != 0) == p2
        && (status_byte(f, d, act, n, t, p2, p1) & 0x01 != 0) == p1
    ) by (bit_vector);
}

/// A status read reports, for each channel with a length counter, whether
/// that counter is running, and the frame and DMC interrupt flags as they are.
pub proof fn law_status_read_reports(a: APU, flag: StatusRegisterFlag)
    ensures
        is_length_counter_flag(flag) ==> ((status_read_value(a) & status_mask(flag) != 0) == (channel_length_counter(
            a,
            flag,
        ) > 0)),
        (status_read_value(a) & 0x40 != 0) == a.frame_interrupt,
        (status_read_value(a) & 0x80 != 0) == a.dmc.interrupt,
{
    lemma_status_byte_bits(
        a.frame_interrupt,
        a.dmc.interrupt,
        a.dmc.bytes_remaining > 0 || a.dmc.start_pending,
        a.noise.length_counter > 0,
        a.triangle.length_counter > 0,
        a.pulse_2.length_counter > 0,
        a.pulse_1.length_counter > 0,
    );
}

/// Reading the status acknowledges the frame interrupt: a second read right
/// after it reports none (except on the two cycles where the frame counter
/// raises it).
pub proof fn law_second_status_read_no_frame_interrupt(a: APU)
    requires
        a.cpu_cycle != FRAME_COUNTER_HALF_FRAME_0_MOD_0_CPU_CYCLES,
        a.cpu_cycle != 0,
    ensures
        status_read_value(status_read(a)) & 0x40 == 0,
{
    law_status_read_reports(status_read(a), StatusRegisterFlag::FrameInterrupt);
}

/// Writing the status register clears the DMC interrupt.
pub proof fn law_status_write_clears_dmc_interrupt(a: APU, value: u8)
    ensures
        !status_written(a, value).dmc.interrupt,
        status_read_value(status_written(a, value)) & 0x80 == 0,
{
    law_status_read_reports(status_written(a, value), StatusRegisterFlag::DMCInterrupt);
}

/// Clearing a channel's enable bit forces its length counter to 0, and a
/// later write of its length register does not load it while it stays
/// disabled; the status read then reports the channel as silent.
pub proof fn law_disabled_channel_stays_silent(a: APU, value: u8, flag: StatusRegisterFlag, load: u8)
    requires
        is_length_counter_flag(flag),
        value & status_mask(flag) == 0,
    ensures
        channel_length_counter(status_written(a, value), flag) == 0,
        channel_length_counter(apu_written(status_written(a, value), length_register(flag), load), flag) == 0,
        status_read_value(apu_written(status_written(a, value), length_register(flag), load)) & status_mask(flag) == 0,
{
    let b = apu_written(status_written(a, value), length_register(flag), load);
    assert(b.status.data == value);
    law_status_read_reports(b, flag);
}

/// Writing the length register of an enabled channel loads its length
/// counter from the table, by the top five bits of the written byte.
pub proof fn law_enabled_channel_loads_length(a: APU, flag: StatusRegisterFlag, load: u8)
    requires
        is_length_counter_flag(flag),
        a.status.data & status_mask(flag) != 0,
    ensures
        channel_length_counter(apu_written(a, length_register(flag), load), flag) == length_counter_value(
            length_load(load),
        ),
{
}

/// The envelope's decay level never leaves 0 to 15.
pub proof fn law_envelope_level_bounded(e: Envelope, divider_reload_value: u8, loop_flag: bool)
    requires
        e.decay_level_counter <= 15,
    ensures
        envelope_clocked(e, divider_reload_value, loop_flag).decay_level_counter <= 15,
{
}

/// Whether a channel's length counter is halted: bit 5 of register 0 for
/// the pulse and noise channels, bit 7 for the triangle.
pub open spec fn length_halted(a: APU, flag: StatusRegisterFlag) -> bool {
    match flag {
        StatusRegisterFlag::Pulse1Enabled => pulse_halt(a.pulse_1.data0),
        StatusRegisterFlag::Pulse2Enabled => pulse_halt(a.pulse_2.data0),
        StatusRegisterFlag::TriangleEnabled => triangle_control(a.triangle.data0),
        _ => pulse_halt(a.noise.data0),
    }
}

/// The frame interrupt is raised only in the four-step sequence with the
/// inhibit bit clear: in five-step mode or inhibited, a cycle never raises it.
pub proof fn law_frame_irq_only_four_step(a: APU, b: u8)
    requires
        !a.frame_interrupt,
        sequencer_mode(a) == 1 || (a.frame_counter.data / 64) % 2 == 1,
    ensures
        !apu_cycle(a, b).frame_interrupt,
{
}

/// In one cycle a length counter goes down by at most one, never up, and
/// stays while halted; only register writes raise it.
pub proof fn law_length_counter_step(a: APU, b: u8, flag: StatusRegisterFlag)
    requires
        is_length_counter_flag(flag),
    ensures
        channel_length_counter(apu_cycle(a, b), flag) <= channel_length_counter(a, flag),
        channel_length_counter(apu_cycle(a, b), flag) + 1 >= channel_length_counter(a, flag),
        length_halted(a, flag) ==> channel_length_counter(apu_cycle(a, b), flag) == channel_length_counter(a, flag),
{
}

/// The DMC's 7-bit output level moves by at most 2 in one cycle and never
/// leaves 0 to 127.
pub proof fn law_dmc_output_step(a: APU, b: u8)
    requires
        a.dmc.output_value <= 127,
    ensures
        apu_cycle(a, b).dmc.output_value <= 127,
        apu_cycle(a, b).dmc.output_value <= a.dmc.output_value + 2,
        apu_cycle(a, b).dmc.output_value + 2 >= a.dmc.output_value,
{
}

proof fn lemma_noise_register_nonzero(n: Noise)
    requires
        0 < n.shift_register < 0x8000,
    ensures
        0 < Noise::timer_clocked(n).shift_register < 0x8000,
{
    vstd::arithmetic::power2::lemma2_to64();
    if n.timer_tick == 0 && n.shift_register == 1 {
        assert(bit(1, 0) == 1);
        assert(bit(1, 1) == 0);
        assert(bit(1, 6) == 0);
    }
}

/// The noise channel's 15-bit shift register never reaches zero, where it
/// would lock the generator.
pub proof fn law_noise_register_never_zero(a: APU, b: u8)
    requires
        0 < a.noise.shift_register < 0x8000,
    ensures
        0 < apu_cycle(a, b).noise.shift_register < 0x8000,
{
    lemma_noise_register_nonzero(a.noise);
}

/// A write of the triangle's register 3 ($400B) stores the byte, sets the
/// linear counter's reload flag, so that the next quarter frame loads the
/// linear counter from the low seven bits of register 0, loads the length
/// counter where the channel is enabled, and leaves the other channels.
pub proof fn law_triangle_register_3_write(a: APU, value: u8)
    ensures
        ({
            let b = apu_written(a, WriteAccessRegister::Triangle3, value);
            &&& b.triangle.linear_counter_reload_flag
            &&& b.triangle.data3 == value
            &&& b.triangle.data0 == a.triangle.data0
            &&& b.triangle.linear_counter == a.triangle.linear_counter
            &&& TriangleWave::linear_counter_clocked(b.triangle).linear_counter == a.triangle.data0 % 128
            &&& quarter_frame_update(b).triangle.linear_counter == a.triangle.data0 % 128
            &&& b.triangle.length_counter == (if status_enabled(a, StatusRegisterFlag::TriangleEnabled) {
                length_counter_value(length_load(value))
            } else {
                a.triangle.length_counter
            })
            &&& b.pulse_1 == a.pulse_1 && b.pulse_2 == a.pulse_2 && b.noise == a.noise && b.dmc == a.dmc
            &&& b.status == a.status && b.frame_counter == a.frame_counter
        }),
{
}

/// The triangle's other registers only store the byte; in particular they
/// leave the linear counter's reload flag as it was.
pub proof fn law_triangle_other_registers_write(a: APU, value: u8)
    ensures
        apu_written(a, WriteAccessRegister::Triangle0, value).triangle == (TriangleWave { data0: value, ..a.triangle }),
        apu_written(a, WriteAccessRegister::Triangle1, value).triangle == (TriangleWave { data1: value, ..a.triangle }),
        apu_written(a, WriteAccessRegister::Triangle2, value).triangle == (TriangleWave { data2: value, ..a.triangle }),
{
}

/// A write of a pulse channel's register 3 stores the byte, restarts the
/// sequencer and the envelope, reloads the sweep and sets the timer period
/// from registers 2 and 3; the write of register 1 stores the byte and
/// reloads the sweep.
pub proof fn law_pulse_register_writes(a: APU, value: u8)
    ensures
        ({
            let b = apu_written(a, WriteAccessRegister::Pulse1_3, value);
            &&& b.pulse_1.data3 == value
            &&& b.pulse_1.sequencer_position == 0
            &&& b.pulse_1.envelope.start_flag
            &&& b.pulse_1.sweep_unit.reload_flag
            &&& b.pulse_1.current_period == timer_period(a.pulse_1.data2, value)
            &&& b.pulse_2 == a.pulse_2 && b.triangle == a.triangle && b.noise == a.noise
        }),
        ({
            let b = apu_written(a, WriteAccessRegister::Pulse2_3, value);
            &&& b.pulse_2.data3 == value
            &&& b.pulse_2.sequencer_position == 0
            &&& b.pulse_2.envelope.start_flag
            &&& b.pulse_2.sweep_unit.reload_flag
            &&& b.pulse_2.current_period == timer_period(a.pulse_2.data2, value)
            &&& b.pulse_1 == a.pulse_1 && b.triangle == a.triangle && b.noise == a.noise
        }),
        apu_written(a, WriteAccessRegister::Pulse1_1, value).pulse_1.data1 == value,
        apu_written(a, WriteAccessRegister::Pulse1_1, value).pulse_1.sweep_unit.reload_flag,
        apu_written(a, WriteAccessRegister::Pulse2_1, value).pulse_2.data1 == value,
        apu_written(a, WriteAccessRegister::Pulse2_1, value).pulse_2.sweep_unit.reload_flag,
{
}

/// A write of the noise channel's register 3 stores the byte and restarts
/// its envelope; a write of the DMC's register 1 loads its output level
/// with the low seven bits; a write of the DMC's register 0 with bit 7
/// clear drops its interrupt.
pub proof fn law_noise_and_dmc_register_writes(a: APU, value: u8)
    ensures
        apu_written(a, WriteAccessRegister::Noise3, value).noise.data3 == value,
        apu_written(a, WriteAccessRegister::Noise3, value).noise.envelope.start_flag,
        apu_written(a, WriteAccessRegister::DMC1, value).dmc.output_value == value % 128,
        apu_written(a, WriteAccessRegister::DMC1, value).dmc.data1 == value,
        value < 0x80 ==> !apu_written(a, WriteAccessRegister::DMC0, value).dmc.interrupt,
        value >= 0x80 ==> apu_written(a, WriteAccessRegister::DMC0, value).dmc.interrupt == a.dmc.interrupt,
{
}

/// A pulse channel is silent while its length counter is 0 or its sweep
/// mutes it; otherwise its volume is the low four bits of register 0 when
/// bit 4 asks for a constant volume, else the envelope's decay level. Its
/// sample is that volume where the duty cycle is high and 0 elsewhere.
pub proof fn law_pulse_volume(p: PulseWave)
    requires
        p.envelope.decay_level_counter <= 15,
    ensures
        p.length_counter == 0 || p.sweep_unit.is_muting ==> PulseWave::volume(p) == 0,
        p.length_counter > 0 && !p.sweep_unit.is_muting && p.data0 & 0x10 != 0 ==> PulseWave::volume(p) == p.data0 & 0x0F,
        p.length_counter > 0 && !p.sweep_unit.is_muting && p.data0 & 0x10 == 0 ==> PulseWave::volume(p)
            == p.envelope.decay_level_counter,
        PulseWave::volume(p) <= 15,
        PulseWave::sample(p) == (if duty_cycle_value(pulse_duty(p.data0), p.sequencer_position) == 1 {
            PulseWave::volume(p)
        } else {
            0
        }),
{
    let d0 = p.data0;
    assert((d0 & 0x10 != 0) == ((d0 / 16) % 2 == 1) && d0 & 0x0F == d0 % 16) by (bit_vector);
    let h = duty_cycle_value(pulse_duty(p.data0), p.sequencer_position);
    let v = PulseWave::volume(p);
    if h == 1 {
        assert(h * v == v);
    } else {
        assert(h == 0);
        assert(h * v == 0);
    }
}

/// The four duty cycles are high on 1, 2, 4 and 6 of their 8 steps, and
/// the 75% duty is the 25% duty inverted.
pub proof fn law_duty_cycles(position: u8)
    requires
        position < 8,
    ensures
        duty_cycle_value(0, 0) + duty_cycle_value(0, 1) + duty_cycle_value(0, 2) + duty_cycle_value(0, 3)
            + duty_cycle_value(0, 4) + duty_cycle_value(0, 5) + duty_cycle_value(0, 6) + duty_cycle_value(0, 7) == 1,
        duty_cycle_value(1, 0) + duty_cycle_value(1, 1) + duty_cycle_value(1, 2) + duty_cycle_value(1, 3)
            + duty_cycle_value(1, 4) + duty_cycle_value(1, 5) + duty_cycle_value(1, 6) + duty_cycle_value(1, 7) == 2,
        duty_cycle_value(2, 0) + duty_cycle_value(2, 1) + duty_cycle_value(2, 2) + duty_cycle_value(2, 3)
            + duty_cycle_value(2, 4) + duty_cycle_value(2, 5) + duty_cycle_value(2, 6) + duty_cycle_value(2, 7) == 4,
        duty_cycle_value(3, 0) + duty_cycle_value(3, 1) + duty_cycle_value(3, 2) + duty_cycle_value(3, 3)
            + duty_cycle_value(3, 4) + duty_cycle_value(3, 5) + duty_cycle_value(3, 6) + duty_cycle_value(3, 7) == 6,
        duty_cycle_value(3, position) == 1 - duty_cycle_value(1, position),
{
}

/// The triangle's 32-step sequence falls from 15 to 0 by one a step, then
/// rises back: it never leaves 0 to 15 and reads the same from both ends.
pub proof fn law_triangle_sequence(position: int)
    requires
        0 <= position < 32,
    ensures
        triangle_value(position) <= 15,
        triangle_value(position) == triangle_value(31 - position),
        0 < position < 16 ==> triangle_value(position) + 1 == triangle_value(position - 1),
        triangle_value(0) == 15 && triangle_value(15) == 0,
{
}

/// The sweep's target period: the current period plus the raw period
/// shifted right, or minus it when negating (modulo 2^16); pulse 1 negates
/// in ones' complement, one below what pulse 2's twos' complement gives.
pub proof fn law_sweep_target(raw: u16, current: u16, shift: u8)
    ensures
        ({
            let change = raw as nat / pow2(shift as nat);
            &&& target_period(false, raw, current, shift, false) == (current + change) % 0x10000
            &&& target_period(true, raw, current, shift, false) == (current + change) % 0x10000
            &&& (target_period(false, raw, current, shift, true) + change) % 0x10000 == current
            &&& (target_period(true, raw, current, shift, true) + 1) % 0x10000 == target_period(false, raw, current, shift, true)
        }),
{
    let change = raw as nat / pow2(shift as nat);
    assert(pow2(shift as nat) > 0) by {
        vstd::arithmetic::power2::lemma_pow2_pos(shift as nat);
    }
    assert(change <= raw) by {
        vstd::arithmetic::div_mod::lemma_div_is_ordered_by_denominator(raw as int, 1, pow2(shift as nat) as int);
    }
}

/// An envelope clock: a start sets the decay level to 15 and reloads the
/// divider; otherwise the divider counts down, and when it is at 0 it is
/// reloaded and the decay level steps down by one, wrapping from 0 to 15
/// only when looping.
pub proof fn law_envelope_step(e: Envelope, reload: u8, loop_flag: bool)
    ensures
        e.start_flag ==> envelope_clocked(e, reload, loop_flag) == (Envelope {
            start_flag: false,
            divider: reload,
            decay_level_counter: 15,
        }),
        !e.start_flag && e.divider > 0 ==> envelope_clocked(e, reload, loop_flag).decay_level_counter
            == e.decay_level_counter && envelope_clocked(e, reload, loop_flag).divider + 1 == e.divider,
        !e.start_flag && e.divider == 0 ==> envelope_clocked(e, reload, loop_flag).divider == reload
            && envelope_clocked(e, reload, loop_flag).decay_level_counter == (if e.decay_level_counter > 0 {
            e.decay_level_counter - 1
        } else if loop_flag {
            15
        } else {
            0
        }),
{
}

/// A frame counter write stores the mode (bit 7) and inhibit (bit 6) bits,
/// drops the frame interrupt when inhibiting, and schedules the sequence
/// reset three CPU cycles ahead on an even cycle, two on an odd one.
pub proof fn law_frame_counter_write(a: APU, value: u8)
    ensures
        sequencer_mode(frame_counter_written(a, value)) == value / 128,
        value & 0x40 != 0 ==> !frame_counter_written(a, value).frame_interrupt,
        value & 0x40 == 0 ==> frame_counter_written(a, value).frame_interrupt == a.frame_interrupt,
        frame_counter_written(a, value).pending_reset_cycle == Some(
            ((a.cpu_cycle + (if a.cpu_cycle % 2 == 0 { 3int } else { 2int })) % sequence_length(frame_counter_written(a, value))) as u16,
        ),
        frame_counter_written(a, value).pulse_1 == a.pulse_1 && frame_counter_written(a, value).triangle == a.triangle,
{
    assert((value & 0x40 != 0) == ((value / 64) % 2 == 1)) by (bit_vector);
}

} // verus!
