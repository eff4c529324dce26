//! The audio processing unit: two pulse channels, a triangle channel, a
//! noise channel, a delta modulation channel and the frame counter that
//! clocks them.
use crate::cpu_ram_apu::{
    ApuRegisterAccess, ReadAccessRegister, ReadAccessRegisters, WriteAccessRegister, WriteAcessRegisters,
};
use vstd::arithmetic::power2::pow2;
use vstd::prelude::*;

pub mod dmc_reader;
pub mod laws;

verus! {

/// The length counter values selected by the top five bits of a channel's
/// fourth register.
pub open spec fn length_counter_value(index: u8) -> u8 {
    if index % 2 == 1 {
        if index == 1 { 254 } else { (index - 1) as u8 }
    } else {
        match index / 2 {
            0 => 10u8,
            1 => 20,
            2 => 40,
            3 => 80,
            4 => 160,
            5 => 60,
            6 => 14,
            7 => 26,
            8 => 12,
            9 => 24,
            10 => 48,
            11 => 96,
            12 => 192,
            13 => 72,
            14 => 16,
            _ => 32,
        }
    }
}

pub fn length_counter_lookup(index: u8) -> (r: u8)
    requires
        index < 32,
    ensures
        r == length_counter_value(index),
{
    match index {
        0 => 10,
        1 => 254,
        2 => 20,
        3 => 2,
        4 => 40,
        5 => 4,
        6 => 80,
        7 => 6,
        8 => 160,
        9 => 8,
        10 => 60,
        11 => 10,
        12 => 14,
        13 => 12,
        14 => 26,
        15 => 14,
        16 => 12,
        17 => 16,
        18 => 24,
        19 => 18,
        20 => 48,
        21 => 20,
        22 => 96,
        23 => 22,
        24 => 192,
        25 => 24,
        26 => 72,
        27 => 26,
        28 => 16,
        29 => 28,
        30 => 32,
        _ => 30,
    }
}

/// The output level of a pulse duty cycle at a sequencer position.
pub open spec fn duty_cycle_value(duty: u8, position: u8) -> u8 {
    if (match duty {
        0 => position == 7,
        1 => position >= 6,
        2 => position >= 4,
        _ => position < 6,
    }) {
        1
    } else {
        0
    }
}

pub fn duty_cycle_lookup(duty: u8, position: u8) -> (r: u8)
    requires
        duty < 4,
        position < 8,
    ensures
        r == duty_cycle_value(duty, position),
{
    let on = match duty {
        0 => position == 7,
        1 => position == 6 || position == 7,
        2 => position >= 4,
        _ => position <= 5,
    };
    if on {
        1
    } else {
        0
    }
}

/// The triangle's output at a sequencer position: 15 down to 0, then 0 up to 15.
pub open spec fn triangle_value(position: int) -> u8 {
    (if position < 16 {
        15 - position
    } else {
        position - 16
    }) as u8
}

/// The DMC timer periods in CPU cycles (NTSC).
pub open spec fn dmc_rate(index: u8) -> u16 {
    match index {
        0 => 428u16,
        1 => 380,
        2 => 340,
        3 => 320,
        4 => 286,
        5 => 254,
        6 => 226,
        7 => 214,
        8 => 190,
        9 => 160,
        10 => 142,
        11 => 128,
        12 => 106,
        13 => 84,
        14 => 72,
        _ => 54,
    }
}

pub fn dmc_rate_lookup(index: u8) -> (r: u16)
    requires
        index < 16,
    ensures
        r == dmc_rate(index),
{
    match index {
        0 => 428,
        1 => 380,
        2 => 340,
        3 => 320,
        4 => 286,
        5 => 254,
        6 => 226,
        7 => 214,
        8 => 190,
        9 => 160,
        10 => 142,
        11 => 128,
        12 => 106,
        13 => 84,
        14 => 72,
        _ => 54,
    }
}

/// The noise timer periods (NTSC).
pub open spec fn noise_period(index: u8) -> u16 {
    match index {
        0 => 4u16,
        1 => 8,
        2 => 16,
        3 => 32,
        4 => 64,
        5 => 96,
        6 => 128,
        7 => 160,
        8 => 202,
        9 => 254,
        10 => 380,
        11 => 508,
        12 => 762,
        13 => 1016,
        14 => 2034,
        _ => 4068,
    }
}

pub fn noise_period_lookup(index: u8) -> (r: u16)
    requires
        index < 16,
    ensures
        r == noise_period(index),
{
    match index {
        0 => 4,
        1 => 8,
        2 => 16,
        3 => 32,
        4 => 64,
        5 => 96,
        6 => 128,
        7 => 160,
        8 => 202,
        9 => 254,
        10 => 380,
        11 => 508,
        12 => 762,
        13 => 1016,
        14 => 2034,
        _ => 4068,
    }
}

pub const FRAME_COUNTER_QUARTER_FRAME_1_CPU_CYCLES: u16 = 7457;
pub const FRAME_COUNTER_HALF_FRAME_1_CPU_CYCLES: u16 = 14913;
pub const FRAME_COUNTER_QUARTER_FRAME_3_CPU_CYCLES: u16 = 22371;
pub const FRAME_COUNTER_HALF_FRAME_0_MOD_0_CPU_CYCLES: u16 = 29829;
pub const FRAME_COUNTER_HALF_FRAME_0_MOD_1_CPU_CYCLES: u16 = 37281;

/// The frame counter register ($4017).
#[derive(Copy, Clone, Debug, PartialEq, Eq, Structural)]
pub struct FrameCounter {
    pub data: u8,
}

impl FrameCounter {
    /// Bit 7: 0 for the four-step sequence, 1 for the five-step one.
    pub fn get_sequencer_mode(&self) -> (r: u8)
        ensures
            r == self.data / 128,
    {
        self.data / 128
    }

    /// Bit 6.
    pub fn is_interrupt_inhibit_flag_set(&self) -> (r: bool)
        ensures
            r == ((self.data / 64) % 2 == 1),
    {
        (self.data / 64) % 2 == 1
    }
}

/// The bits of the status register ($4015).
#[derive(Copy, Clone, Debug, PartialEq, Eq, Structural)]
pub enum StatusRegisterFlag {
    Pulse1Enabled,
    Pulse2Enabled,
    TriangleEnabled,
    NoiseEnabled,
    DMCEnabled,
    FrameInterrupt,
    DMCInterrupt,
}

pub open spec fn status_mask(flag: StatusRegisterFlag) -> u8 {
    match flag {
        StatusRegisterFlag::Pulse1Enabled => 0x01,
        StatusRegisterFlag::Pulse2Enabled => 0x02,
        StatusRegisterFlag::TriangleEnabled => 0x04,
        StatusRegisterFlag::NoiseEnabled => 0x08,
        StatusRegisterFlag::DMCEnabled => 0x10,
        StatusRegisterFlag::FrameInterrupt => 0x40,
        StatusRegisterFlag::DMCInterrupt => 0x80,
    }
}

/// The enable flags: the five channels, not the two interrupt flags.
pub open spec fn is_enable_flag(flag: StatusRegisterFlag) -> bool {
    flag != StatusRegisterFlag::FrameInterrupt && flag != StatusRegisterFlag::DMCInterrupt
}

impl StatusRegisterFlag {
    pub fn mask(self) -> (r: u8)
        ensures
            r == status_mask(self),
    {
        match self {
            StatusRegisterFlag::Pulse1Enabled => 0x01,
            StatusRegisterFlag::Pulse2Enabled => 0x02,
            StatusRegisterFlag::TriangleEnabled => 0x04,
            StatusRegisterFlag::NoiseEnabled => 0x08,
            StatusRegisterFlag::DMCEnabled => 0x10,
            StatusRegisterFlag::FrameInterrupt => 0x40,
            StatusRegisterFlag::DMCInterrupt => 0x80,
        }
    }
}

#[derive(Copy, Clone, Debug, PartialEq, Eq, Structural)]
pub struct StatusRegister {
    pub data: u8,
}

impl StatusRegister {
    /// Whether a channel is enabled; asked only of the five enable flags.
    pub fn is_flag_enabled(&self, flag: StatusRegisterFlag) -> (r: bool)
        requires
            is_enable_flag(flag),
        ensures
            r == (self.data & status_mask(flag) != 0),
    {
        self.data & flag.mask() != 0
    }

    pub fn set_flag_status(&mut self, flag: StatusRegisterFlag, is_enabled: bool)
        ensures
            final(self).data == if is_enabled {
                old(self).data | status_mask(flag)
            } else {
                old(self).data & !status_mask(flag)
            },
    {
        let flag = flag.mask();
        if is_enabled {
            self.data = self.data | flag;
        } else {
            self.data = self.data & !flag;
        }
    }
}

/// The volume envelope of the pulse and noise channels.
#[derive(Copy, Clone, Debug, PartialEq, Eq, Structural)]
pub struct Envelope {
    pub start_flag: bool,
    pub divider: u8,
    pub decay_level_counter: u8,
}

/// An envelope clocked once: a start restarts it at 15; otherwise the divider
/// counts down, and when it runs out it is reloaded and the decay level goes
/// down by one, or back to 15 when it is at 0 and looping.
pub open spec fn envelope_clocked(e: Envelope, divider_reload_value: u8, loop_flag: bool) -> Envelope {
    if e.start_flag {
        Envelope { start_flag: false, decay_level_counter: 15, divider: divider_reload_value }
    } else if e.divider > 0 {
        Envelope { divider: (e.divider - 1) as u8, ..e }
    } else {
        Envelope {
            divider: divider_reload_value,
            decay_level_counter: if e.decay_level_counter > 0 {
                (e.decay_level_counter - 1) as u8
            } else if loop_flag {
                15
            } else {
                e.decay_level_counter
            },
            ..e
        }
    }
}

impl Envelope {
    pub fn new() -> (r: Envelope)
        ensures
            r == (Envelope { start_flag: false, divider: 0, decay_level_counter: 0 }),
    {
        Envelope { start_flag: false, divider: 0, decay_level_counter: 0 }
    }

    pub fn clock(&mut self, divider_reload_value: u8, loop_flag: bool)
        ensures
            *final(self) == envelope_clocked(*old(self), divider_reload_value, loop_flag),
    {
        if self.start_flag {
            self.start_flag = false;
            self.decay_level_counter = 15;
            self.divider = divider_reload_value;
        } else {
            if self.divider > 0 {
                self.divider = self.divider - 1;
            } else {
                self.divider = divider_reload_value;
                if self.decay_level_counter > 0 {
                    self.decay_level_counter = self.decay_level_counter - 1;
                } else if loop_flag {
                    self.decay_level_counter = 15;
                }
            }
        }
    }
}

/// The sweep unit of a pulse channel.
#[derive(Copy, Clone, Debug, PartialEq, Eq, Structural)]
pub struct SweepUnit {
    pub reload_flag: bool,
    pub divider: u8,
    pub use_ones_complement: bool,
    pub is_muting: bool,
}

/// The period the sweep unit aims at: the current period plus or minus the
/// raw period shifted right; pulse 1 negates in ones' complement (one less).
/// The subtraction wraps modulo 2^16, so a negative target is far above the
/// muting threshold.
pub open spec fn target_period(
    use_ones_complement: bool,
    raw_period: u16,
    current_period: u16,
    shift: u8,
    negate: bool,
) -> u16 {
    let change = raw_period as nat / pow2(shift as nat);
    let t = if negate {
        if use_ones_complement {
            current_period - change - 1
        } else {
            current_period - change
        }
    } else {
        current_period + change
    };
    (if t < 0 {
        t + 0x10000
    } else if t >= 0x10000 {
        t - 0x10000
    } else {
        t
    }) as u16
}

/// The sweep unit clocked once, and whether it adjusts the period: only when
/// its divider is at zero, it is enabled and it is not muting. The divider is
/// reloaded when at zero or when a reload was asked for, else counts down.
pub open spec fn sweep_clocked(s: SweepUnit, sweep_enabled: bool, sweep_period: u8) -> (SweepUnit, bool) {
    let adjust = s.divider == 0 && sweep_enabled && !s.is_muting;
    if s.divider == 0 || s.reload_flag {
        (SweepUnit { divider: sweep_period, reload_flag: false, ..s }, adjust)
    } else {
        (SweepUnit { divider: (s.divider - 1) as u8, ..s }, adjust)
    }
}

impl SweepUnit {
    pub fn new(use_ones_complement: bool) -> (r: SweepUnit)
        ensures
            r == (SweepUnit { reload_flag: false, divider: 0, use_ones_complement, is_muting: false }),
    {
        SweepUnit { reload_flag: false, divider: 0, use_ones_complement, is_muting: false }
    }

    pub fn get_target_period(&self, raw_period: u16, current_period: u16, shift: u8, negate: bool) -> (r: u16)
        requires
            shift < 8,
        ensures
            r == target_period(self.use_ones_complement, raw_period, current_period, shift, negate),
    {
        let change_amount = raw_period >> (shift as u16);
        proof {
            vstd::bits::lemma_u16_shr_is_div(raw_period, shift as u16);
        }
        if negate {
            if self.use_ones_complement {
                current_period.wrapping_sub(change_amount).wrapping_sub(1)
            } else {
                current_period.wrapping_sub(change_amount)
            }
        } else {
            current_period.wrapping_add(change_amount)
        }
    }

    /// The channel is muted when the target period is above $7FF or the
    /// current period below 8.
    pub fn update_muting_status(&mut self, target_period: u16, current_period: u16)
        ensures
            *final(self) == (SweepUnit { is_muting: target_period > 0x7FF || current_period < 8, ..*old(self) }),
    {
        self.is_muting = target_period > 0x7FF || current_period < 8;
    }

    pub fn clock(&mut self, sweep_enabled: bool, sweep_period: u8) -> (r: bool)
        ensures
            (*final(self), r) == sweep_clocked(*old(self), sweep_enabled, sweep_period),
    {
        let adjust = self.divider == 0 && sweep_enabled && !self.is_muting;
        if self.divider == 0 || self.reload_flag {
            self.divider = sweep_period;
            self.reload_flag = false;
        } else {
            self.divider = self.divider - 1;
        }
        adjust
    }
}

} // verus!

verus! {

/// Wraps a value that lies within one period of the 16-bit range.
pub open spec fn wrap_u16(t: int) -> u16 {
    (if t < 0 {
        t + 0x10000
    } else if t >= 0x10000 {
        t - 0x10000
    } else {
        t
    }) as u16
}

/// A pulse (square wave) channel.
#[derive(Copy, Clone, Debug, PartialEq, Eq, Structural)]
pub struct PulseWave {
    pub data0: u8,
    pub data1: u8,
    pub data2: u8,
    pub data3: u8,
    pub length_counter: u8,
    pub sequencer_position: u8,
    pub timer_tick: u16,
    pub envelope: Envelope,
    pub sweep_unit: SweepUnit,
    pub current_period: u16,
}

pub open spec fn pulse_duty(d0: u8) -> u8 { d0 / 64 }
pub open spec fn pulse_halt(d0: u8) -> bool { (d0 / 32) % 2 == 1 }
pub open spec fn constant_volume_set(d0: u8) -> bool { (d0 / 16) % 2 == 1 }
pub open spec fn volume_value(d0: u8) -> u8 { d0 % 16 }
pub open spec fn sweep_enabled(d1: u8) -> bool { d1 >= 0x80 }
pub open spec fn sweep_period(d1: u8) -> u8 { (d1 / 16) % 8 }
pub open spec fn sweep_negate(d1: u8) -> bool { (d1 / 8) % 2 == 1 }
pub open spec fn sweep_shift(d1: u8) -> u8 { d1 % 8 }
/// The 11-bit timer period of registers 2 and 3.
pub open spec fn timer_period(d2: u8, d3: u8) -> u16 { (d2 + 256 * (d3 % 8)) as u16 }
/// The length counter index in the top five bits of register 3.
pub open spec fn length_load(d3: u8) -> u8 { d3 / 8 }

impl PulseWave {
    pub open spec fn wf(&self) -> bool {
        &&& self.sequencer_position < 8
        &&& self.current_period <= 0x7FF
        &&& self.envelope.decay_level_counter <= 15
    }

    /// The pulse channel's timer clocked once: when it runs out the sequencer
    /// steps back one position and the timer is reloaded with twice the
    /// period less one (wrapping at period zero).
    pub open spec fn timer_clocked(p: PulseWave) -> PulseWave {
        if p.timer_tick == 0 {
            PulseWave {
                sequencer_position: if p.sequencer_position > 0 { (p.sequencer_position - 1) as u8 } else { 7 },
                timer_tick: wrap_u16(2 * p.current_period - 1),
                ..p
            }
        } else {
            PulseWave { timer_tick: (p.timer_tick - 1) as u16, ..p }
        }
    }

    pub open spec fn volume(p: PulseWave) -> u8 {
        if p.length_counter == 0 || p.sweep_unit.is_muting {
            0
        } else if constant_volume_set(p.data0) {
            volume_value(p.data0)
        } else {
            p.envelope.decay_level_counter
        }
    }

    pub open spec fn sample(p: PulseWave) -> u8 {
        (duty_cycle_value(pulse_duty(p.data0), p.sequencer_position) * PulseWave::volume(p)) as u8
    }

    pub open spec fn envelope_clocked(p: PulseWave) -> PulseWave {
        PulseWave { envelope: envelope_clocked(p.envelope, volume_value(p.data0), pulse_halt(p.data0)), ..p }
    }

    /// The half-frame clock: the length counter counts down unless halted,
    /// the sweep target is computed, muting updated, and the period moves to
    /// the target when the sweep unit adjusts.
    pub open spec fn half_frame_clocked(p: PulseWave) -> PulseWave {
        let length_counter = if p.length_counter > 0 && !pulse_halt(p.data0) {
            (p.length_counter - 1) as u8
        } else {
            p.length_counter
        };
        let target = target_period(
            p.sweep_unit.use_ones_complement,
            timer_period(p.data2, p.data3),
            p.current_period,
            sweep_shift(p.data1),
            sweep_negate(p.data1),
        );
        let muted = SweepUnit { is_muting: target > 0x7FF || p.current_period < 8, ..p.sweep_unit };
        let (sweep_unit, adjust) = sweep_clocked(muted, sweep_enabled(p.data1), sweep_period(p.data1));
        PulseWave {
            length_counter,
            sweep_unit,
            current_period: if adjust { target } else { p.current_period },
            ..p
        }
    }

    /// A pulse channel at power-up: silent, everything zero.
    pub open spec fn new_spec(use_ones_complement: bool) -> PulseWave {
        PulseWave {
            data0: 0,
            data1: 0,
            data2: 0,
            data3: 0,
            length_counter: 0,
            timer_tick: 0,
            current_period: 0,
            sequencer_position: 0,
            envelope: Envelope { start_flag: false, divider: 0, decay_level_counter: 0 },
            sweep_unit: SweepUnit { reload_flag: false, divider: 0, use_ones_complement, is_muting: false },
        }
    }

    pub fn new(use_ones_complement_for_sweep_unit: bool) -> (r: PulseWave)
        ensures
            r == PulseWave::new_spec(use_ones_complement_for_sweep_unit),
            r.wf(),
            r.data0 == 0 && r.data1 == 0 && r.data2 == 0 && r.data3 == 0,
            r.length_counter == 0,
            r.sequencer_position == 0,
            r.timer_tick == 0,
            r.envelope == (Envelope { start_flag: false, divider: 0, decay_level_counter: 0 }),
            r.sweep_unit == (SweepUnit {
                reload_flag: false,
                divider: 0,
                use_ones_complement: use_ones_complement_for_sweep_unit,
                is_muting: false,
            }),
            r.current_period == 0,
    {
        PulseWave {
            data0: 0,
            data1: 0,
            data2: 0,
            data3: 0,
            length_counter: 0,
            timer_tick: 0,
            current_period: 0,
            sequencer_position: 0,
            envelope: Envelope::new(),
            sweep_unit: SweepUnit::new(use_ones_complement_for_sweep_unit),
        }
    }

    pub fn get_duty_cycle(&self) -> (r: u8)
        ensures
            r == pulse_duty(self.data0),
    {
        self.data0 / 64
    }

    pub fn is_length_counter_halt_envelope_loop_flag_set(&self) -> (r: bool)
        ensures
            r == pulse_halt(self.data0),
    {
        (self.data0 / 32) % 2 == 1
    }

    pub fn is_constant_volume_set(&self) -> (r: bool)
        ensures
            r == constant_volume_set(self.data0),
    {
        (self.data0 / 16) % 2 == 1
    }

    pub fn get_constant_volume_or_envelope_divider_reload_value(&self) -> (r: u8)
        ensures
            r == volume_value(self.data0),
    {
        self.data0 % 16
    }

    pub fn is_sweep_unit_enabled(&self) -> (r: bool)
        ensures
            r == sweep_enabled(self.data1),
    {
        self.data1 >= 0x80
    }

    pub fn get_sweep_period(&self) -> (r: u8)
        ensures
            r == sweep_period(self.data1),
    {
        (self.data1 / 16) % 8
    }

    pub fn is_sweep_negate_enabled(&self) -> (r: bool)
        ensures
            r == sweep_negate(self.data1),
    {
        (self.data1 / 8) % 2 == 1
    }

    pub fn get_sweep_shift(&self) -> (r: u8)
        ensures
            r == sweep_shift(self.data1),
    {
        self.data1 % 8
    }

    pub fn get_raw_timer_period(&self) -> (r: u16)
        ensures
            r == timer_period(self.data2, self.data3),
            r <= 0x7FF,
    {
        let timer_hi = ((self.data3 % 8) as u16) * 256;
        self.data2 as u16 + timer_hi
    }

    pub fn get_length_counter_load(&self) -> (r: u8)
        ensures
            r == length_load(self.data3),
            r < 32,
    {
        self.data3 / 8
    }

    /// A write to register 3 restarts the sequencer and the envelope, loads
    /// the period and asks the sweep unit to reload.
    pub fn reset(&mut self)
        ensures
            *final(self) == (PulseWave {
                sequencer_position: 0,
                current_period: timer_period(old(self).data2, old(self).data3),
                envelope: Envelope { start_flag: true, ..old(self).envelope },
                sweep_unit: SweepUnit { reload_flag: true, ..old(self).sweep_unit },
                ..*old(self)
            }),
            old(self).wf() ==> final(self).wf(),
    {
        self.sequencer_position = 0;
        self.current_period = self.get_raw_timer_period();
        self.envelope.start_flag = true;
        self.sweep_unit.reload_flag = true;
    }

    pub fn clock_timer(&mut self)
        requires
            old(self).wf(),
        ensures
            final(self).wf(),
            *final(self) == PulseWave::timer_clocked(*old(self)),
    {
        if self.timer_tick == 0 {
            if self.sequencer_position > 0 {
                self.sequencer_position = self.sequencer_position - 1;
            } else {
                self.sequencer_position = 7;
            }
            self.timer_tick = (2 * self.current_period).wrapping_sub(1);
        } else {
            self.timer_tick = self.timer_tick - 1;
        }
    }

    pub fn get_volume(&self) -> (r: u8)
        requires
            self.wf(),
        ensures
            r == PulseWave::volume(*self),
            r <= 15,
    {
        if self.length_counter == 0 || self.sweep_unit.is_muting {
            0
        } else if self.is_constant_volume_set() {
            self.get_constant_volume_or_envelope_divider_reload_value()
        } else {
            self.envelope.decay_level_counter
        }
    }

    pub fn get_sample(&self) -> (r: u8)
        requires
            self.wf(),
        ensures
            r == PulseWave::sample(*self),
            r <= 15,
    {
        duty_cycle_lookup(self.get_duty_cycle(), self.sequencer_position) * self.get_volume()
    }

    pub fn clock_envelope(&mut self)
        requires
            old(self).wf(),
        ensures
            final(self).wf(),
            *final(self) == PulseWave::envelope_clocked(*old(self)),
    {
        let reload = self.get_constant_volume_or_envelope_divider_reload_value();
        let loop_flag = self.is_length_counter_halt_envelope_loop_flag_set();
        self.envelope.clock(reload, loop_flag);
    }

    pub fn clock_length_counter_and_sweep_unit(&mut self)
        requires
            old(self).wf(),
        ensures
            final(self).wf(),
            *final(self) == PulseWave::half_frame_clocked(*old(self)),
    {
        if self.length_counter > 0 && !self.is_length_counter_halt_envelope_loop_flag_set() {
            self.length_counter = self.length_counter - 1;
        }
        let target_period = self.sweep_unit.get_target_period(
            self.get_raw_timer_period(),
            self.current_period,
            self.get_sweep_shift(),
            self.is_sweep_negate_enabled(),
        );
        self.sweep_unit.update_muting_status(target_period, self.current_period);
        let sweep_enabled = self.is_sweep_unit_enabled();
        let sweep_period = self.get_sweep_period();
        if self.sweep_unit.clock(sweep_enabled, sweep_period) {
            self.current_period = target_period;
        }
    }
}

} // verus!

verus! {

/// The triangle channel.
#[derive(Copy, Clone, Debug, PartialEq, Eq, Structural)]
pub struct TriangleWave {
    pub data0: u8,
    pub data1: u8,
    pub data2: u8,
    pub data3: u8,
    pub length_counter: u8,
    pub timer_tick: u16,
    pub linear_counter: u8,
    pub linear_counter_reload_flag: bool,
    pub sequencer_position: usize,
}

pub open spec fn triangle_control(d0: u8) -> bool { d0 >= 0x80 }
pub open spec fn linear_counter_load(d0: u8) -> u8 { d0 % 0x80 }

impl TriangleWave {
    pub open spec fn wf(&self) -> bool {
        self.sequencer_position < 32
    }

    /// The linear counter clocked once: reloaded while the reload flag is
    /// set, else counting down to zero; the flag is cleared unless the
    /// control flag is set.
    pub open spec fn linear_counter_clocked(t: TriangleWave) -> TriangleWave {
        TriangleWave {
            linear_counter: if t.linear_counter_reload_flag {
                linear_counter_load(t.data0)
            } else if t.linear_counter > 0 {
                (t.linear_counter - 1) as u8
            } else {
                t.linear_counter
            },
            linear_counter_reload_flag: t.linear_counter_reload_flag && triangle_control(t.data0),
            ..t
        }
    }

    pub open spec fn length_counter_clocked(t: TriangleWave) -> TriangleWave {
        if t.length_counter > 0 && !triangle_control(t.data0) {
            TriangleWave { length_counter: (t.length_counter - 1) as u8, ..t }
        } else {
            t
        }
    }

    /// The timer runs only while both counters are non-zero; when it runs
    /// out the sequencer steps forward (modulo 32) and the timer is reloaded.
    pub open spec fn timer_clocked(t: TriangleWave) -> TriangleWave {
        if t.length_counter > 0 && t.linear_counter > 0 {
            if t.timer_tick == 0 {
                TriangleWave {
                    sequencer_position: ((t.sequencer_position + 1) % 32) as usize,
                    timer_tick: timer_period(t.data2, t.data3),
                    ..t
                }
            } else {
                TriangleWave { timer_tick: (t.timer_tick - 1) as u16, ..t }
            }
        } else {
            t
        }
    }

    /// The triangle channel at power-up: everything zero.
    pub open spec fn new_spec() -> TriangleWave {
        TriangleWave {
            data0: 0,
            data1: 0,
            data2: 0,
            data3: 0,
            length_counter: 0,
            timer_tick: 0,
            linear_counter: 0,
            linear_counter_reload_flag: false,
            sequencer_position: 0,
        }
    }

    pub fn new() -> (r: TriangleWave)
        ensures
            r == TriangleWave::new_spec(),
            r.wf(),
            r.data0 == 0 && r.data1 == 0 && r.data2 == 0 && r.data3 == 0,
            r.length_counter == 0,
            r.timer_tick == 0,
            r.linear_counter == 0,
            !r.linear_counter_reload_flag,
            r.sequencer_position == 0,
    {
        TriangleWave {
            data0: 0,
            data1: 0,
            data2: 0,
            data3: 0,
            length_counter: 0,
            timer_tick: 0,
            linear_counter: 0,
            linear_counter_reload_flag: false,
            sequencer_position: 0,
        }
    }

    pub fn is_control_flag_set(&self) -> (r: bool)
        ensures
            r == triangle_control(self.data0),
    {
        self.data0 >= 0x80
    }

    pub fn get_linear_counter_load(&self) -> (r: u8)
        ensures
            r == linear_counter_load(self.data0),
    {
        self.data0 % 0x80
    }

    pub fn get_timer(&self) -> (r: u16)
        ensures
            r == timer_period(self.data2, self.data3),
    {
        let timer_hi = ((self.data3 % 8) as u16) * 256;
        self.data2 as u16 + timer_hi
    }

    pub fn get_length_counter_load(&self) -> (r: u8)
        ensures
            r == length_load(self.data3),
            r < 32,
    {
        self.data3 / 8
    }

    pub fn clock_linear_counter(&mut self)
        ensures
            *final(self) == TriangleWave::linear_counter_clocked(*old(self)),
    {
        if self.linear_counter_reload_flag {
            self.linear_counter = self.get_linear_counter_load();
        } else if self.linear_counter > 0 {
            self.linear_counter = self.linear_counter - 1;
        }
        if !self.is_control_flag_set() {
            self.linear_counter_reload_flag = false;
        }
    }

    pub fn clock_length_counter(&mut self)
        ensures
            *final(self) == TriangleWave::length_counter_clocked(*old(self)),
    {
        if self.length_counter > 0 && !self.is_control_flag_set() {
            self.length_counter = self.length_counter - 1;
        }
    }

    pub fn clock_timer(&mut self)
        requires
            old(self).wf(),
        ensures
            final(self).wf(),
            *final(self) == TriangleWave::timer_clocked(*old(self)),
    {
        if self.length_counter > 0 && self.linear_counter > 0 {
            if self.timer_tick == 0 {
                self.sequencer_position = (1 + self.sequencer_position) % 32;
                self.timer_tick = self.get_timer();
            } else {
                self.timer_tick = self.timer_tick - 1;
            }
        }
    }

    pub fn get_sample(&self) -> (r: u8)
        requires
            self.wf(),
        ensures
            r == triangle_value(self.sequencer_position as int),
            r <= 15,
    {
        if self.sequencer_position < 16 {
            15 - self.sequencer_position as u8
        } else {
            self.sequencer_position as u8 - 16
        }
    }
}

/// The noise channel.
#[derive(Copy, Clone, Debug, PartialEq, Eq, Structural)]
pub struct Noise {
    pub data0: u8,
    pub data1: u8,
    pub data2: u8,
    pub data3: u8,
    pub length_counter: u8,
    pub shift_register: u16,
    pub envelope: Envelope,
    pub timer_tick: u16,
}

pub open spec fn noise_mode(d2: u8) -> bool { d2 >= 0x80 }
/// The noise timer: twice the period selected by the low nibble of register 2.
pub open spec fn noise_timer(d2: u8) -> u16 { (2 * noise_period(d2 % 16)) as u16 }
/// Bit `k` of a word.
pub open spec fn bit(v: u16, k: nat) -> u16 { ((v as nat / pow2(k)) % 2) as u16 }

impl Noise {
    /// The shift register holds 15 bits; the decay level is at most 15.
    pub open spec fn wf(&self) -> bool {
        self.shift_register < 0x8000 && self.envelope.decay_level_counter <= 15
    }

    /// The timer clocked once: when it runs out the 15-bit shift register
    /// shifts right and takes as its new bit 14 bit 0 xor bit 6 (mode set)
    /// or bit 1 (mode clear), and the timer is reloaded.
    pub open spec fn timer_clocked(n: Noise) -> Noise {
        if n.timer_tick == 0 {
            let other = if noise_mode(n.data2) { bit(n.shift_register, 6) } else { bit(n.shift_register, 1) };
            let feedback = if bit(n.shift_register, 0) == other { 0int } else { 1int };
            Noise {
                shift_register: (n.shift_register / 2 + feedback * 0x4000) as u16,
                timer_tick: noise_timer(n.data2),
                ..n
            }
        } else {
            Noise { timer_tick: (n.timer_tick - 1) as u16, ..n }
        }
    }

    /// The output: zero when the length counter is out or bit 0 of the shift
    /// register is clear, else the constant volume or the envelope level.
    pub open spec fn sample(n: Noise) -> u8 {
        if n.length_counter == 0 || n.shift_register % 2 == 0 {
            0
        } else if constant_volume_set(n.data0) {
            volume_value(n.data0)
        } else {
            n.envelope.decay_level_counter
        }
    }

    pub open spec fn envelope_clocked(n: Noise) -> Noise {
        Noise { envelope: envelope_clocked(n.envelope, volume_value(n.data0), pulse_halt(n.data0)), ..n }
    }

    pub open spec fn length_counter_clocked(n: Noise) -> Noise {
        if n.length_counter > 0 && !pulse_halt(n.data0) {
            Noise { length_counter: (n.length_counter - 1) as u8, ..n }
        } else {
            n
        }
    }

    /// The noise channel at power-up: silent, with the shift register at 1.
    pub open spec fn new_spec() -> Noise {
        Noise {
            data0: 0,
            data1: 0,
            data2: 0,
            data3: 0,
            length_counter: 0,
            shift_register: 1,
            envelope: Envelope { start_flag: false, divider: 0, decay_level_counter: 0 },
            timer_tick: 0,
        }
    }

    pub fn new() -> (r: Noise)
        ensures
            r == Noise::new_spec(),
            r.wf(),
            r.data0 == 0 && r.data1 == 0 && r.data2 == 0 && r.data3 == 0,
            r.length_counter == 0,
            r.shift_register == 1,
            r.envelope == (Envelope { start_flag: false, divider: 0, decay_level_counter: 0 }),
            r.timer_tick == 0,
    {
        Noise { data0: 0, data1: 0, data2: 0, data3: 0, length_counter: 0, shift_register: 1, envelope: Envelope::new(), timer_tick: 0 }
    }

    /// A write to register 3 restarts the envelope.
    pub fn reset(&mut self)
        ensures
            *final(self) == (Noise { envelope: Envelope { start_flag: true, ..old(self).envelope }, ..*old(self) }),
    {
        self.envelope.start_flag = true;
    }

    pub fn is_length_counter_halt_set(&self) -> (r: bool)
        ensures
            r == pulse_halt(self.data0),
    {
        (self.data0 / 32) % 2 == 1
    }

    pub fn is_constant_volume_set(&self) -> (r: bool)
        ensures
            r == constant_volume_set(self.data0),
    {
        (self.data0 / 16) % 2 == 1
    }

    pub fn get_constant_volume_or_envelope_divider_reload_value(&self) -> (r: u8)
        ensures
            r == volume_value(self.data0),
    {
        self.data0 % 16
    }

    pub fn is_mode_flag_set(&self) -> (r: bool)
        ensures
            r == noise_mode(self.data2),
    {
        self.data2 >= 0x80
    }

    pub fn get_timer(&self) -> (r: u16)
        ensures
            r == noise_timer(self.data2),
    {
        2 * noise_period_lookup(self.data2 % 16)
    }

    pub fn get_length_counter_load(&self) -> (r: u8)
        ensures
            r == length_load(self.data3),
            r < 32,
    {
        self.data3 / 8
    }

    pub fn get_sample(&self) -> (r: u8)
        requires
            self.wf(),
        ensures
            r == Noise::sample(*self),
            r <= 15,
    {
        if self.length_counter == 0 || self.shift_register % 2 == 0 {
            0
        } else if self.is_constant_volume_set() {
            self.get_constant_volume_or_envelope_divider_reload_value()
        } else {
            self.envelope.decay_level_counter
        }
    }

    pub fn clock_timer(&mut self)
        requires
            old(self).wf(),
        ensures
            final(self).wf(),
            *final(self) == Noise::timer_clocked(*old(self)),
    {
        if self.timer_tick == 0 {
            let snd_xor_bit = if self.is_mode_flag_set() {
                (self.shift_register / 64) % 2
            } else {
                (self.shift_register / 2) % 2
            };
            let feedback_bit = if self.shift_register % 2 == snd_xor_bit {
                0
            } else {
                1
            };
            proof {
                vstd::arithmetic::power2::lemma2_to64();
            }
            self.shift_register = self.shift_register / 2 + feedback_bit * 0x4000;
            self.timer_tick = self.get_timer();
        } else {
            self.timer_tick = self.timer_tick - 1;
        }
    }

    pub fn clock_envelope(&mut self)
        requires
            old(self).wf(),
        ensures
            final(self).wf(),
            *final(self) == Noise::envelope_clocked(*old(self)),
    {
        let reload = self.get_constant_volume_or_envelope_divider_reload_value();
        let loop_flag = self.is_length_counter_halt_set();
        self.envelope.clock(reload, loop_flag);
    }

    pub fn clock_length_counter(&mut self)
        ensures
            *final(self) == Noise::length_counter_clocked(*old(self)),
    {
        if self.length_counter > 0 && !self.is_length_counter_halt_set() {
            self.length_counter = self.length_counter - 1;
        }
    }
}

} // verus!

verus! {

/// Where the delta modulation channel reads its sample bytes. Each reader
/// says in its spec functions which byte it gives next and how pointing it
/// at a sample and reading a byte move it on.
pub trait DmcMemory: Sized {
    /// The reader's own well-formedness.
    spec fn inv(&self) -> bool;

    /// The byte the next read gives.
    spec fn next_byte(&self) -> u8;

    /// `new` is this reader pointed at the sample that starts at `address`.
    spec fn pointed_at(&self, new: Self, address: u8) -> bool;

    /// `new` is this reader after one byte was read.
    spec fn advanced(&self, new: Self) -> bool;

    fn set_sample_address(&mut self, address: u8)
        requires
            old(self).inv(),
        ensures
            final(self).inv(),
            old(self).pointed_at(*final(self), address),
    ;

    fn get_next_sample_byte(&mut self) -> (r: u8)
        requires
            old(self).inv(),
        ensures
            final(self).inv(),
            r == old(self).next_byte(),
            old(self).advanced(*final(self)),
    ;
}

/// The reader after the DMC took one byte from it: only that read, or, where
/// the byte ended a looping sample, that read and then a new pointing at the
/// sample address (register 2).
pub open spec fn reader_after_take<D: DmcMemory>(d: DMC, m: D, m2: D) -> bool {
    if d.bytes_remaining == 1 && dmc_loop_enabled(d) {
        exists|mid: D| m.advanced(mid) && #[trigger] mid.pointed_at(m2, d.data2)
    } else {
        m.advanced(m2)
    }
}

/// The reader's part in a buffer fetch, `b` being the byte the DMC took: no
/// access when the buffer is full or nothing is left to play; one read where
/// bytes remain; for a pending start, a pointing at the sample address, then
/// one read.
pub open spec fn reader_fetch<D: DmcMemory>(d: DMC, m: D, b: u8, m2: D) -> bool {
    if d.sample_buffer is Some || (d.bytes_remaining == 0 && !d.start_pending) {
        m2 == m
    } else if d.bytes_remaining > 0 {
        b == m.next_byte() && reader_after_take(d, m, m2)
    } else {
        exists|m1: D|
            #[trigger] m.pointed_at(m1, d.data2) && b == m1.next_byte() && reader_after_take(
                DMC { bytes_remaining: d.next_bytes_remaining, ..d },
                m1,
                m2,
            )
    }
}

/// The delta modulation channel.
#[derive(Copy, Clone, Debug, PartialEq, Eq, Structural)]
pub struct DMC {
    pub data0: u8,
    pub data1: u8,
    pub data2: u8,
    pub data3: u8,
    pub timer_tick: u16,
    pub sample_buffer: Option<u8>,
    pub shift_register: u8,
    pub silence_flag: bool,
    pub bits_counter: u8,
    pub bytes_remaining: u16,
    pub next_bytes_remaining: u16,
    pub output_value: u8,
    pub start_pending: bool,
    pub interrupt: bool,
}

pub open spec fn dmc_irq_enabled(d: DMC) -> bool { d.data0 >= 0x80 }
pub open spec fn dmc_loop_enabled(d: DMC) -> bool { (d.data0 / 64) % 2 == 1 }
pub open spec fn dmc_timer(d: DMC) -> u16 { dmc_rate(d.data0 % 16) }
pub open spec fn dmc_direct_load(d: DMC) -> u8 { d.data1 % 0x80 }
/// A sample is sixteen times register 3 plus one bytes long.
pub open spec fn dmc_sample_length(d: DMC) -> u16 { (d.data3 * 16 + 1) as u16 }

impl DMC {
    /// A pending start has a non-empty sample to start; the bit counter and
    /// the output level stay in range.
    pub open spec fn wf(&self) -> bool {
        &&& self.start_pending ==> self.next_bytes_remaining >= 1
        &&& self.bits_counter <= 8
        &&& self.output_value <= 127
    }

    /// One sample byte taken into the buffer: the count goes down, and when
    /// it reaches zero the sample restarts where looping, else the interrupt
    /// is raised where enabled.
    pub open spec fn byte_taken(d: DMC, b: u8) -> DMC {
        let d1 = DMC { sample_buffer: Some(b), bytes_remaining: (d.bytes_remaining - 1) as u16, ..d };
        if d1.bytes_remaining == 0 {
            if dmc_loop_enabled(d) {
                DMC { next_bytes_remaining: dmc_sample_length(d), bytes_remaining: dmc_sample_length(d), ..d1 }
            } else if dmc_irq_enabled(d) {
                DMC { interrupt: true, ..d1 }
            } else {
                d1
            }
        } else {
            d1
        }
    }

    /// The memory reader fills an empty buffer with byte `b` where bytes
    /// remain, or starts a pending sample and then fills it.
    pub open spec fn buffer_fetched(d: DMC, b: u8) -> DMC {
        if d.sample_buffer is Some {
            d
        } else if d.bytes_remaining > 0 {
            DMC::byte_taken(d, b)
        } else if d.start_pending {
            DMC { start_pending: false, ..DMC::byte_taken(DMC { bytes_remaining: d.next_bytes_remaining, ..d }, b) }
        } else {
            d
        }
    }

    /// The output unit clocked once: when the timer runs out a new output
    /// cycle takes the buffer (or goes silent without one), then the level
    /// moves two up or down by bit 0 of the shift register, staying in 0..=127.
    pub open spec fn timer_clocked(d: DMC) -> DMC {
        if d.timer_tick == 0 {
            let d1 = if d.bits_counter == 0 {
                match d.sample_buffer {
                    Some(b) => DMC { bits_counter: 8, shift_register: b, silence_flag: false, sample_buffer: None, ..d },
                    None => DMC { bits_counter: 8, silence_flag: true, ..d },
                }
            } else {
                d
            };
            let output_value = if !d1.silence_flag {
                if d1.shift_register % 2 == 1 {
                    if d1.output_value <= 125 { (d1.output_value + 2) as u8 } else { d1.output_value }
                } else if d1.output_value >= 2 {
                    (d1.output_value - 2) as u8
                } else {
                    d1.output_value
                }
            } else {
                d1.output_value
            };
            DMC {
                output_value,
                bits_counter: (d1.bits_counter - 1) as u8,
                shift_register: d1.shift_register / 2,
                timer_tick: (dmc_timer(d) - 1) as u16,
                ..d1
            }
        } else {
            DMC { timer_tick: (d.timer_tick - 1) as u16, ..d }
        }
    }

    pub open spec fn new_spec() -> DMC {
        DMC {
            data0: 0,
            data1: 0,
            data2: 0,
            data3: 0,
            timer_tick: 0,
            sample_buffer: None,
            shift_register: 0,
            silence_flag: true,
            bits_counter: 0,
            bytes_remaining: 0,
            next_bytes_remaining: 0,
            output_value: 0,
            start_pending: false,
            interrupt: false,
        }
    }

    pub fn new() -> (r: DMC)
        ensures
            r.wf(),
            r == DMC::new_spec(),
            r == (DMC {
                data0: 0,
                data1: 0,
                data2: 0,
                data3: 0,
                timer_tick: 0,
                sample_buffer: None,
                shift_register: 0,
                silence_flag: true,
                bits_counter: 0,
                bytes_remaining: 0,
                next_bytes_remaining: 0,
                output_value: 0,
                start_pending: false,
                interrupt: false,
            }),
    {
        DMC {
            data0: 0,
            data1: 0,
            data2: 0,
            data3: 0,
            timer_tick: 0,
            bits_counter: 0,
            bytes_remaining: 0,
            next_bytes_remaining: 0,
            silence_flag: true,
            sample_buffer: None,
            shift_register: 0,
            output_value: 0,
            start_pending: false,
            interrupt: false,
        }
    }

    /// Starts the sample: the byte count is loaded and the reader is pointed
    /// at the sample address.
    pub fn start_sample<D: DmcMemory>(&mut self, dmc_memory: &mut D)
        requires
            old(dmc_memory).inv(),
        ensures
            *final(self) == (DMC { bytes_remaining: old(self).next_bytes_remaining, ..*old(self) }),
            final(dmc_memory).inv(),
            old(dmc_memory).pointed_at(*final(dmc_memory), old(self).data2),
    {
        self.bytes_remaining = self.next_bytes_remaining;
        dmc_memory.set_sample_address(self.get_sample_address());
    }

    pub fn is_irq_enabled(&self) -> (r: bool)
        ensures
            r == dmc_irq_enabled(*self),
    {
        self.data0 >= 0x80
    }

    pub fn is_loop_enabled(&self) -> (r: bool)
        ensures
            r == dmc_loop_enabled(*self),
    {
        (self.data0 / 64) % 2 == 1
    }

    pub fn get_timer(&self) -> (r: u16)
        ensures
            r == dmc_timer(*self),
            r >= 54,
    {
        dmc_rate_lookup(self.data0 % 16)
    }

    pub fn get_direct_load(&self) -> (r: u8)
        ensures
            r == dmc_direct_load(*self),
    {
        self.data1 % 0x80
    }

    pub fn get_sample_address(&self) -> (r: u8)
        ensures
            r == self.data2,
    {
        self.data2
    }

    pub fn get_sample_length(&self) -> (r: u16)
        ensures
            r == dmc_sample_length(*self),
            r >= 1,
    {
        self.data3 as u16 * 16 + 1
    }

    pub fn clock_timer(&mut self)
        requires
            old(self).wf(),
        ensures
            final(self).wf(),
            *final(self) == DMC::timer_clocked(*old(self)),
    {
        if self.timer_tick == 0 {
            if self.bits_counter == 0 {
                self.bits_counter = 8;
                match self.sample_buffer {
                    Some(buffer) => {
                        self.sample_buffer = None;
                        self.shift_register = buffer;
                        self.silence_flag = false;
                    },
                    None => {
                        self.silence_flag = true;
                    },
                }
            }
            if !self.silence_flag {
                if self.shift_register % 2 == 1 {
                    if self.output_value <= 125 {
                        self.output_value = self.output_value + 2;
                    }
                } else if self.output_value >= 2 {
                    self.output_value = self.output_value - 2;
                }
            }
            self.bits_counter = self.bits_counter - 1;
            self.shift_register = self.shift_register / 2;
            self.timer_tick = self.get_timer() - 1;
        } else {
            self.timer_tick = self.timer_tick - 1;
        }
    }

    fn take_byte<D: DmcMemory>(&mut self, dmc_memory: &mut D)
        requires
            old(self).wf(),
            old(self).bytes_remaining > 0,
            old(dmc_memory).inv(),
        ensures
            final(self).wf(),
            *final(self) == DMC::byte_taken(*old(self), old(dmc_memory).next_byte()),
            final(dmc_memory).inv(),
            reader_after_take(*old(self), *old(dmc_memory), *final(dmc_memory)),
    {
        let ghost m0 = *dmc_memory;
        let b = dmc_memory.get_next_sample_byte();
        let ghost m1 = *dmc_memory;
        self.sample_buffer = Some(b);
        self.bytes_remaining = self.bytes_remaining - 1;
        if self.bytes_remaining == 0 {
            if self.is_loop_enabled() {
                self.next_bytes_remaining = self.get_sample_length();
                self.start_sample(dmc_memory);
                assert(m1.pointed_at(*dmc_memory, old(self).data2));
            } else if self.is_irq_enabled() {
                self.interrupt = true;
            }
        }
        assert(*self == DMC::byte_taken(*old(self), b));
    }

    /// Fills the sample buffer from memory when it is empty and bytes remain,
    /// or starts a pending sample and fills it.
    pub fn fetch_next_sample_buffer<D: DmcMemory>(&mut self, dmc_memory: &mut D)
        requires
            old(self).wf(),
            old(dmc_memory).inv(),
        ensures
            final(self).wf(),
            final(dmc_memory).inv(),
            exists|b: u8|
                *final(self) == DMC::buffer_fetched(*old(self), b) && #[trigger] reader_fetch(
                    *old(self),
                    *old(dmc_memory),
                    b,
                    *final(dmc_memory),
                ),
    {
        let ghost s0 = *self;
        let ghost m0 = *dmc_memory;
        if self.sample_buffer.is_none() {
            if self.bytes_remaining > 0 {
                self.take_byte(dmc_memory);
                let ghost b = m0.next_byte();
                assert(*self == DMC::buffer_fetched(s0, b));
                assert(reader_fetch(s0, m0, b, *dmc_memory));
            } else if self.start_pending {
                self.start_sample(dmc_memory);
                let ghost s1 = *self;
                let ghost m1 = *dmc_memory;
                self.take_byte(dmc_memory);
                self.start_pending = false;
                let ghost b = m1.next_byte();
                assert(*self == DMC::buffer_fetched(s0, b));
                assert(m0.pointed_at(m1, s0.data2));
                assert(reader_fetch(s0, m0, b, *dmc_memory));
            } else {
                assert(*self == DMC::buffer_fetched(s0, 0));
                assert(reader_fetch(s0, m0, 0, *dmc_memory));
            }
        } else {
            assert(*self == DMC::buffer_fetched(s0, 0));
            assert(reader_fetch(s0, m0, 0, *dmc_memory));
        }
    }

    pub fn get_sample(&self) -> (r: u8)
        ensures
            r == self.output_value,
    {
        self.output_value
    }
}

} // verus!

verus! {

/// The five channel outputs of one APU cycle, before mixing.
#[derive(Copy, Clone, Debug, PartialEq, Eq, Structural)]
pub struct ChannelSamples {
    pub pulse_1: u8,
    pub pulse_2: u8,
    pub triangle: u8,
    pub noise: u8,
    pub dmc: u8,
}

/// Whether the APU asks for an interrupt; each implementation says when in
/// its spec function.
pub trait ApuState {
    spec fn irq_requested(&self) -> bool;

    fn is_irq_pending(&self) -> (r: bool)
        ensures
            r == self.irq_requested(),
    ;
}

/// The audio processing unit.
#[derive(Copy, Clone, Debug, PartialEq, Eq, Structural)]
pub struct APU {
    pub frame_counter: FrameCounter,
    pub status: StatusRegister,
    pub pulse_1: PulseWave,
    pub pulse_2: PulseWave,
    pub triangle: TriangleWave,
    pub noise: Noise,
    pub dmc: DMC,
    pub cpu_cycle: u16,
    pub frame_interrupt: bool,
    pub frame: u128,
    pub pending_reset_cycle: Option<u16>,
    pub irq_flag_setting_in_progress: bool,
}

pub open spec fn sequencer_mode(a: APU) -> u8 {
    a.frame_counter.data / 128
}

/// The length of the frame sequence in CPU cycles: 29830 in four-step mode,
/// 37282 in five-step mode.
pub open spec fn sequence_length(a: APU) -> int {
    if sequencer_mode(a) == 0 {
        FRAME_COUNTER_HALF_FRAME_0_MOD_0_CPU_CYCLES + 1
    } else {
        FRAME_COUNTER_HALF_FRAME_0_MOD_1_CPU_CYCLES + 1
    }
}

/// The CPU cycle `shift` cycles ahead in the frame sequence.
pub open spec fn shifted_cycle(a: APU, shift: u16) -> u16 {
    ((a.cpu_cycle + shift) % sequence_length(a)) as u16
}

/// The half-frame points of the sequence: cycle 14913, and the last cycle of
/// the sequence.
pub open spec fn half_frame_reached(a: APU) -> bool {
    let next = a.cpu_cycle + 1;
    next == FRAME_COUNTER_HALF_FRAME_1_CPU_CYCLES || (sequencer_mode(a) == 0 && next
        == FRAME_COUNTER_HALF_FRAME_0_MOD_0_CPU_CYCLES) || (sequencer_mode(a) == 1 && next
        == FRAME_COUNTER_HALF_FRAME_0_MOD_1_CPU_CYCLES)
}

/// The quarter-frame points: the half-frame points and cycles 7457 and 22371.
pub open spec fn quarter_frame_reached(a: APU) -> bool {
    let next = a.cpu_cycle + 1;
    half_frame_reached(a) || next == FRAME_COUNTER_QUARTER_FRAME_1_CPU_CYCLES || next
        == FRAME_COUNTER_QUARTER_FRAME_3_CPU_CYCLES
}

/// Length counters and sweep units clocked.
pub open spec fn half_frame_update(a: APU) -> APU {
    APU {
        pulse_1: PulseWave::half_frame_clocked(a.pulse_1),
        pulse_2: PulseWave::half_frame_clocked(a.pulse_2),
        triangle: TriangleWave::length_counter_clocked(a.triangle),
        noise: Noise::length_counter_clocked(a.noise),
        ..a
    }
}

/// Envelopes and the triangle's linear counter clocked.
pub open spec fn quarter_frame_update(a: APU) -> APU {
    APU {
        pulse_1: PulseWave::envelope_clocked(a.pulse_1),
        pulse_2: PulseWave::envelope_clocked(a.pulse_2),
        triangle: TriangleWave::linear_counter_clocked(a.triangle),
        noise: Noise::envelope_clocked(a.noise),
        ..a
    }
}

/// The frame interrupt is raised in four-step mode on the last three cycles
/// of the sequence unless inhibited.
pub open spec fn frame_irq_update(a: APU) -> APU {
    let cc = a.cpu_cycle;
    if sequencer_mode(a) == 0 && (cc == FRAME_COUNTER_HALF_FRAME_0_MOD_0_CPU_CYCLES - 1 || ((cc
        == FRAME_COUNTER_HALF_FRAME_0_MOD_0_CPU_CYCLES || cc == 0) && a.irq_flag_setting_in_progress))
        && !((a.frame_counter.data / 64) % 2 == 1) {
        APU {
            irq_flag_setting_in_progress: if cc == FRAME_COUNTER_HALF_FRAME_0_MOD_0_CPU_CYCLES - 1 {
                true
            } else if cc == 0 {
                false
            } else {
                a.irq_flag_setting_in_progress
            },
            frame_interrupt: true,
            ..a
        }
    } else {
        a
    }
}

/// One APU cycle with `b` the byte that the DMC reader gives, if it reads.
pub open spec fn apu_cycle(a: APU, b: u8) -> APU {
    let a1 = match a.pending_reset_cycle {
        Some(p) => if p == a.cpu_cycle {
            let a0 = APU { cpu_cycle: 0, pending_reset_cycle: None, ..a };
            if sequencer_mode(a) == 1 {
                quarter_frame_update(half_frame_update(a0))
            } else {
                a0
            }
        } else {
            a
        },
        None => a,
    };
    let a2 = if quarter_frame_reached(a1) { quarter_frame_update(a1) } else { a1 };
    let a3 = if half_frame_reached(a2) { half_frame_update(a2) } else { a2 };
    let a4 = APU {
        pulse_1: PulseWave::timer_clocked(a3.pulse_1),
        pulse_2: PulseWave::timer_clocked(a3.pulse_2),
        triangle: TriangleWave::timer_clocked(a3.triangle),
        noise: Noise::timer_clocked(a3.noise),
        dmc: DMC::timer_clocked(DMC::buffer_fetched(a3.dmc, b)),
        ..a3
    };
    let a5 = frame_irq_update(a4);
    let a6 = APU { cpu_cycle: shifted_cycle(a5, 1), ..a5 };
    if a6.cpu_cycle == 0 {
        APU { frame: if a6.frame == u128::MAX { 0 } else { (a6.frame + 1) as u128 }, ..a6 }
    } else {
        a6
    }
}

/// The channel outputs of a state.
pub open spec fn channel_samples(a: APU) -> ChannelSamples {
    ChannelSamples {
        pulse_1: PulseWave::sample(a.pulse_1),
        pulse_2: PulseWave::sample(a.pulse_2),
        triangle: triangle_value(a.triangle.sequencer_position as int),
        noise: Noise::sample(a.noise),
        dmc: a.dmc.output_value,
    }
}

impl APU {
    pub open spec fn wf(&self) -> bool {
        &&& self.pulse_1.wf()
        &&& self.pulse_2.wf()
        &&& self.triangle.wf()
        &&& self.noise.wf()
        &&& self.dmc.wf()
        &&& self.cpu_cycle <= FRAME_COUNTER_HALF_FRAME_0_MOD_1_CPU_CYCLES
        &&& (self.pending_reset_cycle matches Some(p) ==> p <= FRAME_COUNTER_HALF_FRAME_0_MOD_1_CPU_CYCLES)
    }

    pub fn new() -> (r: APU)
        ensures
            r.wf(),
            r.frame_counter.data == 0,
            r.status.data == 0,
            r.pulse_1 == PulseWave::new_spec(true),
            r.pulse_2 == PulseWave::new_spec(false),
            r.triangle == TriangleWave::new_spec(),
            r.noise == Noise::new_spec(),
            r.cpu_cycle == 0,
            !r.frame_interrupt,
            r.frame == 1,
            r.pending_reset_cycle is None,
            !r.irq_flag_setting_in_progress,
            r.dmc == DMC::new_spec(),
    {
        APU {
            frame_counter: FrameCounter { data: 0 },
            status: StatusRegister { data: 0 },
            pulse_1: PulseWave::new(true),
            pulse_2: PulseWave::new(false),
            triangle: TriangleWave::new(),
            noise: Noise::new(),
            dmc: DMC::new(),
            cpu_cycle: 0,
            frame_interrupt: false,
            frame: 1,
            pending_reset_cycle: None,
            irq_flag_setting_in_progress: false,
        }
    }
}

} // verus!

verus! {

/// The four channels with a length counter.
pub open spec fn is_length_counter_flag(flag: StatusRegisterFlag) -> bool {
    flag == StatusRegisterFlag::Pulse1Enabled || flag == StatusRegisterFlag::Pulse2Enabled
        || flag == StatusRegisterFlag::TriangleEnabled || flag == StatusRegisterFlag::NoiseEnabled
}

/// The length counter of the channel of `flag` set to `value`.
pub open spec fn with_length_counter(a: APU, flag: StatusRegisterFlag, value: u8) -> APU {
    match flag {
        StatusRegisterFlag::Pulse1Enabled => APU { pulse_1: PulseWave { length_counter: value, ..a.pulse_1 }, ..a },
        StatusRegisterFlag::Pulse2Enabled => APU { pulse_2: PulseWave { length_counter: value, ..a.pulse_2 }, ..a },
        StatusRegisterFlag::TriangleEnabled => APU { triangle: TriangleWave { length_counter: value, ..a.triangle }, ..a },
        _ => APU { noise: Noise { length_counter: value, ..a.noise }, ..a },
    }
}

/// The length counter load index of the channel of `flag`.
pub open spec fn channel_length_load(a: APU, flag: StatusRegisterFlag) -> u8 {
    match flag {
        StatusRegisterFlag::Pulse1Enabled => length_load(a.pulse_1.data3),
        StatusRegisterFlag::Pulse2Enabled => length_load(a.pulse_2.data3),
        StatusRegisterFlag::TriangleEnabled => length_load(a.triangle.data3),
        _ => length_load(a.noise.data3),
    }
}

pub open spec fn channel_length_counter(a: APU, flag: StatusRegisterFlag) -> u8 {
    match flag {
        StatusRegisterFlag::Pulse1Enabled => a.pulse_1.length_counter,
        StatusRegisterFlag::Pulse2Enabled => a.pulse_2.length_counter,
        StatusRegisterFlag::TriangleEnabled => a.triangle.length_counter,
        _ => a.noise.length_counter,
    }
}

pub open spec fn status_enabled(a: APU, flag: StatusRegisterFlag) -> bool {
    a.status.data & status_mask(flag) != 0
}

/// An enabled channel's length counter loaded from the table.
pub open spec fn length_reloaded(a: APU, flag: StatusRegisterFlag) -> APU {
    if status_enabled(a, flag) {
        with_length_counter(a, flag, length_counter_value(channel_length_load(a, flag)))
    } else {
        a
    }
}

/// A disabled channel's length counter cleared.
pub open spec fn length_cleared(a: APU, flag: StatusRegisterFlag) -> APU {
    if !status_enabled(a, flag) {
        with_length_counter(a, flag, 0)
    } else {
        a
    }
}

impl APU {
    fn set_length_counter(&mut self, flag: StatusRegisterFlag, value: u8)
        requires
            is_length_counter_flag(flag),
        ensures
            *final(self) == with_length_counter(*old(self), flag, value),
    {
        match flag {
            StatusRegisterFlag::Pulse1Enabled => self.pulse_1.length_counter = value,
            StatusRegisterFlag::Pulse2Enabled => self.pulse_2.length_counter = value,
            StatusRegisterFlag::TriangleEnabled => self.triangle.length_counter = value,
            _ => self.noise.length_counter = value,
        }
    }

    fn get_length_counter_load(&self, flag: StatusRegisterFlag) -> (r: u8)
        requires
            is_length_counter_flag(flag),
        ensures
            r == channel_length_load(*self, flag),
            r < 32,
    {
        match flag {
            StatusRegisterFlag::Pulse1Enabled => self.pulse_1.get_length_counter_load(),
            StatusRegisterFlag::Pulse2Enabled => self.pulse_2.get_length_counter_load(),
            StatusRegisterFlag::TriangleEnabled => self.triangle.get_length_counter_load(),
            _ => self.noise.get_length_counter_load(),
        }
    }

    fn get_length_counter(&self, flag: StatusRegisterFlag) -> (r: u8)
        requires
            is_length_counter_flag(flag),
        ensures
            r == channel_length_counter(*self, flag),
    {
        match flag {
            StatusRegisterFlag::Pulse1Enabled => self.pulse_1.length_counter,
            StatusRegisterFlag::Pulse2Enabled => self.pulse_2.length_counter,
            StatusRegisterFlag::TriangleEnabled => self.triangle.length_counter,
            _ => self.noise.length_counter,
        }
    }

    fn reload_length_counter_if_enabled(&mut self, flag: StatusRegisterFlag)
        requires
            is_length_counter_flag(flag),
        ensures
            *final(self) == length_reloaded(*old(self), flag),
    {
        if self.status.is_flag_enabled(flag) {
            let load = self.get_length_counter_load(flag);
            self.set_length_counter(flag, length_counter_lookup(load));
        }
    }

    fn reset_length_counter_if_disabled(&mut self, flag: StatusRegisterFlag)
        requires
            is_length_counter_flag(flag),
        ensures
            *final(self) == length_cleared(*old(self), flag),
    {
        if !self.status.is_flag_enabled(flag) {
            self.set_length_counter(flag, 0);
        }
    }

    fn shifted_cpu_cycle(&self, shift: u16) -> (r: u16)
        requires
            shift <= 3,
        ensures
            r == shifted_cycle(*self, shift),
            r <= FRAME_COUNTER_HALF_FRAME_0_MOD_1_CPU_CYCLES,
    {
        let max: u32 = if self.frame_counter.get_sequencer_mode() == 0 {
            FRAME_COUNTER_HALF_FRAME_0_MOD_0_CPU_CYCLES as u32
        } else {
            FRAME_COUNTER_HALF_FRAME_0_MOD_1_CPU_CYCLES as u32
        } + 1;
        ((self.cpu_cycle as u32 + shift as u32) % max) as u16
    }

    fn perform_half_frame_update(&mut self)
        requires
            old(self).wf(),
        ensures
            final(self).wf(),
            *final(self) == half_frame_update(*old(self)),
    {
        self.pulse_1.clock_length_counter_and_sweep_unit();
        self.pulse_2.clock_length_counter_and_sweep_unit();
        self.triangle.clock_length_counter();
        self.noise.clock_length_counter();
    }

    fn perform_quarter_frame_update(&mut self)
        requires
            old(self).wf(),
        ensures
            final(self).wf(),
            *final(self) == quarter_frame_update(*old(self)),
    {
        self.pulse_1.clock_envelope();
        self.pulse_2.clock_envelope();
        self.triangle.clock_linear_counter();
        self.noise.clock_envelope();
    }

    fn is_half_frame_reached(&self) -> (r: bool)
        requires
            self.wf(),
        ensures
            r == half_frame_reached(*self),
    {
        let next_cpu_cycle = self.cpu_cycle + 1;
        if next_cpu_cycle == FRAME_COUNTER_HALF_FRAME_1_CPU_CYCLES {
            return true;
        } else if self.frame_counter.get_sequencer_mode() == 0 && next_cpu_cycle
            == FRAME_COUNTER_HALF_FRAME_0_MOD_0_CPU_CYCLES {
            return true;
        } else if self.frame_counter.get_sequencer_mode() == 1 && next_cpu_cycle
            == FRAME_COUNTER_HALF_FRAME_0_MOD_1_CPU_CYCLES {
            return true;
        }
        false
    }

    fn is_quarter_frame_reached(&self) -> (r: bool)
        requires
            self.wf(),
        ensures
            r == quarter_frame_reached(*self),
    {
        let next_cpu_cycle = self.cpu_cycle + 1;
        if self.is_half_frame_reached() {
            return true;
        } else {
            if next_cpu_cycle == FRAME_COUNTER_QUARTER_FRAME_1_CPU_CYCLES {
                return true;
            }
            if next_cpu_cycle == FRAME_COUNTER_QUARTER_FRAME_3_CPU_CYCLES {
                return true;
            }
        }
        false
    }

    fn get_channel_samples(&self) -> (r: ChannelSamples)
        requires
            self.wf(),
        ensures
            r == channel_samples(*self),
    {
        ChannelSamples {
            pulse_1: self.pulse_1.get_sample(),
            pulse_2: self.pulse_2.get_sample(),
            triangle: self.triangle.get_sample(),
            noise: self.noise.get_sample(),
            dmc: self.dmc.get_sample(),
        }
    }

    /// Runs one CPU cycle of the APU and gives the five channel outputs,
    /// which the caller mixes into an audio sample.
    pub fn run_single_cpu_cycle<D: DmcMemory>(&mut self, dmc_memory: &mut D) -> (r: ChannelSamples)
        requires
            old(self).wf(),
            old(dmc_memory).inv(),
        ensures
            final(self).wf(),
            final(dmc_memory).inv(),
            exists|b: u8|
                *final(self) == apu_cycle(*old(self), b) && #[trigger] reader_fetch(
                    old(self).dmc,
                    *old(dmc_memory),
                    b,
                    *final(dmc_memory),
                ),
            r == channel_samples(*final(self)),
    {
        let ghost s0 = *self;
        if let Some(pending_reset_cycle) = self.pending_reset_cycle {
            if pending_reset_cycle == self.cpu_cycle {
                self.cpu_cycle = 0;
                self.pending_reset_cycle = None;
                if self.frame_counter.get_sequencer_mode() == 1 {
                    self.perform_half_frame_update();
                    self.perform_quarter_frame_update();
                }
            }
        }
        if self.is_quarter_frame_reached() {
            self.perform_quarter_frame_update();
        }
        if self.is_half_frame_reached() {
            self.perform_half_frame_update();
        }
        self.pulse_1.clock_timer();
        self.pulse_2.clock_timer();
        self.triangle.clock_timer();
        self.noise.clock_timer();
        let ghost d0 = self.dmc;
        let ghost m0 = *dmc_memory;
        self.dmc.fetch_next_sample_buffer(dmc_memory);
        let ghost b = choose|b: u8|
            self.dmc == DMC::buffer_fetched(d0, b) && #[trigger] reader_fetch(d0, m0, b, *dmc_memory);
        self.dmc.clock_timer();
        let inhibit = self.frame_counter.is_interrupt_inhibit_flag_set();
        if self.frame_counter.get_sequencer_mode() == 0 && (self.cpu_cycle
            == FRAME_COUNTER_HALF_FRAME_0_MOD_0_CPU_CYCLES - 1 || ((self.cpu_cycle
            == FRAME_COUNTER_HALF_FRAME_0_MOD_0_CPU_CYCLES || self.cpu_cycle == 0)
            && self.irq_flag_setting_in_progress)) && !inhibit {
            if self.cpu_cycle == FRAME_COUNTER_HALF_FRAME_0_MOD_0_CPU_CYCLES - 1 {
                self.irq_flag_setting_in_progress = true;
            }
            if self.cpu_cycle == 0 {
                self.irq_flag_setting_in_progress = false;
            }
            self.frame_interrupt = true;
        }
        self.cpu_cycle = self.shifted_cpu_cycle(1);
        if self.cpu_cycle == 0 {
            if self.frame == u128::MAX {
                self.frame = 0;
            } else {
                self.frame = self.frame + 1;
            }
        }
        assert(*self == apu_cycle(s0, b));
        assert(d0 == s0.dmc);
        assert(reader_fetch(s0.dmc, m0, b, *dmc_memory));
        self.get_channel_samples()
    }
}

impl ApuState for APU {
    /// The APU asks for an interrupt while its frame interrupt or its DMC
    /// interrupt flag is set.
    open spec fn irq_requested(&self) -> bool {
        self.frame_interrupt || self.dmc.interrupt
    }

    fn is_irq_pending(&self) -> (r: bool) {
        self.frame_interrupt || self.dmc.interrupt
    }
}

} // verus!

verus! {

/// A pulse channel after a write to its register 3.
pub open spec fn pulse_reset(p: PulseWave) -> PulseWave {
    PulseWave {
        sequencer_position: 0,
        current_period: timer_period(p.data2, p.data3),
        envelope: Envelope { start_flag: true, ..p.envelope },
        sweep_unit: SweepUnit { reload_flag: true, ..p.sweep_unit },
        ..p
    }
}

/// The status write: the enable bits are stored; a disabled DMC drops its
/// remaining bytes and an enabled idle DMC gets a start pending; disabled
/// channels lose their length counters; the DMC interrupt is cleared.
pub open spec fn status_written(a: APU, value: u8) -> APU {
    let a1 = APU { status: StatusRegister { data: value }, ..a };
    let dmc = if value & 0x10 == 0 {
        DMC { bytes_remaining: 0, ..a.dmc }
    } else if a.dmc.bytes_remaining == 0 {
        DMC { next_bytes_remaining: dmc_sample_length(a.dmc), start_pending: true, ..a.dmc }
    } else {
        a.dmc
    };
    let a2 = APU { dmc, ..a1 };
    let a3 = length_cleared(
        length_cleared(
            length_cleared(length_cleared(a2, StatusRegisterFlag::Pulse1Enabled), StatusRegisterFlag::Pulse2Enabled),
            StatusRegisterFlag::TriangleEnabled,
        ),
        StatusRegisterFlag::NoiseEnabled,
    );
    APU { dmc: DMC { interrupt: false, ..a3.dmc }, ..a3 }
}

/// The frame counter write: the mode and inhibit bits are stored, the frame
/// interrupt is cleared when inhibited, and the sequence is reset three
/// cycles later (two on an odd cycle).
pub open spec fn frame_counter_written(a: APU, value: u8) -> APU {
    let shift: u16 = if a.cpu_cycle % 2 == 0 { 3 } else { 2 };
    let a1 = APU { frame_counter: FrameCounter { data: value }, ..a };
    APU {
        frame_interrupt: if (value / 64) % 2 == 1 { false } else { a.frame_interrupt },
        pending_reset_cycle: Some(shifted_cycle(a1, shift)),
        ..a1
    }
}

/// What a register write does to the APU.
pub open spec fn apu_written(a: APU, register: WriteAccessRegister, value: u8) -> APU {
    match register {
        WriteAccessRegister::Pulse1_0 => APU { pulse_1: PulseWave { data0: value, ..a.pulse_1 }, ..a },
        WriteAccessRegister::Pulse1_1 => APU {
            pulse_1: PulseWave { data1: value, sweep_unit: SweepUnit { reload_flag: true, ..a.pulse_1.sweep_unit }, ..a.pulse_1 },
            ..a
        },
        WriteAccessRegister::Pulse1_2 => APU { pulse_1: PulseWave { data2: value, ..a.pulse_1 }, ..a },
        WriteAccessRegister::Pulse1_3 => length_reloaded(
            APU { pulse_1: pulse_reset(PulseWave { data3: value, ..a.pulse_1 }), ..a },
            StatusRegisterFlag::Pulse1Enabled,
        ),
        WriteAccessRegister::Pulse2_0 => APU { pulse_2: PulseWave { data0: value, ..a.pulse_2 }, ..a },
        WriteAccessRegister::Pulse2_1 => APU {
            pulse_2: PulseWave { data1: value, sweep_unit: SweepUnit { reload_flag: true, ..a.pulse_2.sweep_unit }, ..a.pulse_2 },
            ..a
        },
        WriteAccessRegister::Pulse2_2 => APU { pulse_2: PulseWave { data2: value, ..a.pulse_2 }, ..a },
        WriteAccessRegister::Pulse2_3 => length_reloaded(
            APU { pulse_2: pulse_reset(PulseWave { data3: value, ..a.pulse_2 }), ..a },
            StatusRegisterFlag::Pulse2Enabled,
        ),
        WriteAccessRegister::Triangle0 => APU { triangle: TriangleWave { data0: value, ..a.triangle }, ..a },
        WriteAccessRegister::Triangle1 => APU { triangle: TriangleWave { data1: value, ..a.triangle }, ..a },
        WriteAccessRegister::Triangle2 => APU { triangle: TriangleWave { data2: value, ..a.triangle }, ..a },
        WriteAccessRegister::Triangle3 => length_reloaded(
            APU { triangle: TriangleWave { data3: value, linear_counter_reload_flag: true, ..a.triangle }, ..a },
            StatusRegisterFlag::TriangleEnabled,
        ),
        WriteAccessRegister::Noise0 => APU { noise: Noise { data0: value, ..a.noise }, ..a },
        WriteAccessRegister::Noise1 => APU { noise: Noise { data1: value, ..a.noise }, ..a },
        WriteAccessRegister::Noise2 => APU { noise: Noise { data2: value, ..a.noise }, ..a },
        WriteAccessRegister::Noise3 => length_reloaded(
            APU {
                noise: Noise { data3: value, envelope: Envelope { start_flag: true, ..a.noise.envelope }, ..a.noise },
                ..a
            },
            StatusRegisterFlag::NoiseEnabled,
        ),
        WriteAccessRegister::DMC0 => APU {
            dmc: DMC { data0: value, interrupt: if value >= 0x80 { a.dmc.interrupt } else { false }, ..a.dmc },
            ..a
        },
        WriteAccessRegister::DMC1 => APU { dmc: DMC { data1: value, output_value: value % 0x80, ..a.dmc }, ..a },
        WriteAccessRegister::DMC2 => APU { dmc: DMC { data2: value, ..a.dmc }, ..a },
        WriteAccessRegister::DMC3 => APU { dmc: DMC { data3: value, ..a.dmc }, ..a },
        WriteAccessRegister::Status => status_written(a, value),
        WriteAccessRegister::FrameCounter => frame_counter_written(a, value),
    }
}

/// The byte a status read gives: frame interrupt (bit 6), DMC interrupt
/// (bit 7), DMC active (bit 4), and a bit per channel whose length counter is
/// running (noise bit 3, triangle bit 2, pulse 2 bit 1, pulse 1 bit 0).
pub open spec fn status_read_value(a: APU) -> u8 {
    status_byte(
        a.frame_interrupt,
        a.dmc.interrupt,
        a.dmc.bytes_remaining > 0 || a.dmc.start_pending,
        a.noise.length_counter > 0,
        a.triangle.length_counter > 0,
        a.pulse_2.length_counter > 0,
        a.pulse_1.length_counter > 0,
    )
}

/// The status byte with the given bits set.
pub open spec fn status_byte(frame: bool, dmc_irq: bool, dmc_active: bool, noise: bool, triangle: bool, pulse_2: bool, pulse_1: bool) -> u8 {
    ((if frame { 0x40u8 } else { 0u8 }) + (if dmc_irq { 0x80u8 } else { 0u8 }) + (if dmc_active { 0x10u8 } else { 0u8 }) + (
    if noise { 8u8 } else { 0u8 }) + (if triangle { 4u8 } else { 0u8 }) + (if pulse_2 { 2u8 } else { 0u8 }) + (if pulse_1 {
        1u8
    } else {
        0u8
    })) as u8
}

/// Reading the status clears the frame interrupt, except on the cycles where
/// it is being raised.
pub open spec fn status_read(a: APU) -> APU {
    if a.cpu_cycle != FRAME_COUNTER_HALF_FRAME_0_MOD_0_CPU_CYCLES && a.cpu_cycle != 0 {
        APU { frame_interrupt: false, ..a }
    } else {
        a
    }
}

impl APU {
    #[verifier::rlimit(60)]
    fn write_status(&mut self, value: u8)
        ensures
            *final(self) == status_written(*old(self), value),
            old(self).wf() ==> final(self).wf(),
    {
        let ghost s0 = *self;
        self.status.data = value;
        if !self.status.is_flag_enabled(StatusRegisterFlag::DMCEnabled) {
            self.dmc.bytes_remaining = 0;
        } else if self.dmc.bytes_remaining == 0 {
            self.dmc.next_bytes_remaining = self.dmc.get_sample_length();
            self.dmc.start_pending = true;
        }
        let ghost a2 = *self;
        assert(a2.dmc == (if value & 0x10 == 0 {
            DMC { bytes_remaining: 0, ..s0.dmc }
        } else if s0.dmc.bytes_remaining == 0 {
            DMC { next_bytes_remaining: dmc_sample_length(s0.dmc), start_pending: true, ..s0.dmc }
        } else {
            s0.dmc
        }));
        self.reset_length_counter_if_disabled(StatusRegisterFlag::Pulse1Enabled);
        self.reset_length_counter_if_disabled(StatusRegisterFlag::Pulse2Enabled);
        self.reset_length_counter_if_disabled(StatusRegisterFlag::TriangleEnabled);
        self.reset_length_counter_if_disabled(StatusRegisterFlag::NoiseEnabled);
        self.dmc.interrupt = false;
    }

    fn write_frame_counter(&mut self, value: u8)
        ensures
            *final(self) == frame_counter_written(*old(self), value),
            old(self).wf() ==> final(self).wf(),
    {
        let shift: u16 = if self.cpu_cycle % 2 == 0 {
            3
        } else {
            2
        };
        self.frame_counter.data = value;
        if self.frame_counter.is_interrupt_inhibit_flag_set() {
            self.frame_interrupt = false;
        }
        self.pending_reset_cycle = Some(self.shifted_cpu_cycle(shift));
    }
}

impl WriteAcessRegisters for APU {
    fn write(&mut self, register: WriteAccessRegister, value: u8)
        ensures
            *final(self) == apu_written(*old(self), register, value),
            old(self).wf() ==> final(self).wf(),
    {
        match register {
            WriteAccessRegister::Pulse1_0 => self.pulse_1.data0 = value,
            WriteAccessRegister::Pulse1_1 => {
                self.pulse_1.data1 = value;
                self.pulse_1.sweep_unit.reload_flag = true;
            },
            WriteAccessRegister::Pulse1_2 => self.pulse_1.data2 = value,
            WriteAccessRegister::Pulse1_3 => {
                self.pulse_1.data3 = value;
                self.pulse_1.reset();
                self.reload_length_counter_if_enabled(StatusRegisterFlag::Pulse1Enabled);
            },
            WriteAccessRegister::Pulse2_0 => self.pulse_2.data0 = value,
            WriteAccessRegister::Pulse2_1 => {
                self.pulse_2.data1 = value;
                self.pulse_2.sweep_unit.reload_flag = true;
            },
            WriteAccessRegister::Pulse2_2 => self.pulse_2.data2 = value,
            WriteAccessRegister::Pulse2_3 => {
                self.pulse_2.data3 = value;
                self.pulse_2.reset();
                self.reload_length_counter_if_enabled(StatusRegisterFlag::Pulse2Enabled);
            },
            WriteAccessRegister::Triangle0 => self.triangle.data0 = value,
            WriteAccessRegister::Triangle1 => self.triangle.data1 = value,
            WriteAccessRegister::Triangle2 => self.triangle.data2 = value,
            WriteAccessRegister::Triangle3 => {
                self.triangle.data3 = value;
                self.triangle.linear_counter_reload_flag = true;
                self.reload_length_counter_if_enabled(StatusRegisterFlag::TriangleEnabled);
            },
            WriteAccessRegister::Noise0 => self.noise.data0 = value,
            WriteAccessRegister::Noise1 => self.noise.data1 = value,
            WriteAccessRegister::Noise2 => self.noise.data2 = value,
            WriteAccessRegister::Noise3 => {
                self.noise.data3 = value;
                self.noise.reset();
                self.reload_length_counter_if_enabled(StatusRegisterFlag::NoiseEnabled);
            },
            WriteAccessRegister::DMC0 => {
                self.dmc.data0 = value;
                if !self.dmc.is_irq_enabled() {
                    self.dmc.interrupt = false;
                }
            },
            WriteAccessRegister::DMC1 => {
                self.dmc.data1 = value;
                self.dmc.output_value = self.dmc.get_direct_load();
            },
            WriteAccessRegister::DMC2 => self.dmc.data2 = value,
            WriteAccessRegister::DMC3 => self.dmc.data3 = value,
            WriteAccessRegister::Status => self.write_status(value),
            WriteAccessRegister::FrameCounter => self.write_frame_counter(value),
        }
    }
}

impl ReadAccessRegisters for APU {
    fn read(&mut self, register: ReadAccessRegister) -> (r: u8)
        ensures
            r == status_read_value(*old(self)),
            *final(self) == status_read(*old(self)),
            old(self).wf() ==> final(self).wf(),
    {
        let mut out: u8 = 0;
        if self.frame_interrupt {
            out = out + 0x40;
        }
        if self.dmc.interrupt {
            out = out + 0x80;
        }
        if self.dmc.bytes_remaining > 0 || self.dmc.start_pending {
            out = out + 0x10;
        }
        if self.get_length_counter(StatusRegisterFlag::NoiseEnabled) > 0 {
            out = out + 0x08;
        }
        if self.get_length_counter(StatusRegisterFlag::TriangleEnabled) > 0 {
            out = out + 0x04;
        }
        if self.get_length_counter(StatusRegisterFlag::Pulse1Enabled) > 0 {
            out = out + 0x01;
        }
        if self.get_length_counter(StatusRegisterFlag::Pulse2Enabled) > 0 {
            out = out + 0x02;
        }
        if self.cpu_cycle != FRAME_COUNTER_HALF_FRAME_0_MOD_0_CPU_CYCLES && self.cpu_cycle != 0 {
            self.frame_interrupt = false;
        }
        out
    }
}

impl ApuRegisterAccess for APU {
}

} // verus!
