//! The audio processing unit: two pulse channels, a triangle channel, a
//! noise channel and the frame counter that clocks their envelopes, sweeps
//! and length counters. The mixing of the channel volumes into samples is
//! done by whoever plays them.

use vstd::prelude::*;

verus! {

/// The length counter loads, indexed by the top five bits of a length write.
pub open spec fn spec_length_value(index: u8) -> u8 {
    match index {
        0 => 10u8,
        1 => 254,
        2 => 20,
        3 => 2,
        4 => 40,
        5 => 4,
        6 => 80,
        7 => 6,
        8 => 160,
        9 => 8,
        10 => 60,
        11 => 10,
        12 => 14,
        13 => 12,
        14 => 26,
        15 => 14,
        16 => 12,
        17 => 16,
        18 => 24,
        19 => 18,
        20 => 48,
        21 => 20,
        22 => 96,
        23 => 22,
        24 => 192,
        25 => 24,
        26 => 72,
        27 => 26,
        28 => 16,
        29 => 28,
        30 => 32,
        _ => 30,
    }
}

fn length_value(index: u8) -> (r: u8)
    ensures
        r == spec_length_value(index),
{
    match index {
        0 => 10,
        1 => 254,
        2 => 20,
        3 => 2,
        4 => 40,
        5 => 4,
        6 => 80,
        7 => 6,
        8 => 160,
        9 => 8,
        10 => 60,
        11 => 10,
        12 => 14,
        13 => 12,
        14 => 26,
        15 => 14,
        16 => 12,
        17 => 16,
        18 => 24,
        19 => 18,
        20 => 48,
        21 => 20,
        22 => 96,
        23 => 22,
        24 => 192,
        25 => 24,
        26 => 72,
        27 => 26,
        28 => 16,
        29 => 28,
        30 => 32,
        _ => 30,
    }
}

/// The eight-step waveform of a pulse duty setting: bit `i` is step `i`.
pub open spec fn spec_duty_pattern(duty: u8) -> u8 {
    match duty {
        0 => 0b00000001u8,
        1 => 0b00000011,
        2 => 0b00001111,
        _ => 0b11111100,
    }
}

fn duty_pattern(duty: u8) -> (r: u8)
    ensures
        r == spec_duty_pattern(duty),
{
    match duty {
        0 => 0b00000001,
        1 => 0b00000011,
        2 => 0b00001111,
        _ => 0b11111100,
    }
}

/// The noise timer periods, indexed by the low four bits of the period write.
pub open spec fn spec_noise_period(index: u8) -> u16 {
    match index {
        0 => 4u16,
        1 => 8,
        2 => 16,
        3 => 32,
        4 => 64,
        5 => 96,
        6 => 128,
        7 => 160,
        8 => 202,
        9 => 254,
        10 => 380,
        11 => 508,
        12 => 762,
        13 => 1016,
        14 => 2034,
        _ => 4068,
    }
}

fn noise_period(index: u8) -> (r: u16)
    ensures
        r == spec_noise_period(index),
{
    match index {
        0 => 4,
        1 => 8,
        2 => 16,
        3 => 32,
        4 => 64,
        5 => 96,
        6 => 128,
        7 => 160,
        8 => 202,
        9 => 254,
        10 => 380,
        11 => 508,
        12 => 762,
        13 => 1016,
        14 => 2034,
        _ => 4068,
    }
}

/// Whether bit `n` of `value` is set.
pub open spec fn bit(value: u8, n: u8) -> bool {
    (value >> n) & 1 == 1
}

/// The envelope register of a pulse or noise channel ($4000, $4004, $400C).
#[derive(Debug, Clone, Copy, PartialEq, Eq, Structural)]
pub struct Envelope {
    pub duty: u8,
    pub volume: u8,
    pub loops_playback: bool,
    pub constant_volume: bool,
}

impl Envelope {
    /// The envelope that a write of `flag` sets: duty in the top two bits,
    /// the loop flag in bit 5, constant volume in bit 4, the volume (or
    /// envelope period) in the low four bits.
    pub open spec fn spec_from_flags(flag: u8) -> Envelope {
        Envelope {
            duty: flag / 64,
            loops_playback: (flag / 32) % 2 == 1,
            constant_volume: (flag / 16) % 2 == 1,
            volume: flag % 16,
        }
    }

    pub open spec fn wf(self) -> bool {
        self.duty <= 3 && self.volume <= 15
    }

    pub fn new() -> (r: Envelope)
        ensures
            r == (Envelope { duty: 0, volume: 0, loops_playback: false, constant_volume: false }),
    {
        Envelope { duty: 0, volume: 0, loops_playback: false, constant_volume: false }
    }

    pub fn from_flags(flag: u8) -> (r: Envelope)
        ensures
            r == Self::spec_from_flags(flag),
            r.wf(),
    {
        proof {
            lemma_byte_fields(flag);
        }
        let duty = (flag & 0b11000000) >> 6;
        let loops_playback = flag & 0b100000 != 0;
        let constant_volume = flag & 0b10000 != 0;
        let volume = flag & 0b1111;
        Envelope { duty, loops_playback, constant_volume, volume }
    }
}

/// The sweep register of a pulse channel ($4001, $4005).
#[derive(Debug, Clone, Copy, PartialEq, Eq, Structural)]
pub struct Sweep {
    pub enabled: bool,
    pub period: u8,
    pub shift: u8,
    pub negate: bool,
}

impl Sweep {
    /// The sweep that a write of `flag` sets: enabled in bit 7, the period
    /// in bits 4 to 6, negate in bit 3, the shift in the low three bits.
    pub open spec fn spec_from_flags(flag: u8) -> Sweep {
        Sweep {
            enabled: flag >= 128,
            shift: flag % 8,
            negate: (flag / 8) % 2 == 1,
            period: (flag / 16) % 8,
        }
    }

    pub open spec fn wf(self) -> bool {
        self.period <= 7 && self.shift <= 7
    }

    pub fn new() -> (r: Sweep)
        ensures
            r == (Sweep { enabled: false, period: 0, shift: 0, negate: false }),
    {
        Sweep { enabled: false, period: 0, shift: 0, negate: false }
    }

    pub fn from_flags(flag: u8) -> (r: Sweep)
        ensures
            r == Self::spec_from_flags(flag),
            r.wf(),
    {
        proof {
            lemma_byte_fields(flag);
        }
        let enabled = flag & 0x80 != 0;
        let shift = flag & 0b111;
        let negate = flag & 0b1000 != 0;
        let period = (flag & 0b01110000) >> 4;
        Sweep { enabled, shift, negate, period }
    }
}

#[derive(Debug, Clone, Copy, PartialEq, Eq, Structural)]
pub enum PulseType {
    Pulse1,
    Pulse2,
}

/// A pulse (square wave) channel.
#[derive(Debug, Clone, Copy, PartialEq, Eq, Structural)]
pub struct PulseChannel {
    pub envelope: Envelope,
    pub sweep: Sweep,
    pub pulse_type: PulseType,
    pub timer: u16,
    pub current_timer: u16,
    pub length: u8,
    pub current_duty: u8,
    pub envelope_clock: u8,
    pub restart_envelope: bool,
    pub sweep_clock: u8,
    pub current_volume: u8,
    pub enabled: bool,
}

/// The fields of a register byte, as arithmetic on the byte.
proof fn lemma_byte_fields(flag: u8)
    by (bit_vector)
    ensures
        (flag & 0b11000000) >> 6 == flag / 64,
        (flag & 0b100000 != 0) == ((flag / 32) % 2 == 1),
        (flag & 0b10000 != 0) == ((flag / 16) % 2 == 1),
        flag & 0b1111 == flag % 16,
        (flag & 0x80 != 0) == (flag >= 128),
        flag & 0b111 == flag % 8,
        (flag & 0b1000 != 0) == ((flag / 8) % 2 == 1),
        (flag & 0b01110000) >> 4 == (flag / 16) % 8,
        (flag & 0b11111000) >> 3 == flag / 8,
        flag & 0b01111111 == flag % 128,
        (flag & 0x40 != 0) == ((flag / 64) % 2 == 1),
{
}

/// Setting the low byte, or the high three bits, of an eleven-bit timer.
proof fn lemma_timer_bytes(t: u16, low: u8, high: u8)
    ensures
        (t & !0xffu16) | (low as u16) == t - t % 256 + low,
        (t & 0xffu16) | (((high as u16) & 0b111u16) << 8u16) == t % 256 + (high % 8) * 256,
        (low as u16) | (((high as u16) & 0b111u16) << 8u16) == low + (high % 8) * 256,
{
    let l = low as u16;
    let h = high as u16;
    assert((t & !0xffu16) | l == t - t % 256 + l && (t & 0xffu16) | ((h & 0b111u16) << 8u16) == t
        % 256 + (h % 8) * 256 && l | ((h & 0b111u16) << 8u16) == l + (h % 8) * 256) by (bit_vector)
        requires
            l < 256,
            h < 256,
    ;
}

proof fn lemma_shifts_divide(value: u16)
    by (bit_vector)
    ensures
        (value >> 0u8) == value / 1,
        (value >> 1u8) == value / 2,
        (value >> 2u8) == value / 4,
        (value >> 3u8) == value / 8,
        (value >> 4u8) == value / 16,
        (value >> 5u8) == value / 32,
        (value >> 6u8) == value / 64,
        (value >> 7u8) == value / 128,
{
}

/// The bits of the noise shift register that the feedback reads, and the
/// shift that takes the feedback bit in.
proof fn lemma_shift_register_bits(sr: u16, other: u16)
    by (bit_vector)
    ensures
        ((sr & 0b1000000) >> 6) == (sr / 64) % 2,
        ((sr & 0b10) >> 1) == (sr / 2) % 2,
        sr & 1 == sr % 2,
        (sr & 1 == 0) == (sr % 2 == 0),
        other <= 1 ==> ((sr & 1) ^ other) == (if sr & 1 == other {
            0u16
        } else {
            1u16
        }),
        sr < 0x8000 && other <= 1 ==> (sr >> 1) | (other << 14) == sr / 2 + other * 0x4000,
{
}

/// `value` shifted right by `shift` bits, as a division.
pub open spec fn shifted_down(value: u16, shift: u8) -> int {
    value as int / vstd::arithmetic::power2::pow2(shift as nat) as int
}

proof fn lemma_shift_is_division(value: u16, shift: u8)
    requires
        shift <= 7,
    ensures
        (value >> shift) as int == shifted_down(value, shift),
        (value >> shift) <= value,
        shift > 0 && value > 0 ==> (value >> shift) < value,
{
    vstd::arithmetic::power2::lemma2_to64();
    lemma_shifts_divide(value);
}

impl PulseChannel {
    pub open spec fn wf(self) -> bool {
        &&& self.envelope.wf()
        &&& self.sweep.wf()
        &&& self.timer <= 0x7ff
        &&& self.current_timer <= 0x7ff
        &&& self.current_duty <= 7
        &&& self.envelope_clock <= 15
        &&& self.sweep_clock <= 7
        &&& self.current_volume <= 15
    }

    pub open spec fn initial(pulse_type: PulseType) -> PulseChannel {
        PulseChannel {
            envelope: Envelope { duty: 0, volume: 0, loops_playback: false, constant_volume: false },
            sweep: Sweep { enabled: false, period: 0, shift: 0, negate: false },
            timer: 0,
            length: 0,
            current_duty: 0,
            current_timer: 0,
            envelope_clock: 0,
            current_volume: 0,
            sweep_clock: 0,
            pulse_type,
            restart_envelope: false,
            enabled: false,
        }
    }

    /// The period that the sweep unit aims at: the timer plus or minus the
    /// timer shifted right; the first pulse channel subtracts one more.
    pub open spec fn target_period(self) -> int {
        let add = shifted_down(self.timer, self.sweep.shift);
        let extra: int = if self.pulse_type == PulseType::Pulse1 {
            1
        } else {
            0
        };
        if self.sweep.negate {
            self.timer - add - extra
        } else {
            self.timer + add
        }
    }

    /// The target period is computed in 16 bits without going below zero.
    pub open spec fn target_defined(self) -> bool {
        self.target_period() >= 0
    }

    /// Whether the channel is silenced by its period: a timer under 8, or a
    /// sweep target past 0x7ff.
    pub open spec fn period_muted(self) -> bool {
        self.timer < 8 || self.target_period() > 0x7ff
    }

    pub open spec fn spec_volume(self) -> u8 {
        if self.period_muted() || self.length == 0 || !bit(
            spec_duty_pattern(self.envelope.duty),
            self.current_duty,
        ) {
            0
        } else if self.envelope.constant_volume {
            self.envelope.volume
        } else {
            self.current_volume
        }
    }

    /// The volume can be read when the target period is defined wherever it
    /// is computed: with a timer of 8 or more.
    pub open spec fn volume_defined(self) -> bool {
        self.timer >= 8 ==> self.target_defined()
    }

    pub open spec fn enabled_set(self, enabled: bool) -> PulseChannel {
        PulseChannel { enabled, length: if enabled { self.length } else { 0 }, ..self }
    }

    pub open spec fn with_envelope_flag(self, flag: u8) -> PulseChannel {
        PulseChannel { envelope: Envelope::spec_from_flags(flag), ..self }
    }

    pub open spec fn with_sweep_flag(self, flag: u8) -> PulseChannel {
        let sweep = Sweep::spec_from_flags(flag);
        PulseChannel { sweep, sweep_clock: sweep.period, ..self }
    }

    pub open spec fn with_low_timer(self, value: u8) -> PulseChannel {
        PulseChannel { timer: (self.timer - self.timer % 256 + value) as u16, ..self }
    }

    /// A write of the length and high timer register: the length counter
    /// loads when the channel is enabled, the timer gets its high three
    /// bits, and the waveform and envelope restart.
    pub open spec fn with_length_and_high_timer(self, value: u8) -> PulseChannel {
        let timer = (self.timer % 256 + (value % 8) * 256) as u16;
        PulseChannel {
            length: if self.enabled {
                spec_length_value(value / 8)
            } else {
                self.length
            },
            timer,
            current_timer: timer,
            current_duty: 0,
            restart_envelope: true,
            ..self
        }
    }

    /// One clock of the channel timer: at zero it reloads and the waveform
    /// moves one step back.
    pub open spec fn stepped(self) -> PulseChannel {
        if self.current_timer > 0 {
            PulseChannel { current_timer: (self.current_timer - 1) as u16, ..self }
        } else {
            PulseChannel {
                current_timer: self.timer,
                current_duty: ((7 + self.current_duty) % 8) as u8,
                ..self
            }
        }
    }

    /// The envelope unit on a quarter frame.
    pub open spec fn quarter_clocked(self) -> PulseChannel {
        if self.restart_envelope {
            PulseChannel {
                envelope_clock: self.envelope.volume,
                current_volume: 15,
                restart_envelope: false,
                ..self
            }
        } else if self.envelope_clock > 0 {
            PulseChannel { envelope_clock: (self.envelope_clock - 1) as u8, ..self }
        } else {
            let decayed: u8 = if self.current_volume > 0 {
                (self.current_volume - 1) as u8
            } else {
                0
            };
            PulseChannel {
                envelope_clock: self.envelope.volume,
                current_volume: if self.envelope.loops_playback && decayed == 0 {
                    15
                } else {
                    decayed
                },
                ..self
            }
        }
    }

    /// The sweep unit on a half frame: when it is active, its divider counts
    /// down and at zero the timer takes the target period.
    pub open spec fn sweep_stepped(self) -> PulseChannel {
        if self.period_muted() || !self.sweep.enabled || self.sweep.shift == 0 {
            self
        } else if self.sweep_clock > 0 {
            PulseChannel { sweep_clock: (self.sweep_clock - 1) as u8, ..self }
        } else {
            PulseChannel {
                timer: self.target_period() as u16,
                sweep_clock: self.sweep.period,
                ..self
            }
        }
    }

    /// The length counter on a half frame: it counts down unless halted by
    /// the loop flag.
    pub open spec fn length_stepped(self) -> PulseChannel {
        if self.length > 0 && !self.envelope.loops_playback {
            PulseChannel { length: (self.length - 1) as u8, ..self }
        } else {
            self
        }
    }

    pub open spec fn half_clocked(self) -> PulseChannel {
        self.sweep_stepped().length_stepped()
    }

    pub fn new(pulse_type: PulseType) -> (r: PulseChannel)
        ensures
            r == Self::initial(pulse_type),
            r.wf(),
    {
        PulseChannel {
            envelope: Envelope::new(),
            sweep: Sweep::new(),
            timer: 0,
            length: 0,
            current_duty: 0,
            current_timer: 0,
            envelope_clock: 0,
            current_volume: 0,
            sweep_clock: 0,
            pulse_type,
            restart_envelope: false,
            enabled: false,
        }
    }

    pub fn is_running(&self) -> (r: bool)
        ensures
            r == (self.length != 0),
    {
        self.length != 0
    }

    pub fn set_enabled(&mut self, enabled: bool)
        ensures
            *final(self) == old(self).enabled_set(enabled),
    {
        self.enabled = enabled;
        if !enabled {
            self.length = 0;
        }
    }

    pub fn set_envelope_flag(&mut self, flag: u8)
        ensures
            *final(self) == old(self).with_envelope_flag(flag),
    {
        self.envelope = Envelope::from_flags(flag);
    }

    pub fn set_sweep_flag(&mut self, flag: u8)
        ensures
            *final(self) == old(self).with_sweep_flag(flag),
    {
        self.sweep = Sweep::from_flags(flag);
        self.sweep_clock = self.sweep.period;
    }

    pub fn set_low_timer(&mut self, timer: u8)
        ensures
            *final(self) == old(self).with_low_timer(timer),
    {
        let t = self.timer;
        self.timer = (t & !0xff) | timer as u16;
        proof {
            lemma_timer_bytes(t, timer, timer);
        }
    }

    pub fn set_length_counter_and_high_timer(&mut self, length_and_high: u8)
        ensures
            *final(self) == old(self).with_length_and_high_timer(length_and_high),
    {
        proof {
            lemma_byte_fields(length_and_high);
            lemma_timer_bytes(self.timer, length_and_high, length_and_high);
        }
        if self.enabled {
            let length_index = (length_and_high & 0b11111000) >> 3;
            self.length = length_value(length_index);
        }
        let t = self.timer;
        self.timer = (t & 0xff) | (((length_and_high as u16) & 0b111) << 8);
        self.current_timer = self.timer;
        self.current_duty = 0;
        self.restart_envelope = true;
    }

    pub fn step(&mut self)
        ensures
            *final(self) == old(self).stepped(),
    {
        if self.current_timer > 0 {
            self.current_timer = self.current_timer - 1;
        } else {
            self.current_timer = self.timer;
            self.current_duty = (7 + self.current_duty % 8) % 8;
            assert((7 + old(self).current_duty % 8) % 8 == (7 + old(self).current_duty) % 8);
        }
    }

    fn next_target_period(&self) -> (r: u16)
        requires
            self.wf(),
            self.target_defined(),
        ensures
            r == self.target_period(),
    {
        proof {
            lemma_shift_is_division(self.timer, self.sweep.shift);
        }
        let add = self.timer >> self.sweep.shift;
        let extra: u16 = if self.pulse_type == PulseType::Pulse1 {
            1
        } else {
            0
        };
        if self.sweep.negate {
            self.timer - add - extra
        } else {
            self.timer + add
        }
    }

    /// Whether the target period can be computed.
    pub fn target_defined_exec(&self) -> (r: bool)
        requires
            self.wf(),
        ensures
            r == self.target_defined(),
    {
        proof {
            lemma_shift_is_division(self.timer, self.sweep.shift);
        }
        let add = self.timer >> self.sweep.shift;
        !(self.sweep.negate && self.pulse_type == PulseType::Pulse1 && self.timer - add == 0)
    }

    pub fn get_current_volume(&self) -> (r: u8)
        requires
            self.wf(),
            self.volume_defined(),
        ensures
            r == self.spec_volume(),
            r <= 15,
    {
        if self.timer < 8 || self.next_target_period() > 0x7ff || self.length == 0 {
            return 0;
        }
        let pattern = duty_pattern(self.envelope.duty);
        let duty = self.current_duty;
        let on = pattern & (1u8 << duty) != 0;
        assert(duty < 8 ==> ((pattern & (1u8 << duty) != 0) == ((pattern >> duty) & 1 == 1)))
            by (bit_vector);
        if !on {
            0
        } else if self.envelope.constant_volume {
            self.envelope.volume
        } else {
            self.current_volume
        }
    }

    pub fn quarter_frame_clock(&mut self)
        ensures
            *final(self) == old(self).quarter_clocked(),
    {
        if self.restart_envelope {
            self.envelope_clock = self.envelope.volume;
            self.current_volume = 15;
            self.restart_envelope = false;
            return ;
        }
        if self.envelope_clock > 0 {
            self.envelope_clock = self.envelope_clock - 1;
        } else {
            self.envelope_clock = self.envelope.volume;
            if self.current_volume > 0 {
                self.current_volume = self.current_volume - 1;
            }
            if self.envelope.loops_playback && self.current_volume == 0 {
                self.current_volume = 15;
            }
        }
    }

    pub fn half_frame_clock(&mut self)
        requires
            old(self).wf(),
            old(self).target_defined(),
        ensures
            *final(self) == old(self).half_clocked(),
    {
        self.sweep_step();
        self.length_step();
    }

    fn sweep_step(&mut self)
        requires
            old(self).wf(),
            old(self).target_defined(),
        ensures
            *final(self) == old(self).sweep_stepped(),
    {
        let next_target_period = self.next_target_period();
        if self.timer < 8 || next_target_period > 0x7ff || !self.sweep.enabled || self.sweep.shift
            == 0 {
            return ;
        }
        if self.sweep_clock > 0 {
            self.sweep_clock = self.sweep_clock - 1;
        } else {
            self.timer = next_target_period;
            self.sweep_clock = self.sweep.period;
        }
    }

    fn length_step(&mut self)
        ensures
            *final(self) == old(self).length_stepped(),
    {
        if self.length > 0 && !self.envelope.loops_playback {
            self.length = self.length - 1;
        }
    }

    pub fn reset(&mut self)
        ensures
            *final(self) == (PulseChannel { restart_envelope: true, ..*old(self) }),
    {
        self.restart_envelope = true;
    }
}

/// Bit 5 of an envelope write is the loop (length halt) flag, and bit 7 of
/// a triangle linear counter write is the control (length halt) flag.
proof fn lemma_halt_bits(flag: u8)
    ensures
        (flag & 0x20 != 0) == ((flag / 32) % 2 == 1),
        (flag & 0x80 != 0) == (flag >= 128),
{
    assert((flag & 0x20 != 0) == ((flag / 32) % 2 == 1) && (flag & 0x80 != 0) == (flag >= 128))
        by (bit_vector);
}

/// A length counter one half frame on, when not halted: one less, and
/// never below zero.
pub open spec fn counted_down(len: u8) -> u8 {
    if len > 0 {
        (len - 1) as u8
    } else {
        0
    }
}

/// The length counters on a half frame: after an envelope write (pulse,
/// noise) or linear counter write (triangle) with the halt bit set (bit 5,
/// bit 5, bit 7), a half frame leaves the length where it was; with the
/// bit clear it counts down by one and stops at zero.
pub proof fn lemma_length_counters_halt(
    pulse: PulseChannel,
    triangle: TriangleChannel,
    noise: NoiseChannel,
    flag: u8,
)
    ensures
        ({
            let p = pulse.with_envelope_flag(flag).half_clocked();
            let t = triangle.with_linear_counter_flag(flag).half_clocked();
            let n = noise.with_envelope_flag(flag).half_clocked();
            &&& p.length == if flag & 0x20 != 0 {
                pulse.length
            } else {
                counted_down(pulse.length)
            }
            &&& n.length == if flag & 0x20 != 0 {
                noise.length
            } else {
                counted_down(noise.length)
            }
            &&& t.length == if flag & 0x80 != 0 {
                triangle.length
            } else {
                counted_down(triangle.length)
            }
        }),
{
    lemma_halt_bits(flag);
}

/// A half frame of a pulse channel counts its length down by one unless the
/// envelope's loop flag halts it; nothing but the length counter and the
/// sweep unit changes.
pub proof fn lemma_pulse_half_frame_length(c: PulseChannel)
    ensures
        c.half_clocked().length == if c.envelope.loops_playback || c.length == 0 {
            c.length
        } else {
            (c.length - 1) as u8
        },
        c.half_clocked().envelope == c.envelope,
        c.half_clocked().enabled == c.enabled,
{
}

/// The decay level after a decay clock of the envelope: one lower, and at
/// the bottom either 15 again (when the envelope loops) or 0.
pub open spec fn decayed_level(level: u8, loops: bool) -> u8 {
    if level >= 2 || (level == 1 && !loops) {
        (level - 1) as u8
    } else if loops {
        15
    } else {
        0
    }
}

/// The envelope on a quarter frame, for the pulse and noise channels: a
/// restart (after a length write) sets the level to 15 and the divider to
/// the envelope period (the volume bits); otherwise the divider counts down
/// and, when it is already 0, reloads and the level decays by one, wrapping
/// to 15 only when the envelope loops.
pub proof fn lemma_envelope_quarter_frame(c: PulseChannel, n: NoiseChannel)
    ensures
        ({
            let q = c.quarter_clocked();
            &&& c.restart_envelope ==> q.current_volume == 15 && q.envelope_clock
                == c.envelope.volume && !q.restart_envelope
            &&& !c.restart_envelope && c.envelope_clock > 0 ==> q.current_volume
                == c.current_volume && q.envelope_clock == c.envelope_clock - 1
            &&& !c.restart_envelope && c.envelope_clock == 0 ==> q.envelope_clock
                == c.envelope.volume && q.current_volume == decayed_level(
                c.current_volume,
                c.envelope.loops_playback,
            )
            &&& q.length == c.length && q.timer == c.timer && q.envelope == c.envelope
        }),
        ({
            let q = n.quarter_clocked();
            &&& n.restart_envelope ==> q.current_volume == 15 && q.envelope_clock
                == n.envelope.volume
            &&& !n.restart_envelope && n.envelope_clock > 0 ==> q.current_volume
                == n.current_volume && q.envelope_clock == n.envelope_clock - 1
            &&& !n.restart_envelope && n.envelope_clock == 0 ==> q.envelope_clock
                == n.envelope.volume && q.current_volume == decayed_level(
                n.current_volume,
                n.envelope.loops_playback,
            )
            &&& q.length == n.length && q.envelope == n.envelope
        }),
{
}

/// The triangle's linear counter on a quarter frame: after a write of the
/// length register it reloads from the linear counter register; otherwise
/// it counts down to 0. The reload request stays only while the control
/// flag is set.
pub proof fn lemma_linear_counter_quarter_frame(c: TriangleChannel)
    ensures
        c.quarter_clocked().current_linear_counter == if c.linear_counter_reload {
            c.linear_counter
        } else if c.current_linear_counter > 0 {
            (c.current_linear_counter - 1) as u8
        } else {
            0
        },
        c.quarter_clocked().linear_counter_reload == (c.linear_counter_reload && c.control_flag),
        c.quarter_clocked().length == c.length,
        c.with_length_and_high_timer(0).quarter_clocked().current_linear_counter
            == c.linear_counter,
{
}

/// The sweep unit on a half frame: it acts only when enabled, with a shift
/// other than 0 and the channel not muted by its period; then its divider
/// counts down, and at 0 reloads from the sweep period while the timer
/// takes the target period: the timer plus or minus the timer divided by 2
/// to the shift, the first pulse channel subtracting one more (ones'
/// complement negation).
pub proof fn lemma_pulse_sweep(c: PulseChannel)
    ensures
        ({
            let change = c.timer as int / vstd::arithmetic::power2::pow2(c.sweep.shift as nat) as int;
            c.target_period() == if !c.sweep.negate {
                c.timer + change
            } else if c.pulse_type == PulseType::Pulse1 {
                c.timer - change - 1
            } else {
                c.timer - change
            }
        }),
        ({
            let h = c.sweep_stepped();
            let active = c.sweep.enabled && c.sweep.shift != 0 && c.timer >= 8 && c.target_period()
                <= 0x7ff;
            &&& !active ==> h == c
            &&& active && c.sweep_clock > 0 ==> h.timer == c.timer && h.sweep_clock
                == c.sweep_clock - 1
            &&& active && c.sweep_clock == 0 && c.target_defined() ==> h.timer
                == c.target_period() && h.sweep_clock == c.sweep.period
            &&& h.length == c.length && h.envelope == c.envelope
        }),
{
}

/// What a pulse channel sounds and how its timer runs: it is silent with a
/// timer below 8, with a sweep target past 0x7ff, with its length counter
/// at 0, or where its duty pattern is low; otherwise it sounds the
/// envelope's volume bits when the volume is constant and the envelope's
/// decay level when not. Each timer clock counts the timer down, and at 0
/// reloads it and moves the duty position one step back (mod 8).
pub proof fn lemma_pulse_output(c: PulseChannel)
    ensures
        c.timer < 8 ==> c.spec_volume() == 0,
        c.target_period() > 0x7ff ==> c.spec_volume() == 0,
        c.length == 0 ==> c.spec_volume() == 0,
        !bit(spec_duty_pattern(c.envelope.duty), c.current_duty) ==> c.spec_volume() == 0,
        (c.timer >= 8 && c.target_period() <= 0x7ff && c.length > 0 && bit(
            spec_duty_pattern(c.envelope.duty),
            c.current_duty,
        )) ==> c.spec_volume() == if c.envelope.constant_volume {
            c.envelope.volume
        } else {
            c.current_volume
        },
        c.current_timer > 0 ==> c.stepped().current_timer == c.current_timer - 1
            && c.stepped().current_duty == c.current_duty,
        c.current_timer == 0 ==> c.stepped().current_timer == c.timer
            && c.stepped().current_duty == (c.current_duty + 7) % 8,
        c.stepped().length == c.length && c.stepped().timer == c.timer,
{
}

/// The noise channel sounds when bit 0 of its shift register is clear and
/// its length counter is not 0: the envelope's volume bits when the volume
/// is constant, its decay level when not. Each timer clock counts the timer
/// down, and at 0 reloads it and shifts the register right by one, taking
/// in at bit 14 the exclusive or of bit 0 and bit 1 (bit 6 in the short
/// mode).
pub proof fn lemma_noise_output(c: NoiseChannel)
    ensures
        c.spec_volume() == if c.shift_register % 2 == 0 && c.length != 0 {
            if c.envelope.constant_volume {
                c.envelope.volume
            } else {
                c.current_volume
            }
        } else {
            0
        },
        c.current_noise_timer > 0 ==> c.stepped().current_noise_timer == c.current_noise_timer - 1
            && c.stepped().shift_register == c.shift_register,
        c.current_noise_timer == 0 ==> c.stepped().current_noise_timer == c.noise_period
            && c.stepped().shift_register == c.shift_register / 2 + 0x4000 * ((c.shift_register
            + c.shift_register / (if c.mode_flag {
            64u16
        } else {
            2u16
        })) % 2),
{
}

/// The triangle channel is silent while its length counter or its linear
/// counter is 0 and otherwise sounds its level; each timer clock at 0
/// (with a timer period other than 0) moves the level one step along
/// 15, 14, ..., 0, 0, 1, ..., 15, 15, 14, ... and it never leaves 0..=15.
pub proof fn lemma_triangle_output(c: TriangleChannel)
    requires
        c.wf(),
    ensures
        c.spec_volume() == if c.length == 0 || c.current_linear_counter == 0 {
            0
        } else {
            c.volume
        },
        c.stepped().volume <= 15,
        c.stepped().volume <= c.volume + 1 && c.volume <= c.stepped().volume + 1,
        c.timer == 0 ==> c.stepped() == c,
        c.timer > 0 && c.current_timer > 0 ==> c.stepped().volume == c.volume
            && c.stepped().current_timer == c.current_timer - 1,
        c.timer > 0 && c.current_timer == 0 && c.increment < 0 && c.volume > 0
            ==> c.stepped().volume == c.volume - 1,
        c.timer > 0 && c.current_timer == 0 && c.increment > 0 && c.volume < 15
            ==> c.stepped().volume == c.volume + 1,
{
}

/// Every channel operation keeps a pulse channel well formed.
pub proof fn lemma_pulse_wf(c: PulseChannel, flag: u8, enabled: bool)
    requires
        c.wf(),
    ensures
        c.enabled_set(enabled).wf(),
        c.with_envelope_flag(flag).wf(),
        c.with_sweep_flag(flag).wf(),
        c.with_low_timer(flag).wf(),
        c.with_length_and_high_timer(flag).wf(),
        c.stepped().wf(),
        c.quarter_clocked().wf(),
        c.target_defined() ==> c.half_clocked().wf(),
        (PulseChannel { restart_envelope: true, ..c }).wf(),
{
    assert(Envelope::spec_from_flags(flag).wf());
    assert(Sweep::spec_from_flags(flag).wf());
}

/// The triangle channel.
#[derive(Debug, Clone, Copy, PartialEq, Eq, Structural)]
pub struct TriangleChannel {
    pub increment: i16,
    pub timer: u16,
    pub current_timer: u16,
    pub volume: u8,
    pub low_timer: u8,
    pub length: u8,
    pub current_linear_counter: u8,
    pub linear_counter: u8,
    pub linear_counter_reload: bool,
    pub control_flag: bool,
    pub enabled: bool,
}

impl TriangleChannel {
    pub open spec fn wf(self) -> bool {
        &&& -1 <= self.increment <= 1
        &&& self.volume <= 15
        &&& self.timer <= 0x7ff
        &&& self.current_timer <= 0x7ff
        &&& self.linear_counter <= 127
        &&& self.current_linear_counter <= 127
    }

    pub open spec fn initial() -> TriangleChannel {
        TriangleChannel {
            increment: 0,
            timer: 0,
            current_timer: 0,
            low_timer: 0,
            volume: 0,
            length: 0,
            current_linear_counter: 0,
            linear_counter: 0,
            linear_counter_reload: false,
            control_flag: false,
            enabled: false,
        }
    }

    pub open spec fn enabled_set(self, enabled: bool) -> TriangleChannel {
        TriangleChannel { enabled, length: if enabled { self.length } else { 0 }, ..self }
    }

    /// A write of the length and high timer register: the timer takes the
    /// stored low byte and three high bits, the waveform restarts from the
    /// top going down, and the linear counter is set to reload.
    pub open spec fn with_length_and_high_timer(self, value: u8) -> TriangleChannel {
        let timer = (self.low_timer + (value % 8) * 256) as u16;
        TriangleChannel {
            timer,
            current_timer: timer,
            increment: -1i16,
            volume: 15,
            linear_counter_reload: true,
            length: if self.enabled {
                spec_length_value(value / 8)
            } else {
                self.length
            },
            ..self
        }
    }

    pub open spec fn with_linear_counter_flag(self, value: u8) -> TriangleChannel {
        TriangleChannel {
            linear_counter: value % 128,
            control_flag: value >= 128,
            ..self
        }
    }

    /// One clock of the timer: at zero it reloads and the volume moves one
    /// step along the triangle, turning at 0 and at 15.
    pub open spec fn stepped(self) -> TriangleChannel {
        if self.timer == 0 {
            self
        } else if self.current_timer > 0 {
            TriangleChannel { current_timer: (self.current_timer - 1) as u16, ..self }
        } else {
            let volume: u8 = if self.volume > 0 && self.increment < 0 {
                (self.volume - 1) as u8
            } else if self.volume < 15 && self.increment > 0 {
                (self.volume + 1) as u8
            } else {
                self.volume
            };
            let increment: i16 = if volume == 0 {
                if self.increment < 0 {
                    0
                } else {
                    1
                }
            } else if volume == 15 {
                if self.increment > 0 {
                    0
                } else {
                    -1i16
                }
            } else {
                self.increment
            };
            TriangleChannel { current_timer: self.timer, volume, increment, ..self }
        }
    }

    pub open spec fn spec_volume(self) -> u8 {
        if self.length == 0 || self.current_linear_counter == 0 {
            0
        } else {
            self.volume
        }
    }

    pub open spec fn half_clocked(self) -> TriangleChannel {
        if self.length > 0 && !self.control_flag {
            TriangleChannel { length: (self.length - 1) as u8, ..self }
        } else {
            self
        }
    }

    pub open spec fn quarter_clocked(self) -> TriangleChannel {
        let counter: u8 = if self.linear_counter_reload {
            self.linear_counter
        } else if self.current_linear_counter > 0 {
            (self.current_linear_counter - 1) as u8
        } else {
            0
        };
        TriangleChannel {
            current_linear_counter: counter,
            linear_counter_reload: self.linear_counter_reload && self.control_flag,
            ..self
        }
    }

    pub fn new() -> (r: TriangleChannel)
        ensures
            r == Self::initial(),
            r.wf(),
    {
        TriangleChannel {
            increment: 0,
            timer: 0,
            current_timer: 0,
            low_timer: 0,
            volume: 0,
            length: 0,
            current_linear_counter: 0,
            linear_counter: 0,
            linear_counter_reload: false,
            control_flag: false,
            enabled: false,
        }
    }

    pub fn is_running(&self) -> (r: bool)
        ensures
            r == (self.length != 0),
    {
        self.length != 0
    }

    pub fn set_enabled(&mut self, enabled: bool)
        ensures
            *final(self) == old(self).enabled_set(enabled),
    {
        self.enabled = enabled;
        if !enabled {
            self.length = 0;
        }
    }

    pub fn set_low_timer(&mut self, value: u8)
        ensures
            *final(self) == (TriangleChannel { low_timer: value, ..*old(self) }),
    {
        self.low_timer = value;
    }

    pub fn set_length_counter_and_high_timer(&mut self, value: u8)
        ensures
            *final(self) == old(self).with_length_and_high_timer(value),
    {
        let low = self.low_timer;
        proof {
            lemma_timer_bytes(0, low, value);
            lemma_byte_fields(value);
        }
        let timer = low as u16 | (((value as u16) & 0b111) << 8);
        self.timer = timer;
        self.current_timer = timer;
        self.increment = -1;
        self.volume = 15;
        self.linear_counter_reload = true;
        if self.enabled {
            let length_index = (value & 0b11111000) >> 3;
            self.length = length_value(length_index);
        }
    }

    pub fn set_linear_counter_flag(&mut self, value: u8)
        ensures
            *final(self) == old(self).with_linear_counter_flag(value),
    {
        proof {
            lemma_byte_fields(value);
        }
        self.linear_counter = value & 0b01111111;
        self.control_flag = value & 0x80 != 0;
    }

    pub fn step(&mut self)
        requires
            old(self).wf(),
        ensures
            *final(self) == old(self).stepped(),
    {
        if self.timer == 0 {
            return ;
        }
        if self.current_timer > 0 {
            self.current_timer = self.current_timer - 1;
        } else {
            self.current_timer = self.timer;
            if self.volume > 0 && self.increment < 0 {
                self.volume = self.volume - 1;
            } else if self.volume < 15 && self.increment > 0 {
                self.volume = self.volume + 1;
            }
            if self.volume == 0 {
                if self.increment < 0 {
                    self.increment = 0;
                } else {
                    self.increment = 1;
                }
            } else if self.volume == 15 {
                if self.increment > 0 {
                    self.increment = 0;
                } else {
                    self.increment = -1;
                }
            }
        }
    }

    pub fn get_current_volume(&self) -> (r: u8)
        requires
            self.wf(),
        ensures
            r == self.spec_volume(),
            r <= 15,
    {
        if self.length == 0 || self.current_linear_counter == 0 {
            0
        } else {
            self.volume
        }
    }

    pub fn half_frame_clock(&mut self)
        ensures
            *final(self) == old(self).half_clocked(),
    {
        if self.length > 0 && !self.control_flag {
            self.length = self.length - 1;
        }
    }

    pub fn quarter_frame_clock(&mut self)
        ensures
            *final(self) == old(self).quarter_clocked(),
    {
        if self.linear_counter_reload {
            self.current_linear_counter = self.linear_counter;
        } else if self.current_linear_counter > 0 {
            self.current_linear_counter = self.current_linear_counter - 1;
        }
        if !self.control_flag {
            self.linear_counter_reload = false;
        }
    }
}

/// Every channel operation keeps the triangle channel well formed; its
/// volume stays between 0 and 15 as it walks up and down.
pub proof fn lemma_triangle_wf(c: TriangleChannel, value: u8, enabled: bool)
    requires
        c.wf(),
    ensures
        c.enabled_set(enabled).wf(),
        (TriangleChannel { low_timer: value, ..c }).wf(),
        c.with_length_and_high_timer(value).wf(),
        c.with_linear_counter_flag(value).wf(),
        c.stepped().wf(),
        c.half_clocked().wf(),
        c.quarter_clocked().wf(),
{
}

/// The noise channel: a fifteen-bit linear feedback shift register.
#[derive(Debug, Clone, Copy, PartialEq, Eq, Structural)]
pub struct NoiseChannel {
    pub shift_register: u16,
    pub mode_flag: bool,
    pub noise_period: u16,
    pub current_noise_timer: u16,
    pub envelope: Envelope,
    pub envelope_clock: u8,
    pub current_volume: u8,
    pub length: u8,
    pub restart_envelope: bool,
    pub enabled: bool,
}

impl NoiseChannel {
    /// The shift register holds fifteen bits and is never zero, so the
    /// channel never falls silent for good.
    pub open spec fn wf(self) -> bool {
        &&& self.envelope.wf()
        &&& 0 < self.shift_register < 0x8000
        &&& self.noise_period <= 4068
        &&& self.current_noise_timer <= 4068
        &&& self.envelope_clock <= 15
        &&& self.current_volume <= 15
    }

    pub open spec fn initial() -> NoiseChannel {
        NoiseChannel {
            shift_register: 1,
            current_volume: 0,
            mode_flag: false,
            noise_period: 0,
            envelope: Envelope { duty: 0, volume: 0, loops_playback: false, constant_volume: false },
            envelope_clock: 0,
            current_noise_timer: 0,
            length: 0,
            restart_envelope: false,
            enabled: false,
        }
    }

    pub open spec fn enabled_set(self, enabled: bool) -> NoiseChannel {
        NoiseChannel { enabled, length: if enabled { self.length } else { 0 }, ..self }
    }

    pub open spec fn with_envelope_flag(self, flag: u8) -> NoiseChannel {
        NoiseChannel { envelope: Envelope::spec_from_flags(flag), ..self }
    }

    pub open spec fn with_mode_and_period(self, flag: u8) -> NoiseChannel {
        let period = spec_noise_period(flag % 16);
        NoiseChannel {
            mode_flag: flag >= 128,
            noise_period: period,
            current_noise_timer: period,
            ..self
        }
    }

    pub open spec fn with_length_counter(self, flag: u8) -> NoiseChannel {
        NoiseChannel {
            length: if self.enabled {
                spec_length_value(flag / 8)
            } else {
                self.length
            },
            restart_envelope: true,
            ..self
        }
    }

    /// The feedback bit: bit 0 exclusive-or bit 6 in short mode, bit 1
    /// otherwise.
    pub open spec fn feedback(self) -> u16 {
        let other = if self.mode_flag {
            (self.shift_register / 64) % 2
        } else {
            (self.shift_register / 2) % 2
        };
        if self.shift_register % 2 == other {
            0
        } else {
            1
        }
    }

    /// One clock of the timer: at zero it reloads and the shift register
    /// shifts right, taking the feedback bit in at bit 14.
    pub open spec fn stepped(self) -> NoiseChannel {
        if self.current_noise_timer > 0 {
            NoiseChannel { current_noise_timer: (self.current_noise_timer - 1) as u16, ..self }
        } else {
            NoiseChannel {
                current_noise_timer: self.noise_period,
                shift_register: (self.shift_register / 2 + self.feedback() * 0x4000) as u16,
                ..self
            }
        }
    }

    pub open spec fn half_clocked(self) -> NoiseChannel {
        if self.length > 0 && !self.envelope.loops_playback {
            NoiseChannel { length: (self.length - 1) as u8, ..self }
        } else {
            self
        }
    }

    /// The envelope unit on a quarter frame; a pending restart is not
    /// cleared, so it restarts on every quarter frame after a length write.
    pub open spec fn quarter_clocked(self) -> NoiseChannel {
        if self.restart_envelope {
            NoiseChannel { envelope_clock: self.envelope.volume, current_volume: 15, ..self }
        } else if self.envelope_clock > 0 {
            NoiseChannel { envelope_clock: (self.envelope_clock - 1) as u8, ..self }
        } else {
            let decayed: u8 = if self.current_volume > 0 {
                (self.current_volume - 1) as u8
            } else {
                0
            };
            NoiseChannel {
                envelope_clock: self.envelope.volume,
                current_volume: if self.envelope.loops_playback && decayed == 0 {
                    15
                } else {
                    decayed
                },
                ..self
            }
        }
    }

    pub open spec fn spec_volume(self) -> u8 {
        if self.shift_register % 2 == 0 && self.length != 0 {
            if self.envelope.constant_volume {
                self.envelope.volume
            } else {
                self.current_volume
            }
        } else {
            0
        }
    }

    pub fn new() -> (r: NoiseChannel)
        ensures
            r == Self::initial(),
            r.wf(),
    {
        NoiseChannel {
            shift_register: 1,
            current_volume: 0,
            mode_flag: false,
            noise_period: 0,
            envelope: Envelope::new(),
            envelope_clock: 0,
            current_noise_timer: 0,
            length: 0,
            restart_envelope: false,
            enabled: false,
        }
    }

    pub fn set_enabled(&mut self, enabled: bool)
        ensures
            *final(self) == old(self).enabled_set(enabled),
    {
        self.enabled = enabled;
        if !enabled {
            self.length = 0;
        }
    }

    pub fn is_running(&self) -> (r: bool)
        ensures
            r == (self.length != 0),
    {
        self.length != 0
    }

    pub fn set_envelope_flag(&mut self, flag: u8)
        ensures
            *final(self) == old(self).with_envelope_flag(flag),
    {
        self.envelope = Envelope::from_flags(flag);
    }

    pub fn set_mode_and_period(&mut self, flag: u8)
        ensures
            *final(self) == old(self).with_mode_and_period(flag),
    {
        proof {
            lemma_byte_fields(flag);
        }
        self.mode_flag = flag & 0x80 != 0;
        let noise_period_index = flag & 0b1111;
        self.noise_period = noise_period(noise_period_index);
        self.current_noise_timer = self.noise_period;
    }

    pub fn set_length_counter(&mut self, flag: u8)
        ensures
            *final(self) == old(self).with_length_counter(flag),
    {
        proof {
            lemma_byte_fields(flag);
        }
        if self.enabled {
            let length_index = (flag & 0b11111000) >> 3;
            self.length = length_value(length_index);
        }
        self.restart_envelope = true;
    }

    pub fn step(&mut self)
        requires
            old(self).wf(),
        ensures
            *final(self) == old(self).stepped(),
    {
        if self.current_noise_timer > 0 {
            self.current_noise_timer = self.current_noise_timer - 1;
        } else {
            self.current_noise_timer = self.noise_period;
            let sr = self.shift_register;
            let other = if self.mode_flag {
                (sr & 0b1000000) >> 6
            } else {
                (sr & 0b10) >> 1
            };
            proof {
                lemma_shift_register_bits(sr, other);
            }
            let bit = (sr & 1) ^ other;
            proof {
                lemma_shift_register_bits(sr, bit);
            }
            self.shift_register = (sr >> 1) | (bit << 14);
        }
    }

    pub fn half_frame_clock(&mut self)
        ensures
            *final(self) == old(self).half_clocked(),
    {
        if self.length > 0 && !self.envelope.loops_playback {
            self.length = self.length - 1;
        }
    }

    pub fn quarter_frame_clock(&mut self)
        ensures
            *final(self) == old(self).quarter_clocked(),
    {
        if self.restart_envelope {
            self.envelope_clock = self.envelope.volume;
            self.current_volume = 15;
            return ;
        }
        if self.envelope_clock > 0 {
            self.envelope_clock = self.envelope_clock - 1;
        } else {
            self.envelope_clock = self.envelope.volume;
            if self.current_volume > 0 {
                self.current_volume = self.current_volume - 1;
            }
            if self.envelope.loops_playback && self.current_volume == 0 {
                self.current_volume = 15;
            }
        }
    }

    pub fn get_current_volume(&self) -> (r: u8)
        requires
            self.wf(),
        ensures
            r == self.spec_volume(),
            r <= 15,
    {
        let sr = self.shift_register;
        proof {
            lemma_shift_register_bits(sr, 0);
        }
        if sr & 1 == 0 && self.length != 0 {
            if self.envelope.constant_volume {
                self.envelope.volume
            } else {
                self.current_volume
            }
        } else {
            0
        }
    }
}

/// Every channel operation keeps the noise channel well formed: in
/// particular the shift register never becomes zero.
pub proof fn lemma_noise_wf(c: NoiseChannel, flag: u8, enabled: bool)
    requires
        c.wf(),
    ensures
        c.enabled_set(enabled).wf(),
        c.with_envelope_flag(flag).wf(),
        c.with_mode_and_period(flag).wf(),
        c.with_length_counter(flag).wf(),
        c.stepped().wf(),
        c.half_clocked().wf(),
        c.quarter_clocked().wf(),
{
    assert(Envelope::spec_from_flags(flag).wf());
    if c.current_noise_timer == 0 {
        assert(c.feedback() <= 1);
    }
}

/// The CPU cycles in a quarter of an audio frame.
pub const QUARTER_CYCLES: usize = 7457;

/// The frame counter ($4017): counts CPU cycles and clocks the envelopes
/// (quarter frames) and the sweeps and length counters (half frames).
#[derive(Debug, Clone, Copy, PartialEq, Eq, Structural)]
pub struct FrameCounter {
    pub cpu_cycles: usize,
    pub reset: bool,
    pub mode_flag: bool,
    pub irq_flag: bool,
}

impl FrameCounter {
    pub open spec fn initial() -> FrameCounter {
        FrameCounter { cpu_cycles: 0, reset: false, mode_flag: false, irq_flag: false }
    }

    /// The number of whole quarter frames counted.
    pub open spec fn quarter_blocks(self) -> int {
        self.cpu_cycles as int / QUARTER_CYCLES as int
    }

    /// In the four-step mode every odd quarter is a half frame; in the
    /// five-step mode quarters 1 and 4 of each five are. A write in the
    /// five-step mode clocks both at once.
    pub open spec fn clocks_half_frame(self) -> bool {
        if self.reset && self.mode_flag {
            true
        } else if self.cpu_cycles % QUARTER_CYCLES == 0 {
            if self.mode_flag {
                self.quarter_blocks() % 5 == 1 || self.quarter_blocks() % 5 == 4
            } else {
                self.quarter_blocks() % 2 != 0
            }
        } else {
            false
        }
    }

    /// In the four-step mode every quarter clocks the envelopes; in the
    /// five-step mode all but quarter 3 of each five do.
    pub open spec fn clocks_quarter_frame(self) -> bool {
        if self.reset && self.mode_flag {
            true
        } else if self.cpu_cycles % QUARTER_CYCLES == 0 {
            if self.mode_flag {
                self.quarter_blocks() % 5 != 3
            } else {
                true
            }
        } else {
            false
        }
    }

    pub open spec fn stepped(self) -> FrameCounter {
        FrameCounter { cpu_cycles: (self.cpu_cycles + 1) as usize, reset: false, ..self }
    }

    pub open spec fn with_flags(self, value: u8) -> FrameCounter {
        FrameCounter {
            reset: true,
            cpu_cycles: 0,
            mode_flag: value >= 128,
            irq_flag: (value / 64) % 2 == 1,
        }
    }

    pub fn new() -> (r: FrameCounter)
        ensures
            r == Self::initial(),
    {
        FrameCounter { cpu_cycles: 0, reset: false, mode_flag: false, irq_flag: false }
    }

    pub fn step(&mut self)
        requires
            old(self).cpu_cycles < usize::MAX,
        ensures
            *final(self) == old(self).stepped(),
    {
        self.cpu_cycles = self.cpu_cycles + 1;
        self.reset = false;
    }

    fn get_quarter_blocks(&self) -> (r: usize)
        ensures
            r == self.quarter_blocks(),
    {
        self.cpu_cycles / QUARTER_CYCLES
    }

    pub fn is_clocking_half_frame(&self) -> (r: bool)
        ensures
            r == self.clocks_half_frame(),
    {
        if self.reset && self.mode_flag {
            return true;
        }
        if self.cpu_cycles % QUARTER_CYCLES == 0 {
            if self.mode_flag {
                let phase = self.get_quarter_blocks() % 5;
                return phase == 1 || phase == 4;
            } else {
                return self.get_quarter_blocks() % 2 != 0;
            }
        }
        false
    }

    pub fn is_clocking_quarter_frame(&self) -> (r: bool)
        ensures
            r == self.clocks_quarter_frame(),
    {
        if self.reset && self.mode_flag {
            return true;
        }
        if self.cpu_cycles % QUARTER_CYCLES == 0 {
            if self.mode_flag {
                let phase = self.get_quarter_blocks() % 5;
                return phase != 3;
            } else {
                return true;
            }
        }
        false
    }

    pub fn set_flags(&mut self, value: u8)
        ensures
            *final(self) == old(self).with_flags(value),
    {
        proof {
            lemma_byte_fields(value);
        }
        self.reset = true;
        self.cpu_cycles = 0;
        self.mode_flag = value & 0x80 != 0;
        self.irq_flag = value & 0x40 != 0;
    }
}

/// Every half frame is also a quarter frame.
pub proof fn lemma_half_frame_is_quarter_frame(f: FrameCounter)
    ensures
        f.clocks_half_frame() ==> f.clocks_quarter_frame(),
{
}

/// In the four-step mode the counter clocks a quarter frame every
/// `QUARTER_CYCLES` cycles and a half frame every other one.
pub proof fn lemma_four_step_sequence(f: FrameCounter, n: usize)
    requires
        !f.mode_flag,
        f.cpu_cycles == n * QUARTER_CYCLES,
    ensures
        f.clocks_quarter_frame(),
        f.clocks_half_frame() == (n % 2 == 1),
{
    assert((n * 7457) % 7457 == 0 && (n * 7457) / 7457 == n) by (nonlinear_arith);
}

/// The volume of each channel when a sample is due.
#[derive(Debug, Clone, Copy, PartialEq, Eq, Structural)]
pub struct ChannelVolumes {
    pub pulse1: u8,
    pub pulse2: u8,
    pub triangle: u8,
    pub noise: u8,
}

/// The status bits of the channels ($4015).
pub const STATUS_PULSE_1: u8 = 0b00000001;

pub const STATUS_PULSE_2: u8 = 0b00000010;

pub const STATUS_TRIANGLE: u8 = 0b00000100;

pub const STATUS_NOISE: u8 = 0b00001000;

/// The audio processing unit: its channels, the frame counter, and the
/// schedule of samples.
pub struct Apu {
    half_cycle_count: usize,
    pulse1_channel: PulseChannel,
    pulse2_channel: PulseChannel,
    triangle_channel: TriangleChannel,
    noise_channel: NoiseChannel,
    next_fill: usize,
    has_extra: bool,
    frame_counter: FrameCounter,
}

/// The state of the audio processing unit.
#[derive(Debug, Clone, Copy, PartialEq, Eq, Structural)]
pub struct ApuState {
    pub half_cycle_count: usize,
    pub pulse1: PulseChannel,
    pub pulse2: PulseChannel,
    pub triangle: TriangleChannel,
    pub noise: NoiseChannel,
    pub next_fill: usize,
    pub has_extra: bool,
    pub frame_counter: FrameCounter,
}

impl View for Apu {
    type V = ApuState;

    closed spec fn view(&self) -> ApuState {
        ApuState {
            half_cycle_count: self.half_cycle_count,
            pulse1: self.pulse1_channel,
            pulse2: self.pulse2_channel,
            triangle: self.triangle_channel,
            noise: self.noise_channel,
            next_fill: self.next_fill,
            has_extra: self.has_extra,
            frame_counter: self.frame_counter,
        }
    }
}

impl ApuState {
    pub open spec fn wf(self) -> bool {
        &&& self.pulse1.wf()
        &&& self.pulse2.wf()
        &&& self.pulse1.pulse_type == PulseType::Pulse1
        &&& self.pulse2.pulse_type == PulseType::Pulse2
        &&& self.triangle.wf()
        &&& self.noise.wf()
        &&& self.next_fill >= 40
    }

    /// The status byte: bit 0 to 3 tell whether the length counters of the
    /// pulse, triangle and noise channels are running.
    pub open spec fn status(self) -> u8 {
        (if self.pulse1.length != 0 {
            STATUS_PULSE_1
        } else {
            0u8
        }) | (if self.pulse2.length != 0 {
            STATUS_PULSE_2
        } else {
            0u8
        }) | (if self.triangle.length != 0 {
            STATUS_TRIANGLE
        } else {
            0u8
        }) | (if self.noise.length != 0 {
            STATUS_NOISE
        } else {
            0u8
        })
    }

    /// A status write enables the channels whose bits are set and silences
    /// the others.
    pub open spec fn status_written(self, value: u8) -> ApuState {
        ApuState {
            pulse1: self.pulse1.enabled_set(value & STATUS_PULSE_1 != 0),
            pulse2: self.pulse2.enabled_set(value & STATUS_PULSE_2 != 0),
            triangle: self.triangle.enabled_set(value & STATUS_TRIANGLE != 0),
            noise: self.noise.enabled_set(value & STATUS_NOISE != 0),
            ..self
        }
    }

    pub open spec fn frame_counter_written(self, value: u8) -> ApuState {
        ApuState {
            frame_counter: self.frame_counter.with_flags(value),
            pulse1: PulseChannel { restart_envelope: true, ..self.pulse1 },
            pulse2: PulseChannel { restart_envelope: true, ..self.pulse2 },
            ..self
        }
    }

    /// The channels after the clocks of one half step: the triangle timer,
    /// then the half and quarter frame units, then on even half steps the
    /// pulse and noise timers.
    pub open spec fn channels_clocked(self) -> ApuState {
        let t0 = self.triangle.stepped();
        let half = self.frame_counter.clocks_half_frame();
        let quarter = self.frame_counter.clocks_quarter_frame();
        let p1 = if half { self.pulse1.half_clocked() } else { self.pulse1 };
        let p2 = if half { self.pulse2.half_clocked() } else { self.pulse2 };
        let t1 = if half { t0.half_clocked() } else { t0 };
        let n1 = if half { self.noise.half_clocked() } else { self.noise };
        let p1q = if quarter { p1.quarter_clocked() } else { p1 };
        let p2q = if quarter { p2.quarter_clocked() } else { p2 };
        let t2 = if quarter { t1.quarter_clocked() } else { t1 };
        let n2 = if quarter { n1.quarter_clocked() } else { n1 };
        let even = self.half_cycle_count % 2 == 0;
        ApuState {
            pulse1: if even { p1q.stepped() } else { p1q },
            pulse2: if even { p2q.stepped() } else { p2q },
            triangle: t2,
            noise: if even { n2.stepped() } else { n2 },
            ..self
        }
    }

    /// Whether a sample is taken on this half step.
    pub open spec fn fills(self) -> bool {
        self.half_cycle_count % self.next_fill == 0
    }

    /// One half step of the unit: the state after it, and the channel
    /// volumes when a sample is due.
    pub open spec fn half_stepped(self) -> (ApuState, Option<ChannelVolumes>) {
        let c = self.channels_clocked();
        let fill = self.fills();
        let sample = if fill {
            Some(
                ChannelVolumes {
                    pulse1: c.pulse1.spec_volume(),
                    pulse2: c.pulse2.spec_volume(),
                    triangle: c.triangle.spec_volume(),
                    noise: c.noise.spec_volume(),
                },
            )
        } else {
            None
        };
        (
            ApuState {
                next_fill: if fill {
                    (self.next_fill + 40 + if self.has_extra {
                        1int
                    } else {
                        0
                    }) as usize
                } else {
                    self.next_fill
                },
                has_extra: if fill {
                    !self.has_extra
                } else {
                    self.has_extra
                },
                half_cycle_count: (self.half_cycle_count + 1) as usize,
                frame_counter: self.frame_counter.stepped(),
                ..c
            },
            sample,
        )
    }

    /// A half step runs without overflow, and the pulse target periods are
    /// defined where they are computed.
    pub open spec fn half_step_defined(self) -> bool {
        let c = self.channels_clocked();
        &&& self.half_cycle_count < usize::MAX
        &&& self.frame_counter.cpu_cycles < usize::MAX
        &&& self.next_fill + 41 <= usize::MAX
        &&& self.frame_counter.clocks_half_frame() ==> self.pulse1.target_defined()
        &&& self.fills() ==> c.pulse1.volume_defined()
    }
}

/// The second pulse channel subtracts nothing extra, so its target period
/// is always defined.
pub proof fn lemma_pulse2_target_defined(c: PulseChannel)
    requires
        c.wf(),
        c.pulse_type == PulseType::Pulse2,
    ensures
        c.target_defined(),
{
    lemma_shift_is_division(c.timer, c.sweep.shift);
}

impl Apu {
    pub open spec fn initial_state() -> ApuState {
        ApuState {
            half_cycle_count: 0,
            pulse1: PulseChannel::initial(PulseType::Pulse1),
            pulse2: PulseChannel::initial(PulseType::Pulse2),
            triangle: TriangleChannel::initial(),
            noise: NoiseChannel::initial(),
            next_fill: 40,
            has_extra: true,
            frame_counter: FrameCounter::initial(),
        }
    }

    pub fn new() -> (r: Apu)
        ensures
            r@ == Self::initial_state(),
            r@.wf(),
    {
        Apu {
            half_cycle_count: 0,
            pulse1_channel: PulseChannel::new(PulseType::Pulse1),
            pulse2_channel: PulseChannel::new(PulseType::Pulse2),
            triangle_channel: TriangleChannel::new(),
            noise_channel: NoiseChannel::new(),
            next_fill: 40,
            has_extra: true,
            frame_counter: FrameCounter::new(),
        }
    }

    /// Whether the next half step can run; see [`ApuState::half_step_defined`].
    pub fn can_half_step(&self) -> (r: bool)
        requires
            self@.wf(),
        ensures
            r == self@.half_step_defined(),
    {
        if self.half_cycle_count == usize::MAX || self.frame_counter.cpu_cycles == usize::MAX
            || self.next_fill > usize::MAX - 41 {
            return false;
        }
        if self.frame_counter.is_clocking_half_frame() && !self.pulse1_channel.target_defined_exec() {
            return false;
        }
        if self.half_cycle_count % self.next_fill == 0 {
            let mut pulse1 = self.pulse1_channel;
            if self.frame_counter.is_clocking_half_frame() {
                pulse1.half_frame_clock();
                proof {
                    lemma_pulse_wf(self.pulse1_channel, 0, false);
                }
            }
            if self.frame_counter.is_clocking_quarter_frame() {
                proof {
                    lemma_pulse_wf(pulse1, 0, false);
                }
                pulse1.quarter_frame_clock();
            }
            if self.half_cycle_count % 2 == 0 {
                proof {
                    lemma_pulse_wf(pulse1, 0, false);
                }
                pulse1.step();
            }
            proof {
                lemma_pulse_wf(pulse1, 0, false);
            }
            return pulse1.timer < 8 || pulse1.target_defined_exec();
        }
        true
    }

    /// Runs half a CPU cycle of the unit; when a sample is due, returns the
    /// volume of each channel, for the caller to mix and play.
    pub fn half_step(&mut self) -> (r: Option<ChannelVolumes>)
        requires
            old(self)@.wf(),
            old(self)@.half_step_defined(),
        ensures
            (final(self)@, r) == old(self)@.half_stepped(),
            final(self)@.wf(),
            r matches Some(v) ==> v.pulse1 <= 15 && v.pulse2 <= 15 && v.triangle <= 15 && v.noise
                <= 15,
    {
        proof {
            lemma_pulse_wf(self.pulse1_channel, 0, false);
            lemma_pulse_wf(self.pulse2_channel, 0, false);
            lemma_pulse2_target_defined(self.pulse2_channel);
            lemma_triangle_wf(self.triangle_channel, 0, false);
            lemma_noise_wf(self.noise_channel, 0, false);
        }
        self.triangle_channel.step();
        if self.frame_counter.is_clocking_half_frame() {
            self.pulse1_channel.half_frame_clock();
            self.pulse2_channel.half_frame_clock();
            self.triangle_channel.half_frame_clock();
            self.noise_channel.half_frame_clock();
        }
        proof {
            lemma_pulse_wf(self.pulse1_channel, 0, false);
            lemma_pulse_wf(self.pulse2_channel, 0, false);
            lemma_triangle_wf(self.triangle_channel, 0, false);
            lemma_noise_wf(self.noise_channel, 0, false);
        }
        if self.frame_counter.is_clocking_quarter_frame() {
            self.pulse1_channel.quarter_frame_clock();
            self.pulse2_channel.quarter_frame_clock();
            self.triangle_channel.quarter_frame_clock();
            self.noise_channel.quarter_frame_clock();
        }
        proof {
            lemma_pulse_wf(self.pulse1_channel, 0, false);
            lemma_pulse_wf(self.pulse2_channel, 0, false);
            lemma_triangle_wf(self.triangle_channel, 0, false);
            lemma_noise_wf(self.noise_channel, 0, false);
        }
        if self.half_cycle_count % 2 == 0 {
            self.pulse1_channel.step();
            self.pulse2_channel.step();
            self.noise_channel.step();
        }
        proof {
            lemma_pulse2_target_defined(self.pulse2_channel);
        }
        let mut sample: Option<ChannelVolumes> = None;
        if self.half_cycle_count % self.next_fill == 0 {
            self.next_fill = self.next_fill + 40 + if self.has_extra {
                1
            } else {
                0
            };
            self.has_extra = !self.has_extra;
            let pulse1 = self.pulse1_channel.get_current_volume();
            let pulse2 = self.pulse2_channel.get_current_volume();
            let triangle = self.triangle_channel.get_current_volume();
            let noise = self.noise_channel.get_current_volume();
            sample = Some(ChannelVolumes { pulse1, pulse2, triangle, noise });
        }
        self.half_cycle_count = self.half_cycle_count + 1;
        self.frame_counter.step();
        sample
    }

    pub fn write_noise_envelope(&mut self, value: u8)
        ensures
            final(self)@ == (ApuState { noise: old(self)@.noise.with_envelope_flag(value), ..old(self)@ }),
    {
        self.noise_channel.set_envelope_flag(value);
    }

    pub fn write_noise_mode_and_period(&mut self, value: u8)
        ensures
            final(self)@ == (ApuState {
                noise: old(self)@.noise.with_mode_and_period(value),
                ..old(self)@
            }),
    {
        self.noise_channel.set_mode_and_period(value);
    }

    pub fn write_noise_length_counter(&mut self, value: u8)
        ensures
            final(self)@ == (ApuState { noise: old(self)@.noise.with_length_counter(value), ..old(self)@ }),
    {
        self.noise_channel.set_length_counter(value);
    }

    pub fn write_pulse1_length_and_timer(&mut self, value: u8)
        ensures
            final(self)@ == (ApuState {
                pulse1: old(self)@.pulse1.with_length_and_high_timer(value),
                ..old(self)@
            }),
    {
        self.pulse1_channel.set_length_counter_and_high_timer(value);
    }

    pub fn write_pulse1_sweep(&mut self, value: u8)
        ensures
            final(self)@ == (ApuState { pulse1: old(self)@.pulse1.with_sweep_flag(value), ..old(self)@ }),
    {
        self.pulse1_channel.set_sweep_flag(value);
    }

    pub fn write_pulse1_timer_low(&mut self, value: u8)
        ensures
            final(self)@ == (ApuState { pulse1: old(self)@.pulse1.with_low_timer(value), ..old(self)@ }),
    {
        self.pulse1_channel.set_low_timer(value);
    }

    pub fn write_pulse1_envelope(&mut self, value: u8)
        ensures
            final(self)@ == (ApuState {
                pulse1: old(self)@.pulse1.with_envelope_flag(value),
                ..old(self)@
            }),
    {
        self.pulse1_channel.set_envelope_flag(value);
    }

    pub fn write_pulse2_length_and_timer(&mut self, value: u8)
        ensures
            final(self)@ == (ApuState {
                pulse2: old(self)@.pulse2.with_length_and_high_timer(value),
                ..old(self)@
            }),
    {
        self.pulse2_channel.set_length_counter_and_high_timer(value);
    }

    pub fn write_pulse2_sweep(&mut self, value: u8)
        ensures
            final(self)@ == (ApuState { pulse2: old(self)@.pulse2.with_sweep_flag(value), ..old(self)@ }),
    {
        self.pulse2_channel.set_sweep_flag(value);
    }

    pub fn write_pulse2_timer_low(&mut self, value: u8)
        ensures
            final(self)@ == (ApuState { pulse2: old(self)@.pulse2.with_low_timer(value), ..old(self)@ }),
    {
        self.pulse2_channel.set_low_timer(value);
    }

    pub fn write_pulse2_envelope(&mut self, value: u8)
        ensures
            final(self)@ == (ApuState {
                pulse2: old(self)@.pulse2.with_envelope_flag(value),
                ..old(self)@
            }),
    {
        self.pulse2_channel.set_envelope_flag(value);
    }

    pub fn write_triangle_timer_low(&mut self, value: u8)
        ensures
            final(self)@ == (ApuState {
                triangle: TriangleChannel { low_timer: value, ..old(self)@.triangle },
                ..old(self)@
            }),
    {
        self.triangle_channel.set_low_timer(value);
    }

    pub fn write_triangle_length_and_timer(&mut self, value: u8)
        ensures
            final(self)@ == (ApuState {
                triangle: old(self)@.triangle.with_length_and_high_timer(value),
                ..old(self)@
            }),
    {
        self.triangle_channel.set_length_counter_and_high_timer(value);
    }

    pub fn write_triangle_linear_counter(&mut self, value: u8)
        ensures
            final(self)@ == (ApuState {
                triangle: old(self)@.triangle.with_linear_counter_flag(value),
                ..old(self)@
            }),
    {
        self.triangle_channel.set_linear_counter_flag(value);
    }

    pub fn write_status(&mut self, value: u8)
        ensures
            final(self)@ == old(self)@.status_written(value),
    {
        self.pulse1_channel.set_enabled(value & STATUS_PULSE_1 != 0);
        self.pulse2_channel.set_enabled(value & STATUS_PULSE_2 != 0);
        self.triangle_channel.set_enabled(value & STATUS_TRIANGLE != 0);
        self.noise_channel.set_enabled(value & STATUS_NOISE != 0);
    }

    pub fn read_status(&self) -> (r: u8)
        ensures
            r == self@.status(),
    {
        let pulse1: u8 = if self.pulse1_channel.is_running() {
            STATUS_PULSE_1
        } else {
            0
        };
        let pulse2: u8 = if self.pulse2_channel.is_running() {
            STATUS_PULSE_2
        } else {
            0
        };
        let triangle: u8 = if self.triangle_channel.is_running() {
            STATUS_TRIANGLE
        } else {
            0
        };
        let noise: u8 = if self.noise_channel.is_running() {
            STATUS_NOISE
        } else {
            0
        };
        pulse1 | pulse2 | triangle | noise
    }

    pub fn write_frame_counter(&mut self, value: u8)
        ensures
            final(self)@ == old(self)@.frame_counter_written(value),
    {
        self.frame_counter.set_flags(value);
        self.pulse1_channel.reset();
        self.pulse2_channel.reset();
    }
}

/// The status bits are those of the channels whose length counters run:
/// after a status write, only channels that it enabled can report running,
/// and those report as before.
pub proof fn lemma_status_after_write(s: ApuState, value: u8)
    ensures
        s.status_written(value).status() == s.status() & value & 0x0f,
{
    let b0 = s.pulse1.length != 0;
    let b1 = s.pulse2.length != 0;
    let b2 = s.triangle.length != 0;
    let b3 = s.noise.length != 0;
    let e0 = value & 1 != 0;
    let e1 = value & 2 != 0;
    let e2 = value & 4 != 0;
    let e3 = value & 8 != 0;
    assert(((if b0 && e0 { 1u8 } else { 0u8 }) | (if b1 && e1 { 2u8 } else { 0u8 }) | (if b2
        && e2 { 4u8 } else { 0u8 }) | (if b3 && e3 { 8u8 } else { 0u8 })) == ((if b0 {
        1u8
    } else {
        0u8
    }) | (if b1 { 2u8 } else { 0u8 }) | (if b2 { 4u8 } else { 0u8 }) | (if b3 {
        8u8
    } else {
        0u8
    })) & value & 0x0f) by (bit_vector)
        requires
            e0 == (value & 1 != 0),
            e1 == (value & 2 != 0),
            e2 == (value & 4 != 0),
            e3 == (value & 8 != 0),
    ;
}

/// Every length counter load is nonzero.
pub proof fn lemma_length_values_nonzero(index: u8)
    ensures
        spec_length_value(index) > 0,
{
}

/// Once a status write has enabled the first pulse channel, a length write
/// to it makes the status report it running.
pub proof fn lemma_enabled_channel_runs(s: ApuState, status: u8, value: u8)
    requires
        status & STATUS_PULSE_1 != 0,
    ensures
        ({
            let t = s.status_written(status);
            let u = ApuState { pulse1: t.pulse1.with_length_and_high_timer(value), ..t };
            u.status() & STATUS_PULSE_1 != 0
        }),
{
    let t = s.status_written(status);
    let u = ApuState { pulse1: t.pulse1.with_length_and_high_timer(value), ..t };
    assert(u.pulse1.length != 0);
    let b1 = u.pulse2.length != 0;
    let b2 = u.triangle.length != 0;
    let b3 = u.noise.length != 0;
    assert(((1u8 | (if b1 { 2u8 } else { 0u8 }) | (if b2 { 4u8 } else { 0u8 }) | (if b3 {
        8u8
    } else {
        0u8
    })) & 1u8) != 0) by (bit_vector);
}

} // verus!
