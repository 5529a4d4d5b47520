use mad_nes::apu::{
    Apu, Envelope, FrameCounter, NoiseChannel, PulseChannel, PulseType, Sweep, TriangleChannel,
};

#[test]
fn envelope_fields_from_a_register_write() {
    let e = Envelope::from_flags(0b1011_1010);
    assert_eq!(e.duty, 2);
    assert!(e.loops_playback);
    assert!(e.constant_volume);
    assert_eq!(e.volume, 10);
    let e = Envelope::from_flags(0b0100_0101);
    assert_eq!(e.duty, 1);
    assert!(!e.loops_playback);
    assert!(!e.constant_volume);
    assert_eq!(e.volume, 5);
}

#[test]
fn sweep_fields_from_a_register_write() {
    let s = Sweep::from_flags(0b1010_1011);
    assert!(s.enabled);
    assert_eq!(s.period, 2);
    assert!(s.negate);
    assert_eq!(s.shift, 3);
}

#[test]
fn status_reports_running_length_counters() {
    let mut apu = Apu::new();
    assert_eq!(apu.read_status(), 0);
    // a length write to a disabled channel loads nothing
    apu.write_pulse1_length_and_timer(0x08);
    assert_eq!(apu.read_status(), 0);
    apu.write_status(0x0f);
    apu.write_pulse1_length_and_timer(0x08);
    apu.write_pulse2_length_and_timer(0x08);
    apu.write_triangle_length_and_timer(0x08);
    apu.write_noise_length_counter(0x08);
    assert_eq!(apu.read_status(), 0x0f);
    // disabling a channel silences it
    apu.write_status(0x05);
    assert_eq!(apu.read_status(), 0x05);
    apu.write_status(0x00);
    assert_eq!(apu.read_status(), 0x00);
}

#[test]
fn half_steps_sample_on_the_fill_schedule() {
    let mut apu = Apu::new();
    let mut samples = Vec::new();
    for n in 0..300usize {
        assert!(apu.can_half_step());
        if apu.half_step().is_some() {
            samples.push(n);
        }
    }
    // a sample is taken when the count is a multiple of the next fill
    // mark, which moves on by 41 and 40 in turn
    assert_eq!(samples, vec![0, 81, 121, 162, 202, 243, 283]);
}

#[test]
fn pulse_volume_follows_duty_and_envelope() {
    let mut p = PulseChannel::new(PulseType::Pulse1);
    p.set_enabled(true);
    p.set_envelope_flag(0b1001_1100); // duty 2, constant volume 12
    p.set_low_timer(0x40);
    p.set_length_counter_and_high_timer(0x08);
    assert_eq!(p.length, 254);
    assert_eq!(p.timer, 0x040);
    assert_eq!(p.get_current_volume(), 12);
    // a timer under 8 silences the channel
    p.set_low_timer(0x05);
    assert_eq!(p.get_current_volume(), 0);
}

#[test]
fn pulse_one_cannot_negate_with_zero_shift() {
    let mut p = PulseChannel::new(PulseType::Pulse1);
    p.set_low_timer(0x40);
    p.set_sweep_flag(0b0000_1000);
    assert!(!p.target_defined_exec());
    let mut q = PulseChannel::new(PulseType::Pulse2);
    q.set_low_timer(0x40);
    q.set_sweep_flag(0b0000_1000);
    assert!(q.target_defined_exec());
}

#[test]
fn sweep_moves_the_timer_to_the_target() {
    let mut p = PulseChannel::new(PulseType::Pulse2);
    p.set_low_timer(0x40);
    // enabled, period 0, shift 1, adding
    p.set_sweep_flag(0b1000_0001);
    p.half_frame_clock();
    assert_eq!(p.timer, 0x60);
}

#[test]
fn envelope_decays_after_a_restart() {
    let mut p = PulseChannel::new(PulseType::Pulse1);
    p.set_envelope_flag(0b0000_0000); // decaying, period 0
    p.set_length_counter_and_high_timer(0);
    p.quarter_frame_clock();
    assert_eq!(p.current_volume, 15);
    p.quarter_frame_clock();
    assert_eq!(p.current_volume, 14);
}

#[test]
fn triangle_walks_down_from_the_top() {
    let mut t = TriangleChannel::new();
    t.set_enabled(true);
    t.set_low_timer(1);
    t.set_length_counter_and_high_timer(0x08);
    assert_eq!(t.volume, 15);
    t.step(); // timer 1 -> 0
    t.step(); // reload, volume 14
    assert_eq!(t.volume, 14);
    t.set_linear_counter_flag(0x85);
    assert_eq!(t.linear_counter, 5);
    assert!(t.control_flag);
    t.quarter_frame_clock();
    assert_eq!(t.current_linear_counter, 5);
    assert_eq!(t.get_current_volume(), 14);
}

#[test]
fn noise_shift_register_never_empties() {
    let mut n = NoiseChannel::new();
    n.set_mode_and_period(0);
    assert_eq!(n.noise_period, 4);
    for _ in 0..5 {
        n.step();
    }
    assert_eq!(n.shift_register, 0x4000);
    for _ in 0..10000 {
        n.step();
        assert!(n.shift_register != 0 && n.shift_register < 0x8000);
    }
}

#[test]
fn frame_counter_four_step_clocks() {
    let f = FrameCounter { cpu_cycles: 7457, reset: false, mode_flag: false, irq_flag: false };
    assert!(f.is_clocking_quarter_frame());
    assert!(f.is_clocking_half_frame());
    let f = FrameCounter { cpu_cycles: 2 * 7457, ..f };
    assert!(f.is_clocking_quarter_frame());
    assert!(!f.is_clocking_half_frame());
    let f = FrameCounter { cpu_cycles: 100, ..f };
    assert!(!f.is_clocking_quarter_frame());
}

#[test]
fn frame_counter_five_step_clocks() {
    let mut f = FrameCounter::new();
    f.set_flags(0x80);
    assert!(f.is_clocking_half_frame());
    f.step();
    let f3 = FrameCounter { cpu_cycles: 3 * 7457, ..f };
    assert!(!f3.is_clocking_quarter_frame());
    let f4 = FrameCounter { cpu_cycles: 4 * 7457, ..f };
    assert!(f4.is_clocking_quarter_frame());
    assert!(f4.is_clocking_half_frame());
}
