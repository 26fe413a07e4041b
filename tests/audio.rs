use nes_emu::apu::{frame_step, Apu, Envelope, LengthCounter, Sequencer, Sweeper};

#[test]
fn frame_sequencer_first_frame() {
    let mut c = 0u32;
    let mut quarters = vec![];
    let mut halves = vec![];
    for k in 1..=14916u32 {
        let (n, q, h) = frame_step(c);
        if q {
            quarters.push(k);
        }
        if h {
            halves.push(k);
        }
        c = n;
    }
    assert_eq!(quarters, vec![3729, 7457, 11186, 14916]);
    assert_eq!(halves, vec![7457, 14916]);
    assert_eq!(c, 0);
}

#[test]
fn apu_steps_sequencer_every_sixth_clock() {
    let mut apu = Apu::new();
    for _ in 0..6 * 3729 {
        apu.clock();
    }
    assert_eq!(apu.frame_clock_counter, 3729);
    for _ in 0..6 * (14916 - 3729) {
        apu.clock();
    }
    assert_eq!(apu.frame_clock_counter, 0);
    assert_eq!(apu.clock_counter, 6 * 14916);
}

#[test]
fn envelope_start_and_decay() {
    let mut apu = Apu::new();
    apu.cpu_write(0x4015, 0x01);
    apu.cpu_write(0x4000, 0x02);
    apu.cpu_write(0x4003, 0x08);
    assert!(apu.pulse1.env.start);
    for _ in 0..6 * 3729 {
        apu.clock();
    }
    assert!(!apu.pulse1.env.start);
    assert_eq!(apu.pulse1.env.decay_count, 15);
    assert_eq!(apu.pulse1.env.output, 15);
}

#[test]
fn length_counter_loads_and_counts_on_half_frames() {
    let mut apu = Apu::new();
    apu.cpu_write(0x4015, 0x01);
    apu.cpu_write(0x4003, 0x08);
    assert_eq!(apu.pulse1.lc.counter, 254);
    for _ in 0..6 * 7457 {
        apu.clock();
    }
    assert_eq!(apu.pulse1.lc.counter, 253);
    apu.cpu_write(0x4015, 0x00);
    for _ in 0..6 * (14916 - 7457) {
        apu.clock();
    }
    assert_eq!(apu.pulse1.lc.counter, 0);
}

#[test]
fn length_counter_rules() {
    let mut lc = LengthCounter { counter: 3 };
    assert_eq!(lc.clock(true, false), 2);
    assert_eq!(lc.clock(true, true), 2);
    assert_eq!(lc.clock(false, false), 0);
    assert_eq!(lc.clock(true, false), 0);
}

#[test]
fn envelope_loops_when_asked() {
    let mut e = Envelope { start: false, disable: false, divider_count: 0, volume: 0, output: 0, decay_count: 0 };
    e.clock(true);
    assert_eq!(e.decay_count, 15);
    e.clock(false);
    assert_eq!(e.decay_count, 14);
    e.disable = true;
    e.volume = 9;
    e.clock(false);
    assert_eq!(e.output, 9);
}

#[test]
fn sequencer_rotates_on_expiry() {
    let mut s = Sequencer { sequence: 0b0000_0010, new_sequence: 0, timer: 0, reload: 2, output: 0 };
    assert_eq!(s.clock(true), 1);
    assert_eq!(s.sequence, 0b0000_0001);
    s.timer = 0;
    assert_eq!(s.clock(true), 0);
    assert_eq!(s.sequence, 0b1000_0000);
    assert_eq!(s.timer, 2);
    s.clock(true);
    assert_eq!(s.timer, 1);
    s.clock(false);
    assert_eq!(s.timer, 1);
}

#[test]
fn sweep_down_differs_per_channel() {
    let base = Sweeper { enabled: true, down: true, reload: false, shift: 1, timer: 0, period: 3, change: 0, mute: false };
    let mut a = base;
    let mut b = base;
    let mut p1: u16 = 0x100;
    let mut p2: u16 = 0x100;
    a.track(p1);
    b.track(p2);
    assert_eq!(a.change, 0x80);
    assert!(a.clock(&mut p1, false));
    assert!(b.clock(&mut p2, true));
    assert_eq!(p1, 0x80);
    assert_eq!(p2, 0x7F);
    assert_eq!(a.timer, 3);
}

#[test]
fn sweep_mutes_out_of_range() {
    let mut s = Sweeper { enabled: true, down: false, reload: false, shift: 0, timer: 0, period: 0, change: 0, mute: false };
    s.track(7);
    assert!(s.mute);
    s.track(0x800);
    assert!(s.mute);
    s.track(0x400);
    assert!(!s.mute);
}

#[test]
fn duty_and_noise_registers() {
    let mut apu = Apu::new();
    apu.cpu_write(0x4004, 0xC0 | 0x30 | 0x07);
    assert_eq!(apu.pulse2.duty, 3);
    assert_eq!(apu.pulse2.seq.sequence, 0b1001_1111);
    assert!(apu.pulse2.halt);
    assert!(apu.pulse2.env.disable);
    assert_eq!(apu.pulse2.env.volume, 7);
    apu.cpu_write(0x400E, 0x0F);
    assert_eq!(apu.noise.seq.reload, 4068);
    apu.cpu_write(0x400F, 0x18);
    assert_eq!(apu.noise.lc.counter, 2);
    assert!(apu.pulse1.env.start);
    apu.cpu_write(0x4006, 0xAB);
    apu.cpu_write(0x4007, 0xFD);
    assert_eq!(apu.pulse2.seq.reload, 0x5AB);
    assert_eq!(apu.pulse2.lc.counter, 30);
    assert_eq!(apu.cpu_read(0x15), 0);
}

#[test]
fn audible_needs_every_gate() {
    let mut apu = Apu::new();
    apu.cpu_write(0x4015, 0x01);
    apu.cpu_write(0x4000, 0x1F);
    apu.cpu_write(0x4002, 0x40);
    apu.cpu_write(0x4003, 0x08);
    apu.pulse1.env.output = 15;
    assert!(apu.pulse1.audible());
    apu.pulse1.sweep.mute = true;
    assert!(!apu.pulse1.audible());
}
