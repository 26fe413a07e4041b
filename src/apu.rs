//! The audio unit: pulse channels with sequencer, envelope, sweep and
//! length counter, a noise channel's envelope, and the frame sequencer that
//! clocks them. Only the integer state lives here; turning it into samples
//! is left to the audio back end.
use vstd::prelude::*;

verus! {

/// Frame-sequencer steps at which the quarter-frame events fire.
pub const QUARTER_1: u32 = 3729;
pub const QUARTER_2: u32 = 7457;
pub const QUARTER_3: u32 = 11186;
/// The last step of a frame: a quarter and half event, then back to 0.
pub const FRAME_END: u32 = 14916;

/// Length-counter load values, indexed by the top five bits of a
/// length write.
pub open spec fn length_table(i: u8) -> u8 {
    match i {
        0 => 10,
        1 => 254,
        2 => 20,
        3 => 2,
        4 => 40,
        5 => 4,
        6 => 80,
        7 => 6,
        8 => 160,
        9 => 8,
        10 => 60,
        11 => 10,
        12 => 14,
        13 => 12,
        14 => 26,
        15 => 14,
        16 => 12,
        17 => 16,
        18 => 24,
        19 => 18,
        20 => 48,
        21 => 20,
        22 => 96,
        23 => 22,
        24 => 192,
        25 => 24,
        26 => 72,
        27 => 26,
        28 => 16,
        29 => 28,
        30 => 32,
        _ => 30,
    }
}

fn length_load(i: u8) -> (r: u8)
    ensures
        r == length_table(i),
{
    match i {
        0 => 10,
        1 => 254,
        2 => 20,
        3 => 2,
        4 => 40,
        5 => 4,
        6 => 80,
        7 => 6,
        8 => 160,
        9 => 8,
        10 => 60,
        11 => 10,
        12 => 14,
        13 => 12,
        14 => 26,
        15 => 14,
        16 => 12,
        17 => 16,
        18 => 24,
        19 => 18,
        20 => 48,
        21 => 20,
        22 => 96,
        23 => 22,
        24 => 192,
        25 => 24,
        26 => 72,
        27 => 26,
        28 => 16,
        29 => 28,
        30 => 32,
        _ => 30,
    }
}

/// Noise timer periods, indexed by the low four bits of the period write.
pub open spec fn noise_period(i: u8) -> u16 {
    match i {
        0 => 0,
        1 => 4,
        2 => 8,
        3 => 16,
        4 => 32,
        5 => 64,
        6 => 96,
        7 => 128,
        8 => 160,
        9 => 202,
        10 => 254,
        11 => 380,
        12 => 508,
        13 => 1016,
        14 => 2034,
        _ => 4068,
    }
}

fn noise_period_of(i: u8) -> (r: u16)
    ensures
        r == noise_period(i),
{
    match i {
        0 => 0,
        1 => 4,
        2 => 8,
        3 => 16,
        4 => 32,
        5 => 64,
        6 => 96,
        7 => 128,
        8 => 160,
        9 => 202,
        10 => 254,
        11 => 380,
        12 => 508,
        13 => 1016,
        14 => 2034,
        _ => 4068,
    }
}

/// The 8-step pattern of each of the four duty settings.
pub open spec fn duty_sequence(d: u8) -> u32 {
    if d == 0 {
        0b01000000
    } else if d == 1 {
        0b01100000
    } else if d == 2 {
        0b01111000
    } else {
        0b10011111
    }
}

/// An 8-step pattern rotated right by one step.
pub open spec fn rotate8(s: u32) -> u32 {
    ((s & 0x0001) << 7u32) | ((s & 0x00FE) >> 1u32)
}

/// The timer and step pattern of a channel.
#[derive(Clone, Copy, Debug, Default)]
pub struct Sequencer {
    pub sequence: u32,
    pub new_sequence: u32,
    pub timer: u16,
    pub reload: u16,
    pub output: u8,
}

impl Sequencer {
    /// The sequencer after one clock: while enabled, the timer counts down;
    /// when it passes zero it reloads, the pattern rotates and the output
    /// becomes the pattern's low bit.
    pub open spec fn clocked(self, enable: bool) -> Sequencer {
        if !enable {
            self
        } else if self.timer != 0 {
            Sequencer { timer: (self.timer - 1) as u16, ..self }
        } else {
            Sequencer {
                timer: self.reload,
                sequence: rotate8(self.sequence),
                output: (rotate8(self.sequence) & 0x00000001) as u8,
                ..self
            }
        }
    }

    /// Clocks the sequencer (see `clocked`); returns the output.
    pub fn clock(&mut self, enable: bool) -> (r: u8)
        ensures
            *final(self) == old(self).clocked(enable),
            r == final(self).output,
    {
        if enable {
            self.timer = self.timer.wrapping_sub(1);
            if self.timer == 0xFFFF {
                self.timer = self.reload;
                self.sequence = ((self.sequence & 0x0001) << 7u32) | ((self.sequence & 0x00FE) >> 1u32);
                self.output = (self.sequence & 0x00000001) as u8;
            }
        }
        self.output
    }
}

/// Counts a note's length down; the channel is silent at zero.
#[derive(Clone, Copy, Debug, Default)]
pub struct LengthCounter {
    pub counter: u8,
}

impl LengthCounter {
    /// A half-frame event: a disabled channel's counter drops to zero; an
    /// enabled, unhalted one counts down to zero and stays there.
    pub fn clock(&mut self, enable: bool, halt: bool) -> (r: u8)
        ensures
            r == final(self).counter,
            final(self).counter == if !enable {
                0
            } else if old(self).counter > 0 && !halt {
                (old(self).counter - 1) as u8
            } else {
                old(self).counter
            },
    {
        if !enable {
            self.counter = 0;
        } else if self.counter > 0 && !halt {
            self.counter = self.counter - 1;
        }
        self.counter
    }
}

/// The volume envelope: a divider over a decaying 4-bit level.
#[derive(Clone, Copy, Debug, Default)]
pub struct Envelope {
    pub start: bool,
    pub disable: bool,
    pub divider_count: u16,
    pub volume: u16,
    pub output: u16,
    pub decay_count: u16,
}

impl Envelope {
    /// The envelope after a quarter-frame event. A pending start sets the
    /// level to 15 and reloads the divider. Otherwise the divider counts
    /// down; when it expires it reloads and the level drops by one, or at
    /// zero wraps to 15 if looping. The output is the fixed volume when the
    /// envelope is disabled, else the level.
    pub open spec fn clocked(self, b_loop: bool) -> Envelope {
        let (decay, divider) = if self.start {
            (15u16, self.volume)
        } else if self.divider_count == 0 {
            (if self.decay_count > 0 {
                (self.decay_count - 1) as u16
            } else if b_loop {
                15u16
            } else {
                0u16
            }, self.volume)
        } else {
            (self.decay_count, (self.divider_count - 1) as u16)
        };
        Envelope {
            start: false,
            decay_count: decay,
            divider_count: divider,
            output: if self.disable { self.volume } else { decay },
            ..self
        }
    }

    /// Clocks the envelope; see `clocked`.
    pub fn clock(&mut self, b_loop: bool)
        ensures
            *final(self) == old(self).clocked(b_loop),
    {
        if !self.start {
            if self.divider_count == 0 {
                self.divider_count = self.volume;
                if self.decay_count == 0 {
                    if b_loop {
                        self.decay_count = 15;
                    }
                } else {
                    self.decay_count = self.decay_count - 1;
                }
            } else {
                self.divider_count = self.divider_count - 1;
            }
        } else {
            self.start = false;
            self.decay_count = 15;
            self.divider_count = self.volume;
        }
        if self.disable {
            self.output = self.volume;
        } else {
            self.output = self.decay_count;
        }
    }
}

/// The period sweep of a pulse channel.
#[derive(Clone, Copy, Debug, Default)]
pub struct Sweeper {
    pub enabled: bool,
    pub down: bool,
    pub reload: bool,
    pub shift: u8,
    pub timer: u8,
    pub period: u8,
    pub change: u16,
    pub mute: bool,
}

/// A timer period outside [8, 0x7FF] mutes the channel.
pub open spec fn period_mutes(target: u16) -> bool {
    target < 8 || target > 0x7FF
}

impl Sweeper {
    /// The sweep after following period `target`: while enabled, the
    /// pending change is the period shifted right by `shift` (0 to 7), and
    /// the channel mutes when the period is out of range.
    pub open spec fn following(self, target: u16) -> Sweeper {
        if self.enabled {
            Sweeper { change: target >> ((self.shift & 7) as u16), mute: period_mutes(target), ..self }
        } else {
            self
        }
    }

    /// Whether a half-frame event moves the period `target`: the divider
    /// has expired, the sweep is enabled, shifting and not muted, the
    /// period is at least 8 and the change below 0x7FF.
    pub open spec fn moves(self, target: u16) -> bool {
        self.timer == 0 && self.enabled && self.shift > 0 && !self.mute && target >= 8 && self.change < 0x07FF
    }

    /// The period after a half-frame event: up by the change, or down by
    /// it with one more subtracted on the channel that has `channel` set.
    pub open spec fn swept_target(self, target: u16, channel: bool) -> u16 {
        if !self.moves(target) {
            target
        } else if self.down {
            target.wrapping_sub(self.change).wrapping_sub(if channel { 1u16 } else { 0u16 })
        } else {
            target.wrapping_add(self.change)
        }
    }

    /// The sweep after a half-frame event on period `target`: while
    /// enabled, the divider reloads or counts down, and the mute state
    /// follows the new period.
    pub open spec fn clocked(self, target: u16, channel: bool) -> Sweeper {
        if self.enabled {
            Sweeper {
                timer: if self.timer == 0 || self.reload { self.period } else { (self.timer - 1) as u8 },
                reload: false,
                mute: period_mutes(self.swept_target(target, channel)),
                ..self
            }
        } else {
            self
        }
    }

    /// Follows the channel's period; see `following`.
    pub fn track(&mut self, target: u16)
        ensures
            *final(self) == old(self).following(target),
    {
        if self.enabled {
            let sh = self.shift;
            assert(sh & 7 < 16) by (bit_vector);
            self.change = target >> ((self.shift & 7) as u16);
            self.mute = (target < 8) || (target > 0x7FF);
        }
    }

    /// A half-frame event. When the divider has expired and the sweep is
    /// enabled, shifting and not muted, and the period is at least 8 and
    /// the change below 0x7FF, the period moves by the change: up, or down
    /// with one more subtracted on the channel that has `channel` set. Then
    /// the divider reloads or counts down, and the mute state follows the
    /// new period. Returns whether the period changed.
    pub fn clock(&mut self, target: &mut u16, channel: bool) -> (changed: bool)
        ensures
            changed == old(self).moves(*old(target)),
            *final(target) == old(self).swept_target(*old(target), channel),
            *final(self) == old(self).clocked(*old(target), channel),
    {
        let mut changed = false;
        if self.timer == 0 && self.enabled && self.shift > 0 && !self.mute {
            if *target >= 8 && self.change < 0x07FF {
                if self.down {
                    *target = (*target).wrapping_sub(self.change).wrapping_sub(if channel { 1u16 } else { 0u16 });
                } else {
                    *target = (*target).wrapping_add(self.change);
                }
                changed = true;
            }
        }
        if self.enabled {
            if self.timer == 0 || self.reload {
                self.timer = self.period;
                self.reload = false;
            } else {
                self.timer = self.timer - 1;
            }
            self.mute = (*target < 8) || (*target > 0x7FF);
        }
        changed
    }
}

/// One voice: its enable and halt flags, units, and duty setting.
#[derive(Clone, Copy, Debug, Default)]
pub struct Channel {
    pub enable: bool,
    pub halt: bool,
    /// The duty setting, 0 to 3: 1/8, 1/4, 1/2 or 3/4 of each period high.
    pub duty: u8,
    pub seq: Sequencer,
    pub env: Envelope,
    pub lc: LengthCounter,
    pub sweep: Sweeper,
}

impl Channel {
    /// The channel is heard: enabled, length counter running, period at
    /// least 8, not muted by its sweep, and the envelope above its floor.
    pub open spec fn audible_spec(&self) -> bool {
        self.enable && self.lc.counter > 0 && self.seq.timer >= 8 && !self.sweep.mute && self.env.output > 2
    }

    /// Whether the channel is heard now; see `audible_spec`.
    pub fn audible(&self) -> (r: bool)
        ensures
            r == self.audible_spec(),
    {
        self.enable && self.lc.counter > 0 && self.seq.timer >= 8 && !self.sweep.mute && self.env.output > 2
    }
}

impl Channel {
    /// A disabled channel with every unit at zero.
    pub fn silent() -> (r: Channel)
        ensures
            !r.enable,
            !r.halt,
            r.lc.counter == 0,
            r.seq.timer == 0,
            r.seq.reload == 0,
            r.env.output == 0,
    {
        Channel {
            enable: false,
            halt: false,
            duty: 0,
            seq: Sequencer { sequence: 0, new_sequence: 0, timer: 0, reload: 0, output: 0 },
            env: Envelope { start: false, disable: false, divider_count: 0, volume: 0, output: 0, decay_count: 0 },
            lc: LengthCounter { counter: 0 },
            sweep: Sweeper {
                enabled: false,
                down: false,
                reload: false,
                shift: 0,
                timer: 0,
                period: 0,
                change: 0,
                mute: false,
            },
        }
    }

    /// The channel after a write of its first register: duty (top two
    /// bits), length halt / envelope loop (bit 5), constant volume (bit 4)
    /// and volume (low four bits).
    pub open spec fn with_control(self, data: u8) -> Channel {
        let d = data >> 6u8;
        Channel {
            duty: d,
            halt: data & 0x20 != 0,
            seq: Sequencer { new_sequence: duty_sequence(d), sequence: duty_sequence(d), ..self.seq },
            env: Envelope { volume: (data & 0x0F) as u16, disable: data & 0x10 != 0, ..self.env },
            ..self
        }
    }

    /// The channel after a write of its sweep register.
    pub open spec fn with_sweep(self, data: u8) -> Channel {
        Channel {
            sweep: Sweeper {
                enabled: data & 0x80 != 0,
                period: (data & 0x70) >> 4u8,
                down: data & 0x08 != 0,
                shift: data & 0x07,
                reload: true,
                ..self.sweep
            },
            ..self
        }
    }

    /// The channel after a write of the low byte of its timer period.
    pub open spec fn with_timer_lo(self, data: u8) -> Channel {
        Channel { seq: Sequencer { reload: (self.seq.reload & 0xFF00) | (data as u16), ..self.seq }, ..self }
    }

    /// The channel after a write of its length and timer-high register:
    /// the period's top three bits, a timer and pattern restart, a length
    /// load from the table, and an envelope restart.
    pub open spec fn with_timer_hi(self, data: u8) -> Channel {
        let reload = (((data & 0x07) as u16) << 8u16) | (self.seq.reload & 0x00FF);
        Channel {
            seq: Sequencer { reload: reload, timer: reload, sequence: self.seq.new_sequence, ..self.seq },
            lc: LengthCounter { counter: length_table(data >> 3u8) },
            env: Envelope { start: true, ..self.env },
            ..self
        }
    }

    fn write_control(&mut self, data: u8)
        ensures
            *final(self) == old(self).with_control(data),
    {
        let d = data >> 6u8;
        let pattern: u32 = if d == 0 {
            0b01000000
        } else if d == 1 {
            0b01100000
        } else if d == 2 {
            0b01111000
        } else {
            0b10011111
        };
        self.duty = d;
        self.seq.new_sequence = pattern;
        self.seq.sequence = pattern;
        self.halt = data & 0x20 != 0;
        self.env.volume = (data & 0x0F) as u16;
        self.env.disable = data & 0x10 != 0;
    }

    fn write_sweep(&mut self, data: u8)
        ensures
            *final(self) == old(self).with_sweep(data),
    {
        self.sweep.enabled = data & 0x80 != 0;
        self.sweep.period = (data & 0x70) >> 4u8;
        self.sweep.down = data & 0x08 != 0;
        self.sweep.shift = data & 0x07;
        self.sweep.reload = true;
    }

    fn write_timer_lo(&mut self, data: u8)
        ensures
            *final(self) == old(self).with_timer_lo(data),
    {
        self.seq.reload = (self.seq.reload & 0xFF00) | (data as u16);
    }

    fn write_timer_hi(&mut self, data: u8)
        ensures
            *final(self) == old(self).with_timer_hi(data),
    {
        let reload = (((data & 0x07) as u16) << 8u16) | (self.seq.reload & 0x00FF);
        self.seq.reload = reload;
        self.seq.timer = reload;
        self.seq.sequence = self.seq.new_sequence;
        self.lc.counter = length_load(data >> 3u8);
        self.env.start = true;
    }
}

/// One step of the frame sequencer from count `c`: the new count, and
/// whether a quarter-frame and a half-frame event fire.
pub open spec fn frame_events(c: u32) -> (u32, bool, bool) {
    let n = c + 1;
    let quarter = n == QUARTER_1 || n == QUARTER_2 || n == QUARTER_3 || n == FRAME_END;
    let half = n == QUARTER_2 || n == FRAME_END;
    (if n == FRAME_END { 0 } else { n as u32 }, quarter, half)
}

/// Steps the frame sequencer; see `frame_events`.
pub fn frame_step(c: u32) -> (r: (u32, bool, bool))
    requires
        c < FRAME_END,
    ensures
        r == frame_events(c),
        r.0 < FRAME_END,
{
    let n = c + 1;
    let quarter = n == QUARTER_1 || n == QUARTER_2 || n == QUARTER_3 || n == FRAME_END;
    let half = n == QUARTER_2 || n == FRAME_END;
    (if n == FRAME_END { 0 } else { n }, quarter, half)
}

/// The frame-sequencer count after `k` steps from 0.
pub open spec fn frame_count_after(k: nat) -> u32
    decreases k,
{
    if k == 0 { 0 } else { frame_events(frame_count_after((k - 1) as nat)).0 }
}

proof fn lemma_frame_count_linear(k: nat)
    requires
        k < FRAME_END,
    ensures
        frame_count_after(k) == k,
    decreases k,
{
    if k > 0 {
        lemma_frame_count_linear((k - 1) as nat);
    }
}

/// Over the first frame from a fresh count, step `k` (1 to 14916) fires a
/// quarter-frame event exactly at steps 3729, 7457, 11186 and 14916 and a
/// half-frame event exactly at 7457 and 14916; after step 14916 the count
/// is back to 0.
pub proof fn lemma_frame_sequence(k: nat)
    requires
        1 <= k <= FRAME_END,
    ensures
        frame_events(frame_count_after((k - 1) as nat)).1
            == (k == QUARTER_1 || k == QUARTER_2 || k == QUARTER_3 || k == FRAME_END),
        frame_events(frame_count_after((k - 1) as nat)).2 == (k == QUARTER_2 || k == FRAME_END),
        frame_count_after(FRAME_END as nat) == 0,
{
    lemma_frame_count_linear((k - 1) as nat);
    lemma_frame_count_linear((FRAME_END - 1) as nat);
}

/// The audio unit.
pub struct Apu {
    pub pulse1: Channel,
    pub pulse2: Channel,
    pub noise: Channel,
    /// Clocks run so far.
    pub clock_counter: u64,
    /// The frame sequencer's count, stepped every sixth clock.
    pub frame_clock_counter: u32,
}

impl Apu {
    pub open spec fn wf(&self) -> bool {
        self.frame_clock_counter < FRAME_END
    }

    /// A fresh unit: channels silent and disabled, the noise pattern seeded.
    pub fn new() -> (r: Apu)
        ensures
            r.wf(),
            r.frame_clock_counter == 0,
            r.clock_counter == 0,
            !r.pulse1.enable && !r.pulse2.enable && !r.noise.enable,
            r.noise.seq.sequence == 0xDBDB,
    {
        let mut noise = Channel::silent();
        noise.seq.sequence = 0xDBDB;
        let p1 = Channel::silent();
        let p2 = Channel::silent();
        Apu { pulse1: p1, pulse2: p2, noise, clock_counter: 0, frame_clock_counter: 0 }
    }

    /// The length counter after a half-frame event.
    pub open spec fn lc_after_half(ch: Channel) -> u8 {
        if !ch.enable {
            0
        } else if ch.lc.counter > 0 && !ch.halt {
            (ch.lc.counter - 1) as u8
        } else {
            ch.lc.counter
        }
    }

    /// The effect of a register write of `data` at `addr` from the CPU
    /// side: from `p0` to `p1`.
    pub open spec fn register_write(p0: Apu, p1: Apu, addr: u16, data: u8) -> bool {
        &&& addr == 0x4000 ==> (p1 == Apu { pulse1: p0.pulse1.with_control(data), ..p0 })
        &&& addr == 0x4001 ==> (p1 == Apu { pulse1: p0.pulse1.with_sweep(data), ..p0 })
        &&& addr == 0x4002 ==> (p1 == Apu { pulse1: p0.pulse1.with_timer_lo(data), ..p0 })
        &&& addr == 0x4003 ==> (p1 == Apu { pulse1: p0.pulse1.with_timer_hi(data), ..p0 })
        &&& addr == 0x4004 ==> (p1 == Apu { pulse2: p0.pulse2.with_control(data), ..p0 })
        &&& addr == 0x4005 ==> (p1 == Apu { pulse2: p0.pulse2.with_sweep(data), ..p0 })
        &&& addr == 0x4006 ==> (p1 == Apu { pulse2: p0.pulse2.with_timer_lo(data), ..p0 })
        &&& addr == 0x4007 ==> (p1 == Apu { pulse2: p0.pulse2.with_timer_hi(data), ..p0 })
        &&& addr == 0x400C ==> (p1 == Apu {
            noise: Channel {
                env: Envelope { volume: (data & 0x0F) as u16, disable: data & 0x10 != 0, ..p0.noise.env },
                halt: data & 0x20 != 0,
                ..p0.noise
            },
            ..p0
        })
        &&& addr == 0x400E ==> (p1 == Apu {
            noise: Channel {
                seq: Sequencer { reload: noise_period(data & 0x0F), ..p0.noise.seq },
                ..p0.noise
            },
            ..p0
        })
        &&& addr == 0x400F ==> (p1 == Apu {
            pulse1: Channel { env: Envelope { start: true, ..p0.pulse1.env }, ..p0.pulse1 },
            pulse2: Channel { env: Envelope { start: true, ..p0.pulse2.env }, ..p0.pulse2 },
            noise: Channel {
                env: Envelope { start: true, ..p0.noise.env },
                lc: LengthCounter { counter: length_table(data >> 3u8) },
                ..p0.noise
            },
            ..p0
        })
        &&& addr == 0x4015 ==> (p1 == Apu {
            pulse1: Channel { enable: data & 0x01 != 0, ..p0.pulse1 },
            pulse2: Channel { enable: data & 0x02 != 0, ..p0.pulse2 },
            noise: Channel { enable: data & 0x04 != 0, ..p0.noise },
            ..p0
        })
        &&& !(0x4000 <= addr <= 0x4007 || addr == 0x400C || addr == 0x400E || addr == 0x400F || addr == 0x4015)
            ==> p1 == p0
    }

    /// A register write from the CPU side: 0x4000 to 0x4003 for the first
    /// pulse channel and 0x4004 to 0x4007 for the second (control, sweep,
    /// timer low, length and timer high); 0x400C noise volume, 0x400E noise
    /// period, 0x400F noise length (restarting every envelope); 0x4015 the
    /// channel enables. Other addresses change nothing.
    pub fn cpu_write(&mut self, addr: u16, data: u8)
        requires
            old(self).wf(),
        ensures
            final(self).wf(),
            Apu::register_write(*old(self), *final(self), addr, data),
    {
        if addr == 0x4000 {
            self.pulse1.write_control(data);
        } else if addr == 0x4001 {
            self.pulse1.write_sweep(data);
        } else if addr == 0x4002 {
            self.pulse1.write_timer_lo(data);
        } else if addr == 0x4003 {
            self.pulse1.write_timer_hi(data);
        } else if addr == 0x4004 {
            self.pulse2.write_control(data);
        } else if addr == 0x4005 {
            self.pulse2.write_sweep(data);
        } else if addr == 0x4006 {
            self.pulse2.write_timer_lo(data);
        } else if addr == 0x4007 {
            self.pulse2.write_timer_hi(data);
        } else if addr == 0x400C {
            self.noise.env.volume = (data & 0x0F) as u16;
            self.noise.env.disable = data & 0x10 != 0;
            self.noise.halt = data & 0x20 != 0;
        } else if addr == 0x400E {
            self.noise.seq.reload = noise_period_of(data & 0x0F);
        } else if addr == 0x4015 {
            self.pulse1.enable = data & 0x01 != 0;
            self.pulse2.enable = data & 0x02 != 0;
            self.noise.enable = data & 0x04 != 0;
        } else if addr == 0x400F {
            self.pulse1.env.start = true;
            self.pulse2.env.start = true;
            self.noise.env.start = true;
            self.noise.lc.counter = length_load(data >> 3u8);
        }
    }

    /// A register read from the CPU side; the unit has no readable state.
    pub fn cpu_read(&self, addr: u8) -> (r: u8)
        ensures
            r == 0,
    {
        0
    }

    /// A pulse channel after one clock of the unit: on a sequencer step, the
    /// envelope on a quarter frame, length counter and sweep on a half
    /// frame, then the sequencer; on every clock the sweep follows the
    /// period.
    pub open spec fn pulse_after(ch: Channel, step: bool, quarter: bool, half: bool, channel: bool) -> Channel {
        if !step {
            Channel { sweep: ch.sweep.following(ch.seq.reload), ..ch }
        } else {
            let env = if quarter { ch.env.clocked(ch.halt) } else { ch.env };
            let lc = if half { LengthCounter { counter: Self::lc_after_half(ch) } } else { ch.lc };
            let reload = if half { ch.sweep.swept_target(ch.seq.reload, channel) } else { ch.seq.reload };
            let sweep = if half { ch.sweep.clocked(ch.seq.reload, channel) } else { ch.sweep };
            let seq = Sequencer { reload: reload, ..ch.seq }.clocked(ch.enable);
            Channel { env: env, lc: lc, seq: seq, sweep: sweep.following(seq.reload), ..ch }
        }
    }

    /// The unit after one clock; see `clock`.
    pub open spec fn clocked(self) -> Apu {
        let step = self.clock_counter % 6 == 0;
        let (count, quarter, half) = frame_events(self.frame_clock_counter);
        Apu {
            pulse1: Self::pulse_after(self.pulse1, step, quarter, half, false),
            pulse2: Self::pulse_after(self.pulse2, step, quarter, half, true),
            noise: if step && quarter {
                Channel { env: self.noise.env.clocked(self.noise.halt), ..self.noise }
            } else {
                self.noise
            },
            clock_counter: self.clock_counter.wrapping_add(1),
            frame_clock_counter: if step { count } else { self.frame_clock_counter },
        }
    }

    /// Advances the unit by one clock. Every sixth clock the frame
    /// sequencer steps; its quarter-frame events clock the envelopes and
    /// its half-frame events the length counters and sweeps; the pulse
    /// sequencers step. Every clock the sweeps follow the channel periods.
    pub fn clock(&mut self)
        requires
            old(self).wf(),
        ensures
            final(self).wf(),
            *final(self) == old(self).clocked(),
            final(self).clock_counter == old(self).clock_counter.wrapping_add(1),
            ({
                let step = old(self).clock_counter % 6 == 0;
                let (count, quarter, half) = frame_events(old(self).frame_clock_counter);
                &&& final(self).frame_clock_counter == if step { count } else { old(self).frame_clock_counter }
                &&& final(self).pulse1 == Self::pulse_after(old(self).pulse1, step, quarter, half, false)
                &&& final(self).pulse2 == Self::pulse_after(old(self).pulse2, step, quarter, half, true)
                &&& final(self).noise == if step && quarter {
                    Channel { env: old(self).noise.env.clocked(old(self).noise.halt), ..old(self).noise }
                } else {
                    old(self).noise
                }
            }),
    {
        if self.clock_counter % 6 == 0 {
            let (count, quarter, half) = frame_step(self.frame_clock_counter);
            self.frame_clock_counter = count;
            if quarter {
                let h = self.pulse1.halt;
                self.pulse1.env.clock(h);
                let h = self.pulse2.halt;
                self.pulse2.env.clock(h);
                let h = self.noise.halt;
                self.noise.env.clock(h);
            }
            if half {
                let (e, h) = (self.pulse1.enable, self.pulse1.halt);
                self.pulse1.lc.clock(e, h);
                let mut r = self.pulse1.seq.reload;
                self.pulse1.sweep.clock(&mut r, false);
                self.pulse1.seq.reload = r;
                let (e, h) = (self.pulse2.enable, self.pulse2.halt);
                self.pulse2.lc.clock(e, h);
                let mut r = self.pulse2.seq.reload;
                self.pulse2.sweep.clock(&mut r, true);
                self.pulse2.seq.reload = r;
            }
            let e = self.pulse1.enable;
            self.pulse1.seq.clock(e);
            let e = self.pulse2.enable;
            self.pulse2.seq.clock(e);
        }
        let r = self.pulse1.seq.reload;
        self.pulse1.sweep.track(r);
        let r = self.pulse2.seq.reload;
        self.pulse2.sweep.track(r);
        self.clock_counter = self.clock_counter.wrapping_add(1);
    }

    /// Resetting leaves the unit as it is.
    pub fn reset(&self) {
    }
}

} // verus!
