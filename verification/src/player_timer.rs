//! The simulated playback clock for one source.

use vstd::prelude::*;

verus! {

/// One source's timer record: whether it is playing, its simulated
/// position in microseconds, its playback rate in thousandths, and when
/// it was last advanced (a millisecond timestamp).
pub struct PlayerTimer {
    playing: bool,
    position: u128,
    rate_milli: u32,
    last_update: u64,
}

pub struct PlayerTimerV {
    pub playing: bool,
    pub position: u128,
    pub rate_milli: u32,
    pub last_update: u64,
}

impl View for PlayerTimer {
    type V = PlayerTimerV;

    closed spec fn view(&self) -> PlayerTimerV {
        PlayerTimerV {
            playing: self.playing,
            position: self.position,
            rate_milli: self.rate_milli,
            last_update: self.last_update,
        }
    }
}

/// The rate used to advance position: a reported rate of exactly `0` is
/// meaningless and stands for normal speed (`1000` thousandths).
pub open spec fn spec_effective_rate(rate_milli: u32) -> u32 {
    if rate_milli == 0 {
        1000u32
    } else {
        rate_milli
    }
}

/// Position after one advance of `increment_ms` milliseconds: it grows by
/// `increment_ms * rate` microseconds, saturating only at the numeric
/// limit of the position type.
pub open spec fn spec_advanced_pos(position: u128, rate_milli: u32, increment_ms: u64) -> u128 {
    let inc = (increment_ms as int) * (spec_effective_rate(rate_milli) as int);
    if position + inc <= u128::MAX {
        (position + inc) as u128
    } else {
        position
    }
}

/// Position after `n` advances of `increment_ms` milliseconds each.
pub open spec fn spec_pos_after(position: u128, rate_milli: u32, increment_ms: u64, n: nat)
    -> u128
    decreases n,
{
    if n == 0 {
        position
    } else {
        spec_advanced_pos(
            spec_pos_after(position, rate_milli, increment_ms, (n - 1) as nat),
            rate_milli,
            increment_ms,
        )
    }
}

/// Absent seeks, the simulated position never decreases from one tick to
/// the next.
pub proof fn lemma_position_monotonic(position: u128, rate_milli: u32, increment_ms: u64, n: nat)
    ensures
        spec_pos_after(position, rate_milli, increment_ms, n + 1) >= spec_pos_after(
            position,
            rate_milli,
            increment_ms,
            n,
        ),
        spec_pos_after(position, rate_milli, increment_ms, n) >= position,
    decreases n,
{
    if n > 0 {
        lemma_position_monotonic(position, rate_milli, increment_ms, (n - 1) as nat);
    }
}

/// As long as the position stays below its numeric limit, each tick
/// advances it by exactly `increment_ms * rate`: after `n` ticks the
/// position has grown by `n * increment_ms * rate`.
pub proof fn lemma_position_exact(position: u128, rate_milli: u32, increment_ms: u64, n: nat)
    requires
        position + n * ((increment_ms as int) * (spec_effective_rate(rate_milli) as int))
            <= u128::MAX,
    ensures
        spec_pos_after(position, rate_milli, increment_ms, n) == position + n * ((
        increment_ms as int) * (spec_effective_rate(rate_milli) as int)),
    decreases n,
{
    let a = increment_ms as int;
    let b = spec_effective_rate(rate_milli) as int;
    let step = a * b;
    assert(a * b >= 0) by (nonlinear_arith)
        requires
            a >= 0,
            b >= 0,
    ;
    if n == 0 {
        assert(n * step == 0) by (nonlinear_arith)
            requires
                n == 0,
        ;
    } else {
        let m = (n - 1) as nat;
        assert(m * step + step == n * step && m * step <= n * step) by (nonlinear_arith)
            requires
                m == n - 1,
                n >= 1,
                step >= 0,
        ;
        lemma_position_exact(position, rate_milli, increment_ms, m);
    }
}

impl PlayerTimer {
    /// A fresh record: stopped, at position zero, at normal rate.
    pub fn new() -> (r: PlayerTimer)
        ensures
            r@ == (PlayerTimerV { playing: false, position: 0, rate_milli: 1000, last_update: 0 }),
    {
        PlayerTimer { playing: false, position: 0, rate_milli: 1000, last_update: 0 }
    }

    /// Advances the position by `increment_ms` milliseconds of playback at
    /// the current rate, and records when it happened.
    pub fn tick(&mut self, increment_ms: u64, now_ms: u64)
        ensures
            final(self)@ == (PlayerTimerV {
                position: spec_advanced_pos(old(self)@.position, old(self)@.rate_milli,
                    increment_ms),
                last_update: now_ms,
                ..old(self)@
            }),
    {
        let rate = self.rate();
        proof {
            let a = increment_ms as int;
            let b = rate as int;
            assert(a * b <= 0xffff_ffff_ffff_ffff * 0xffff_ffff) by (nonlinear_arith)
                requires
                    0 <= a <= 0xffff_ffff_ffff_ffff,
                    0 <= b <= 0xffff_ffff,
            ;
        }
        let inc: u128 = (increment_ms as u128) * (rate as u128);
        if self.position <= u128::MAX - inc {
            self.position = self.position + inc;
        }
        self.last_update = now_ms;
    }

    pub fn set_position(&mut self, position: u128)
        ensures
            final(self)@ == (PlayerTimerV { position, ..old(self)@ }),
    {
        self.position = position;
    }

    pub fn set_rate(&mut self, rate_milli: u32)
        ensures
            final(self)@ == (PlayerTimerV { rate_milli, ..old(self)@ }),
    {
        self.rate_milli = rate_milli;
    }

    /// The effective playback rate in thousandths: a stored rate of `0`
    /// reads as normal speed.
    pub fn rate(&self) -> (r: u32)
        ensures
            r == spec_effective_rate(self@.rate_milli),
    {
        if self.rate_milli == 0 {
            1000
        } else {
            self.rate_milli
        }
    }

    pub fn position(&self) -> (r: u128)
        ensures
            r == self@.position,
    {
        self.position
    }

    pub fn set_playing(&mut self, playing: bool)
        ensures
            final(self)@ == (PlayerTimerV { playing, ..old(self)@ }),
    {
        self.playing = playing;
    }

    pub fn is_playing(&self) -> (r: bool)
        ensures
            r == self@.playing,
    {
        self.playing
    }

    /// Milliseconds elapsed since the last advance, given the time now;
    /// zero if the clock appears to have gone backwards.
    pub fn time_ms_since_last_update(&self, now_ms: u64) -> (r: u64)
        ensures
            r == if now_ms >= self@.last_update {
                (now_ms - self@.last_update) as u64
            } else {
                0u64
            },
    {
        if now_ms >= self.last_update {
            now_ms - self.last_update
        } else {
            0
        }
    }
}

} // verus!
