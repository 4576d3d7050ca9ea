//! Gliding a stepped pitch target into a continuous pitch.
//!
//! Pitch is carried in thousandths of a MIDI note number, so the smoother
//! is exact integer arithmetic: once per audio frame the value moves
//! toward the target by a fixed fraction of the remaining distance, and by
//! at least one thousandth, so it reaches the target after finitely many
//! frames and never overshoots it.

use vstd::prelude::*;

verus! {

/// Distance between two pitch values, in thousandths of a note.
pub open spec fn pitch_dist(a: u32, b: u32) -> int {
    if a <= b {
        b - a
    } else {
        a - b
    }
}

/// One frame of the glide: move `value` toward `target` by the remaining
/// distance divided by `rate`, and by at least one step; a rate of zero
/// tracks the target at once.
pub open spec fn spec_glide_step(value: u32, target: u32, rate: u32) -> u32 {
    if rate == 0 {
        target
    } else if value < target {
        let d = ((target - value) / (rate as int)) as u32;
        if d == 0 {
            (value + 1) as u32
        } else {
            (value + d) as u32
        }
    } else if value > target {
        let d = ((value - target) / (rate as int)) as u32;
        if d == 0 {
            (value - 1) as u32
        } else {
            (value - d) as u32
        }
    } else {
        value
    }
}

/// The glided value after `n` frames toward a fixed target.
pub open spec fn spec_glide_iter(value: u32, target: u32, rate: u32, n: nat) -> u32
    decreases n,
{
    if n == 0 {
        value
    } else {
        spec_glide_iter(spec_glide_step(value, target, rate), target, rate, (n - 1) as nat)
    }
}

/// Each frame stays between the old value and the target (no overshoot)
/// and, while the target is not yet reached, strictly shrinks the
/// remaining distance.
pub proof fn lemma_glide_step_approaches(value: u32, target: u32, rate: u32)
    ensures
        value <= target ==> value <= spec_glide_step(value, target, rate) <= target,
        value >= target ==> target <= spec_glide_step(value, target, rate) <= value,
        value != target ==> pitch_dist(spec_glide_step(value, target, rate), target) < pitch_dist(
            value,
            target,
        ),
{
    if rate != 0 && value < target {
        vstd::arithmetic::div_mod::lemma_div_nonincreasing(target - value, rate as int);
        vstd::arithmetic::div_mod::lemma_div_pos_is_pos(target - value, rate as int);
    }
    if rate != 0 && value > target {
        vstd::arithmetic::div_mod::lemma_div_nonincreasing(value - target, rate as int);
        vstd::arithmetic::div_mod::lemma_div_pos_is_pos(value - target, rate as int);
    }
}

/// The glide settles: after at least as many frames as the starting
/// distance in thousandths of a note, the value sits exactly on the
/// target, whatever the rate.
pub proof fn lemma_glide_settles(value: u32, target: u32, rate: u32, n: nat)
    requires
        n >= pitch_dist(value, target),
    ensures
        spec_glide_iter(value, target, rate, n) == target,
    decreases n,
{
    if n == 0 {
    } else if value == target {
        lemma_glide_settles(value, target, rate, (n - 1) as nat);
    } else {
        lemma_glide_step_approaches(value, target, rate);
        lemma_glide_settles(spec_glide_step(value, target, rate), target, rate, (n - 1) as nat);
    }
}

/// The glide never overshoots: every frame of the approach lies between
/// the starting value and the target.
pub proof fn lemma_glide_no_overshoot(value: u32, target: u32, rate: u32, n: nat)
    ensures
        value <= target ==> value <= spec_glide_iter(value, target, rate, n) <= target,
        value >= target ==> target <= spec_glide_iter(value, target, rate, n) <= value,
    decreases n,
{
    if n > 0 {
        lemma_glide_step_approaches(value, target, rate);
        lemma_glide_no_overshoot(spec_glide_step(value, target, rate), target, rate, (n - 1) as nat);
    }
}

/// The portamento smoother: one smoothed pitch plus a fixed glide rate.
///
/// `rate` is the number of frames over which the remaining distance would
/// close at the initial speed, that is the glide time constant times the
/// sample rate; zero means instantaneous tracking. The value starts on the
/// first target it is given, so there is no glide out of silence.
pub struct Portamento {
    value: u32,
    rate: u32,
    started: bool,
}

impl Portamento {
    /// The smoothed pitch, in thousandths of a note.
    pub closed spec fn value(&self) -> u32 {
        self.value
    }

    /// Frames per time constant, fixed at construction.
    pub closed spec fn rate(&self) -> u32 {
        self.rate
    }

    /// Whether a first target has been seen.
    pub closed spec fn started(&self) -> bool {
        self.started
    }

    pub fn new(rate: u32) -> (r: Self)
        ensures
            r.rate() == rate,
            !r.started(),
    {
        Portamento { value: 0, rate, started: false }
    }

    /// Advance the glide by one audio frame toward `target`. The first
    /// target observed is adopted outright; afterwards each frame moves
    /// the value one glide step closer. Returns the smoothed pitch.
    pub fn tick(&mut self, target: u32) -> (r: u32)
        ensures
            final(self).rate() == old(self).rate(),
            final(self).started(),
            r == final(self).value(),
            !old(self).started() ==> final(self).value() == target,
            old(self).started() ==> final(self).value() == spec_glide_step(
                old(self).value(),
                target,
                old(self).rate(),
            ),
    {
        if !self.started {
            self.value = target;
            self.started = true;
        } else if self.rate == 0 {
            self.value = target;
        } else if self.value < target {
            proof {
                vstd::arithmetic::div_mod::lemma_div_nonincreasing(
                    target - self.value,
                    self.rate as int,
                );
                vstd::arithmetic::div_mod::lemma_div_pos_is_pos(
                    target - self.value,
                    self.rate as int,
                );
            }
            let d: u32 = (target - self.value) / self.rate;
            if d == 0 {
                self.value = self.value + 1;
            } else {
                self.value = self.value + d;
            }
        } else if self.value > target {
            proof {
                vstd::arithmetic::div_mod::lemma_div_nonincreasing(
                    self.value - target,
                    self.rate as int,
                );
                vstd::arithmetic::div_mod::lemma_div_pos_is_pos(
                    self.value - target,
                    self.rate as int,
                );
            }
            let d: u32 = (self.value - target) / self.rate;
            if d == 0 {
                self.value = self.value - 1;
            } else {
                self.value = self.value - d;
            }
        }
        self.value
    }
}

} // verus!
