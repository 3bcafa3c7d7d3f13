use vstd::prelude::*;

verus! {

/// A timer over microseconds. A repeating timer wraps around when it reaches its
/// duration; a one-shot timer stops there.
#[derive(Clone, Copy, Debug, PartialEq, Eq, Structural)]
pub struct AnimationTimer {
    pub duration: u64,
    pub elapsed: u64,
    pub repeating: bool,
    pub just_finished: bool,
}

/// The first and last frame of a sprite-sheet animation.
#[derive(Clone, Copy, Debug, PartialEq, Eq, Structural)]
pub struct AnimationIndices {
    pub first: usize,
    pub last: usize,
}

/// The frames of an animation together with the timer that paces them.
#[derive(Clone, Copy, Debug, PartialEq, Eq, Structural)]
pub struct AnimationProperties {
    pub indices: AnimationIndices,
    pub timer: AnimationTimer,
}

impl AnimationTimer {
    pub open spec fn wf(self) -> bool {
        &&& self.duration > 0
        &&& if self.repeating {
            self.elapsed < self.duration
        } else {
            self.elapsed <= self.duration
        }
    }

    /// The timer after `dt` more microseconds.
    pub open spec fn ticked(self, dt: int) -> AnimationTimer {
        let total = self.elapsed + dt;
        if self.repeating {
            AnimationTimer {
                elapsed: (total % (self.duration as int)) as u64,
                just_finished: total >= self.duration,
                ..self
            }
        } else {
            AnimationTimer {
                elapsed: if total >= self.duration { self.duration } else { total as u64 },
                just_finished: self.elapsed < self.duration && total >= self.duration,
                ..self
            }
        }
    }

    /// A one-shot timer has finished once it reached its duration; a repeating one
    /// when its last tick wrapped around.
    pub open spec fn is_finished(self) -> bool {
        if self.repeating {
            self.just_finished
        } else {
            self.elapsed == self.duration
        }
    }

    pub open spec fn new_spec(duration: u64, repeating: bool) -> AnimationTimer {
        AnimationTimer { duration, elapsed: 0, repeating, just_finished: false }
    }

    pub fn new(duration: u64, repeating: bool) -> (r: AnimationTimer)
        requires
            duration > 0,
        ensures
            r.wf(),
            r == AnimationTimer::new_spec(duration, repeating),
    {
        AnimationTimer { duration, elapsed: 0, repeating, just_finished: false }
    }

    /// Advances the timer by `dt` microseconds; returns whether it finished on this tick.
    pub fn tick(&mut self, dt: u64) -> (r: bool)
        requires
            old(self).wf(),
        ensures
            final(self).wf(),
            *final(self) == old(self).ticked(dt as int),
            r == final(self).just_finished,
    {
        let left: u64 = self.duration - self.elapsed;
        if dt >= left {
            if self.repeating {
                proof {
                    let d = self.duration as int;
                    let e = self.elapsed as int;
                    vstd::arithmetic::div_mod::lemma_mod_add_multiples_vanish((dt - left) as int, d);
                    assert(e + dt == (dt - left) + d);
                    assert((e + dt) % d == ((dt - left) as int) % d);
                }
                self.elapsed = (dt - left) % self.duration;
                self.just_finished = true;
            } else {
                self.just_finished = left > 0;
                self.elapsed = self.duration;
            }
        } else {
            proof {
                vstd::arithmetic::div_mod::lemma_small_mod(
                    (self.elapsed + dt) as nat,
                    self.duration as nat,
                );
            }
            self.elapsed = self.elapsed + dt;
            self.just_finished = false;
        }
        self.just_finished
    }

    pub fn finished(&self) -> (r: bool)
        ensures
            r == self.is_finished(),
    {
        if self.repeating {
            self.just_finished
        } else {
            self.elapsed == self.duration
        }
    }

    /// Starts the timer over.
    pub fn reset(&mut self)
        requires
            old(self).wf(),
        ensures
            final(self).wf(),
            *final(self) == (AnimationTimer { elapsed: 0, just_finished: false, ..*old(self) }),
    {
        self.elapsed = 0;
        self.just_finished = false;
    }
}

} // verus!
