use vstd::prelude::*;

verus! {

/// Nanoseconds in one second.
pub const NANOS_PER_SECOND: u64 = 1_000_000_000;

/// A repeating timer: it fires on the tick where the accumulated time reaches
/// its interval, and keeps what went past the interval for the next round.
/// Times are in nanoseconds.
#[derive(Clone, Copy, Debug)]
pub struct Timer {
    interval: u64,
    elapsed: u64,
    fired: bool,
}

impl Timer {
    pub closed spec fn interval_spec(&self) -> nat {
        self.interval as nat
    }

    pub closed spec fn elapsed_spec(&self) -> nat {
        self.elapsed as nat
    }

    pub closed spec fn fired_spec(&self) -> bool {
        self.fired
    }

    /// The interval is positive and the time kept stays below it.
    pub open spec fn wf(&self) -> bool {
        &&& self.interval_spec() > 0
        &&& self.elapsed_spec() < self.interval_spec()
    }

    /// A timer with the given interval, that has not run yet.
    pub fn new(interval: u64) -> (r: Timer)
        requires
            interval > 0,
        ensures
            r.wf(),
            r.interval_spec() == interval,
            r.elapsed_spec() == 0,
            !r.fired_spec(),
    {
        Timer { interval, elapsed: 0, fired: false }
    }

    pub fn interval(&self) -> (r: u64)
        ensures
            r == self.interval_spec(),
    {
        self.interval
    }

    pub fn elapsed(&self) -> (r: u64)
        ensures
            r == self.elapsed_spec(),
    {
        self.elapsed
    }

    /// Whether the timer fired on its last tick.
    pub fn finished(&self) -> (r: bool)
        ensures
            r == self.fired_spec(),
    {
        self.fired
    }

    /// Adds `delta` nanoseconds. The timer fires when the total reaches the
    /// interval, and then keeps only the remainder.
    pub fn tick(&mut self, delta: u64)
        requires
            old(self).wf(),
        ensures
            final(self).wf(),
            final(self).interval_spec() == old(self).interval_spec(),
            final(self).fired_spec() == (old(self).elapsed_spec() + delta >= old(
                self,
            ).interval_spec()),
            final(self).elapsed_spec() == (old(self).elapsed_spec() + delta) % (old(
                self,
            ).interval_spec() as int),
    {
        let room = self.interval - self.elapsed;
        if delta >= room {
            let over = delta - room;
            proof {
                let i = self.interval as int;
                let e = self.elapsed as int;
                let dd = delta as int;
                assert(e + dd == (over as int) + i);
                assert((over as int + i) % i == (over as int) % i) by {
                    vstd::arithmetic::div_mod::lemma_mod_add_multiples_vanish(over as int, i);
                }
            }
            self.elapsed = over % self.interval;
            self.fired = true;
        } else {
            proof {
                vstd::arithmetic::div_mod::lemma_small_mod(
                    (self.elapsed + delta) as nat,
                    self.interval as nat,
                );
            }
            self.elapsed = self.elapsed + delta;
            self.fired = false;
        }
    }
}

/// The timer that paces the snake's moves.
#[derive(Clone, Copy, Debug)]
pub struct SnakeTimer(pub Timer);

impl SnakeTimer {
    /// A timer that lets the snake move every half second.
    pub fn new() -> (r: SnakeTimer)
        ensures
            r.0.wf(),
            r.0.interval_spec() == NANOS_PER_SECOND / 2,
            r.0.elapsed_spec() == 0,
            !r.0.fired_spec(),
    {
        SnakeTimer(Timer::new(NANOS_PER_SECOND / 2))
    }
}

/// Whether the snake moves on this tick: its timer fired.
pub fn should_move_snake(timer: &SnakeTimer) -> (r: bool)
    ensures
        r == timer.0.fired_spec(),
{
    timer.0.finished()
}

/// Advances the snake's timer by the time since the last tick.
pub fn update_snake_timer(timer: &mut SnakeTimer, delta: u64)
    requires
        old(timer).0.wf(),
    ensures
        final(timer).0.wf(),
        final(timer).0.interval_spec() == old(timer).0.interval_spec(),
        final(timer).0.fired_spec() == (old(timer).0.elapsed_spec() + delta >= old(
            timer,
        ).0.interval_spec()),
        final(timer).0.elapsed_spec() == (old(timer).0.elapsed_spec() + delta) % (old(
            timer,
        ).0.interval_spec() as int),
{
    timer.0.tick(delta);
}

} // verus!
