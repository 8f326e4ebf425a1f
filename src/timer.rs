use vstd::prelude::*;

verus! {

/// A one-shot countdown in milliseconds. Once it has finished it stays
/// finished and no longer advances.
#[derive(PartialEq, Eq, Structural, Clone, Copy, Debug)]
pub struct Countdown {
    pub duration_ms: u64,
    pub elapsed_ms: u64,
    pub finished: bool,
}

impl Countdown {
    /// Elapsed time never passes the duration, and a finished countdown has
    /// reached it.
    pub open spec fn wf(self) -> bool {
        self.elapsed_ms <= self.duration_ms && (self.finished ==> self.elapsed_ms
            == self.duration_ms)
    }

    /// The countdown after `delta_ms` more milliseconds.
    pub open spec fn ticked(self, delta_ms: int) -> Countdown {
        if self.finished {
            self
        } else if self.elapsed_ms + delta_ms >= self.duration_ms {
            Countdown { duration_ms: self.duration_ms, elapsed_ms: self.duration_ms, finished: true }
        } else {
            Countdown {
                duration_ms: self.duration_ms,
                elapsed_ms: (self.elapsed_ms + delta_ms) as u64,
                finished: false,
            }
        }
    }

    pub fn new(duration_ms: u64) -> (r: Self)
        ensures
            r.wf(),
            r.duration_ms == duration_ms,
            r.elapsed_ms == 0,
            !r.finished,
    {
        Countdown { duration_ms, elapsed_ms: 0, finished: false }
    }

    pub fn tick(&mut self, delta_ms: u64)
        requires
            old(self).wf(),
        ensures
            final(self).wf(),
            *final(self) == old(self).ticked(delta_ms as int),
    {
        if self.finished {
            return ;
        }
        let remaining = self.duration_ms - self.elapsed_ms;
        if delta_ms >= remaining {
            self.elapsed_ms = self.duration_ms;
            self.finished = true;
        } else {
            self.elapsed_ms = self.elapsed_ms + delta_ms;
        }
    }

    pub fn is_finished(&self) -> (r: bool)
        ensures
            r == self.finished,
    {
        self.finished
    }
}

/// Elapsed milliseconds that advance only while not paused.
#[derive(PartialEq, Eq, Structural, Clone, Copy, Debug)]
pub struct Stopwatch {
    pub elapsed_ms: u64,
    pub paused: bool,
}

impl Stopwatch {
    /// A running stopwatch at zero.
    pub fn new() -> (r: Self)
        ensures
            r.elapsed_ms == 0,
            !r.paused,
    {
        Stopwatch { elapsed_ms: 0, paused: false }
    }

    /// Adds `delta_ms` unless paused, saturating at the largest value.
    pub fn tick(&mut self, delta_ms: u64)
        ensures
            final(self).paused == old(self).paused,
            old(self).paused ==> final(self).elapsed_ms == old(self).elapsed_ms,
            !old(self).paused ==> final(self).elapsed_ms == (if old(self).elapsed_ms + delta_ms
                > u64::MAX {
                u64::MAX as int
            } else {
                old(self).elapsed_ms + delta_ms
            }),
    {
        if !self.paused {
            self.elapsed_ms = self.elapsed_ms.saturating_add(delta_ms);
        }
    }

    pub fn pause(&mut self)
        ensures
            final(self).paused,
            final(self).elapsed_ms == old(self).elapsed_ms,
    {
        self.paused = true;
    }

    pub fn unpause(&mut self)
        ensures
            !final(self).paused,
            final(self).elapsed_ms == old(self).elapsed_ms,
    {
        self.paused = false;
    }

    /// Sets the elapsed time back to zero, leaving the paused state alone.
    pub fn reset(&mut self)
        ensures
            final(self).elapsed_ms == 0,
            final(self).paused == old(self).paused,
    {
        self.elapsed_ms = 0;
    }

    /// Whole seconds elapsed.
    pub fn elapsed_secs(&self) -> (r: u64)
        ensures
            r == self.elapsed_ms / 1000,
    {
        self.elapsed_ms / 1000
    }
}

} // verus!
