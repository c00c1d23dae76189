//! Pacing of probe launches: one candidate at a time, in order, with a pause
//! between two launches.

use vstd::prelude::*;

verus! {

/// What the launching flow does next.
#[derive(Clone, Copy, Debug, PartialEq, Eq, Structural)]
pub enum LaunchStep {
    /// Start the probe of the candidate at this index.
    Launch(usize),
    /// Wait this many milliseconds.
    Pause(u64),
    /// Every candidate is launched: wait for the probes to finish.
    Drain,
}

/// The launching flow over `total` candidates with `delay_ms` between launches.
pub struct Launcher {
    pub total: usize,
    pub delay_ms: u64,
    /// Index of the next candidate to launch.
    pub next: usize,
    /// A pause is owed before the next launch.
    pub pause_due: bool,
    /// Pauses issued so far.
    pub pauses: Ghost<nat>,
}

impl Launcher {
    /// Pauses come only between two launches: one after every launch but
    /// the last.
    pub open spec fn wf(&self) -> bool {
        &&& self.next <= self.total
        &&& self.pause_due ==> 0 < self.next < self.total
        &&& self.pauses@ == if self.next == 0 {
            0
        } else if self.pause_due || self.next == self.total {
            (self.next - 1) as nat
        } else {
            self.next as nat
        }
    }

    /// Milliseconds of pauses issued so far.
    pub open spec fn paused_ms(&self) -> int {
        self.pauses@ * self.delay_ms
    }

    /// Nothing launched yet.
    pub fn new(total: usize, delay_ms: u64) -> (r: Launcher)
        ensures
            r.wf(),
            r.total == total,
            r.delay_ms == delay_ms,
            r.next == 0,
            !r.pause_due,
            r.pauses@ == 0,
    {
        Launcher { total, delay_ms, next: 0, pause_due: false, pauses: Ghost(0) }
    }

    /// The next step: a pause if one is owed, else the next launch, else drain.
    pub fn next_step(&mut self) -> (r: LaunchStep)
        requires
            old(self).wf(),
        ensures
            final(self).wf(),
            final(self).total == old(self).total,
            final(self).delay_ms == old(self).delay_ms,
            old(self).pause_due ==> r == LaunchStep::Pause(old(self).delay_ms) && final(self).next
                == old(self).next && !final(self).pause_due && final(self).pauses@ == old(
                self,
            ).pauses@ + 1,
            !old(self).pause_due && old(self).next < old(self).total ==> r == LaunchStep::Launch(
                old(self).next,
            ) && final(self).next == old(self).next + 1 && final(self).pauses@ == old(
                self,
            ).pauses@,
            !old(self).pause_due && old(self).next == old(self).total ==> r == LaunchStep::Drain
                && *final(self) == *old(self),
            r matches LaunchStep::Launch(i) ==> old(self).paused_ms() == i * old(self).delay_ms,
    {
        if self.pause_due {
            self.pause_due = false;
            self.pauses = Ghost(self.pauses@ + 1);
            LaunchStep::Pause(self.delay_ms)
        } else if self.next < self.total {
            let i = self.next;
            self.next = self.next + 1;
            self.pause_due = self.next < self.total;
            LaunchStep::Launch(i)
        } else {
            LaunchStep::Drain
        }
    }

    /// Every candidate is launched.
    pub fn is_drained(&self) -> (r: bool)
        ensures
            r == (self.next == self.total && !self.pause_due),
    {
        self.next == self.total && !self.pause_due
    }
}

/// Once all `total` candidates are launched, the pauses issued between the
/// launches add up to `(total - 1) * delay_ms`, so the launch phase lasts at
/// least that long.
pub proof fn launch_phase_delay(l: Launcher)
    requires
        l.wf(),
        l.total > 0,
        l.next == l.total,
    ensures
        l.paused_ms() == (l.total - 1) * l.delay_ms,
{
}

} // verus!
