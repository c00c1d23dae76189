//! Progress accounting of a scan and the periodic status figures.

use vstd::prelude::*;

verus! {

/// How one probe ended.
#[derive(Clone, Copy, Debug, PartialEq, Eq, Structural)]
pub enum ProbeOutcome {
    Matched,
    NotMatched,
    /// A transport or recording error ended the probe.
    Failed,
}

/// Counts of finished probes out of `total`. Only `record` advances them.
pub struct Progress {
    pub total: u64,
    pub completed: u64,
    pub matched: u64,
    pub failed: u64,
}

/// The figures of one status line.
#[derive(Clone, Copy, Debug, PartialEq, Eq, Structural)]
pub struct StatusReport {
    /// Percent complete: `completed / total * 100` in integer arithmetic,
    /// so 0 until every probe has finished; 100 for an empty scan.
    pub percent: u64,
    /// Probes completed.
    pub sent: u64,
    /// Probes completed per elapsed second, rounded down.
    pub average: u64,
    /// Probes that matched.
    pub found: u64,
    /// Probes that failed.
    pub failed: u64,
}

/// The completion percentage; an empty scan counts as complete.
pub open spec fn percent_spec(completed: u64, total: u64) -> int {
    if total == 0 {
        100
    } else {
        (completed / total) * 100
    }
}

impl Progress {
    /// The counters never pass one another or the number of candidates.
    pub open spec fn wf(&self) -> bool {
        self.matched + self.failed <= self.completed <= self.total
    }

    /// No probe finished yet out of `total`.
    pub fn new(total: u64) -> (r: Progress)
        ensures
            r.wf(),
            r.total == total,
            r.completed == 0,
            r.matched == 0,
            r.failed == 0,
    {
        Progress { total, completed: 0, matched: 0, failed: 0 }
    }

    /// Counts one finished probe: completed always, matched or failed by its
    /// outcome, each exactly once.
    pub fn record(&mut self, outcome: ProbeOutcome)
        requires
            old(self).wf(),
            old(self).completed < old(self).total,
        ensures
            final(self).wf(),
            final(self).total == old(self).total,
            final(self).completed == old(self).completed + 1,
            final(self).matched == old(self).matched + if outcome == ProbeOutcome::Matched {
                1int
            } else {
                0int
            },
            final(self).failed == old(self).failed + if outcome == ProbeOutcome::Failed {
                1int
            } else {
                0int
            },
    {
        self.completed = self.completed + 1;
        match outcome {
            ProbeOutcome::Matched => {
                self.matched = self.matched + 1;
            },
            ProbeOutcome::Failed => {
                self.failed = self.failed + 1;
            },
            ProbeOutcome::NotMatched => {},
        }
    }

    /// Every probe has finished.
    pub fn is_done(&self) -> (r: bool)
        ensures
            r == (self.completed == self.total),
    {
        self.completed == self.total
    }

    /// The completion percentage, without dividing by zero on an empty scan.
    pub fn percent(&self) -> (r: u64)
        requires
            self.wf(),
        ensures
            r == percent_spec(self.completed, self.total),
            r <= 100,
    {
        if self.total == 0 {
            100
        } else {
            let whole: u64 = self.completed / self.total;
            assert(whole <= 1) by (nonlinear_arith)
                requires
                    whole == self.completed / self.total,
                    self.completed <= self.total,
                    self.total > 0,
            ;
            whole * 100
        }
    }
}

/// In every state that `new` and `record` reach, the matched count stays
/// within the completed count, and that within the number of candidates.
pub proof fn progress_bounds(p: Progress)
    requires
        p.wf(),
    ensures
        0 <= p.matched <= p.completed <= p.total,
        0 <= p.failed <= p.completed,
{
}

/// Seconds of a running scan, for the status line of each second.
pub struct Reporter {
    pub elapsed_secs: u64,
}

impl Reporter {
    /// Before the first second has passed.
    pub fn new() -> (r: Reporter)
        ensures
            r.elapsed_secs == 0,
    {
        Reporter { elapsed_secs: 0 }
    }

    /// The status one second after the previous one (or after the start).
    pub fn tick(&mut self, p: &Progress) -> (r: StatusReport)
        requires
            p.wf(),
            old(self).elapsed_secs < u64::MAX,
        ensures
            final(self).elapsed_secs == old(self).elapsed_secs + 1,
            r.percent == percent_spec(p.completed, p.total),
            r.sent == p.completed,
            r.average == p.completed / final(self).elapsed_secs,
            r.found == p.matched,
            r.failed == p.failed,
    {
        self.elapsed_secs = self.elapsed_secs + 1;
        StatusReport {
            percent: p.percent(),
            sent: p.completed,
            average: p.completed / self.elapsed_secs,
            found: p.matched,
            failed: p.failed,
        }
    }
}

} // verus!
