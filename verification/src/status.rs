//! Completion status of a frame and the time the compositor stamps on it.

use vstd::prelude::*;

verus! {

/// Capture time as the compositor reports it.
#[derive(Clone, Copy, Debug, PartialEq, Eq, Structural)]
pub struct Timestamp {
    pub seconds: u64,
    pub nanoseconds: u32,
}

impl Timestamp {
    /// Joins the two 32-bit halves of the seconds, as they travel on the wire,
    /// with the nanoseconds.
    pub fn from_parts(seconds_high: u32, seconds_low: u32, nanoseconds: u32) -> (t: Timestamp)
        ensures
            t.seconds == seconds_high * 0x1_0000_0000 + seconds_low,
            t.nanoseconds == nanoseconds,
    {
        let high: u64 = seconds_high as u64;
        let low: u64 = seconds_low as u64;
        Timestamp { seconds: high * 0x1_0000_0000 + low, nanoseconds }
    }

    /// Whether `self` is no later than `other`.
    pub open spec fn spec_precedes(self, other: Timestamp) -> bool {
        self.seconds < other.seconds || (self.seconds == other.seconds && self.nanoseconds
            <= other.nanoseconds)
    }

    /// Whether `self` is no later than `other`.
    #[verifier::when_used_as_spec(spec_precedes)]
    pub fn precedes(self, other: Timestamp) -> (r: bool)
        ensures
            r == self.spec_precedes(other),
    {
        self.seconds < other.seconds || (self.seconds == other.seconds && self.nanoseconds
            <= other.nanoseconds)
    }
}

/// Where a frame stands. `Ready` and `Failed` are terminal.
#[derive(Clone, Copy, Debug, PartialEq, Eq, Structural)]
pub enum CaptureStatus {
    /// The copy has not completed.
    NotReady,
    /// The buffer holds the frame, captured at the given time.
    Ready(Timestamp),
    /// The compositor gave up; the buffer holds nothing of use.
    Failed,
}

impl CaptureStatus {
    /// Whether the status can no longer change.
    pub open spec fn spec_is_terminal(self) -> bool {
        self != CaptureStatus::NotReady
    }

    /// Whether the status can no longer change.
    #[verifier::when_used_as_spec(spec_is_terminal)]
    pub fn is_terminal(self) -> (r: bool)
        ensures
            r == self.spec_is_terminal(),
    {
        match self {
            CaptureStatus::NotReady => false,
            _ => true,
        }
    }

    /// The status of a frame that stood at `self` when `reported` arrived: the
    /// report counts only while the frame is not ready.
    pub open spec fn spec_advance(self, reported: CaptureStatus) -> CaptureStatus {
        if self.spec_is_terminal() {
            self
        } else {
            reported
        }
    }

    /// The status of a frame that stood at `self` when `reported` arrived.
    #[verifier::when_used_as_spec(spec_advance)]
    pub fn advance(self, reported: CaptureStatus) -> (next: CaptureStatus)
        ensures
            next == self.spec_advance(reported),
    {
        if self.is_terminal() {
            self
        } else {
            reported
        }
    }

    /// The status after a whole run of reports, applied in order.
    pub open spec fn advance_all(self, reports: Seq<CaptureStatus>) -> CaptureStatus
        decreases reports.len(),
    {
        if reports.len() == 0 {
            self
        } else {
            self.spec_advance(reports[0]).advance_all(reports.drop_first())
        }
    }

    /// A terminal status survives every later report.
    pub proof fn terminal_is_final(self, reports: Seq<CaptureStatus>)
        requires
            self.spec_is_terminal(),
        ensures
            self.advance_all(reports) == self,
        decreases reports.len(),
    {
        if reports.len() > 0 {
            self.terminal_is_final(reports.drop_first());
        }
    }

    /// Once a run of reports has led to a terminal status, reports that follow
    /// change nothing.
    pub proof fn reports_after_terminal_are_ignored(
        self,
        reports: Seq<CaptureStatus>,
        later: Seq<CaptureStatus>,
    )
        requires
            self.advance_all(reports).spec_is_terminal(),
        ensures
            self.advance_all(reports + later) == self.advance_all(reports),
        decreases reports.len(),
    {
        if reports.len() == 0 {
            assert(reports + later =~= later);
            self.terminal_is_final(later);
        } else {
            assert((reports + later).drop_first() =~= reports.drop_first() + later);
            self.spec_advance(reports[0]).reports_after_terminal_are_ignored(
                reports.drop_first(),
                later,
            );
        }
    }
}

} // verus!
