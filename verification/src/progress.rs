//! Progress events of an update flow.

use vstd::prelude::*;
use crate::text::{decimal, decimal_string};

verus! {

/// The phase of the update flow that an event reports on.
#[derive(Clone, Copy, Debug, PartialEq, Eq, Structural)]
pub enum Stage {
    Checking,
    Downloading,
    Installing,
    Completed,
    Error,
}

impl Stage {
    /// The place of the stage in the order of a flow.
    pub open spec fn rank(self) -> nat {
        match self {
            Stage::Checking => 0,
            Stage::Downloading => 1,
            Stage::Installing => 2,
            Stage::Completed => 3,
            Stage::Error => 4,
        }
    }

    /// The name of the stage as listeners know it.
    pub open spec fn spec_name(self) -> Seq<char> {
        match self {
            Stage::Checking => "checking"@,
            Stage::Downloading => "downloading"@,
            Stage::Installing => "installing"@,
            Stage::Completed => "completed"@,
            Stage::Error => "error"@,
        }
    }

    /// The name of the stage as listeners know it.
    pub fn name(&self) -> (s: &'static str)
        ensures
            s@ == self.spec_name(),
    {
        match self {
            Stage::Checking => "checking",
            Stage::Downloading => "downloading",
            Stage::Installing => "installing",
            Stage::Completed => "completed",
            Stage::Error => "error",
        }
    }
}

/// How far a stage has come, as the exact fraction `done / total`.
#[derive(Clone, Copy, Debug, PartialEq, Eq, Structural)]
pub struct Progress {
    pub done: u64,
    pub total: u64,
}

impl Progress {
    /// The fraction is defined and lies between zero and one.
    pub open spec fn wf(self) -> bool {
        0 < self.total && self.done <= self.total
    }

    /// This fraction is no larger than `other`.
    pub open spec fn at_most(self, other: Progress) -> bool {
        self.done * other.total <= other.done * self.total
    }

    /// Nothing done.
    pub open spec fn spec_zero() -> Progress {
        Progress { done: 0, total: 1 }
    }

    /// Everything done.
    pub open spec fn spec_complete() -> Progress {
        Progress { done: 1, total: 1 }
    }

    /// `n` quarters.
    pub open spec fn spec_quarters(n: u64) -> Progress {
        Progress { done: n, total: 4 }
    }

    /// `done` out of `total`: zero when `total` is zero, and one when
    /// `done` exceeds `total`.
    pub open spec fn spec_ratio(done: u64, total: u64) -> Progress {
        if total == 0 {
            Progress::spec_zero()
        } else if done > total {
            Progress { done: total, total }
        } else {
            Progress { done, total }
        }
    }

    /// The fraction in tenths of a percent, rounded to the nearest one
    /// (a half rounds up).
    pub open spec fn spec_permille(self) -> nat {
        ((2000 * self.done + self.total) / (2 * self.total)) as nat
    }

    /// The fraction as a percentage with one decimal, such as `12.5`.
    pub open spec fn spec_percent_text(self) -> Seq<char> {
        decimal(self.spec_permille() / 10) + seq!['.'] + decimal(self.spec_permille() % 10)
    }

    /// Nothing done.
    pub fn zero() -> (p: Progress)
        ensures
            p == Progress::spec_zero(),
            p.wf(),
    {
        Progress { done: 0, total: 1 }
    }

    /// Everything done.
    pub fn complete() -> (p: Progress)
        ensures
            p == Progress::spec_complete(),
            p.wf(),
    {
        Progress { done: 1, total: 1 }
    }

    /// `n` quarters.
    pub fn quarters(n: u64) -> (p: Progress)
        requires
            n <= 4,
        ensures
            p == Progress::spec_quarters(n),
            p.wf(),
    {
        Progress { done: n, total: 4 }
    }

    /// `done` out of `total`: zero when `total` is zero, and one when
    /// `done` exceeds `total`.
    pub fn ratio(done: u64, total: u64) -> (p: Progress)
        ensures
            p == Progress::spec_ratio(done, total),
            p.wf(),
    {
        if total == 0 {
            Progress { done: 0, total: 1 }
        } else if done > total {
            Progress { done: total, total }
        } else {
            Progress { done, total }
        }
    }

    /// Whether everything is done.
    pub fn is_complete(&self) -> (b: bool)
        ensures
            b == (self.done == self.total),
    {
        self.done == self.total
    }

    /// The fraction in tenths of a percent, rounded to the nearest one
    /// (a half rounds up).
    pub fn permille(&self) -> (n: u64)
        requires
            self.wf(),
        ensures
            n == self.spec_permille(),
            n <= 1000,
    {
        let num: u128 = 2000u128 * (self.done as u128) + (self.total as u128);
        let den: u128 = 2u128 * (self.total as u128);
        let q: u128 = num / den;
        assert(q <= 1000) by (nonlinear_arith)
            requires
                q == num / den,
                den > 0,
                num <= 1000 * den + den / 2,
        ;
        q as u64
    }

    /// The fraction as a percentage with one decimal, such as `12.5`.
    pub fn percent_text(&self) -> (s: String)
        requires
            self.wf(),
        ensures
            s@ == self.spec_percent_text(),
    {
        let tenths: u64 = self.permille();
        let s = decimal_string(tenths / 10).concat(".");
        let t = decimal_string(tenths % 10);
        proof {
            reveal_strlit(".");
            assert("."@ =~= seq!['.']);
        }
        s.concat(t.as_str())
    }
}

/// The fraction `done / total` does not decrease as `done` grows.
pub proof fn lemma_ratio_monotonic(done: u64, more: u64, total: u64)
    requires
        done <= more,
    ensures
        Progress::spec_ratio(done, total).at_most(Progress::spec_ratio(more, total)),
        Progress::spec_zero().at_most(Progress::spec_ratio(done, total)),
        Progress::spec_ratio(more, total).at_most(Progress::spec_complete()),
{
    let a = Progress::spec_ratio(done, total);
    let b = Progress::spec_ratio(more, total);
    assert(a.total == b.total);
    assert(a.done <= b.done);
    assert(a.done * b.total <= b.done * a.total) by (nonlinear_arith)
        requires
            a.done <= b.done,
            a.total == b.total,
    ;
    assert(b.done * 1 <= 1 * b.total);
}

/// Among fractions that are defined, "no larger than" carries over.
pub proof fn lemma_at_most_transitive(a: Progress, b: Progress, c: Progress)
    requires
        a.wf(),
        b.wf(),
        c.wf(),
        a.at_most(b),
        b.at_most(c),
    ensures
        a.at_most(c),
{
    assert(a.done * c.total <= c.done * a.total) by (nonlinear_arith)
        requires
            a.done * b.total <= b.done * a.total,
            b.done * c.total <= c.done * b.total,
            0 < a.total,
            0 < b.total,
            0 < c.total,
            0 <= a.done,
            0 <= b.done,
            0 <= c.done,
    {
        assert(a.done * b.total * c.total <= b.done * a.total * c.total);
        assert(b.done * c.total * a.total <= c.done * b.total * a.total);
        assert((a.done * c.total) * b.total <= (c.done * a.total) * b.total);
    }
}

/// One status report of an update flow.
#[derive(Clone, Debug, PartialEq, Eq)]
pub struct UpdateProgress {
    pub stage: Stage,
    pub progress: Progress,
    pub message: String,
    pub error: Option<String>,
}

/// The mathematical content of an [`UpdateProgress`].
pub struct UpdateProgressView {
    pub stage: Stage,
    pub progress: Progress,
    pub message: Seq<char>,
    pub error: Option<Seq<char>>,
}

impl View for UpdateProgress {
    type V = UpdateProgressView;

    open spec fn view(&self) -> UpdateProgressView {
        UpdateProgressView {
            stage: self.stage,
            progress: self.progress,
            message: self.message@,
            error: match self.error {
                Some(e) => Some(e@),
                None => None,
            },
        }
    }
}

/// The report that `stage` stands at `progress`.
pub open spec fn report(stage: Stage, progress: Progress, message: Seq<char>) -> UpdateProgressView {
    UpdateProgressView { stage, progress, message, error: None }
}

/// The report that the flow has failed.
pub open spec fn failure_report(message: Seq<char>, error: Seq<char>) -> UpdateProgressView {
    UpdateProgressView {
        stage: Stage::Error,
        progress: Progress::spec_zero(),
        message,
        error: Some(error),
    }
}

/// In the order in which they were sent out, no report belongs to an
/// earlier stage than a report before it.
pub open spec fn stages_in_order(reports: Seq<UpdateProgressView>) -> bool {
    forall|i: int, j: int|
        0 <= i <= j < reports.len() ==> (#[trigger] reports[i]).stage.rank() <= (
        #[trigger] reports[j]).stage.rank()
}

/// The views of a list of reports.
pub open spec fn reports_view(events: Seq<UpdateProgress>) -> Seq<UpdateProgressView> {
    events.map_values(|e: UpdateProgress| e@)
}

impl UpdateProgress {
    /// The report that `stage` stands at `progress`.
    pub fn new(stage: Stage, progress: Progress, message: &str) -> (e: UpdateProgress)
        ensures
            e@ == report(stage, progress, message@),
    {
        UpdateProgress { stage, progress, message: String::from_str(message), error: None }
    }

    /// The report that the flow has failed: `message` says where, `error`
    /// says why.
    pub fn failure(message: &str, error: &str) -> (e: UpdateProgress)
        ensures
            e@ == failure_report(message@, error@),
    {
        UpdateProgress {
            stage: Stage::Error,
            progress: Progress::zero(),
            message: String::from_str(message),
            error: Some(String::from_str(error)),
        }
    }
}

} // verus!
