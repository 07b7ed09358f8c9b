//! The whole update flow: check, download, install.
//!
//! The flow decides which stage runs next and which report goes out at
//! each stage boundary; the stages themselves are run by the caller.

use vstd::prelude::*;
use crate::download::{download_run, lemma_download_progress_never_decreases, DownloadEventView};
use crate::error::{described, ErrorKind, UpdateError, UpdateErrorView};
use crate::install::{
    in_install_order,
    install_report,
    install_run,
    lemma_install_reports_follow_state,
    new_installer,
    InstallEventView,
    Platform,
};
use crate::progress::{
    failure_report,
    report,
    reports_view,
    stages_in_order,
    Progress,
    Stage,
    UpdateProgress,
    UpdateProgressView,
};
use crate::release::{VersionInfo, VersionInfoView};

verus! {

/// Where an update flow stands.
#[derive(Clone, Copy, Debug, PartialEq, Eq, Structural)]
pub enum FlowState {
    /// Nothing has been asked yet.
    Idle,
    /// The resolution is under way.
    Checking,
    /// The download is under way.
    Downloading,
    /// The installation is under way.
    Installing,
    /// The flow has ended.
    Finished,
}

/// How the stage that the flow last asked for has ended.
#[derive(Clone, Debug, PartialEq, Eq)]
pub enum FlowEvent {
    /// The caller wants the update.
    Begin,
    /// The resolution gave this.
    Resolved(VersionInfo),
    /// The resolution failed.
    ResolveFailed(UpdateError),
    /// The download left the staged file at this path.
    Downloaded(String),
    /// The download failed.
    DownloadFailed(UpdateError),
    /// The installation failed. A successful one ends the process and is
    /// never heard of.
    InstallFailed(UpdateError),
}

/// The mathematical content of a [`FlowEvent`].
pub enum FlowEventView {
    Begin,
    Resolved(VersionInfoView),
    ResolveFailed(UpdateErrorView),
    Downloaded(Seq<char>),
    DownloadFailed(UpdateErrorView),
    InstallFailed(UpdateErrorView),
}

impl View for FlowEvent {
    type V = FlowEventView;

    open spec fn view(&self) -> FlowEventView {
        match self {
            FlowEvent::Begin => FlowEventView::Begin,
            FlowEvent::Resolved(info) => FlowEventView::Resolved(info@),
            FlowEvent::ResolveFailed(e) => FlowEventView::ResolveFailed(e@),
            FlowEvent::Downloaded(path) => FlowEventView::Downloaded(path@),
            FlowEvent::DownloadFailed(e) => FlowEventView::DownloadFailed(e@),
            FlowEvent::InstallFailed(e) => FlowEventView::InstallFailed(e@),
        }
    }
}

/// The stage that the flow asks for next, or its outcome.
#[derive(Debug, PartialEq, Eq)]
pub enum FlowAction {
    /// Run a resolution; answer with `Resolved` or `ResolveFailed`.
    Resolve,
    /// Download from this address; answer with `Downloaded` or
    /// `DownloadFailed`.
    Download(String),
    /// Install the staged file at this path; answer with `InstallFailed`
    /// if the installation returns.
    Install(String),
    /// Nothing more: this is the outcome, a summary or the failure.
    Finish(Result<String, UpdateError>),
}

/// The mathematical content of a [`FlowAction`].
pub enum FlowActionView {
    Resolve,
    Download(Seq<char>),
    Install(Seq<char>),
    Finish(Result<Seq<char>, UpdateErrorView>),
}

impl View for FlowAction {
    type V = FlowActionView;

    open spec fn view(&self) -> FlowActionView {
        match self {
            FlowAction::Resolve => FlowActionView::Resolve,
            FlowAction::Download(url) => FlowActionView::Download(url@),
            FlowAction::Install(path) => FlowActionView::Install(path@),
            FlowAction::Finish(Ok(s)) => FlowActionView::Finish(Ok(s@)),
            FlowAction::Finish(Err(e)) => FlowActionView::Finish(Err(e@)),
        }
    }
}

/// The reports to send out, then the action to perform.
#[derive(Debug, PartialEq, Eq)]
pub struct FlowStep {
    pub events: Vec<UpdateProgress>,
    pub action: FlowAction,
}

/// The mathematical content of a [`FlowStep`].
pub struct FlowStepView {
    pub events: Seq<UpdateProgressView>,
    pub action: FlowActionView,
}

impl View for FlowStep {
    type V = FlowStepView;

    open spec fn view(&self) -> FlowStepView {
        FlowStepView { events: reports_view(self.events@), action: self.action@ }
    }
}

/// The step that sends out nothing and asks for `action`.
pub open spec fn unreported(action: FlowActionView) -> FlowStepView {
    FlowStepView { events: Seq::<UpdateProgressView>::empty(), action }
}

/// The step that ends the flow because a stage failed with `cause`:
/// `context` names the stage and `headline` is the message of the report.
pub open spec fn stage_failure(
    headline: Seq<char>,
    context: Seq<char>,
    cause: UpdateErrorView,
) -> FlowStepView {
    FlowStepView {
        events: seq![failure_report(headline, context + cause.message)],
        action: FlowActionView::Finish(Err(described(cause.kind, context, cause.message))),
    }
}

/// The error of an event that the flow was not waiting for.
pub open spec fn flow_out_of_turn() -> UpdateErrorView {
    UpdateErrorView { kind: ErrorKind::State, message: "Update driven out of turn"@ }
}

/// The next state of an update flow, and what it sends out and asks for.
pub open spec fn flow_step(state: FlowState, event: FlowEventView) -> (FlowState, FlowStepView) {
    match (state, event) {
        (FlowState::Idle, FlowEventView::Begin) => (
            FlowState::Checking,
            FlowStepView {
                events: seq![report(Stage::Checking, Progress::spec_zero(), "检查更新中..."@)],
                action: FlowActionView::Resolve,
            },
        ),
        (FlowState::Checking, FlowEventView::ResolveFailed(cause)) => (
            FlowState::Finished,
            stage_failure("检查更新失败"@, "检查更新失败: "@, cause),
        ),
        (FlowState::Checking, FlowEventView::Resolved(info)) => {
            if !info.has_update {
                (
                    FlowState::Finished,
                    FlowStepView {
                        events: seq![
                            report(
                                Stage::Completed,
                                Progress::spec_complete(),
                                "当前已是最新版本"@,
                            ),
                        ],
                        action: FlowActionView::Finish(Ok("No update available"@)),
                    },
                )
            } else {
                match info.download_url {
                    Some(url) => (FlowState::Downloading, unreported(FlowActionView::Download(url))),
                    None => (
                        FlowState::Finished,
                        FlowStepView {
                            events: seq![failure_report("获取下载链接失败"@, "未找到下载链接"@)],
                            action: FlowActionView::Finish(
                                Err(
                                    UpdateErrorView {
                                        kind: ErrorKind::MissingAsset,
                                        message: "未找到下载链接"@,
                                    },
                                ),
                            ),
                        },
                    ),
                }
            }
        },
        (FlowState::Downloading, FlowEventView::DownloadFailed(cause)) => (
            FlowState::Finished,
            stage_failure("下载更新失败"@, "下载更新失败: "@, cause),
        ),
        (FlowState::Downloading, FlowEventView::Downloaded(path)) => (
            FlowState::Installing,
            unreported(FlowActionView::Install(path)),
        ),
        (FlowState::Installing, FlowEventView::InstallFailed(cause)) => (
            FlowState::Finished,
            stage_failure("安装更新失败"@, "安装更新失败: "@, cause),
        ),
        _ => (FlowState::Finished, unreported(FlowActionView::Finish(Err(flow_out_of_turn())))),
    }
}

fn no_reports() -> (v: Vec<UpdateProgress>)
    ensures
        reports_view(v@) == Seq::<UpdateProgressView>::empty(),
{
    let v: Vec<UpdateProgress> = Vec::new();
    assert(reports_view(v@) =~= Seq::<UpdateProgressView>::empty());
    v
}

fn one_report(e: UpdateProgress) -> (v: Vec<UpdateProgress>)
    ensures
        reports_view(v@) == seq![e@],
{
    let mut v: Vec<UpdateProgress> = Vec::new();
    v.push(e);
    assert(reports_view(v@) =~= seq![e@]);
    v
}

fn stage_failed(headline: &str, context: &str, cause: &UpdateError) -> (step: FlowStep)
    ensures
        step@ == stage_failure(headline@, context@, cause@),
{
    let error = cause.within(context);
    let report = UpdateProgress::failure(headline, error.message.as_str());
    FlowStep { events: one_report(report), action: FlowAction::Finish(Err(error)) }
}

/// One update flow in progress.
#[derive(Clone, Copy, Debug, PartialEq, Eq, Structural)]
pub struct AutoUpdate {
    pub state: FlowState,
}

impl AutoUpdate {
    /// An update flow that has not begun.
    pub fn new() -> (flow: AutoUpdate)
        ensures
            flow.state == FlowState::Idle,
    {
        AutoUpdate { state: FlowState::Idle }
    }

    /// Takes in how the last stage ended and says what to send out and
    /// which stage to run next.
    ///
    /// `Begin` sends out the report of the stage `Checking` at zero and
    /// asks for a resolution. A resolution without an update ends the
    /// flow with one report of the stage `Completed` at one and the
    /// summary `No update available`; one with an update and a download
    /// address asks for the download, and the staged file it leaves is
    /// then asked to be installed. A failed stage ends the flow: one
    /// report of the stage `Error` goes out, and the outcome is the error
    /// of the stage with the name of the stage put in front. An update
    /// without a download address ends the flow in the same way with an
    /// error of the kind `MissingAsset`. No stage is asked for twice and
    /// none is asked for after the flow has ended. An event that the flow
    /// was not waiting for ends it with a state error and no report.
    pub fn step(&mut self, event: FlowEvent) -> (step: FlowStep)
        ensures
            (final(self).state, step@) == flow_step(old(self).state, event@),
    {
        match (self.state, event) {
            (FlowState::Idle, FlowEvent::Begin) => {
                self.state = FlowState::Checking;
                FlowStep {
                    events: one_report(
                        UpdateProgress::new(Stage::Checking, Progress::zero(), "检查更新中..."),
                    ),
                    action: FlowAction::Resolve,
                }
            },
            (FlowState::Checking, FlowEvent::ResolveFailed(cause)) => {
                self.state = FlowState::Finished;
                stage_failed("检查更新失败", "检查更新失败: ", &cause)
            },
            (FlowState::Checking, FlowEvent::Resolved(info)) => {
                if !info.has_update {
                    self.state = FlowState::Finished;
                    FlowStep {
                        events: one_report(
                            UpdateProgress::new(
                                Stage::Completed,
                                Progress::complete(),
                                "当前已是最新版本",
                            ),
                        ),
                        action: FlowAction::Finish(Ok(String::from_str("No update available"))),
                    }
                } else {
                    match info.download_url {
                        Some(url) => {
                            self.state = FlowState::Downloading;
                            FlowStep { events: no_reports(), action: FlowAction::Download(url) }
                        },
                        None => {
                            self.state = FlowState::Finished;
                            FlowStep {
                                events: one_report(
                                    UpdateProgress::failure("获取下载链接失败", "未找到下载链接"),
                                ),
                                action: FlowAction::Finish(
                                    Err(UpdateError::new(ErrorKind::MissingAsset, "未找到下载链接")),
                                ),
                            }
                        },
                    }
                }
            },
            (FlowState::Downloading, FlowEvent::DownloadFailed(cause)) => {
                self.state = FlowState::Finished;
                stage_failed("下载更新失败", "下载更新失败: ", &cause)
            },
            (FlowState::Downloading, FlowEvent::Downloaded(path)) => {
                self.state = FlowState::Installing;
                FlowStep { events: no_reports(), action: FlowAction::Install(path) }
            },
            (FlowState::Installing, FlowEvent::InstallFailed(cause)) => {
                self.state = FlowState::Finished;
                stage_failed("安装更新失败", "安装更新失败: ", &cause)
            },
            _ => {
                self.state = FlowState::Finished;
                FlowStep {
                    events: no_reports(),
                    action: FlowAction::Finish(
                        Err(UpdateError::new(ErrorKind::State, "Update driven out of turn")),
                    ),
                }
            },
        }
    }
}

/// Everything an update flow has sent out and asked for so far.
pub struct FlowRun {
    pub state: FlowState,
    pub reports: Seq<UpdateProgressView>,
    pub actions: Seq<FlowActionView>,
}

/// An update flow that has not begun.
pub open spec fn fresh_flow() -> FlowRun {
    FlowRun {
        state: FlowState::Idle,
        reports: Seq::<UpdateProgressView>::empty(),
        actions: Seq::<FlowActionView>::empty(),
    }
}

/// The flow that stands at `run` after the further events `events`, one
/// after the other.
pub open spec fn flow_run_from(run: FlowRun, events: Seq<FlowEventView>) -> FlowRun
    decreases events.len(),
{
    if events.len() == 0 {
        run
    } else {
        let before = flow_run_from(run, events.drop_last());
        let (state, step) = flow_step(before.state, events.last());
        FlowRun {
            state,
            reports: before.reports + step.events,
            actions: before.actions.push(step.action),
        }
    }
}

/// A fresh update flow after the events `events`.
pub open spec fn flow_run(events: Seq<FlowEventView>) -> FlowRun {
    flow_run_from(fresh_flow(), events)
}

/// `action` asks for a download or an installation.
pub open spec fn transfers(action: FlowActionView) -> bool {
    action is Download || action is Install
}

/// Running through `first` and then through `then` is running through
/// both in a row.
pub proof fn lemma_flow_run_splits(
    run: FlowRun,
    first: Seq<FlowEventView>,
    then: Seq<FlowEventView>,
)
    ensures
        flow_run_from(run, first + then) == flow_run_from(flow_run_from(run, first), then),
    decreases then.len(),
{
    if then.len() == 0 {
        assert(first + then =~= first);
    } else {
        lemma_flow_run_splits(run, first, then.drop_last());
        assert((first + then).drop_last() =~= first + then.drop_last());
        assert((first + then).last() == then.last());
    }
}

/// A flow that has ended stays ended: whatever comes in next, it sends
/// out no report and asks for no stage, and what it sent out and asked
/// for before stands.
pub proof fn lemma_finished_flow_stays_quiet(run: FlowRun, events: Seq<FlowEventView>)
    requires
        run.state == FlowState::Finished,
    ensures
        ({
            let after = flow_run_from(run, events);
            &&& after.state == FlowState::Finished
            &&& after.reports == run.reports
            &&& after.actions.len() == run.actions.len() + events.len()
            &&& forall|i: int|
                0 <= i < run.actions.len() ==> #[trigger] after.actions[i] == run.actions[i]
            &&& forall|i: int|
                run.actions.len() <= i < after.actions.len() ==> #[trigger] after.actions[i]
                    == FlowActionView::Finish(Err(flow_out_of_turn()))
        }),
    decreases events.len(),
{
    if events.len() > 0 {
        lemma_finished_flow_stays_quiet(run, events.drop_last());
        let before = flow_run_from(run, events.drop_last());
        let after = flow_run_from(run, events);
        assert(after.reports =~= run.reports);
    }
}

/// When the resolution finds no update, the flow sends out exactly two
/// reports, the one of the stage `Checking` at zero and one of the stage
/// `Completed` at one, and it never asks for a download or an
/// installation, whatever comes in afterwards.
pub proof fn lemma_no_update_ends_flow(info: VersionInfoView, later: Seq<FlowEventView>)
    requires
        !info.has_update,
    ensures
        ({
            let run = flow_run(seq![FlowEventView::Begin, FlowEventView::Resolved(info)] + later);
            &&& run.reports == seq![
                report(Stage::Checking, Progress::spec_zero(), "检查更新中..."@),
                report(Stage::Completed, Progress::spec_complete(), "当前已是最新版本"@),
            ]
            &&& run.actions[0] == FlowActionView::Resolve
            &&& run.actions[1] == FlowActionView::Finish(Ok("No update available"@))
            &&& forall|i: int| 0 <= i < run.actions.len() ==> !transfers(#[trigger] run.actions[i])
        }),
{
    let begin = seq![FlowEventView::Begin];
    let both = seq![FlowEventView::Begin, FlowEventView::Resolved(info)];
    assert(both.drop_last() =~= begin);
    assert(begin.drop_last() =~= Seq::<FlowEventView>::empty());
    let r0 = flow_run(Seq::<FlowEventView>::empty());
    let r1 = flow_run(begin);
    let r2 = flow_run(both);
    assert(r0 == fresh_flow());
    assert(r1.state == FlowState::Checking);
    assert(r2.state == FlowState::Finished);
    assert(r2.reports =~= seq![
        report(Stage::Checking, Progress::spec_zero(), "检查更新中..."@),
        report(Stage::Completed, Progress::spec_complete(), "当前已是最新版本"@),
    ]);
    assert(r2.actions =~= seq![
        FlowActionView::Resolve,
        FlowActionView::Finish(Ok("No update available"@)),
    ]);
    lemma_flow_run_splits(fresh_flow(), both, later);
    lemma_finished_flow_stays_quiet(r2, later);
}

/// Whatever comes in, a flow sends out at most two reports of its own:
/// first the one of the stage `Checking`, and then, with its end, one of
/// the stage `Completed` or `Error`. Between the two lie the reports of
/// the download and of the installation, which the flow has asked for by
/// then.
pub proof fn lemma_flow_reports_shape(events: Seq<FlowEventView>)
    ensures
        ({
            let run = flow_run(events);
            &&& run.reports.len() <= 2
            &&& run.state == FlowState::Idle ==> run.reports.len() == 0
            &&& run.state != FlowState::Idle && run.state != FlowState::Finished
                ==> run.reports.len() == 1
            &&& run.reports.len() >= 1 ==> run.reports[0] == report(
                Stage::Checking,
                Progress::spec_zero(),
                "检查更新中..."@,
            )
            &&& run.reports.len() == 2 ==> run.state == FlowState::Finished && (
            run.reports[1].stage == Stage::Completed || run.reports[1].stage == Stage::Error)
            &&& stages_in_order(run.reports)
        }),
    decreases events.len(),
{
    if events.len() > 0 {
        lemma_flow_reports_shape(events.drop_last());
        let before = flow_run(events.drop_last());
        let (state, step) = flow_step(before.state, events.last());
        assert(flow_run(events).reports =~= before.reports + step.events);
    }
}

/// What a listener sees of one flow: the report of the check, then the
/// reports of the download of `url`, then those of the installation of
/// `staged`, and last, where the flow failed, the report of the failure.
pub open spec fn reports_of_flow(
    url: Seq<char>,
    download_events: Seq<DownloadEventView>,
    platform: Platform,
    staged: Seq<char>,
    install_events: Seq<InstallEventView>,
    failure: Option<UpdateProgressView>,
) -> Seq<UpdateProgressView> {
    seq![report(Stage::Checking, Progress::spec_zero(), "检查更新中..."@)] + download_run(
        url,
        download_events,
    ).reports + install_run(new_installer(platform, staged), install_events).reports + match failure {
        Some(r) => seq![r],
        None => Seq::<UpdateProgressView>::empty(),
    }
}

/// Whatever happens during the download and the installation, the
/// reports of one flow never step back from a later stage to an earlier
/// one, and a report of the stage `Error` is the last one.
pub proof fn lemma_flow_stages_in_order(
    url: Seq<char>,
    download_events: Seq<DownloadEventView>,
    platform: Platform,
    staged: Seq<char>,
    install_events: Seq<InstallEventView>,
    failure: Option<UpdateProgressView>,
)
    requires
        failure matches Some(r) ==> r.stage == Stage::Error,
    ensures
        stages_in_order(
            reports_of_flow(url, download_events, platform, staged, install_events, failure),
        ),
{
    let first = seq![report(Stage::Checking, Progress::spec_zero(), "检查更新中..."@)];
    let down = download_run(url, download_events).reports;
    let inst = install_run(new_installer(platform, staged), install_events).reports;
    let tail = match failure {
        Some(r) => seq![r],
        None => Seq::<UpdateProgressView>::empty(),
    };
    let all = reports_of_flow(url, download_events, platform, staged, install_events, failure);
    lemma_download_progress_never_decreases(url, download_events);
    lemma_install_reports_follow_state(platform, staged, install_events);
    assert(in_install_order(inst));
    assert forall|i: int| 0 <= i < all.len() implies {
        let r = (#[trigger] all[i]).stage.rank();
        &&& i < 1 ==> r == 0
        &&& 1 <= i < 1 + down.len() ==> r == 1
        &&& 1 + down.len() <= i < 1 + down.len() + inst.len() ==> 2 <= r <= 3 && (r == 3 ==> i
            == 1 + down.len() + 4)
        &&& 1 + down.len() + inst.len() <= i ==> r == 4
    } by {
        if i < 1 {
            assert(all[i] == first[i]);
        } else if i < 1 + down.len() {
            assert(all[i] == down[i - 1]);
        } else if i < 1 + down.len() + inst.len() {
            let k = i - 1 - down.len();
            assert(all[i] == inst[k]);
            assert(inst[k] == install_report(k as u64));
        } else {
            assert(all[i] == tail[i - 1 - down.len() - inst.len()]);
        }
    }
}

} // verus!
