//! Streaming a release to a staging file, with progress reports.

use vstd::prelude::*;
use crate::error::{described, ErrorKind, UpdateError, UpdateErrorView};
use crate::progress::{
    lemma_at_most_transitive,
    lemma_ratio_monotonic,
    report,
    reports_view,
    stages_in_order,
    Progress,
    Stage,
    UpdateProgress,
    UpdateProgressView,
};
use crate::release::{is_success, status_is_success, USER_AGENT};
use crate::text::join3;

verus! {

/// A progress report is due each time the count of received bytes
/// reaches or passes a multiple of this many bytes.
pub const REPORT_EVERY: u64 = 524288;

/// What is put behind the path of the executable to name the staging
/// file.
pub const STAGING_SUFFIX: &'static str = ".new";

/// The path of the staging file of the executable at `executable`.
pub open spec fn staging_path(executable: Seq<char>) -> Seq<char> {
    executable + STAGING_SUFFIX@
}

/// `a + b`, held at the largest `u64` where the sum would pass it.
pub open spec fn capped_sum(a: u64, b: u64) -> u64 {
    if a + b > u64::MAX {
        u64::MAX
    } else {
        (a + b) as u64
    }
}

/// Going from `before` to `after` received bytes reaches or passes a
/// multiple of [`REPORT_EVERY`].
pub open spec fn crosses_boundary(before: u64, after: u64) -> bool {
    before / REPORT_EVERY < after / REPORT_EVERY
}

/// The report that `received` bytes of `total` have arrived.
pub open spec fn transfer_report(received: u64, total: u64) -> UpdateProgressView {
    let progress = Progress::spec_ratio(received, total);
    report(
        Stage::Downloading,
        progress,
        "正在下载... "@ + progress.spec_percent_text() + "%"@,
    )
}

/// Where a download stands.
#[derive(Clone, Copy, Debug, PartialEq, Eq, Structural)]
pub enum DownloadState {
    /// Nothing has been asked yet.
    Idle,
    /// The request is out; its answer is awaited.
    Requesting,
    /// The path of the running executable is awaited.
    Locating,
    /// The staging file is being created.
    Creating,
    /// Chunks are being read and stored.
    Streaming,
    /// All chunks are stored; the file is being flushed.
    Flushing,
    /// The download has ended.
    Finished,
}

/// What happened outside since the download last asked for something.
#[derive(Clone, Debug, PartialEq, Eq)]
pub enum DownloadEvent {
    /// The caller wants the download.
    Begin,
    /// The request could not be sent, or no response came back.
    RequestFailed(String),
    /// A response came back; `status_line` is how its status reads and
    /// `content_length` the length it announces, if any.
    Responded { status: u16, status_line: String, content_length: Option<u64> },
    /// The path of the running executable could not be found.
    ExecutableUnknown(String),
    /// The running executable is at this path.
    ExecutableAt(String),
    /// The staging file could not be created.
    CreateFailed(String),
    /// The staging file exists and is empty.
    Created,
    /// The next chunk could not be read.
    ReadFailed(String),
    /// The next chunk was read and could not be written.
    WriteFailed(String),
    /// The next chunk, of this many bytes, was read and appended.
    Stored(u64),
    /// The stream has no more chunks.
    EndOfStream,
    /// The staging file could not be flushed.
    FlushFailed(String),
    /// The staging file is flushed.
    Flushed,
}

/// The mathematical content of a [`DownloadEvent`].
pub enum DownloadEventView {
    Begin,
    RequestFailed(Seq<char>),
    Responded { status: u16, status_line: Seq<char>, content_length: Option<u64> },
    ExecutableUnknown(Seq<char>),
    ExecutableAt(Seq<char>),
    CreateFailed(Seq<char>),
    Created,
    ReadFailed(Seq<char>),
    WriteFailed(Seq<char>),
    Stored(u64),
    EndOfStream,
    FlushFailed(Seq<char>),
    Flushed,
}

impl View for DownloadEvent {
    type V = DownloadEventView;

    open spec fn view(&self) -> DownloadEventView {
        match self {
            DownloadEvent::Begin => DownloadEventView::Begin,
            DownloadEvent::RequestFailed(r) => DownloadEventView::RequestFailed(r@),
            DownloadEvent::Responded {
                status,
                status_line,
                content_length,
            } => DownloadEventView::Responded {
                status: *status,
                status_line: status_line@,
                content_length: *content_length,
            },
            DownloadEvent::ExecutableUnknown(r) => DownloadEventView::ExecutableUnknown(r@),
            DownloadEvent::ExecutableAt(p) => DownloadEventView::ExecutableAt(p@),
            DownloadEvent::CreateFailed(r) => DownloadEventView::CreateFailed(r@),
            DownloadEvent::Created => DownloadEventView::Created,
            DownloadEvent::ReadFailed(r) => DownloadEventView::ReadFailed(r@),
            DownloadEvent::WriteFailed(r) => DownloadEventView::WriteFailed(r@),
            DownloadEvent::Stored(n) => DownloadEventView::Stored(*n),
            DownloadEvent::EndOfStream => DownloadEventView::EndOfStream,
            DownloadEvent::FlushFailed(r) => DownloadEventView::FlushFailed(r@),
            DownloadEvent::Flushed => DownloadEventView::Flushed,
        }
    }
}

/// What the download asks to be done next.
#[derive(Debug, PartialEq, Eq)]
pub enum DownloadAction {
    /// Send a GET request to `url` with the `User-Agent` header
    /// `user_agent`, keep the response as a stream, and answer with
    /// `RequestFailed` or `Responded`.
    Request { url: String, user_agent: String },
    /// Find the path of the running executable, and answer with
    /// `ExecutableUnknown` or `ExecutableAt`.
    LocateExecutable,
    /// Create the file at this path, empty, replacing what is there, and
    /// answer with `CreateFailed` or `Created`.
    CreateFile(String),
    /// Read the next chunk of the response and append it to the file,
    /// and answer with `ReadFailed`, `WriteFailed`, `Stored` or
    /// `EndOfStream`.
    StoreNextChunk,
    /// Flush the file, and answer with `FlushFailed` or `Flushed`.
    Flush,
    /// Nothing more: this is the outcome, the path of the staging file
    /// or the failure.
    Finish(Result<String, UpdateError>),
}

/// The mathematical content of a [`DownloadAction`].
pub enum DownloadActionView {
    Request { url: Seq<char>, user_agent: Seq<char> },
    LocateExecutable,
    CreateFile(Seq<char>),
    StoreNextChunk,
    Flush,
    Finish(Result<Seq<char>, UpdateErrorView>),
}

impl View for DownloadAction {
    type V = DownloadActionView;

    open spec fn view(&self) -> DownloadActionView {
        match self {
            DownloadAction::Request { url, user_agent } => DownloadActionView::Request {
                url: url@,
                user_agent: user_agent@,
            },
            DownloadAction::LocateExecutable => DownloadActionView::LocateExecutable,
            DownloadAction::CreateFile(p) => DownloadActionView::CreateFile(p@),
            DownloadAction::StoreNextChunk => DownloadActionView::StoreNextChunk,
            DownloadAction::Flush => DownloadActionView::Flush,
            DownloadAction::Finish(Ok(p)) => DownloadActionView::Finish(Ok(p@)),
            DownloadAction::Finish(Err(e)) => DownloadActionView::Finish(Err(e@)),
        }
    }
}

/// The reports to send out, then the action to perform.
#[derive(Debug, PartialEq, Eq)]
pub struct DownloadStep {
    pub events: Vec<UpdateProgress>,
    pub action: DownloadAction,
}

/// The mathematical content of a [`DownloadStep`].
pub struct DownloadStepView {
    pub events: Seq<UpdateProgressView>,
    pub action: DownloadActionView,
}

impl View for DownloadStep {
    type V = DownloadStepView;

    open spec fn view(&self) -> DownloadStepView {
        DownloadStepView { events: reports_view(self.events@), action: self.action@ }
    }
}

/// One download in progress.
#[derive(Clone, Debug, PartialEq, Eq)]
pub struct Download {
    /// Where the release is fetched from.
    pub url: String,
    pub state: DownloadState,
    /// The path of the staging file, once it is known.
    pub staged: String,
    /// The length that the response announced, zero if it announced
    /// none.
    pub total: u64,
    /// The number of bytes stored so far.
    pub received: u64,
}

/// The mathematical content of a [`Download`].
pub struct DownloadView {
    pub url: Seq<char>,
    pub state: DownloadState,
    pub staged: Seq<char>,
    pub total: u64,
    pub received: u64,
}

impl View for Download {
    type V = DownloadView;

    open spec fn view(&self) -> DownloadView {
        DownloadView {
            url: self.url@,
            state: self.state,
            staged: self.staged@,
            total: self.total,
            received: self.received,
        }
    }
}

/// A download of `url` that has not begun.
pub open spec fn new_download(url: Seq<char>) -> DownloadView {
    DownloadView {
        url,
        state: DownloadState::Idle,
        staged: Seq::<char>::empty(),
        total: 0,
        received: 0,
    }
}

/// The step that sends out nothing and asks for `action`.
pub open spec fn quiet(action: DownloadActionView) -> DownloadStepView {
    DownloadStepView { events: Seq::<UpdateProgressView>::empty(), action }
}

/// The step that ends the download with a failure.
pub open spec fn download_failure(kind: ErrorKind, context: Seq<char>, reason: Seq<char>) -> DownloadStepView {
    quiet(DownloadActionView::Finish(Err(described(kind, context, reason))))
}

/// The download, ended.
pub open spec fn ended(d: DownloadView) -> DownloadView {
    DownloadView { state: DownloadState::Finished, ..d }
}

/// The download in another state.
pub open spec fn moved(d: DownloadView, state: DownloadState) -> DownloadView {
    DownloadView { state, ..d }
}

/// The error of an event that the download was not waiting for.
pub open spec fn download_out_of_turn() -> UpdateErrorView {
    UpdateErrorView { kind: ErrorKind::State, message: "Download driven out of turn"@ }
}

/// The next state of a download, and what it sends out and asks for.
pub open spec fn download_step(d: DownloadView, event: DownloadEventView) -> (
    DownloadView,
    DownloadStepView,
) {
    match (d.state, event) {
        (DownloadState::Idle, DownloadEventView::Begin) => (
            moved(d, DownloadState::Requesting),
            DownloadStepView {
                events: seq![
                    report(Stage::Downloading, Progress::spec_zero(), "开始下载更新文件..."@),
                ],
                action: DownloadActionView::Request { url: d.url, user_agent: USER_AGENT@ },
            },
        ),
        (DownloadState::Requesting, DownloadEventView::RequestFailed(reason)) => (
            ended(d),
            download_failure(ErrorKind::Network, "Failed to start download: "@, reason),
        ),
        (
            DownloadState::Requesting,
            DownloadEventView::Responded { status, status_line, content_length },
        ) => {
            if is_success(status) {
                (
                    DownloadView {
                        state: DownloadState::Locating,
                        total: match content_length {
                            Some(n) => n,
                            None => 0,
                        },
                        ..d
                    },
                    quiet(DownloadActionView::LocateExecutable),
                )
            } else {
                (
                    ended(d),
                    download_failure(
                        ErrorKind::Network,
                        "Download failed with status: "@,
                        status_line,
                    ),
                )
            }
        },
        (DownloadState::Locating, DownloadEventView::ExecutableUnknown(reason)) => (
            ended(d),
            download_failure(ErrorKind::Filesystem, "Failed to get current exe path: "@, reason),
        ),
        (DownloadState::Locating, DownloadEventView::ExecutableAt(path)) => (
            DownloadView { state: DownloadState::Creating, staged: staging_path(path), ..d },
            quiet(DownloadActionView::CreateFile(staging_path(path))),
        ),
        (DownloadState::Creating, DownloadEventView::CreateFailed(reason)) => (
            ended(d),
            download_failure(ErrorKind::Filesystem, "Failed to create temp file: "@, reason),
        ),
        (DownloadState::Creating, DownloadEventView::Created) => (
            moved(d, DownloadState::Streaming),
            quiet(DownloadActionView::StoreNextChunk),
        ),
        (DownloadState::Streaming, DownloadEventView::ReadFailed(reason)) => (
            ended(d),
            download_failure(ErrorKind::Network, "Failed to read chunk: "@, reason),
        ),
        (DownloadState::Streaming, DownloadEventView::WriteFailed(reason)) => (
            ended(d),
            download_failure(ErrorKind::Filesystem, "Failed to write chunk: "@, reason),
        ),
        (DownloadState::Streaming, DownloadEventView::Stored(n)) => {
            let received = capped_sum(d.received, n);
            (
                DownloadView { received, ..d },
                DownloadStepView {
                    events: if crosses_boundary(d.received, received) {
                        seq![transfer_report(received, d.total)]
                    } else {
                        Seq::<UpdateProgressView>::empty()
                    },
                    action: DownloadActionView::StoreNextChunk,
                },
            )
        },
        (DownloadState::Streaming, DownloadEventView::EndOfStream) => (
            moved(d, DownloadState::Flushing),
            DownloadStepView {
                events: seq![report(Stage::Downloading, Progress::spec_complete(), "下载完成"@)],
                action: DownloadActionView::Flush,
            },
        ),
        (DownloadState::Flushing, DownloadEventView::FlushFailed(reason)) => (
            ended(d),
            download_failure(ErrorKind::Filesystem, "Failed to flush file: "@, reason),
        ),
        (DownloadState::Flushing, DownloadEventView::Flushed) => (
            ended(d),
            quiet(DownloadActionView::Finish(Ok(d.staged))),
        ),
        _ => (ended(d), quiet(DownloadActionView::Finish(Err(download_out_of_turn())))),
    }
}

/// `a + b`, held at the largest `u64` where the sum would pass it.
pub fn add_capped(a: u64, b: u64) -> (sum: u64)
    ensures
        sum == capped_sum(a, b),
{
    if a > u64::MAX - b {
        u64::MAX
    } else {
        a + b
    }
}

/// Whether going from `before` to `after` received bytes reaches or
/// passes a multiple of [`REPORT_EVERY`].
pub fn report_is_due(before: u64, after: u64) -> (due: bool)
    ensures
        due == crosses_boundary(before, after),
{
    before / REPORT_EVERY < after / REPORT_EVERY
}

/// The report that `received` bytes of `total` have arrived: the stage
/// is `Downloading`, the progress `received / total` (zero when `total`
/// is zero, one when more than `total` arrived), and the message names
/// the percentage with one decimal.
pub fn transfer_progress(received: u64, total: u64) -> (e: UpdateProgress)
    ensures
        e@ == transfer_report(received, total),
{
    let progress = Progress::ratio(received, total);
    let percent = progress.percent_text();
    UpdateProgress {
        stage: Stage::Downloading,
        progress,
        message: join3("正在下载... ", percent.as_str(), "%"),
        error: None,
    }
}

fn no_events() -> (v: Vec<UpdateProgress>)
    ensures
        reports_view(v@) == Seq::<UpdateProgressView>::empty(),
{
    let v: Vec<UpdateProgress> = Vec::new();
    assert(reports_view(v@) =~= Seq::<UpdateProgressView>::empty());
    v
}

fn one_event(e: UpdateProgress) -> (v: Vec<UpdateProgress>)
    ensures
        reports_view(v@) == seq![e@],
{
    let mut v: Vec<UpdateProgress> = Vec::new();
    v.push(e);
    assert(reports_view(v@) =~= seq![e@]);
    v
}

fn failed(kind: ErrorKind, context: &str, reason: &str) -> (step: DownloadStep)
    ensures
        step@ == download_failure(kind, context@, reason@),
{
    DownloadStep {
        events: no_events(),
        action: DownloadAction::Finish(Err(UpdateError::describe(kind, context, reason))),
    }
}

impl Download {
    /// A download of `url` that has not begun.
    pub fn new(url: &str) -> (d: Download)
        ensures
            d@ == new_download(url@),
    {
        Download {
            url: String::from_str(url),
            state: DownloadState::Idle,
            staged: String::new(),
            total: 0,
            received: 0,
        }
    }

    /// Takes in what happened and says what to send out and do next.
    ///
    /// `Begin` sends out the report that the download starts and asks
    /// for the request. A failed request and a status outside 200 to 299
    /// end the download with a network error. Then the staging file,
    /// named after the running executable with [`STAGING_SUFFIX`] behind
    /// it, is created, and chunk after chunk is stored in it: the count
    /// of received bytes grows by the length of each, and a report goes
    /// out whenever the count reaches or passes a multiple of
    /// [`REPORT_EVERY`]. At the end of the stream the report of
    /// completion goes out, the file is flushed, and the download ends
    /// with the path of the staging file. A chunk that cannot be read
    /// ends it with a network error; a file that cannot be created,
    /// written or flushed, or an executable that cannot be found, with a
    /// filesystem error. Nothing is asked to be removed on failure. An
    /// event that the download was not waiting for ends it with a state
    /// error.
    pub fn step(&mut self, event: DownloadEvent) -> (step: DownloadStep)
        ensures
            (final(self)@, step@) == download_step(old(self)@, event@),
    {
        match (self.state, event) {
            (DownloadState::Idle, DownloadEvent::Begin) => {
                self.state = DownloadState::Requesting;
                DownloadStep {
                    events: one_event(
                        UpdateProgress::new(
                            Stage::Downloading,
                            Progress::zero(),
                            "开始下载更新文件...",
                        ),
                    ),
                    action: DownloadAction::Request {
                        url: self.url.clone(),
                        user_agent: String::from_str(USER_AGENT),
                    },
                }
            },
            (DownloadState::Requesting, DownloadEvent::RequestFailed(reason)) => {
                self.state = DownloadState::Finished;
                failed(ErrorKind::Network, "Failed to start download: ", reason.as_str())
            },
            (
                DownloadState::Requesting,
                DownloadEvent::Responded { status, status_line, content_length },
            ) => {
                if status_is_success(status) {
                    self.state = DownloadState::Locating;
                    self.total = match content_length {
                        Some(n) => n,
                        None => 0,
                    };
                    DownloadStep { events: no_events(), action: DownloadAction::LocateExecutable }
                } else {
                    self.state = DownloadState::Finished;
                    failed(
                        ErrorKind::Network,
                        "Download failed with status: ",
                        status_line.as_str(),
                    )
                }
            },
            (DownloadState::Locating, DownloadEvent::ExecutableUnknown(reason)) => {
                self.state = DownloadState::Finished;
                failed(ErrorKind::Filesystem, "Failed to get current exe path: ", reason.as_str())
            },
            (DownloadState::Locating, DownloadEvent::ExecutableAt(path)) => {
                self.state = DownloadState::Creating;
                self.staged = path.concat(STAGING_SUFFIX);
                DownloadStep {
                    events: no_events(),
                    action: DownloadAction::CreateFile(self.staged.clone()),
                }
            },
            (DownloadState::Creating, DownloadEvent::CreateFailed(reason)) => {
                self.state = DownloadState::Finished;
                failed(ErrorKind::Filesystem, "Failed to create temp file: ", reason.as_str())
            },
            (DownloadState::Creating, DownloadEvent::Created) => {
                self.state = DownloadState::Streaming;
                DownloadStep { events: no_events(), action: DownloadAction::StoreNextChunk }
            },
            (DownloadState::Streaming, DownloadEvent::ReadFailed(reason)) => {
                self.state = DownloadState::Finished;
                failed(ErrorKind::Network, "Failed to read chunk: ", reason.as_str())
            },
            (DownloadState::Streaming, DownloadEvent::WriteFailed(reason)) => {
                self.state = DownloadState::Finished;
                failed(ErrorKind::Filesystem, "Failed to write chunk: ", reason.as_str())
            },
            (DownloadState::Streaming, DownloadEvent::Stored(n)) => {
                let before: u64 = self.received;
                let after: u64 = add_capped(before, n);
                self.received = after;
                let events = if report_is_due(before, after) {
                    one_event(transfer_progress(after, self.total))
                } else {
                    no_events()
                };
                DownloadStep { events, action: DownloadAction::StoreNextChunk }
            },
            (DownloadState::Streaming, DownloadEvent::EndOfStream) => {
                self.state = DownloadState::Flushing;
                DownloadStep {
                    events: one_event(
                        UpdateProgress::new(Stage::Downloading, Progress::complete(), "下载完成"),
                    ),
                    action: DownloadAction::Flush,
                }
            },
            (DownloadState::Flushing, DownloadEvent::FlushFailed(reason)) => {
                self.state = DownloadState::Finished;
                failed(ErrorKind::Filesystem, "Failed to flush file: ", reason.as_str())
            },
            (DownloadState::Flushing, DownloadEvent::Flushed) => {
                self.state = DownloadState::Finished;
                DownloadStep {
                    events: no_events(),
                    action: DownloadAction::Finish(Ok(self.staged.clone())),
                }
            },
            _ => {
                self.state = DownloadState::Finished;
                DownloadStep {
                    events: no_events(),
                    action: DownloadAction::Finish(
                        Err(UpdateError::new(ErrorKind::State, "Download driven out of turn")),
                    ),
                }
            },
        }
    }
}

/// Everything a download has sent out so far.
pub struct DownloadRun {
    pub machine: DownloadView,
    pub reports: Seq<UpdateProgressView>,
}

/// The download of `url` after the events `events`, one after the other.
pub open spec fn download_run(url: Seq<char>, events: Seq<DownloadEventView>) -> DownloadRun
    decreases events.len(),
{
    if events.len() == 0 {
        DownloadRun { machine: new_download(url), reports: Seq::<UpdateProgressView>::empty() }
    } else {
        let before = download_run(url, events.drop_last());
        let (machine, step) = download_step(before.machine, events.last());
        DownloadRun { machine, reports: before.reports + step.events }
    }
}

/// What holds of the reports of a download at every point: they belong
/// to the stage `Downloading`, their progress is defined, and none lies
/// above what the bytes received so far amount to.
spec fn reports_within(run: DownloadRun) -> bool {
    let bound = match run.machine.state {
        DownloadState::Idle
        | DownloadState::Requesting
        | DownloadState::Locating
        | DownloadState::Creating => Progress::spec_zero(),
        DownloadState::Streaming => Progress::spec_ratio(run.machine.received, run.machine.total),
        _ => Progress::spec_complete(),
    };
    forall|i: int|
        0 <= i < run.reports.len() ==> {
            &&& (#[trigger] run.reports[i]).stage == Stage::Downloading
            &&& run.reports[i].progress.wf()
            &&& run.reports[i].progress.at_most(bound)
        }
}

/// In the order in which they were sent out, no report is behind an
/// earlier one.
pub open spec fn never_backwards(reports: Seq<UpdateProgressView>) -> bool {
    forall|i: int, j: int|
        0 <= i <= j < reports.len() ==> (#[trigger] reports[i]).progress.at_most(
            (#[trigger] reports[j]).progress,
        )
}

proof fn lemma_download_invariant(url: Seq<char>, events: Seq<DownloadEventView>)
    ensures
        reports_within(download_run(url, events)),
        never_backwards(download_run(url, events).reports),
    decreases events.len(),
{
    if events.len() > 0 {
        lemma_download_invariant(url, events.drop_last());
        let before = download_run(url, events.drop_last());
        let (machine, step) = download_step(before.machine, events.last());
        let run = download_run(url, events);
        let old_bound = match before.machine.state {
            DownloadState::Idle
            | DownloadState::Requesting
            | DownloadState::Locating
            | DownloadState::Creating => Progress::spec_zero(),
            DownloadState::Streaming => Progress::spec_ratio(
                before.machine.received,
                before.machine.total,
            ),
            _ => Progress::spec_complete(),
        };
        let new_bound = match machine.state {
            DownloadState::Idle
            | DownloadState::Requesting
            | DownloadState::Locating
            | DownloadState::Creating => Progress::spec_zero(),
            DownloadState::Streaming => Progress::spec_ratio(machine.received, machine.total),
            _ => Progress::spec_complete(),
        };
        lemma_ratio_monotonic(before.machine.received, machine.received, machine.total);
        lemma_ratio_monotonic(0, machine.received, machine.total);
        assert(old_bound.wf() && new_bound.wf());
        assert(old_bound.at_most(new_bound)) by {
            lemma_ratio_monotonic(0, before.machine.received, before.machine.total);
            if before.machine.state == DownloadState::Streaming && machine.state
                == DownloadState::Streaming {
                assert(before.machine.received <= machine.received);
            }
        }
        assert forall|i: int| 0 <= i < run.reports.len() implies {
            &&& (#[trigger] run.reports[i]).stage == Stage::Downloading
            &&& run.reports[i].progress.wf()
            &&& run.reports[i].progress.at_most(new_bound)
        } by {
            if i < before.reports.len() {
                assert(run.reports[i] == before.reports[i]);
                lemma_at_most_transitive(before.reports[i].progress, old_bound, new_bound);
            } else {
                assert(run.reports[i] == step.events[i - before.reports.len()]);
            }
        }
        assert forall|i: int, j: int| 0 <= i <= j < run.reports.len() implies (
        #[trigger] run.reports[i]).progress.at_most((#[trigger] run.reports[j]).progress) by {
            if j < before.reports.len() {
                assert(run.reports[i] == before.reports[i]);
                assert(run.reports[j] == before.reports[j]);
            } else {
                assert(step.events.len() == 1);
                assert(run.reports[j] == step.events[0]);
                if i < before.reports.len() {
                    assert(run.reports[i] == before.reports[i]);
                    if before.machine.state == DownloadState::Streaming && machine.state
                        == DownloadState::Streaming {
                        assert(step.events[0].progress == new_bound);
                    }
                    lemma_at_most_transitive(
                        before.reports[i].progress,
                        old_bound,
                        step.events[0].progress,
                    );
                } else {
                    assert(run.reports[i] == step.events[0]);
                }
            }
        }
    }
}

/// Whatever happens outside, every report of a download belongs to the
/// stage `Downloading`, has a progress between zero and one, and is not
/// behind any report sent out before it.
pub proof fn lemma_download_progress_never_decreases(
    url: Seq<char>,
    events: Seq<DownloadEventView>,
)
    ensures
        never_backwards(download_run(url, events).reports),
        stages_in_order(download_run(url, events).reports),
        forall|i: int|
            0 <= i < download_run(url, events).reports.len() ==> {
                &&& (#[trigger] download_run(url, events).reports[i]).stage == Stage::Downloading
                &&& download_run(url, events).reports[i].progress.wf()
            },
{
    lemma_download_invariant(url, events);
}

} // verus!
