//! Release metadata and what it says about updating.

use vstd::prelude::*;
use crate::error::{described, ErrorKind, UpdateError, UpdateErrorView};
use crate::text::{contains, ends_with, has_substring, has_suffix};
use crate::version::{is_newer, version_compare};

verus! {

/// Where the newest release is described.
pub const RELEASES_URL: &'static str = "https://api.github.com/repos/hhyufan/miaogu-notepad/releases/latest";

/// The user agent that every request of the updater carries.
pub const USER_AGENT: &'static str = "miaogu-notepad";

/// The number of seconds after which a request for the release metadata
/// is given up.
pub const REQUEST_TIMEOUT_SECS: u64 = 30;

/// One downloadable file of a release.
#[derive(Clone, Debug, PartialEq, Eq)]
pub struct GitHubAsset {
    pub name: String,
    pub browser_download_url: String,
    pub size: u64,
}

/// The mathematical content of a [`GitHubAsset`].
pub struct GitHubAssetView {
    pub name: Seq<char>,
    pub browser_download_url: Seq<char>,
    pub size: u64,
}

impl View for GitHubAsset {
    type V = GitHubAssetView;

    open spec fn view(&self) -> GitHubAssetView {
        GitHubAssetView {
            name: self.name@,
            browser_download_url: self.browser_download_url@,
            size: self.size,
        }
    }
}

/// A release as the remote endpoint describes it.
#[derive(Clone, Debug, PartialEq, Eq)]
pub struct GitHubRelease {
    pub tag_name: String,
    pub name: String,
    pub body: Option<String>,
    pub published_at: String,
    pub assets: Vec<GitHubAsset>,
}

/// The mathematical content of a [`GitHubRelease`].
pub struct GitHubReleaseView {
    pub tag_name: Seq<char>,
    pub name: Seq<char>,
    pub body: Option<Seq<char>>,
    pub published_at: Seq<char>,
    pub assets: Seq<GitHubAssetView>,
}

/// The view of an optional string.
pub open spec fn optional_text(s: Option<String>) -> Option<Seq<char>> {
    match s {
        Some(t) => Some(t@),
        None => None,
    }
}

impl View for GitHubRelease {
    type V = GitHubReleaseView;

    open spec fn view(&self) -> GitHubReleaseView {
        GitHubReleaseView {
            tag_name: self.tag_name@,
            name: self.name@,
            body: optional_text(self.body),
            published_at: self.published_at@,
            assets: self.assets@.map_values(|a: GitHubAsset| a@),
        }
    }
}

/// The outcome of one resolution: which version runs, which is the
/// newest, and whether and from where to update.
#[derive(Clone, Debug, PartialEq, Eq)]
pub struct VersionInfo {
    pub current_version: String,
    pub latest_version: String,
    pub has_update: bool,
    pub download_url: Option<String>,
    pub release_notes: Option<String>,
    pub published_at: Option<String>,
}

/// The mathematical content of a [`VersionInfo`].
pub struct VersionInfoView {
    pub current_version: Seq<char>,
    pub latest_version: Seq<char>,
    pub has_update: bool,
    pub download_url: Option<Seq<char>>,
    pub release_notes: Option<Seq<char>>,
    pub published_at: Option<Seq<char>>,
}

impl View for VersionInfo {
    type V = VersionInfoView;

    open spec fn view(&self) -> VersionInfoView {
        VersionInfoView {
            current_version: self.current_version@,
            latest_version: self.latest_version@,
            has_update: self.has_update,
            download_url: optional_text(self.download_url),
            release_notes: optional_text(self.release_notes),
            published_at: optional_text(self.published_at),
        }
    }
}

/// `tag` without its version prefix: one leading `v` is dropped when
/// there is one.
pub open spec fn without_version_prefix(tag: Seq<char>) -> Seq<char> {
    if tag.len() > 0 && tag[0] == 'v' {
        tag.skip(1)
    } else {
        tag
    }
}

/// An asset of this name is the program to install: the name ends in
/// `.exe` and does not hold `setup`.
pub open spec fn is_installable(name: Seq<char>) -> bool {
    has_suffix(name, ".exe"@) && !has_substring(name, "setup"@)
}

/// The download address of the first installable asset, if there is one.
pub open spec fn selected_url(assets: Seq<GitHubAssetView>) -> Option<Seq<char>>
    decreases assets.len(),
{
    if assets.len() == 0 {
        None
    } else if is_installable(assets[0].name) {
        Some(assets[0].browser_download_url)
    } else {
        selected_url(assets.skip(1))
    }
}

/// What a release means for a program that runs `current`.
pub open spec fn resolved(current: Seq<char>, release: GitHubReleaseView) -> VersionInfoView {
    let latest = without_version_prefix(release.tag_name);
    VersionInfoView {
        current_version: current,
        latest_version: latest,
        has_update: is_newer(current, latest),
        download_url: selected_url(release.assets),
        release_notes: release.body,
        published_at: Some(release.published_at),
    }
}

/// A status code in the success range.
pub open spec fn is_success(status: u16) -> bool {
    200 <= status < 300
}

/// Whether an HTTP status code lies in the success range, 200 to 299.
pub fn status_is_success(status: u16) -> (ok: bool)
    ensures
        ok == is_success(status),
{
    200 <= status && status < 300
}

/// Drops the version prefix of a tag name: one leading `v`, when the
/// tag has one.
pub fn strip_version_prefix(tag: &str) -> (version: String)
    ensures
        version@ == without_version_prefix(tag@),
{
    let len: usize = tag.unicode_len();
    if len > 0 && tag.get_char(0) == 'v' {
        let rest = tag.substring_char(1, len);
        proof {
            assert(tag@.subrange(1, len as int) =~= tag@.skip(1));
        }
        String::from_str(rest)
    } else {
        String::from_str(tag)
    }
}

/// Whether an asset of this name is the program to install.
pub fn asset_is_installable(name: &str) -> (yes: bool)
    ensures
        yes == is_installable(name@),
{
    ends_with(name, ".exe") && !contains(name, "setup")
}

/// Picks the download address: that of the first asset whose name ends
/// in `.exe` and does not hold `setup`; `None` when no asset is such.
pub fn select_download_url(assets: &Vec<GitHubAsset>) -> (url: Option<String>)
    ensures
        optional_text(url) == selected_url(assets@.map_values(|a: GitHubAsset| a@)),
{
    let ghost views = assets@.map_values(|a: GitHubAsset| a@);
    let mut i: usize = 0;
    proof {
        assert(views.skip(0) =~= views);
    }
    while i < assets.len()
        invariant
            i <= assets.len(),
            views == assets@.map_values(|a: GitHubAsset| a@),
            selected_url(views) == selected_url(views.skip(i as int)),
        decreases assets.len() - i,
    {
        let ghost rest = views.skip(i as int);
        proof {
            assert(rest[0] == assets@[i as int]@);
            assert(rest.skip(1) =~= views.skip(i + 1));
        }
        if asset_is_installable(assets[i].name.as_str()) {
            return Some(assets[i].browser_download_url.clone());
        }
        i += 1;
    }
    None
}

/// Decides what a release means for a program that runs
/// `current_version`: the newest version is the tag without its prefix,
/// an update exists when that version is newer, and the download address
/// is that of the first installable asset.
pub fn version_info(current_version: &str, release: GitHubRelease) -> (info: VersionInfo)
    ensures
        info@ == resolved(current_version@, release@),
{
    let latest = strip_version_prefix(release.tag_name.as_str());
    let has_update = version_compare(current_version, latest.as_str());
    let download_url = select_download_url(&release.assets);
    VersionInfo {
        current_version: String::from_str(current_version),
        latest_version: latest,
        has_update,
        download_url,
        release_notes: release.body,
        published_at: Some(release.published_at),
    }
}

/// Where a resolution stands.
#[derive(Clone, Copy, Debug, PartialEq, Eq, Structural)]
pub enum ResolverState {
    /// Nothing has been asked yet.
    Idle,
    /// The request is out; its answer is awaited.
    Requesting,
    /// The answer was a success; its body is awaited.
    Reading,
    /// The resolution has ended.
    Finished,
}

/// What happened outside since the resolver last asked for something.
#[derive(Clone, Debug, PartialEq, Eq)]
pub enum ResolverEvent {
    /// The caller wants a resolution.
    Begin,
    /// The request could not be sent, or no response came back.
    RequestFailed(String),
    /// A response came back; `status_line` is how its status reads.
    Responded { status: u16, status_line: String },
    /// The body of the response could not be read.
    BodyFailed(String),
    /// The body was read and is no release document.
    Malformed(String),
    /// The body was read and describes this release.
    Parsed(GitHubRelease),
}

/// The mathematical content of a [`ResolverEvent`].
pub enum ResolverEventView {
    Begin,
    RequestFailed(Seq<char>),
    Responded { status: u16, status_line: Seq<char> },
    BodyFailed(Seq<char>),
    Malformed(Seq<char>),
    Parsed(GitHubReleaseView),
}

impl View for ResolverEvent {
    type V = ResolverEventView;

    open spec fn view(&self) -> ResolverEventView {
        match self {
            ResolverEvent::Begin => ResolverEventView::Begin,
            ResolverEvent::RequestFailed(r) => ResolverEventView::RequestFailed(r@),
            ResolverEvent::Responded { status, status_line } => ResolverEventView::Responded {
                status: *status,
                status_line: status_line@,
            },
            ResolverEvent::BodyFailed(r) => ResolverEventView::BodyFailed(r@),
            ResolverEvent::Malformed(r) => ResolverEventView::Malformed(r@),
            ResolverEvent::Parsed(release) => ResolverEventView::Parsed(release@),
        }
    }
}

/// What the resolver asks to be done next.
#[derive(Debug, PartialEq, Eq)]
pub enum ResolverAction {
    /// Send a GET request to `url` with the `User-Agent` header
    /// `user_agent`, give it up after `timeout_secs` seconds, and answer
    /// with `RequestFailed` or `Responded`.
    Request { url: String, user_agent: String, timeout_secs: u64 },
    /// Read the body of the response and decode it as a release, and
    /// answer with `BodyFailed`, `Malformed` or `Parsed`.
    ReadRelease,
    /// Nothing more: this is the outcome.
    Finish(Result<VersionInfo, UpdateError>),
}

/// The mathematical content of a [`ResolverAction`].
pub enum ResolverActionView {
    Request { url: Seq<char>, user_agent: Seq<char>, timeout_secs: u64 },
    ReadRelease,
    Finish(Result<VersionInfoView, UpdateErrorView>),
}

impl View for ResolverAction {
    type V = ResolverActionView;

    open spec fn view(&self) -> ResolverActionView {
        match self {
            ResolverAction::Request {
                url,
                user_agent,
                timeout_secs,
            } => ResolverActionView::Request {
                url: url@,
                user_agent: user_agent@,
                timeout_secs: *timeout_secs,
            },
            ResolverAction::ReadRelease => ResolverActionView::ReadRelease,
            ResolverAction::Finish(Ok(info)) => ResolverActionView::Finish(Ok(info@)),
            ResolverAction::Finish(Err(e)) => ResolverActionView::Finish(Err(e@)),
        }
    }
}

/// The error of an event that the resolver was not waiting for.
pub open spec fn resolver_out_of_turn() -> UpdateErrorView {
    UpdateErrorView { kind: ErrorKind::State, message: "Release check driven out of turn"@ }
}

/// The next state and action of a resolution for a program that runs
/// `current`.
pub open spec fn resolver_step(
    current: Seq<char>,
    state: ResolverState,
    event: ResolverEventView,
) -> (ResolverState, ResolverActionView) {
    match (state, event) {
        (ResolverState::Idle, ResolverEventView::Begin) => (
            ResolverState::Requesting,
            ResolverActionView::Request {
                url: RELEASES_URL@,
                user_agent: USER_AGENT@,
                timeout_secs: REQUEST_TIMEOUT_SECS,
            },
        ),
        (ResolverState::Requesting, ResolverEventView::RequestFailed(reason)) => (
            ResolverState::Finished,
            ResolverActionView::Finish(
                Err(described(ErrorKind::Network, "Failed to fetch release info: "@, reason)),
            ),
        ),
        (ResolverState::Requesting, ResolverEventView::Responded { status, status_line }) => {
            if is_success(status) {
                (ResolverState::Reading, ResolverActionView::ReadRelease)
            } else {
                (
                    ResolverState::Finished,
                    ResolverActionView::Finish(
                        Err(
                            described(
                                ErrorKind::Network,
                                "GitHub API returned status: "@,
                                status_line,
                            ),
                        ),
                    ),
                )
            }
        },
        (ResolverState::Reading, ResolverEventView::BodyFailed(reason)) => (
            ResolverState::Finished,
            ResolverActionView::Finish(
                Err(described(ErrorKind::Network, "Failed to get response text: "@, reason)),
            ),
        ),
        (ResolverState::Reading, ResolverEventView::Malformed(reason)) => (
            ResolverState::Finished,
            ResolverActionView::Finish(
                Err(described(ErrorKind::Parse, "Failed to parse release info: "@, reason)),
            ),
        ),
        (ResolverState::Reading, ResolverEventView::Parsed(release)) => (
            ResolverState::Finished,
            ResolverActionView::Finish(Ok(resolved(current, release))),
        ),
        _ => (ResolverState::Finished, ResolverActionView::Finish(Err(resolver_out_of_turn()))),
    }
}

/// One resolution in progress: fetch the release metadata, then decide.
#[derive(Clone, Debug, PartialEq, Eq)]
pub struct Resolver {
    pub current_version: String,
    pub state: ResolverState,
}

impl Resolver {
    /// A resolution for a program that runs `current_version`, not yet
    /// begun.
    pub fn new(current_version: &str) -> (r: Resolver)
        ensures
            r.current_version@ == current_version@,
            r.state == ResolverState::Idle,
    {
        Resolver { current_version: String::from_str(current_version), state: ResolverState::Idle }
    }

    /// Takes in what happened and says what to do next.
    ///
    /// The first event is `Begin`, which asks for the request to the
    /// fixed endpoint, with the fixed user agent and time limit. A failed request, a status outside 200 to 299 and
    /// an unreadable body end the resolution with a network error, a
    /// malformed body with a parse error, and a decoded release with the
    /// [`VersionInfo`] that [`version_info`] gives for it. An event that
    /// the resolution was not waiting for ends it with a state error.
    pub fn step(&mut self, event: ResolverEvent) -> (action: ResolverAction)
        ensures
            final(self).current_version@ == old(self).current_version@,
            (final(self).state, action@) == resolver_step(
                old(self).current_version@,
                old(self).state,
                event@,
            ),
    {
        match (self.state, event) {
            (ResolverState::Idle, ResolverEvent::Begin) => {
                self.state = ResolverState::Requesting;
                ResolverAction::Request {
                    url: String::from_str(RELEASES_URL),
                    user_agent: String::from_str(USER_AGENT),
                    timeout_secs: REQUEST_TIMEOUT_SECS,
                }
            },
            (ResolverState::Requesting, ResolverEvent::RequestFailed(reason)) => {
                self.state = ResolverState::Finished;
                ResolverAction::Finish(
                    Err(
                        UpdateError::describe(
                            ErrorKind::Network,
                            "Failed to fetch release info: ",
                            reason.as_str(),
                        ),
                    ),
                )
            },
            (ResolverState::Requesting, ResolverEvent::Responded { status, status_line }) => {
                if status_is_success(status) {
                    self.state = ResolverState::Reading;
                    ResolverAction::ReadRelease
                } else {
                    self.state = ResolverState::Finished;
                    ResolverAction::Finish(
                        Err(
                            UpdateError::describe(
                                ErrorKind::Network,
                                "GitHub API returned status: ",
                                status_line.as_str(),
                            ),
                        ),
                    )
                }
            },
            (ResolverState::Reading, ResolverEvent::BodyFailed(reason)) => {
                self.state = ResolverState::Finished;
                ResolverAction::Finish(
                    Err(
                        UpdateError::describe(
                            ErrorKind::Network,
                            "Failed to get response text: ",
                            reason.as_str(),
                        ),
                    ),
                )
            },
            (ResolverState::Reading, ResolverEvent::Malformed(reason)) => {
                self.state = ResolverState::Finished;
                ResolverAction::Finish(
                    Err(
                        UpdateError::describe(
                            ErrorKind::Parse,
                            "Failed to parse release info: ",
                            reason.as_str(),
                        ),
                    ),
                )
            },
            (ResolverState::Reading, ResolverEvent::Parsed(release)) => {
                self.state = ResolverState::Finished;
                ResolverAction::Finish(Ok(version_info(self.current_version.as_str(), release)))
            },
            _ => {
                self.state = ResolverState::Finished;
                ResolverAction::Finish(
                    Err(UpdateError::new(ErrorKind::State, "Release check driven out of turn")),
                )
            },
        }
    }
}

} // verus!
