//! Replacing the running executable by a staged one, and restarting.
//!
//! The installer decides; it touches no file itself. Each call of
//! [`Installer::step`] takes the outcome of the last action and answers
//! with the reports to send out and the next action to perform.

use vstd::prelude::*;
use crate::error::{described, ErrorKind, UpdateError, UpdateErrorView};
use crate::progress::{
    report,
    reports_view,
    stages_in_order,
    Progress,
    Stage,
    UpdateProgress,
    UpdateProgressView,
};

verus! {

/// What is put behind the path of the executable to name its backup.
pub const BACKUP_SUFFIX: &'static str = ".old";

/// The file name of the restart script, which lies beside the
/// executable.
pub const RESTART_SCRIPT_NAME: &'static str = "restart_update.bat";

/// How the platform lets a running program be replaced.
#[derive(Clone, Copy, Debug, PartialEq, Eq, Structural)]
pub enum Platform {
    /// The image of a running program cannot be deleted at once: a
    /// script, started on the way out, deletes the backup and starts the
    /// new program.
    Windows,
    /// The new program is started directly and the backup deleted at
    /// once.
    Other,
}

/// The path of the backup of the executable at `executable`.
pub open spec fn backup_path(executable: Seq<char>) -> Seq<char> {
    executable + BACKUP_SUFFIX@
}

/// The text of the restart script: wait two seconds, delete the backup
/// if it is there, start the program, delete the script itself.
pub open spec fn restart_script(backup: Seq<char>, executable: Seq<char>) -> Seq<char> {
    "@echo off\ntimeout /t 2 /nobreak >nul\nif exist \""@ + backup + "\" del \""@ + backup
        + "\"\nstart \"\" \""@ + executable + "\"\ndel \"%~f0\"\n"@
}

/// Where an installation stands.
#[derive(Clone, Copy, Debug, PartialEq, Eq, Structural)]
pub enum InstallState {
    /// Nothing has been asked yet.
    Idle,
    /// Asked whether the staged file exists.
    ProbingStaged,
    /// Asked where the running executable is.
    Locating,
    /// Asked whether a backup of an earlier attempt exists.
    ProbingBackup,
    /// Asked to remove that backup.
    RemovingBackup,
    /// Asked to rename the executable to its backup name.
    BackingUp,
    /// Asked to rename the staged file to the name of the executable.
    Swapping,
    /// The swap failed; asked to rename the backup back.
    RollingBack,
    /// Asked to write the restart script.
    WritingScript,
    /// Asked to start the restart script or the new program.
    Launching,
    /// Asked to remove the backup after the new program started.
    Cleaning,
    /// The new program is on its way and this process is to exit.
    Restarting,
    /// The installation has failed.
    Failed,
}

/// What happened outside since the installer last asked for something.
#[derive(Clone, Debug, PartialEq, Eq)]
pub enum InstallEvent {
    /// The caller wants the installation.
    Begin,
    /// The answer to a probe: whether the file exists.
    Exists(bool),
    /// The path of the running executable could not be found.
    ExecutableUnknown(String),
    /// The running executable has no directory above it.
    DirectoryUnknown,
    /// The running executable is at `path`; `script` is the path of the
    /// file named [`RESTART_SCRIPT_NAME`] in its directory.
    ExecutableAt { path: String, script: String },
    /// The action succeeded.
    Done,
    /// The action failed for this reason.
    Failed(String),
}

/// The mathematical content of an [`InstallEvent`].
pub enum InstallEventView {
    Begin,
    Exists(bool),
    ExecutableUnknown(Seq<char>),
    DirectoryUnknown,
    ExecutableAt { path: Seq<char>, script: Seq<char> },
    Done,
    Failed(Seq<char>),
}

impl View for InstallEvent {
    type V = InstallEventView;

    open spec fn view(&self) -> InstallEventView {
        match self {
            InstallEvent::Begin => InstallEventView::Begin,
            InstallEvent::Exists(b) => InstallEventView::Exists(*b),
            InstallEvent::ExecutableUnknown(r) => InstallEventView::ExecutableUnknown(r@),
            InstallEvent::DirectoryUnknown => InstallEventView::DirectoryUnknown,
            InstallEvent::ExecutableAt { path, script } => InstallEventView::ExecutableAt {
                path: path@,
                script: script@,
            },
            InstallEvent::Done => InstallEventView::Done,
            InstallEvent::Failed(r) => InstallEventView::Failed(r@),
        }
    }
}

/// What the installer asks to be done next.
#[derive(Debug, PartialEq, Eq)]
pub enum InstallAction {
    /// Say whether a file exists at this path; answer with `Exists`.
    ProbeFile(String),
    /// Find the running executable; answer with `ExecutableUnknown`,
    /// `DirectoryUnknown` or `ExecutableAt`.
    LocateExecutable,
    /// Remove the file at this path; answer with `Done` or `Failed`.
    RemoveFile(String),
    /// Rename the file at `from` to `to`; answer with `Done` or `Failed`.
    Rename { from: String, to: String },
    /// Write `contents` to the file at `path`; answer with `Done` or
    /// `Failed`.
    WriteFile { path: String, contents: String },
    /// Start `program` with `arguments` and do not wait for it; answer
    /// with `Done` or `Failed`.
    Launch { program: String, arguments: Vec<String> },
    /// End this process at once with exit code 0: the restart is under
    /// way.
    Exit,
    /// Nothing more: the installation has failed with this error.
    Fail(UpdateError),
}

/// The mathematical content of an [`InstallAction`].
pub enum InstallActionView {
    ProbeFile(Seq<char>),
    LocateExecutable,
    RemoveFile(Seq<char>),
    Rename { from: Seq<char>, to: Seq<char> },
    WriteFile { path: Seq<char>, contents: Seq<char> },
    Launch { program: Seq<char>, arguments: Seq<Seq<char>> },
    Exit,
    Fail(UpdateErrorView),
}

/// The views of a list of strings.
pub open spec fn texts_view(v: Seq<String>) -> Seq<Seq<char>> {
    v.map_values(|s: String| s@)
}

impl View for InstallAction {
    type V = InstallActionView;

    open spec fn view(&self) -> InstallActionView {
        match self {
            InstallAction::ProbeFile(p) => InstallActionView::ProbeFile(p@),
            InstallAction::LocateExecutable => InstallActionView::LocateExecutable,
            InstallAction::RemoveFile(p) => InstallActionView::RemoveFile(p@),
            InstallAction::Rename { from, to } => InstallActionView::Rename { from: from@, to: to@ },
            InstallAction::WriteFile { path, contents } => InstallActionView::WriteFile {
                path: path@,
                contents: contents@,
            },
            InstallAction::Launch { program, arguments } => InstallActionView::Launch {
                program: program@,
                arguments: texts_view(arguments@),
            },
            InstallAction::Exit => InstallActionView::Exit,
            InstallAction::Fail(e) => InstallActionView::Fail(e@),
        }
    }
}

/// The reports to send out, then the action to perform.
#[derive(Debug, PartialEq, Eq)]
pub struct InstallStep {
    pub events: Vec<UpdateProgress>,
    pub action: InstallAction,
}

/// The mathematical content of an [`InstallStep`].
pub struct InstallStepView {
    pub events: Seq<UpdateProgressView>,
    pub action: InstallActionView,
}

impl View for InstallStep {
    type V = InstallStepView;

    open spec fn view(&self) -> InstallStepView {
        InstallStepView { events: reports_view(self.events@), action: self.action@ }
    }
}

/// One installation in progress.
#[derive(Clone, Debug, PartialEq, Eq)]
pub struct Installer {
    pub platform: Platform,
    /// The path of the staged file.
    pub staged: String,
    /// The path of the running executable, once it is known.
    pub executable: String,
    /// The path of the restart script, once it is known.
    pub script: String,
    /// Why the swap failed, while the rollback is under way.
    pub swap_failure: String,
    pub state: InstallState,
}

/// The mathematical content of an [`Installer`].
pub struct InstallerView {
    pub platform: Platform,
    pub staged: Seq<char>,
    pub executable: Seq<char>,
    pub script: Seq<char>,
    pub swap_failure: Seq<char>,
    pub state: InstallState,
}

impl View for Installer {
    type V = InstallerView;

    open spec fn view(&self) -> InstallerView {
        InstallerView {
            platform: self.platform,
            staged: self.staged@,
            executable: self.executable@,
            script: self.script@,
            swap_failure: self.swap_failure@,
            state: self.state,
        }
    }
}

/// An installation of the file at `staged` that has not begun.
pub open spec fn new_installer(platform: Platform, staged: Seq<char>) -> InstallerView {
    InstallerView {
        platform,
        staged,
        executable: Seq::<char>::empty(),
        script: Seq::<char>::empty(),
        swap_failure: Seq::<char>::empty(),
        state: InstallState::Idle,
    }
}

/// The report that the installation stands at `quarters` quarters.
pub open spec fn install_report(quarters: u64) -> UpdateProgressView {
    if quarters == 0 {
        report(Stage::Installing, Progress::spec_quarters(0), "开始安装更新..."@)
    } else if quarters == 1 {
        report(Stage::Installing, Progress::spec_quarters(1), "备份当前版本..."@)
    } else if quarters == 2 {
        report(Stage::Installing, Progress::spec_quarters(2), "安装新版本..."@)
    } else if quarters == 3 {
        report(Stage::Installing, Progress::spec_quarters(3), "准备重启应用..."@)
    } else {
        report(
            Stage::Completed,
            Progress::spec_quarters(4),
            "更新安装完成！正在重启应用程序..."@,
        )
    }
}

/// The installer in another state.
pub open spec fn at(m: InstallerView, state: InstallState) -> InstallerView {
    InstallerView { state, ..m }
}

/// The step that sends out nothing and asks for `action`.
pub open spec fn silent(action: InstallActionView) -> InstallStepView {
    InstallStepView { events: Seq::<UpdateProgressView>::empty(), action }
}

/// The failed installer and the step that says so.
pub open spec fn install_failure(m: InstallerView, context: Seq<char>, reason: Seq<char>) -> (
    InstallerView,
    InstallStepView,
) {
    (
        at(m, InstallState::Failed),
        silent(InstallActionView::Fail(described(ErrorKind::Filesystem, context, reason))),
    )
}

/// The error of an event that the installer was not waiting for.
pub open spec fn install_out_of_turn() -> UpdateErrorView {
    UpdateErrorView { kind: ErrorKind::State, message: "Install driven out of turn"@ }
}

/// The rename that backs the executable up.
pub open spec fn backup_rename(m: InstallerView) -> InstallActionView {
    InstallActionView::Rename { from: m.executable, to: backup_path(m.executable) }
}

/// The rename that puts the staged file in the place of the executable.
pub open spec fn swap_rename(m: InstallerView) -> InstallActionView {
    InstallActionView::Rename { from: m.staged, to: m.executable }
}

/// The rename that puts the backup back in the place of the executable.
pub open spec fn restore_rename(m: InstallerView) -> InstallActionView {
    InstallActionView::Rename { from: backup_path(m.executable), to: m.executable }
}

/// The launch that hands over to the new program.
pub open spec fn relaunch(m: InstallerView) -> InstallActionView {
    match m.platform {
        Platform::Windows => InstallActionView::Launch {
            program: "cmd"@,
            arguments: seq!["/C"@, m.script],
        },
        Platform::Other => InstallActionView::Launch {
            program: m.executable,
            arguments: Seq::<Seq<char>>::empty(),
        },
    }
}

/// The next state of an installation, and what it sends out and asks
/// for.
pub open spec fn install_step(m: InstallerView, event: InstallEventView) -> (
    InstallerView,
    InstallStepView,
) {
    match (m.state, event) {
        (InstallState::Idle, InstallEventView::Begin) => (
            at(m, InstallState::ProbingStaged),
            InstallStepView {
                events: seq![install_report(0)],
                action: InstallActionView::ProbeFile(m.staged),
            },
        ),
        (InstallState::ProbingStaged, InstallEventView::Exists(found)) => {
            if found {
                (at(m, InstallState::Locating), silent(InstallActionView::LocateExecutable))
            } else {
                install_failure(m, "New file not found"@, Seq::<char>::empty())
            }
        },
        (InstallState::Locating, InstallEventView::ExecutableUnknown(reason)) => install_failure(
            m,
            "Failed to get current exe path: "@,
            reason,
        ),
        (InstallState::Locating, InstallEventView::DirectoryUnknown) => install_failure(
            m,
            "Failed to get current directory"@,
            Seq::<char>::empty(),
        ),
        (InstallState::Locating, InstallEventView::ExecutableAt { path, script }) => (
            InstallerView { executable: path, script, state: InstallState::ProbingBackup, ..m },
            silent(InstallActionView::ProbeFile(backup_path(path))),
        ),
        (InstallState::ProbingBackup, InstallEventView::Exists(found)) => {
            if found {
                (
                    at(m, InstallState::RemovingBackup),
                    silent(InstallActionView::RemoveFile(backup_path(m.executable))),
                )
            } else {
                (at(m, InstallState::BackingUp), silent(backup_rename(m)))
            }
        },
        (InstallState::RemovingBackup, InstallEventView::Failed(reason)) => install_failure(
            m,
            "Failed to remove old backup: "@,
            reason,
        ),
        (InstallState::RemovingBackup, InstallEventView::Done) => (
            at(m, InstallState::BackingUp),
            silent(backup_rename(m)),
        ),
        (InstallState::BackingUp, InstallEventView::Failed(reason)) => install_failure(
            m,
            "Failed to backup current exe: "@,
            reason,
        ),
        (InstallState::BackingUp, InstallEventView::Done) => (
            at(m, InstallState::Swapping),
            InstallStepView { events: seq![install_report(1)], action: swap_rename(m) },
        ),
        (InstallState::Swapping, InstallEventView::Failed(reason)) => (
            InstallerView { swap_failure: reason, state: InstallState::RollingBack, ..m },
            silent(restore_rename(m)),
        ),
        (InstallState::Swapping, InstallEventView::Done) => match m.platform {
            Platform::Windows => (
                at(m, InstallState::WritingScript),
                InstallStepView {
                    events: seq![install_report(2), install_report(3)],
                    action: InstallActionView::WriteFile {
                        path: m.script,
                        contents: restart_script(backup_path(m.executable), m.executable),
                    },
                },
            ),
            Platform::Other => (
                at(m, InstallState::Launching),
                InstallStepView {
                    events: seq![install_report(2), install_report(3)],
                    action: relaunch(m),
                },
            ),
        },
        (InstallState::RollingBack, InstallEventView::Done) => install_failure(
            m,
            "Failed to install new exe: "@,
            m.swap_failure,
        ),
        (InstallState::RollingBack, InstallEventView::Failed(_)) => install_failure(
            m,
            "Failed to install new exe: "@,
            m.swap_failure,
        ),
        (InstallState::WritingScript, InstallEventView::Failed(reason)) => install_failure(
            m,
            "Failed to create restart script: "@,
            reason,
        ),
        (InstallState::WritingScript, InstallEventView::Done) => (
            at(m, InstallState::Launching),
            silent(relaunch(m)),
        ),
        (InstallState::Launching, InstallEventView::Failed(reason)) => match m.platform {
            Platform::Windows => install_failure(m, "Failed to start restart script: "@, reason),
            Platform::Other => install_failure(m, "Failed to start new application: "@, reason),
        },
        (InstallState::Launching, InstallEventView::Done) => match m.platform {
            Platform::Windows => (
                at(m, InstallState::Restarting),
                InstallStepView { events: seq![install_report(4)], action: InstallActionView::Exit },
            ),
            Platform::Other => (
                at(m, InstallState::Cleaning),
                silent(InstallActionView::RemoveFile(backup_path(m.executable))),
            ),
        },
        (InstallState::Cleaning, InstallEventView::Done) => (
            at(m, InstallState::Restarting),
            InstallStepView { events: seq![install_report(4)], action: InstallActionView::Exit },
        ),
        (InstallState::Cleaning, InstallEventView::Failed(_)) => (
            at(m, InstallState::Restarting),
            InstallStepView { events: seq![install_report(4)], action: InstallActionView::Exit },
        ),
        _ => (
            at(m, InstallState::Failed),
            silent(InstallActionView::Fail(install_out_of_turn())),
        ),
    }
}

/// The report that the installation stands at `quarters` quarters: the
/// first four belong to the stage `Installing`, the last to `Completed`.
pub fn install_progress(quarters: u64) -> (e: UpdateProgress)
    requires
        quarters <= 4,
    ensures
        e@ == install_report(quarters),
{
    if quarters == 0 {
        UpdateProgress::new(Stage::Installing, Progress::quarters(0), "开始安装更新...")
    } else if quarters == 1 {
        UpdateProgress::new(Stage::Installing, Progress::quarters(1), "备份当前版本...")
    } else if quarters == 2 {
        UpdateProgress::new(Stage::Installing, Progress::quarters(2), "安装新版本...")
    } else if quarters == 3 {
        UpdateProgress::new(Stage::Installing, Progress::quarters(3), "准备重启应用...")
    } else {
        UpdateProgress::new(
            Stage::Completed,
            Progress::quarters(4),
            "更新安装完成！正在重启应用程序...",
        )
    }
}

/// Writes the restart script for the backup at `backup` and the program
/// at `executable`.
pub fn restart_script_text(backup: &str, executable: &str) -> (text: String)
    ensures
        text@ == restart_script(backup@, executable@),
{
    String::from_str("@echo off\ntimeout /t 2 /nobreak >nul\nif exist \"").concat(backup).concat(
        "\" del \"",
    ).concat(backup).concat("\"\nstart \"\" \"").concat(executable).concat("\"\ndel \"%~f0\"\n")
}

/// The path of the backup of the executable at `executable`.
pub fn backup_path_of(executable: &str) -> (path: String)
    ensures
        path@ == backup_path(executable@),
{
    String::from_str(executable).concat(BACKUP_SUFFIX)
}

fn nothing() -> (v: Vec<UpdateProgress>)
    ensures
        reports_view(v@) == Seq::<UpdateProgressView>::empty(),
{
    let v: Vec<UpdateProgress> = Vec::new();
    assert(reports_view(v@) =~= Seq::<UpdateProgressView>::empty());
    v
}

fn reports1(quarters: u64) -> (v: Vec<UpdateProgress>)
    requires
        quarters <= 4,
    ensures
        reports_view(v@) == seq![install_report(quarters)],
{
    let mut v: Vec<UpdateProgress> = Vec::new();
    v.push(install_progress(quarters));
    assert(reports_view(v@) =~= seq![install_report(quarters)]);
    v
}

fn reports2(first: u64, second: u64) -> (v: Vec<UpdateProgress>)
    requires
        first <= 4,
        second <= 4,
    ensures
        reports_view(v@) == seq![install_report(first), install_report(second)],
{
    let mut v: Vec<UpdateProgress> = Vec::new();
    v.push(install_progress(first));
    v.push(install_progress(second));
    assert(reports_view(v@) =~= seq![install_report(first), install_report(second)]);
    v
}

fn quietly(action: InstallAction) -> (step: InstallStep)
    ensures
        step@ == silent(action@),
{
    InstallStep { events: nothing(), action }
}

impl Installer {
    /// An installation of the file at `staged` that has not begun.
    pub fn new(platform: Platform, staged: &str) -> (m: Installer)
        ensures
            m@ == new_installer(platform, staged@),
    {
        Installer {
            platform,
            staged: String::from_str(staged),
            executable: String::new(),
            script: String::new(),
            swap_failure: String::new(),
            state: InstallState::Idle,
        }
    }

    fn fail(&mut self, context: &str, reason: &str) -> (step: InstallStep)
        ensures
            (final(self)@, step@) == install_failure(old(self)@, context@, reason@),
    {
        self.state = InstallState::Failed;
        quietly(InstallAction::Fail(UpdateError::describe(ErrorKind::Filesystem, context, reason)))
    }

    fn relaunch_action(&self) -> (action: InstallAction)
        ensures
            action@ == relaunch(self@),
    {
        match self.platform {
            Platform::Windows => {
                let mut arguments: Vec<String> = Vec::new();
                arguments.push(String::from_str("/C"));
                arguments.push(self.script.clone());
                assert(texts_view(arguments@) =~= seq!["/C"@, self.script@]);
                InstallAction::Launch { program: String::from_str("cmd"), arguments }
            },
            Platform::Other => {
                let arguments: Vec<String> = Vec::new();
                assert(texts_view(arguments@) =~= Seq::<Seq<char>>::empty());
                InstallAction::Launch { program: self.executable.clone(), arguments }
            },
        }
    }

    /// Takes in what happened and says what to send out and do next.
    ///
    /// In order: the report of zero quarters goes out; the staged file
    /// must exist; a backup left by an earlier attempt is removed; the
    /// executable is renamed to its backup name, after which the report
    /// of one quarter goes out; the staged file is renamed to the name of
    /// the executable, after which the reports of two and three quarters
    /// go out; the new program is started, on `Windows` through a restart
    /// script written beside it, elsewhere directly and followed by the
    /// removal of the backup, whose outcome is not looked at; last the
    /// report of completion goes out with the request to exit.
    ///
    /// When the staged file cannot be put in place, the installer asks
    /// for the backup to be renamed back and then fails with the error of
    /// the failed swap, whatever became of the rename back. Every other
    /// failed action fails the installation at once with a filesystem
    /// error that names the action and the reason. No report of the stage
    /// `Error` is sent out from here. An event that the installation was
    /// not waiting for fails it with a state error.
    pub fn step(&mut self, event: InstallEvent) -> (step: InstallStep)
        ensures
            (final(self)@, step@) == install_step(old(self)@, event@),
    {
        match (self.state, event) {
            (InstallState::Idle, InstallEvent::Begin) => {
                self.state = InstallState::ProbingStaged;
                InstallStep {
                    events: reports1(0),
                    action: InstallAction::ProbeFile(self.staged.clone()),
                }
            },
            (InstallState::ProbingStaged, InstallEvent::Exists(found)) => {
                if found {
                    self.state = InstallState::Locating;
                    quietly(InstallAction::LocateExecutable)
                } else {
                    proof {
                        reveal_strlit("");
                        assert(""@ =~= Seq::<char>::empty());
                    }
                    self.fail("New file not found", "")
                }
            },
            (InstallState::Locating, InstallEvent::ExecutableUnknown(reason)) => self.fail(
                "Failed to get current exe path: ",
                reason.as_str(),
            ),
            (InstallState::Locating, InstallEvent::DirectoryUnknown) => {
                proof {
                    reveal_strlit("");
                    assert(""@ =~= Seq::<char>::empty());
                }
                self.fail("Failed to get current directory", "")
            },
            (InstallState::Locating, InstallEvent::ExecutableAt { path, script }) => {
                let backup = backup_path_of(path.as_str());
                self.executable = path;
                self.script = script;
                self.state = InstallState::ProbingBackup;
                quietly(InstallAction::ProbeFile(backup))
            },
            (InstallState::ProbingBackup, InstallEvent::Exists(found)) => {
                let backup = backup_path_of(self.executable.as_str());
                if found {
                    self.state = InstallState::RemovingBackup;
                    quietly(InstallAction::RemoveFile(backup))
                } else {
                    self.state = InstallState::BackingUp;
                    quietly(InstallAction::Rename { from: self.executable.clone(), to: backup })
                }
            },
            (InstallState::RemovingBackup, InstallEvent::Failed(reason)) => self.fail(
                "Failed to remove old backup: ",
                reason.as_str(),
            ),
            (InstallState::RemovingBackup, InstallEvent::Done) => {
                let backup = backup_path_of(self.executable.as_str());
                self.state = InstallState::BackingUp;
                quietly(InstallAction::Rename { from: self.executable.clone(), to: backup })
            },
            (InstallState::BackingUp, InstallEvent::Failed(reason)) => self.fail(
                "Failed to backup current exe: ",
                reason.as_str(),
            ),
            (InstallState::BackingUp, InstallEvent::Done) => {
                self.state = InstallState::Swapping;
                InstallStep {
                    events: reports1(1),
                    action: InstallAction::Rename {
                        from: self.staged.clone(),
                        to: self.executable.clone(),
                    },
                }
            },
            (InstallState::Swapping, InstallEvent::Failed(reason)) => {
                let backup = backup_path_of(self.executable.as_str());
                self.swap_failure = reason;
                self.state = InstallState::RollingBack;
                quietly(InstallAction::Rename { from: backup, to: self.executable.clone() })
            },
            (InstallState::Swapping, InstallEvent::Done) => {
                match self.platform {
                    Platform::Windows => {
                        let backup = backup_path_of(self.executable.as_str());
                        let contents = restart_script_text(
                            backup.as_str(),
                            self.executable.as_str(),
                        );
                        self.state = InstallState::WritingScript;
                        InstallStep {
                            events: reports2(2, 3),
                            action: InstallAction::WriteFile { path: self.script.clone(), contents },
                        }
                    },
                    Platform::Other => {
                        let action = self.relaunch_action();
                        self.state = InstallState::Launching;
                        InstallStep { events: reports2(2, 3), action }
                    },
                }
            },
            (InstallState::RollingBack, InstallEvent::Done) => {
                let reason = self.swap_failure.clone();
                self.fail("Failed to install new exe: ", reason.as_str())
            },
            (InstallState::RollingBack, InstallEvent::Failed(_)) => {
                let reason = self.swap_failure.clone();
                self.fail("Failed to install new exe: ", reason.as_str())
            },
            (InstallState::WritingScript, InstallEvent::Failed(reason)) => self.fail(
                "Failed to create restart script: ",
                reason.as_str(),
            ),
            (InstallState::WritingScript, InstallEvent::Done) => {
                let action = self.relaunch_action();
                self.state = InstallState::Launching;
                quietly(action)
            },
            (InstallState::Launching, InstallEvent::Failed(reason)) => {
                match self.platform {
                    Platform::Windows => self.fail(
                        "Failed to start restart script: ",
                        reason.as_str(),
                    ),
                    Platform::Other => self.fail(
                        "Failed to start new application: ",
                        reason.as_str(),
                    ),
                }
            },
            (InstallState::Launching, InstallEvent::Done) => {
                match self.platform {
                    Platform::Windows => {
                        self.state = InstallState::Restarting;
                        InstallStep { events: reports1(4), action: InstallAction::Exit }
                    },
                    Platform::Other => {
                        let backup = backup_path_of(self.executable.as_str());
                        self.state = InstallState::Cleaning;
                        quietly(InstallAction::RemoveFile(backup))
                    },
                }
            },
            (InstallState::Cleaning, InstallEvent::Done) => {
                self.state = InstallState::Restarting;
                InstallStep { events: reports1(4), action: InstallAction::Exit }
            },
            (InstallState::Cleaning, InstallEvent::Failed(_)) => {
                self.state = InstallState::Restarting;
                InstallStep { events: reports1(4), action: InstallAction::Exit }
            },
            _ => {
                self.state = InstallState::Failed;
                quietly(
                    InstallAction::Fail(
                        UpdateError::new(ErrorKind::State, "Install driven out of turn"),
                    ),
                )
            },
        }
    }
}


/// Everything an installation has sent out and asked for so far.
pub struct InstallRun {
    pub machine: InstallerView,
    pub reports: Seq<UpdateProgressView>,
    pub actions: Seq<InstallActionView>,
}

/// The installation `start` after the events `events`, one after the
/// other.
pub open spec fn install_run(start: InstallerView, events: Seq<InstallEventView>) -> InstallRun
    decreases events.len(),
{
    if events.len() == 0 {
        InstallRun {
            machine: start,
            reports: Seq::<UpdateProgressView>::empty(),
            actions: Seq::<InstallActionView>::empty(),
        }
    } else {
        let before = install_run(start, events.drop_last());
        let (machine, step) = install_step(before.machine, events.last());
        InstallRun {
            machine,
            reports: before.reports + step.events,
            actions: before.actions.push(step.action),
        }
    }
}

/// The progress values of a list of reports.
pub open spec fn progress_values(reports: Seq<UpdateProgressView>) -> Seq<Progress> {
    reports.map_values(|r: UpdateProgressView| r.progress)
}

/// The reports that an installation has sent out when it stands at
/// `state` without having failed.
pub open spec fn reports_until(state: InstallState) -> Seq<UpdateProgressView> {
    match state {
        InstallState::Idle => Seq::<UpdateProgressView>::empty(),
        InstallState::ProbingStaged
        | InstallState::Locating
        | InstallState::ProbingBackup
        | InstallState::RemovingBackup
        | InstallState::BackingUp => seq![install_report(0)],
        InstallState::Swapping | InstallState::RollingBack => seq![
            install_report(0),
            install_report(1),
        ],
        InstallState::WritingScript | InstallState::Launching | InstallState::Cleaning => seq![
            install_report(0),
            install_report(1),
            install_report(2),
            install_report(3),
        ],
        _ => seq![
            install_report(0),
            install_report(1),
            install_report(2),
            install_report(3),
            install_report(4),
        ],
    }
}

/// The reports of an installation come in one fixed order: the report
/// number `i` is the report of `i` quarters, and there are at most five.
pub open spec fn in_install_order(reports: Seq<UpdateProgressView>) -> bool {
    &&& reports.len() <= 5
    &&& forall|i: int| 0 <= i < reports.len() ==> #[trigger] reports[i] == install_report(i as u64)
}

/// Whatever happens outside, the reports of an installation come in
/// their fixed order, so that neither stage nor progress ever steps
/// back, and an installation that has not failed has sent out exactly
/// the reports that belong to the point it has reached.
pub proof fn lemma_install_reports_follow_state(
    platform: Platform,
    staged: Seq<char>,
    events: Seq<InstallEventView>,
)
    ensures
        ({
            let run = install_run(new_installer(platform, staged), events);
            &&& in_install_order(run.reports)
            &&& stages_in_order(run.reports)
            &&& run.machine.state != InstallState::Failed ==> run.reports == reports_until(
                run.machine.state,
            )
        }),
    decreases events.len(),
{
    let start = new_installer(platform, staged);
    if events.len() > 0 {
        lemma_install_reports_follow_state(platform, staged, events.drop_last());
        let before = install_run(start, events.drop_last());
        let (machine, step) = install_step(before.machine, events.last());
        let run = install_run(start, events);
        if machine.state != InstallState::Failed {
            assert(before.machine.state != InstallState::Failed);
            assert(before.reports + step.events =~= reports_until(machine.state));
        } else {
            assert(step.events.len() == 0);
            assert(run.reports =~= before.reports);
        }
        assert(in_install_order(run.reports));
    }
}

/// A successful installation, one that ends with the request to exit,
/// has sent out five reports whose progress values are, in order,
/// 0/4, 1/4, 2/4, 3/4 and 4/4; the first four belong to the stage
/// `Installing` and the last to `Completed`.
pub proof fn lemma_successful_install_reports(
    platform: Platform,
    staged: Seq<char>,
    events: Seq<InstallEventView>,
)
    ensures
        ({
            let run = install_run(new_installer(platform, staged), events);
            run.machine.state == InstallState::Restarting ==> {
                &&& run.actions.last() == InstallActionView::Exit
                &&& progress_values(run.reports) == seq![
                    Progress { done: 0, total: 4 },
                    Progress { done: 1, total: 4 },
                    Progress { done: 2, total: 4 },
                    Progress { done: 3, total: 4 },
                    Progress { done: 4, total: 4 },
                ]
                &&& run.reports.map_values(|r: UpdateProgressView| r.stage) == seq![
                    Stage::Installing,
                    Stage::Installing,
                    Stage::Installing,
                    Stage::Installing,
                    Stage::Completed,
                ]
            }
        }),
{
    let start = new_installer(platform, staged);
    let run = install_run(start, events);
    lemma_install_reports_follow_state(platform, staged, events);
    if run.machine.state == InstallState::Restarting {
        assert(events.len() > 0);
        assert(progress_values(run.reports) =~= seq![
            Progress { done: 0, total: 4 },
            Progress { done: 1, total: 4 },
            Progress { done: 2, total: 4 },
            Progress { done: 3, total: 4 },
            Progress { done: 4, total: 4 },
        ]);
        assert(run.reports.map_values(|r: UpdateProgressView| r.stage) =~= seq![
            Stage::Installing,
            Stage::Installing,
            Stage::Installing,
            Stage::Installing,
            Stage::Completed,
        ]);
    }
}

/// The files that exist after `action` ended as `outcome` says, where
/// `files` existed before: a rename that succeeded has moved the name, a
/// removal that succeeded has taken it away, a write that succeeded has
/// added it, and an action that failed has changed nothing.
pub open spec fn files_after(
    files: Set<Seq<char>>,
    action: InstallActionView,
    outcome: InstallEventView,
) -> Set<Seq<char>> {
    match (action, outcome) {
        (InstallActionView::Rename { from, to }, InstallEventView::Done) => files.remove(
            from,
        ).insert(to),
        (InstallActionView::RemoveFile(path), InstallEventView::Done) => files.remove(path),
        (InstallActionView::WriteFile { path, contents }, InstallEventView::Done) => files.insert(
            path,
        ),
        _ => files,
    }
}

/// When the staged file cannot be put in place, the installer asks for
/// the backup to be renamed back to the name of the executable, and then
/// fails with the error of the failed swap whether or not that worked.
/// Afterwards the backup is gone exactly if the rename back succeeded.
///
/// `files` are the files that exist when the executable is about to be
/// backed up; `restored` says whether the rename back succeeds, and
/// `why_not` why it does not.
pub proof fn lemma_failed_swap_rolls_back(
    m: InstallerView,
    files: Set<Seq<char>>,
    reason: Seq<char>,
    restored: bool,
    why_not: Seq<char>,
)
    requires
        m.state == InstallState::BackingUp,
    ensures
        ({
            let backup = backup_path(m.executable);
            let outcome = if restored {
                InstallEventView::Done
            } else {
                InstallEventView::Failed(why_not)
            };
            let (m1, backed_up) = install_step(m, InstallEventView::Done);
            let files1 = files_after(files, backup_rename(m), InstallEventView::Done);
            let (m2, rollback) = install_step(m1, InstallEventView::Failed(reason));
            let files2 = files_after(files1, backed_up.action, InstallEventView::Failed(reason));
            let (m3, last) = install_step(m2, outcome);
            let files3 = files_after(files2, rollback.action, outcome);
            &&& backed_up.action == swap_rename(m)
            &&& rollback == silent(restore_rename(m))
            &&& files2.contains(backup)
            &&& !files3.contains(backup) <==> restored
            &&& restored ==> files3.contains(m.executable)
            &&& m3.state == InstallState::Failed
            &&& last == silent(
                InstallActionView::Fail(
                    described(ErrorKind::Filesystem, "Failed to install new exe: "@, reason),
                ),
            )
        }),
{
    reveal_strlit(".old");
    let backup = backup_path(m.executable);
    assert(backup.len() == m.executable.len() + 4);
    assert(backup != m.executable);
}

} // verus!
