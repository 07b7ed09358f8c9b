use std::collections::HashSet;

use miaogu_notepad::error::ErrorKind;
use miaogu_notepad::install::{
    backup_path_of, install_progress, restart_script_text, InstallAction, InstallEvent,
    InstallState, InstallStep, Installer, Platform, BACKUP_SUFFIX, RESTART_SCRIPT_NAME,
};
use miaogu_notepad::progress::{Progress, Stage, UpdateProgress};

const EXE: &str = "/opt/app/notepad";
const STAGED: &str = "/opt/app/notepad.new";
const BACKUP: &str = "/opt/app/notepad.old";
const SCRIPT: &str = "/opt/app/restart_update.bat";

/// A file system that holds names only, with the actions that are to fail.
struct World {
    files: HashSet<String>,
    failing: Vec<InstallAction>,
    performed: Vec<InstallAction>,
    exe_known: bool,
}

impl World {
    fn new(files: &[&str]) -> World {
        World {
            files: files.iter().map(|f| f.to_string()).collect(),
            failing: Vec::new(),
            performed: Vec::new(),
            exe_known: true,
        }
    }

    fn perform(&mut self, action: &InstallAction) -> InstallEvent {
        if self.failing.contains(action) {
            return InstallEvent::Failed("denied".to_string());
        }
        match action {
            InstallAction::ProbeFile(p) => InstallEvent::Exists(self.files.contains(p)),
            InstallAction::LocateExecutable => {
                if self.exe_known {
                    InstallEvent::ExecutableAt { path: EXE.to_string(), script: SCRIPT.to_string() }
                } else {
                    InstallEvent::ExecutableUnknown("gone".to_string())
                }
            }
            InstallAction::RemoveFile(p) => {
                if self.files.remove(p) {
                    InstallEvent::Done
                } else {
                    InstallEvent::Failed("not found".to_string())
                }
            }
            InstallAction::Rename { from, to } => {
                if self.files.remove(from) {
                    self.files.insert(to.clone());
                    InstallEvent::Done
                } else {
                    InstallEvent::Failed("not found".to_string())
                }
            }
            InstallAction::WriteFile { path, .. } => {
                self.files.insert(path.clone());
                InstallEvent::Done
            }
            InstallAction::Launch { .. } => InstallEvent::Done,
            InstallAction::Exit | InstallAction::Fail(_) => unreachable!(),
        }
    }
}

/// Drives an installation to its end; gives the reports and the last action.
fn drive(m: &mut Installer, world: &mut World) -> (Vec<UpdateProgress>, InstallAction) {
    let mut reports = Vec::new();
    let mut event = InstallEvent::Begin;
    loop {
        let InstallStep { events, action } = m.step(event);
        reports.extend(events);
        match action {
            InstallAction::Exit | InstallAction::Fail(_) => return (reports, action),
            other => {
                event = world.perform(&other);
                world.performed.push(other);
            }
        }
    }
}

fn values(reports: &[UpdateProgress]) -> Vec<f64> {
    reports.iter().map(|r| r.progress.done as f64 / r.progress.total as f64).collect()
}

fn failure(action: InstallAction) -> (ErrorKind, String) {
    match action {
        InstallAction::Fail(e) => (e.kind, e.message),
        other => panic!("unexpected action {:?}", other),
    }
}

fn rename(from: &str, to: &str) -> InstallAction {
    InstallAction::Rename { from: from.to_string(), to: to.to_string() }
}

#[test]
fn install_names() {
    assert_eq!(BACKUP_SUFFIX, ".old");
    assert_eq!(RESTART_SCRIPT_NAME, "restart_update.bat");
    assert_eq!(backup_path_of(EXE), BACKUP);
    assert_eq!(backup_path_of(""), ".old");
}

#[test]
fn successful_install_reports_quarters_on_windows() {
    let mut world = World::new(&[EXE, STAGED]);
    let mut m = Installer::new(Platform::Windows, STAGED);
    let (reports, last) = drive(&mut m, &mut world);
    assert_eq!(last, InstallAction::Exit);
    assert_eq!(m.state, InstallState::Restarting);
    assert_eq!(values(&reports), vec![0.0, 0.25, 0.5, 0.75, 1.0]);
    let stages: Vec<Stage> = reports.iter().map(|r| r.stage).collect();
    assert_eq!(
        stages,
        vec![
            Stage::Installing,
            Stage::Installing,
            Stage::Installing,
            Stage::Installing,
            Stage::Completed
        ]
    );
    assert!(reports.iter().all(|r| r.error.is_none()));
    assert_eq!(
        world.performed,
        vec![
            InstallAction::ProbeFile(STAGED.to_string()),
            InstallAction::LocateExecutable,
            InstallAction::ProbeFile(BACKUP.to_string()),
            rename(EXE, BACKUP),
            rename(STAGED, EXE),
            InstallAction::WriteFile {
                path: SCRIPT.to_string(),
                contents: restart_script_text(BACKUP, EXE),
            },
            InstallAction::Launch {
                program: "cmd".to_string(),
                arguments: vec!["/C".to_string(), SCRIPT.to_string()],
            },
        ]
    );
    assert!(world.files.contains(EXE));
    assert!(world.files.contains(BACKUP));
    assert!(!world.files.contains(STAGED));
}

#[test]
fn successful_install_reports_quarters_elsewhere() {
    let mut world = World::new(&[EXE, STAGED]);
    let mut m = Installer::new(Platform::Other, STAGED);
    let (reports, last) = drive(&mut m, &mut world);
    assert_eq!(last, InstallAction::Exit);
    assert_eq!(values(&reports), vec![0.0, 0.25, 0.5, 0.75, 1.0]);
    assert_eq!(
        world.performed,
        vec![
            InstallAction::ProbeFile(STAGED.to_string()),
            InstallAction::LocateExecutable,
            InstallAction::ProbeFile(BACKUP.to_string()),
            rename(EXE, BACKUP),
            rename(STAGED, EXE),
            InstallAction::Launch { program: EXE.to_string(), arguments: vec![] },
            InstallAction::RemoveFile(BACKUP.to_string()),
        ]
    );
    assert!(world.files.contains(EXE));
    assert!(!world.files.contains(BACKUP));
}

#[test]
fn install_report_texts() {
    assert_eq!(
        install_progress(0),
        UpdateProgress {
            stage: Stage::Installing,
            progress: Progress { done: 0, total: 4 },
            message: "开始安装更新...".to_string(),
            error: None,
        }
    );
    assert_eq!(install_progress(1).message, "备份当前版本...");
    assert_eq!(install_progress(2).message, "安装新版本...");
    assert_eq!(install_progress(3).message, "准备重启应用...");
    assert_eq!(
        install_progress(4),
        UpdateProgress {
            stage: Stage::Completed,
            progress: Progress { done: 4, total: 4 },
            message: "更新安装完成！正在重启应用程序...".to_string(),
            error: None,
        }
    );
}

#[test]
fn stale_backup_is_removed_first() {
    let mut world = World::new(&[EXE, STAGED, BACKUP]);
    let mut m = Installer::new(Platform::Windows, STAGED);
    let (reports, last) = drive(&mut m, &mut world);
    assert_eq!(last, InstallAction::Exit);
    assert_eq!(values(&reports), vec![0.0, 0.25, 0.5, 0.75, 1.0]);
    assert_eq!(world.performed[3], InstallAction::RemoveFile(BACKUP.to_string()));
    assert_eq!(world.performed[4], rename(EXE, BACKUP));
}

#[test]
fn missing_staged_file_fails() {
    let mut world = World::new(&[EXE]);
    let mut m = Installer::new(Platform::Windows, STAGED);
    let (reports, last) = drive(&mut m, &mut world);
    assert_eq!(failure(last), (ErrorKind::Filesystem, "New file not found".to_string()));
    assert_eq!(values(&reports), vec![0.0]);
    assert_eq!(m.state, InstallState::Failed);
    assert_eq!(world.performed, vec![InstallAction::ProbeFile(STAGED.to_string())]);
}

#[test]
fn unknown_executable_fails() {
    let mut world = World::new(&[EXE, STAGED]);
    world.exe_known = false;
    let mut m = Installer::new(Platform::Windows, STAGED);
    let (_, last) = drive(&mut m, &mut world);
    assert_eq!(
        failure(last),
        (ErrorKind::Filesystem, "Failed to get current exe path: gone".to_string())
    );
}

#[test]
fn unknown_directory_fails() {
    let mut m = Installer::new(Platform::Windows, STAGED);
    m.step(InstallEvent::Begin);
    m.step(InstallEvent::Exists(true));
    let step = m.step(InstallEvent::DirectoryUnknown);
    assert!(step.events.is_empty());
    assert_eq!(
        failure(step.action),
        (ErrorKind::Filesystem, "Failed to get current directory".to_string())
    );
}

#[test]
fn failed_removal_of_stale_backup_fails() {
    let mut world = World::new(&[EXE, STAGED, BACKUP]);
    world.failing.push(InstallAction::RemoveFile(BACKUP.to_string()));
    let mut m = Installer::new(Platform::Windows, STAGED);
    let (reports, last) = drive(&mut m, &mut world);
    assert_eq!(
        failure(last),
        (ErrorKind::Filesystem, "Failed to remove old backup: denied".to_string())
    );
    assert_eq!(values(&reports), vec![0.0]);
    assert!(world.files.contains(EXE));
}

#[test]
fn failed_backup_fails() {
    let mut world = World::new(&[EXE, STAGED]);
    world.failing.push(rename(EXE, BACKUP));
    let mut m = Installer::new(Platform::Windows, STAGED);
    let (reports, last) = drive(&mut m, &mut world);
    assert_eq!(
        failure(last),
        (ErrorKind::Filesystem, "Failed to backup current exe: denied".to_string())
    );
    assert_eq!(values(&reports), vec![0.0]);
    assert!(world.files.contains(EXE));
    assert!(world.files.contains(STAGED));
}

#[test]
fn failed_swap_restores_the_executable() {
    let mut world = World::new(&[EXE, STAGED]);
    world.failing.push(rename(STAGED, EXE));
    let mut m = Installer::new(Platform::Windows, STAGED);
    let (reports, last) = drive(&mut m, &mut world);
    assert_eq!(
        failure(last),
        (ErrorKind::Filesystem, "Failed to install new exe: denied".to_string())
    );
    assert_eq!(values(&reports), vec![0.0, 0.25]);
    assert_eq!(world.performed.last(), Some(&rename(BACKUP, EXE)));
    assert!(world.files.contains(EXE));
    assert!(!world.files.contains(BACKUP));
    assert!(world.files.contains(STAGED));
    assert_eq!(m.state, InstallState::Failed);
}

#[test]
fn failed_swap_and_failed_restore_leave_the_backup() {
    let mut world = World::new(&[EXE, STAGED]);
    world.failing.push(rename(STAGED, EXE));
    world.failing.push(rename(BACKUP, EXE));
    let mut m = Installer::new(Platform::Other, STAGED);
    let (reports, last) = drive(&mut m, &mut world);
    // the error is that of the swap, not that of the restore
    assert_eq!(
        failure(last),
        (ErrorKind::Filesystem, "Failed to install new exe: denied".to_string())
    );
    assert_eq!(values(&reports), vec![0.0, 0.25]);
    assert_eq!(world.performed.last(), Some(&rename(BACKUP, EXE)));
    assert!(world.files.contains(BACKUP));
    assert!(!world.files.contains(EXE));
}

#[test]
fn swap_failure_reason_is_kept_over_the_restore() {
    let mut m = Installer::new(Platform::Windows, STAGED);
    m.step(InstallEvent::Begin);
    m.step(InstallEvent::Exists(true));
    m.step(InstallEvent::ExecutableAt { path: EXE.to_string(), script: SCRIPT.to_string() });
    m.step(InstallEvent::Exists(false));
    m.step(InstallEvent::Done);
    assert_eq!(m.state, InstallState::Swapping);
    let step = m.step(InstallEvent::Failed("in use".to_string()));
    assert!(step.events.is_empty());
    assert_eq!(step.action, rename(BACKUP, EXE));
    assert_eq!(m.state, InstallState::RollingBack);
    let step = m.step(InstallEvent::Failed("also in use".to_string()));
    assert!(step.events.is_empty());
    assert_eq!(
        failure(step.action),
        (ErrorKind::Filesystem, "Failed to install new exe: in use".to_string())
    );
}

#[test]
fn failed_script_write_fails() {
    let mut world = World::new(&[EXE, STAGED]);
    world.failing.push(InstallAction::WriteFile {
        path: SCRIPT.to_string(),
        contents: restart_script_text(BACKUP, EXE),
    });
    let mut m = Installer::new(Platform::Windows, STAGED);
    let (reports, last) = drive(&mut m, &mut world);
    assert_eq!(
        failure(last),
        (ErrorKind::Filesystem, "Failed to create restart script: denied".to_string())
    );
    assert_eq!(values(&reports), vec![0.0, 0.25, 0.5, 0.75]);
}

#[test]
fn failed_script_launch_fails() {
    let mut world = World::new(&[EXE, STAGED]);
    world.failing.push(InstallAction::Launch {
        program: "cmd".to_string(),
        arguments: vec!["/C".to_string(), SCRIPT.to_string()],
    });
    let mut m = Installer::new(Platform::Windows, STAGED);
    let (reports, last) = drive(&mut m, &mut world);
    assert_eq!(
        failure(last),
        (ErrorKind::Filesystem, "Failed to start restart script: denied".to_string())
    );
    assert_eq!(values(&reports), vec![0.0, 0.25, 0.5, 0.75]);
}

#[test]
fn failed_direct_launch_fails() {
    let mut world = World::new(&[EXE, STAGED]);
    world.failing.push(InstallAction::Launch { program: EXE.to_string(), arguments: vec![] });
    let mut m = Installer::new(Platform::Other, STAGED);
    let (_, last) = drive(&mut m, &mut world);
    assert_eq!(
        failure(last),
        (ErrorKind::Filesystem, "Failed to start new application: denied".to_string())
    );
}

#[test]
fn failed_cleanup_is_not_looked_at() {
    let mut world = World::new(&[EXE, STAGED]);
    world.failing.push(InstallAction::RemoveFile(BACKUP.to_string()));
    let mut m = Installer::new(Platform::Other, STAGED);
    let (reports, last) = drive(&mut m, &mut world);
    assert_eq!(last, InstallAction::Exit);
    assert_eq!(values(&reports), vec![0.0, 0.25, 0.5, 0.75, 1.0]);
    assert!(world.files.contains(BACKUP));
}

#[test]
fn install_out_of_turn_is_a_state_error() {
    let mut m = Installer::new(Platform::Windows, STAGED);
    let step = m.step(InstallEvent::Done);
    assert!(step.events.is_empty());
    assert_eq!(failure(step.action), (ErrorKind::State, "Install driven out of turn".to_string()));
    assert_eq!(m.state, InstallState::Failed);
    let step = m.step(InstallEvent::Begin);
    assert!(step.events.is_empty());
    assert_eq!(failure(step.action).0, ErrorKind::State);
}

#[test]
fn restart_script_contents() {
    assert_eq!(
        restart_script_text("C:\\app\\n.exe.old", "C:\\app\\n.exe"),
        "@echo off\ntimeout /t 2 /nobreak >nul\nif exist \"C:\\app\\n.exe.old\" del \"C:\\app\\n.exe.old\"\nstart \"\" \"C:\\app\\n.exe\"\ndel \"%~f0\"\n"
    );
}
