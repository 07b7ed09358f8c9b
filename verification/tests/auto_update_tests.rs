use miaogu_notepad::auto_update::{AutoUpdate, FlowAction, FlowEvent, FlowState};
use miaogu_notepad::error::{ErrorKind, UpdateError};
use miaogu_notepad::progress::{Progress, Stage, UpdateProgress};
use miaogu_notepad::release::VersionInfo;

fn info(has_update: bool, url: Option<&str>) -> VersionInfo {
    VersionInfo {
        current_version: "1.3.1".to_string(),
        latest_version: "1.4.0".to_string(),
        has_update,
        download_url: url.map(|u| u.to_string()),
        release_notes: None,
        published_at: None,
    }
}

fn error_report(message: &str, error: &str) -> UpdateProgress {
    UpdateProgress {
        stage: Stage::Error,
        progress: Progress { done: 0, total: 1 },
        message: message.to_string(),
        error: Some(error.to_string()),
    }
}

#[test]
fn flow_begins_with_checking() {
    let mut flow = AutoUpdate::new();
    assert_eq!(flow.state, FlowState::Idle);
    let step = flow.step(FlowEvent::Begin);
    assert_eq!(
        step.events,
        vec![UpdateProgress {
            stage: Stage::Checking,
            progress: Progress { done: 0, total: 1 },
            message: "检查更新中...".to_string(),
            error: None,
        }]
    );
    assert_eq!(step.action, FlowAction::Resolve);
    assert_eq!(flow.state, FlowState::Checking);
}

#[test]
fn no_update_completes_without_download_or_install() {
    let mut flow = AutoUpdate::new();
    let mut reports = Vec::new();
    let mut actions = Vec::new();
    let step = flow.step(FlowEvent::Begin);
    reports.extend(step.events);
    actions.push(step.action);
    let step = flow.step(FlowEvent::Resolved(info(false, Some("https://example.invalid/a.exe"))));
    reports.extend(step.events);
    actions.push(step.action);
    assert_eq!(flow.state, FlowState::Finished);
    let completed: Vec<&UpdateProgress> =
        reports.iter().filter(|r| r.stage == Stage::Completed).collect();
    assert_eq!(completed.len(), 1);
    assert_eq!(completed[0].progress.done as f64 / completed[0].progress.total as f64, 1.0);
    assert_eq!(completed[0].message, "当前已是最新版本");
    assert_eq!(completed[0].error, None);
    assert_eq!(reports.len(), 2);
    assert_eq!(
        actions,
        vec![FlowAction::Resolve, FlowAction::Finish(Ok("No update available".to_string()))]
    );
    // whatever comes in afterwards, nothing is downloaded or installed
    let step = flow.step(FlowEvent::Downloaded("/tmp/x".to_string()));
    assert!(step.events.is_empty());
    assert!(matches!(step.action, FlowAction::Finish(Err(_))));
}

#[test]
fn failed_check_ends_the_flow() {
    let mut flow = AutoUpdate::new();
    flow.step(FlowEvent::Begin);
    let cause = UpdateError { kind: ErrorKind::Network, message: "no route".to_string() };
    let step = flow.step(FlowEvent::ResolveFailed(cause));
    assert_eq!(step.events, vec![error_report("检查更新失败", "检查更新失败: no route")]);
    assert_eq!(
        step.action,
        FlowAction::Finish(Err(UpdateError {
            kind: ErrorKind::Network,
            message: "检查更新失败: no route".to_string(),
        }))
    );
    assert_eq!(flow.state, FlowState::Finished);
}

#[test]
fn update_without_asset_ends_the_flow() {
    let mut flow = AutoUpdate::new();
    flow.step(FlowEvent::Begin);
    let step = flow.step(FlowEvent::Resolved(info(true, None)));
    assert_eq!(step.events, vec![error_report("获取下载链接失败", "未找到下载链接")]);
    assert_eq!(
        step.action,
        FlowAction::Finish(Err(UpdateError {
            kind: ErrorKind::MissingAsset,
            message: "未找到下载链接".to_string(),
        }))
    );
    assert_eq!(flow.state, FlowState::Finished);
}

#[test]
fn update_is_downloaded_then_installed() {
    let mut flow = AutoUpdate::new();
    flow.step(FlowEvent::Begin);
    let step = flow.step(FlowEvent::Resolved(info(true, Some("https://example.invalid/a.exe"))));
    assert!(step.events.is_empty());
    assert_eq!(step.action, FlowAction::Download("https://example.invalid/a.exe".to_string()));
    assert_eq!(flow.state, FlowState::Downloading);
    let step = flow.step(FlowEvent::Downloaded("/opt/app/notepad.new".to_string()));
    assert!(step.events.is_empty());
    assert_eq!(step.action, FlowAction::Install("/opt/app/notepad.new".to_string()));
    assert_eq!(flow.state, FlowState::Installing);
}

#[test]
fn failed_download_ends_the_flow() {
    let mut flow = AutoUpdate::new();
    flow.step(FlowEvent::Begin);
    flow.step(FlowEvent::Resolved(info(true, Some("https://example.invalid/a.exe"))));
    let cause = UpdateError { kind: ErrorKind::Filesystem, message: "disk full".to_string() };
    let step = flow.step(FlowEvent::DownloadFailed(cause));
    assert_eq!(step.events, vec![error_report("下载更新失败", "下载更新失败: disk full")]);
    assert_eq!(
        step.action,
        FlowAction::Finish(Err(UpdateError {
            kind: ErrorKind::Filesystem,
            message: "下载更新失败: disk full".to_string(),
        }))
    );
}

#[test]
fn failed_install_ends_the_flow() {
    let mut flow = AutoUpdate::new();
    flow.step(FlowEvent::Begin);
    flow.step(FlowEvent::Resolved(info(true, Some("https://example.invalid/a.exe"))));
    flow.step(FlowEvent::Downloaded("/opt/app/notepad.new".to_string()));
    let cause = UpdateError { kind: ErrorKind::Filesystem, message: "New file not found".to_string() };
    let step = flow.step(FlowEvent::InstallFailed(cause));
    assert_eq!(step.events, vec![error_report("安装更新失败", "安装更新失败: New file not found")]);
    assert_eq!(
        step.action,
        FlowAction::Finish(Err(UpdateError {
            kind: ErrorKind::Filesystem,
            message: "安装更新失败: New file not found".to_string(),
        }))
    );
    assert_eq!(flow.state, FlowState::Finished);
}

#[test]
fn flow_out_of_turn_is_a_state_error() {
    let mut flow = AutoUpdate::new();
    let step = flow.step(FlowEvent::Downloaded("/tmp/x".to_string()));
    assert!(step.events.is_empty());
    assert_eq!(
        step.action,
        FlowAction::Finish(Err(UpdateError {
            kind: ErrorKind::State,
            message: "Update driven out of turn".to_string(),
        }))
    );
    assert_eq!(flow.state, FlowState::Finished);
    let step = flow.step(FlowEvent::Begin);
    assert!(step.events.is_empty());
    assert!(matches!(step.action, FlowAction::Finish(Err(_))));
}
