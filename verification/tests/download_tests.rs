use miaogu_notepad::download::{
    add_capped, report_is_due, transfer_progress, Download, DownloadAction, DownloadEvent,
    DownloadState, DownloadStep, REPORT_EVERY, STAGING_SUFFIX,
};
use miaogu_notepad::error::ErrorKind;
use miaogu_notepad::progress::{Progress, Stage, UpdateProgress};

const URL: &str = "https://example.invalid/app.exe";

fn value(p: &Progress) -> f64 {
    p.done as f64 / p.total as f64
}

fn streaming(content_length: Option<u64>) -> Download {
    let mut d = Download::new(URL);
    d.step(DownloadEvent::Begin);
    d.step(DownloadEvent::Responded {
        status: 200,
        status_line: "200 OK".to_string(),
        content_length,
    });
    d.step(DownloadEvent::ExecutableAt("/opt/app/notepad".to_string()));
    d.step(DownloadEvent::Created);
    assert_eq!(d.state, DownloadState::Streaming);
    d
}

fn failure_of(step: DownloadStep) -> (ErrorKind, String) {
    assert!(step.events.is_empty());
    match step.action {
        DownloadAction::Finish(Err(e)) => (e.kind, e.message),
        other => panic!("unexpected action {:?}", other),
    }
}

#[test]
fn download_constants() {
    assert_eq!(REPORT_EVERY, 512 * 1024);
    assert_eq!(STAGING_SUFFIX, ".new");
}

#[test]
fn download_begins_with_a_report_and_the_request() {
    let mut d = Download::new(URL);
    assert_eq!(d.state, DownloadState::Idle);
    let step = d.step(DownloadEvent::Begin);
    assert_eq!(
        step.events,
        vec![UpdateProgress {
            stage: Stage::Downloading,
            progress: Progress { done: 0, total: 1 },
            message: "开始下载更新文件...".to_string(),
            error: None,
        }]
    );
    assert_eq!(
        step.action,
        DownloadAction::Request { url: URL.to_string(), user_agent: "miaogu-notepad".to_string() }
    );
    assert_eq!(d.state, DownloadState::Requesting);
}

#[test]
fn download_stages_beside_the_executable() {
    let mut d = Download::new(URL);
    d.step(DownloadEvent::Begin);
    let step = d.step(DownloadEvent::Responded {
        status: 200,
        status_line: "200 OK".to_string(),
        content_length: Some(10),
    });
    assert!(step.events.is_empty());
    assert_eq!(step.action, DownloadAction::LocateExecutable);
    assert_eq!(d.total, 10);
    let step = d.step(DownloadEvent::ExecutableAt("C:\\app\\notepad.exe".to_string()));
    assert!(step.events.is_empty());
    assert_eq!(step.action, DownloadAction::CreateFile("C:\\app\\notepad.exe.new".to_string()));
    let step = d.step(DownloadEvent::Created);
    assert!(step.events.is_empty());
    assert_eq!(step.action, DownloadAction::StoreNextChunk);
}

#[test]
fn download_reports_when_a_boundary_is_crossed() {
    let mut d = streaming(Some(2 * 1024 * 1024));
    let step = d.step(DownloadEvent::Stored(524287));
    assert!(step.events.is_empty());
    assert_eq!(step.action, DownloadAction::StoreNextChunk);
    let step = d.step(DownloadEvent::Stored(1));
    assert_eq!(step.events.len(), 1);
    assert_eq!(step.events[0].stage, Stage::Downloading);
    assert_eq!(step.events[0].progress, Progress { done: 524288, total: 2097152 });
    assert_eq!(value(&step.events[0].progress), 0.25);
    assert_eq!(step.events[0].message, "正在下载... 25.0%");
    assert_eq!(step.events[0].error, None);
    let step = d.step(DownloadEvent::Stored(100));
    assert!(step.events.is_empty());
    let step = d.step(DownloadEvent::Stored(0));
    assert!(step.events.is_empty());
    // one chunk that passes two boundaries gives one report
    let step = d.step(DownloadEvent::Stored(1024 * 1024 + 5));
    assert_eq!(step.events.len(), 1);
    assert_eq!(step.events[0].progress, Progress { done: 1572969, total: 2097152 });
    assert_eq!(step.events[0].message, "正在下载... 75.0%");
    assert_eq!(d.received, 1572969);
}

#[test]
fn download_without_length_reports_zero_until_the_end() {
    let mut d = streaming(None);
    let step = d.step(DownloadEvent::Stored(600000));
    assert_eq!(step.events.len(), 1);
    assert_eq!(step.events[0].progress, Progress { done: 0, total: 1 });
    assert_eq!(value(&step.events[0].progress), 0.0);
    assert_eq!(step.events[0].message, "正在下载... 0.0%");
    let step = d.step(DownloadEvent::EndOfStream);
    assert_eq!(step.events.len(), 1);
    assert_eq!(value(&step.events[0].progress), 1.0);
}

#[test]
fn download_progress_never_passes_one() {
    let mut d = streaming(Some(100));
    let step = d.step(DownloadEvent::Stored(1024 * 1024));
    assert_eq!(step.events.len(), 1);
    assert_eq!(step.events[0].progress, Progress { done: 100, total: 100 });
    assert_eq!(step.events[0].message, "正在下载... 100.0%");
}

#[test]
fn download_completes_with_the_staged_path() {
    let mut d = streaming(Some(3));
    d.step(DownloadEvent::Stored(3));
    let step = d.step(DownloadEvent::EndOfStream);
    assert_eq!(
        step.events,
        vec![UpdateProgress {
            stage: Stage::Downloading,
            progress: Progress { done: 1, total: 1 },
            message: "下载完成".to_string(),
            error: None,
        }]
    );
    assert_eq!(step.action, DownloadAction::Flush);
    assert_eq!(d.state, DownloadState::Flushing);
    let step = d.step(DownloadEvent::Flushed);
    assert!(step.events.is_empty());
    assert_eq!(step.action, DownloadAction::Finish(Ok("/opt/app/notepad.new".to_string())));
    assert_eq!(d.state, DownloadState::Finished);
}

#[test]
fn download_request_failure() {
    let mut d = Download::new(URL);
    d.step(DownloadEvent::Begin);
    let (kind, message) = failure_of(d.step(DownloadEvent::RequestFailed("timed out".to_string())));
    assert_eq!(kind, ErrorKind::Network);
    assert_eq!(message, "Failed to start download: timed out");
    assert_eq!(d.state, DownloadState::Finished);
}

#[test]
fn download_bad_status() {
    let mut d = Download::new(URL);
    d.step(DownloadEvent::Begin);
    let (kind, message) = failure_of(d.step(DownloadEvent::Responded {
        status: 503,
        status_line: "503 Service Unavailable".to_string(),
        content_length: Some(5),
    }));
    assert_eq!(kind, ErrorKind::Network);
    assert_eq!(message, "Download failed with status: 503 Service Unavailable");
}

#[test]
fn download_unknown_executable() {
    let mut d = Download::new(URL);
    d.step(DownloadEvent::Begin);
    d.step(DownloadEvent::Responded {
        status: 200,
        status_line: "200 OK".to_string(),
        content_length: None,
    });
    let (kind, message) =
        failure_of(d.step(DownloadEvent::ExecutableUnknown("no such process".to_string())));
    assert_eq!(kind, ErrorKind::Filesystem);
    assert_eq!(message, "Failed to get current exe path: no such process");
}

#[test]
fn download_create_failure() {
    let mut d = Download::new(URL);
    d.step(DownloadEvent::Begin);
    d.step(DownloadEvent::Responded {
        status: 200,
        status_line: "200 OK".to_string(),
        content_length: None,
    });
    d.step(DownloadEvent::ExecutableAt("/opt/app/notepad".to_string()));
    let (kind, message) = failure_of(d.step(DownloadEvent::CreateFailed("denied".to_string())));
    assert_eq!(kind, ErrorKind::Filesystem);
    assert_eq!(message, "Failed to create temp file: denied");
}

#[test]
fn download_chunk_read_failure() {
    let mut d = streaming(Some(10));
    d.step(DownloadEvent::Stored(4));
    let (kind, message) = failure_of(d.step(DownloadEvent::ReadFailed("reset".to_string())));
    assert_eq!(kind, ErrorKind::Network);
    assert_eq!(message, "Failed to read chunk: reset");
    assert_eq!(d.state, DownloadState::Finished);
    assert_eq!(d.received, 4);
}

#[test]
fn download_chunk_write_failure() {
    let mut d = streaming(Some(10));
    let (kind, message) = failure_of(d.step(DownloadEvent::WriteFailed("disk full".to_string())));
    assert_eq!(kind, ErrorKind::Filesystem);
    assert_eq!(message, "Failed to write chunk: disk full");
}

#[test]
fn download_flush_failure() {
    let mut d = streaming(Some(10));
    d.step(DownloadEvent::EndOfStream);
    let (kind, message) = failure_of(d.step(DownloadEvent::FlushFailed("io".to_string())));
    assert_eq!(kind, ErrorKind::Filesystem);
    assert_eq!(message, "Failed to flush file: io");
}

#[test]
fn download_out_of_turn() {
    let mut d = Download::new(URL);
    let (kind, message) = failure_of(d.step(DownloadEvent::Stored(5)));
    assert_eq!(kind, ErrorKind::State);
    assert_eq!(message, "Download driven out of turn");
    assert_eq!(d.state, DownloadState::Finished);
    assert_eq!(d.received, 0);
    let (kind, _) = failure_of(d.step(DownloadEvent::Begin));
    assert_eq!(kind, ErrorKind::State);
}

#[test]
fn download_failure_asks_for_no_removal() {
    let mut d = streaming(Some(10));
    let step = d.step(DownloadEvent::WriteFailed("disk full".to_string()));
    assert!(matches!(step.action, DownloadAction::Finish(Err(_))));
    assert_eq!(d.staged, "/opt/app/notepad.new");
}

#[test]
fn received_bytes_are_capped() {
    assert_eq!(add_capped(1, 2), 3);
    assert_eq!(add_capped(u64::MAX, 0), u64::MAX);
    assert_eq!(add_capped(u64::MAX - 1, 1), u64::MAX);
    assert_eq!(add_capped(u64::MAX - 1, 2), u64::MAX);
    assert_eq!(add_capped(u64::MAX, u64::MAX), u64::MAX);
    let mut d = streaming(Some(10));
    d.step(DownloadEvent::Stored(u64::MAX));
    d.step(DownloadEvent::Stored(7));
    assert_eq!(d.received, u64::MAX);
}

#[test]
fn reports_are_due_at_multiples() {
    assert!(!report_is_due(0, 0));
    assert!(!report_is_due(0, 524287));
    assert!(report_is_due(0, 524288));
    assert!(report_is_due(524287, 524288));
    assert!(!report_is_due(524288, 524288));
    assert!(!report_is_due(524288, 1048575));
    assert!(report_is_due(524288, 1048576));
    assert!(report_is_due(1, 5 * 524288));
}

#[test]
fn transfer_progress_messages() {
    let e = transfer_progress(1, 3);
    assert_eq!(e.stage, Stage::Downloading);
    assert_eq!(e.progress, Progress { done: 1, total: 3 });
    assert_eq!(e.message, "正在下载... 33.3%");
    assert_eq!(transfer_progress(2, 3).message, "正在下载... 66.7%");
    assert_eq!(transfer_progress(1, 8).message, "正在下载... 12.5%");
    assert_eq!(transfer_progress(1, 2000).message, "正在下载... 0.1%");
    assert_eq!(transfer_progress(1, 2001).message, "正在下载... 0.0%");
    assert_eq!(transfer_progress(5, 5).message, "正在下载... 100.0%");
    assert_eq!(transfer_progress(9, 0).message, "正在下载... 0.0%");
    assert_eq!(transfer_progress(u64::MAX, u64::MAX).message, "正在下载... 100.0%");
    assert_eq!(transfer_progress(u64::MAX - 1, u64::MAX).message, "正在下载... 100.0%");
}
