use codex_longwatch::diagnostics::{
    build_crash_report, build_support_report, command_version, configure_report_directory,
    crash_file_name, crash_message, default_report_directory, inspect_codex_cli, latest_log,
    log_tail, single_instance_name, truncate_chars, wait_for_version, CodexCliInfo, ReportContext,
    WaitStep, LOG_TAIL_BYTES, REPLY_PREVIEW_CHARS,
};
use codex_longwatch::paths::PathStyle;
use codex_longwatch::queue::QueueSnapshot;
use codex_longwatch::transport::TransportKind;

fn context(logs: Result<String, String>) -> ReportContext {
    ReportContext {
        generated_at: "2026-07-28T01:00:00Z".into(),
        app_version: "1.0.0".into(),
        system: "Linux (x86_64)".into(),
        config_directory: "/c".into(),
        logs,
    }
}

fn cli() -> CodexCliInfo {
    CodexCliInfo {
        requested_path: "codex".into(),
        resolved_path: Some("C:/codex.cmd".into()),
        version: Some("codex-cli 1.2.3".into()),
        error: None,
    }
}

#[test]
fn support_report_contains_live_transport_but_no_prompt_field() {
    let cli = cli();
    let mut snapshot = QueueSnapshot::default();
    snapshot.transport_status.kind = TransportKind::AppServer;
    snapshot.transport_status.connected = true;
    snapshot.transport_status.server_agent = Some("codex_cli_rs/1.2.3".into());

    let report = build_support_report(&context(Ok("recent log".into())), &cli, &snapshot);

    assert!(report.contains("codex-cli 1.2.3"));
    assert!(report.contains("Codex app-server"));
    assert!(report.contains("recent log"));
    assert!(!report.contains("任务原文："));
    assert!(report.contains("连接状态：已连接\n"));
    assert!(report.contains("线程 ID：无\n"));
}

#[test]
fn truncates_large_reply_previews() {
    let value = "字".repeat(REPLY_PREVIEW_CHARS + 10);
    let truncated = truncate_chars(&value, REPLY_PREVIEW_CHARS);
    assert!(truncated.ends_with("…（已截断）"));
    assert!(truncated.chars().count() < value.chars().count());
}

#[test]
fn versions_come_from_either_stream() {
    assert_eq!(
        command_version(true, "exit status: 0", "codex-cli 9.9.9\r\n", "").unwrap(),
        "codex-cli 9.9.9"
    );
    assert_eq!(
        command_version(true, "exit status: 0", "", "codex-cli 1\nmore\n").unwrap(),
        "codex-cli 1"
    );
    assert!(command_version(true, "exit status: 0", " \n", "").is_err());
    assert!(command_version(false, "exit status: 2", "boom", "").is_err());
    assert_eq!(wait_for_version(true, 9_000), WaitStep::Read);
    assert_eq!(wait_for_version(false, 2_999), WaitStep::Sleep);
    assert_eq!(wait_for_version(false, 3_000), WaitStep::GiveUp);
}

#[test]
fn the_command_is_inspected() {
    let info = inspect_codex_cli("codex", Ok("/bin/codex".into()), Ok("v1".into()));
    assert!(info.available());
    assert_eq!(info.path_label(), "/bin/codex");
    assert_eq!(info.version_label(), "v1");
    let again = inspect_codex_cli("./codex", Ok("/bin//codex".into()), Ok("v1".into()));
    assert!(!info.equals(&again, PathStyle::Unix));
    let again = inspect_codex_cli("codex", Ok("/bin//codex".into()), Ok("v1".into()));
    assert!(info.equals(&again, PathStyle::Unix));
    let missing = inspect_codex_cli("codex", Err("cannot find".into()), Err("unused".into()));
    assert!(!missing.available());
    assert_eq!(missing.path_label(), "codex");
    assert_eq!(missing.version_label(), "版本读取失败");
    let silent = inspect_codex_cli("codex", Ok("/bin/codex".into()), Err("timeout".into()));
    assert_eq!(silent.error.as_deref(), Some("timeout"));
}

#[test]
fn the_end_of_a_log_is_shown() {
    assert_eq!(log_tail(&b"a\xff".to_vec()), "a\u{fffd}");
    let mut log = vec![b'x'; 10];
    log.extend(vec![b'y'; LOG_TAIL_BYTES]);
    assert_eq!(log_tail(&log), "y".repeat(LOG_TAIL_BYTES));
    assert_eq!(latest_log(&vec![3, 9, 9, 1]), Some(2));
    assert_eq!(latest_log(&Vec::new()), None);
}

#[test]
fn crashes_are_reported() {
    let report = build_crash_report(&context(Err("denied".into())), "boom", "frame 0");
    assert!(report.contains("异常：boom\n"));
    assert!(report.contains("frame 0"));
    assert!(report.contains("读取最近日志失败：denied"));
    assert_eq!(crash_file_name("20260728"), "crash-20260728.txt");
    assert!(crash_message("boom", &Some("/r".into())).ends_with("/r"));
    assert!(crash_message("boom", &None).starts_with("boom\n\n"));
    assert_eq!(configure_report_directory("/c", PathStyle::Unix), "/c/crash-reports");
    assert_eq!(default_report_directory("/tmp/", PathStyle::Unix), "/tmp/Longwatch/crash-reports");
    assert_eq!(single_instance_name("/l", true), "/l");
    assert_eq!(
        single_instance_name("/l", false),
        "Longwatch-for-Codex-98b44998-f31f-45f1-9a36-bf78c7370f87"
    );
}

#[test]
fn the_report_depends_on_what_is_shown() {
    let mut first = QueueSnapshot::default();
    let mut second = QueueSnapshot::default();
    first.empty_reply_count = 3;
    second.reply_preview = "x".into();
    let plain = build_support_report(&context(Ok("log".into())), &cli(), &QueueSnapshot::default());
    assert_eq!(build_support_report(&context(Ok("log".into())), &cli(), &first), plain);
    assert_ne!(build_support_report(&context(Ok("log".into())), &cli(), &second), plain);
}
