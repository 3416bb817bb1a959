use codex_longwatch::config::QueueConfig;
use codex_longwatch::diagnostics::CodexCliInfo;
use codex_longwatch::platform::tray::{TrayAction, TrayControl};
use codex_longwatch::queue::{QueuePhase, QueueSnapshot};
use codex_longwatch::runtime::engine::RuntimeCommand;
use codex_longwatch::ui::{
    attempt_grid, attempt_route, calendar_day, cli_status, confetti_motion, conversation_text, copy_label,
    friendly_phase, hidden_attempts_text, is_retry_status, layout, next_attempt_label_at,
    phase_accent, phase_color, phase_detail, phrases_line, primary_action_label, primary_tone,
    reply_tag_label, route_summary, secondary_action_label, secondary_tone, simple_status_title,
    status_icon, status_surface, status_surface_border, tag_theme, texture_alpha,
    transport_status_text, tray_command, tray_control, CopyFeedback, Day, Effect, LocalTime,
    StatusIcon, Tone, WindowState,
};

const SECOND: i128 = 1_000_000_000;
const NOW: i128 = 1_785_200_400 * SECOND;

fn local(day: i32) -> LocalTime {
    LocalTime {
        seconds: "09:00:42".into(),
        minutes: "09:03".into(),
        date: "08-02 09:03".into(),
        day,
        today: 100,
    }
}

fn window(phase: QueuePhase) -> WindowState {
    WindowState {
        config: QueueConfig::default(),
        snapshot: QueueSnapshot { phase, ..QueueSnapshot::default() },
        advanced_open: false,
        pulsing: false,
        route_motion_frame: 0,
        prompt_error: false,
        copy_feedback: CopyFeedback::Copied,
        diagnostic_copy_feedback: CopyFeedback::Idle,
    }
}

#[test]
fn retry_error_is_kept_in_the_conversation_and_simplified_on_the_left() {
    let error = "stream disconnected before completion: error sending request for url (https://anyrouter.top/v1/responses)";
    let snapshot = QueueSnapshot {
        phase: QueuePhase::Backoff,
        status_message: format!("{error}；已安排低频重试"),
        reply_preview: error.into(),
        ..QueueSnapshot::default()
    };

    assert_eq!(conversation_text(&snapshot), error);
    assert_eq!(simple_status_title(&snapshot), "等待下一次重试");
}

#[test]
fn internal_retry_status_moves_to_the_codex_message_when_no_preview_exists() {
    let status = "Codex 正在内部重试：Reconnecting... 2/5";
    let snapshot = QueueSnapshot {
        phase: QueuePhase::Waiting,
        status_message: status.into(),
        ..QueueSnapshot::default()
    };

    assert_eq!(conversation_text(&snapshot), status);
    assert_eq!(simple_status_title(&snapshot), "Codex 正在自动重试");
}

#[test]
fn near_retry_deadline_uses_a_second_level_countdown() {
    let now = NOW;
    let label = next_attempt_label_at(now + 42 * SECOND, now, &local(100));

    assert!(label.starts_with("约 42 秒后"));
    assert!(label.contains(':'));
}

#[test]
fn minute_scale_retry_deadline_is_rounded_for_readability() {
    let now = NOW;
    let label = next_attempt_label_at(now + 190 * SECOND, now, &local(100));

    assert!(label.starts_with("约 3 分钟后"));
}

#[test]
fn far_deadlines_are_shown_by_the_clock() {
    let at = |seconds: i128, day| next_attempt_label_at(NOW + seconds * SECOND, NOW, &local(day));
    assert_eq!(at(0, 100), "即将");
    assert_eq!(at(-5, 100), "即将");
    assert_eq!(at(89, 100), "约 89 秒后（09:00:42）");
    assert_eq!(at(90, 100), "约 2 分钟后（09:03）");
    assert_eq!(at(3600, 100), "今天 09:03");
    assert_eq!(at(3600, 101), "明天 09:03");
    assert_eq!(at(3600, 99), "08-02 09:03");
    assert_eq!(at(3600, 102), "08-02 09:03");
    assert_eq!(calendar_day(i32::MIN, i32::MAX), Day::Other);
    assert_eq!(calendar_day(8, 7), Day::Tomorrow);
}

#[test]
fn starting_takes_over_the_fields() {
    let mut state = window(QueuePhase::Idle);
    match state.start_now("  task\n".into(), " /work ".into(), "a| |b".into()) {
        Effect::AcknowledgeAndSend(RuntimeCommand::StartConfigured(config)) => {
            assert_eq!(config.prompt, "  task\n");
            assert_eq!(config.working_directory.as_deref(), Some("/work"));
            assert_eq!(config.failure_phrases, ["a", "b"]);
        }
        other => panic!("{other:?}"),
    }
    assert!(!state.prompt_error);
    let mut state = window(QueuePhase::Idle);
    assert!(matches!(
        state.start_now(" \n".into(), String::new(), String::new()),
        Effect::Nothing
    ));
    assert!(state.prompt_error);
}

#[test]
fn buttons_follow_the_phase() {
    let mut busy = window(QueuePhase::Waiting);
    assert!(matches!(
        busy.primary_action_now("x".into(), String::new(), String::new()),
        Effect::Send(RuntimeCommand::Pause)
    ));
    let mut done = window(QueuePhase::Success);
    assert!(matches!(
        done.secondary_action_now(),
        Effect::AcknowledgeAndSend(RuntimeCommand::Stop)
    ));
    done.snapshot.active_thread_id = Some("t".into());
    assert!(matches!(
        done.secondary_action_now(),
        Effect::OpenThread(Some(thread)) if thread == "t"
    ));
    assert!(matches!(
        done.set_full_screen(false),
        Effect::AcknowledgeAndSend(RuntimeCommand::Configure(config))
            if !config.full_screen_flash_enabled
    ));
    assert!(matches!(
        done.set_audio_alert(false),
        Effect::Send(RuntimeCommand::Configure(config)) if !config.audio_alert_enabled
    ));
    assert!(matches!(
        done.set_gui_fallback(true),
        Effect::Send(RuntimeCommand::Configure(config)) if config.gui_fallback_enabled
    ));
}

#[test]
fn keys_start_and_close() {
    let mut state = window(QueuePhase::Idle);
    let (used, effect) =
        state.handle_key("enter", true, "x".into(), String::new(), String::new());
    assert!(used && matches!(effect, Effect::AcknowledgeAndSend(_)));
    state.toggle_advanced_now();
    let (used, effect) =
        state.handle_key("return", true, "x".into(), String::new(), String::new());
    assert!(used && matches!(effect, Effect::Nothing));
    let (used, _) = state.handle_key("escape", false, String::new(), String::new(), String::new());
    assert!(used && !state.advanced_open);
    let (used, _) = state.handle_key("escape", false, String::new(), String::new(), String::new());
    assert!(!used);
}

#[test]
fn snapshots_move_the_window() {
    let mut state = window(QueuePhase::Waiting);
    let next = QueueSnapshot {
        phase: QueuePhase::Success,
        retry_alert_count: 40,
        reply_preview: "done".into(),
        ..QueueSnapshot::default()
    };
    let effects = state.update_snapshot(next, true);
    assert!(effects.scroll_to_end && effects.begin_pulse);
    assert_eq!(effects.retry_pulses, 16);
    assert_eq!(state.copy_feedback, CopyFeedback::Idle);
    assert!(state.pulsing);
    assert!(state.tick());
    assert_eq!(state.route_motion_frame, 1);
    assert!(!window(QueuePhase::Paused).tick());
}

#[test]
fn labels_and_colours_of_phases() {
    assert_eq!(friendly_phase(QueuePhase::Backoff), "稍后重试");
    assert_eq!(primary_action_label(QueuePhase::Paused), "继续排队");
    assert_eq!(primary_action_label(QueuePhase::Sending), "暂停排队");
    assert_eq!(secondary_action_label(QueuePhase::Success), "打开结果");
    assert_eq!(reply_tag_label(QueuePhase::FatalError), "需处理");
    assert_eq!(primary_tone(QueuePhase::Waiting), Tone::Warning);
    assert_eq!(secondary_tone(QueuePhase::Idle), Tone::Danger);
    assert_eq!(tag_theme(QueuePhase::Success), Tone::Success);
    assert_eq!(phase_color(QueuePhase::Success), 0x16a673);
    assert_eq!(phase_accent(QueuePhase::Success, true), 0x0b7f58);
    assert_eq!(status_surface(QueuePhase::Idle), 0xf7f8f8ff);
    assert_eq!(status_surface_border(QueuePhase::Waiting), 0xf2ceb2);
    assert_eq!(status_icon(QueuePhase::Success), (StatusIcon::Check, 64, 76));
    assert!(layout(QueuePhase::Success, false, true).status_padding == 20);
    assert!(phase_detail(QueuePhase::Backoff, &Some("约 5 秒后".into()), 3).contains("约 5 秒后"));
    assert_eq!(copy_label(CopyFeedback::Copied, "复制"), "已复制");
    assert!(is_retry_status("RECONNECTING 1/5") && !is_retry_status("ok"));
    assert_eq!(phrases_line(&vec!["a".into(), "b".into()]), "a | b");
    assert!(transport_status_text(&QueueSnapshot::default()).contains("未连接"));
}

#[test]
fn the_tray_follows_the_phase() {
    assert_eq!(tray_control(QueuePhase::Backoff), TrayControl::Pause);
    assert_eq!(tray_control(QueuePhase::Paused), TrayControl::Resume);
    assert_eq!(tray_control(QueuePhase::Success), TrayControl::Disabled);
    assert!(matches!(tray_command(TrayAction::Resume), Some(RuntimeCommand::Start)));
    assert!(tray_command(TrayAction::OpenResult).is_none());
}

#[test]
fn attempts_are_drawn() {
    let route = attempt_route(QueuePhase::Waiting, 1, 0);
    assert_eq!(route.stage, 3);
    assert!(route.dot(3, QueuePhase::Waiting).current);
    assert_eq!(route.dot(3, QueuePhase::Waiting).size, 11);
    assert!(route.connector(2) && !route.connector(3));
    assert_eq!(route_summary(7, 2), "尝试 7 次 · 重试 2 轮");
    let grid = attempt_grid(27);
    assert_eq!((grid.active_cells, grid.hidden_count), (20, 7));
    assert_eq!(hidden_attempts_text(7).as_deref(), Some("另有 7 次未展开显示"));
    assert_eq!(hidden_attempts_text(0), None);
    assert_eq!(texture_alpha(0, 0, 0), 0x42);
    assert_eq!(confetti_motion(1, 2).drift, 12);
    let cli = CodexCliInfo {
        requested_path: "codex".into(),
        resolved_path: None,
        version: None,
        error: None,
    };
    assert_eq!(cli_status(&cli), "Codex CLI 不可用");
}
