use codex_longwatch::platform::automation::{
    candidate_score, check_sent_keys, contains_hint, element_identity, find_codex_input,
    has_composer_hint, is_codex_application, is_codex_window, is_mac_input, linux_session_usable,
    rank_candidates, AccessibleNode, AutomationError, ClipboardRestore, ClipboardStep,
    EditableSearch, ElementKind, MacElement, NodeRole, WindowElement,
};
use codex_longwatch::platform::notification::{
    escape_xml, opens_thread, plays_sound_instead, windows_toast_xml, NotificationAction,
    NotificationError,
};
use codex_longwatch::platform::overlay::{
    desktop_bounds, keeps_rest, media_directory, next_sound, pulse_count, pulse_frames,
    show_completion_overlay, show_retry_error_overlay, sound_file, stop_completion_overlay,
    wait_slice, Frame, OverlayKind, OverlayState, SoundStep,
};
use codex_longwatch::platform::shell::{
    check_registry_call, check_registry_removal, dock_icon, is_wayland_session, macos_summary,
    no_terminal, open_directory, open_thread, quote_for_display, read_utf16, registry_text,
    registry_units, resume_command, resume_parameters, show_error_dialog, system_summary, terminals, thread_target,
    windows_summary, IdentityError, OpenDirectoryError, OpenThreadError, ProcessJobError,
    WindowsVersion,
};
use codex_longwatch::platform::tray::{
    cancel_tray_exit, choose_from_menu, reset_tray, set_tray_state, show_window_from_tray,
    take_tray_action, tray_exit_requested, tray_menu, tray_reaction, wide_text, write_wide_buffer,
    MenuCommand, MenuEffect, TrayAction, TrayControl, TrayError, TrayReaction, TrayState,
};

#[test]
fn enabled_audio_uses_a_persistent_looping_alarm_toast() {
    let action = NotificationAction::open_thread("thread-1", "codex");
    let xml = windows_toast_xml("完成", "任务已完成", Some(&action), true);
    assert!(xml.contains("scenario=\"alarm\""));
    assert!(xml.contains("duration=\"long\""));
    assert!(xml.contains("Notification.Looping.Alarm"));
    assert!(xml.contains("loop=\"true\""));
    assert!(xml.contains("content=\"查看\""));
    assert!(xml.contains("activationType=\"foreground\""));
    assert!(xml.contains("arguments=\"open-result\""));
}

#[test]
fn alarm_without_a_thread_keeps_the_system_dismiss_button() {
    let xml = windows_toast_xml("完成", "任务已完成", None, true);
    assert!(xml.contains("<command id=\"dismiss\"/>"));
}

#[test]
fn disabled_audio_keeps_the_regular_silent_notification_action() {
    let action = NotificationAction::open_thread("thread-1", "codex");
    let xml = windows_toast_xml("完成", "任务已完成", Some(&action), false);
    assert!(!xml.contains("scenario=\"alarm\""));
    assert!(xml.contains("audio silent=\"true\""));
    assert!(xml.contains("activationType=\"foreground\""));
    assert!(xml.contains("arguments=\"open-result\""));
}

#[test]
fn texts_are_escaped_for_xml() {
    assert_eq!(
        escape_xml("<a href=\"x\">&'</a>"),
        "&lt;a href=&quot;x&quot;&gt;&amp;&apos;&lt;/a&gt;"
    );
    let xml = windows_toast_xml("<b>", "a & b", None, false);
    assert!(xml.contains("&lt;b&gt;") && xml.contains("a &amp; b") && !xml.contains("<b>"));
}

#[test]
fn notifications_open_their_thread() {
    let action = NotificationAction::open_thread("thread-1", "codex");
    assert_eq!(action.open(), Some(("thread-1".into(), "codex".into())));
    let other = NotificationAction { label: "x".into(), thread_id: None, codex_path: Some("y".into()) };
    assert_eq!(other.open(), None);
    assert!(opens_thread("open") && opens_thread("default") && !opens_thread("close"));
    assert!(plays_sound_instead(false, true));
    assert!(!plays_sound_instead(true, true) && !plays_sound_instead(false, false));
    assert_eq!(
        NotificationError::Native("x".into()).message(),
        "native notification failed: x"
    );
}

#[test]
fn one_success_pulse_at_a_time() {
    let mut state = OverlayState { success_active: false };
    assert_eq!(show_completion_overlay(&mut state), Some(OverlayKind::Success));
    assert_eq!(show_completion_overlay(&mut state), None);
    stop_completion_overlay(&mut state);
    assert_eq!(show_completion_overlay(&mut state), Some(OverlayKind::Success));
    assert_eq!(show_retry_error_overlay(), OverlayKind::RetryError);
}

#[test]
fn pulses_end_dark_and_rest() {
    let frames = pulse_frames(OverlayKind::RetryError);
    assert_eq!(frames.len(), 9);
    assert_eq!(frames[3], Frame { alpha: Some(225), millis: 75 });
    assert_eq!(frames[7].alpha, Some(0));
    assert_eq!(frames[8], Frame { alpha: None, millis: 90 });
    assert_eq!(pulse_frames(OverlayKind::Success).len(), 13);
    assert_eq!(pulse_count(OverlayKind::RetryError), Some(2));
    assert_eq!(pulse_count(OverlayKind::Success), None);
    assert!(keeps_rest(OverlayKind::RetryError, 0, false));
    assert!(!keeps_rest(OverlayKind::RetryError, 1, true));
    assert_eq!(wait_slice(7), 7);
    assert_eq!(wait_slice(700), 16);
    assert_eq!(desktop_bounds(-5, 0, 10, 0), None);
    assert_eq!(desktop_bounds(-5, 0, 10, 3), Some((-5, 0, 10, 3)));
}

#[test]
fn the_alarm_replaces_the_two_sounds() {
    assert_eq!(next_sound(SoundStep::Alarm, true), SoundStep::Done);
    let mut step = SoundStep::Alarm;
    let mut files = Vec::new();
    while step != SoundStep::Done {
        files.extend(sound_file(step));
        step = next_sound(step, false);
    }
    assert_eq!(
        files,
        ["Alarm01.wav", "Windows Notify Calendar.wav", "Windows Notify System Generic.wav"]
    );
    assert_eq!(
        media_directory(&None, &Some("C:\\Windows".into())).as_deref(),
        Some("C:\\Windows\\Media")
    );
    assert_eq!(
        media_directory(&Some("C:\\Windows\\".into()), &None).as_deref(),
        Some("C:\\Windows\\Media")
    );
    assert_eq!(media_directory(&None, &None), None);
}

fn tray() -> TrayState {
    TrayState {
        status: "x".into(),
        control: TrayControl::Pause,
        can_open_result: false,
        exit_requested: false,
        action: None,
    }
}

#[test]
fn the_menu_of_the_tray() {
    let mut state = tray();
    let lines = tray_menu(&state);
    assert!(lines.iter().any(|line| line.text == "暂停排队" && line.enabled));
    assert!(lines
        .iter()
        .any(|line| line.command == MenuCommand::OpenResult && !line.enabled));
    let line = |state: &TrayState, command| {
        tray_menu(state).into_iter().find(|line| line.command == command).unwrap()
    };
    let pausing = line(&state, MenuCommand::Control);
    assert_eq!(choose_from_menu(&mut state, &pausing), MenuEffect::Nothing);
    assert_eq!(take_tray_action(&mut state), Some(TrayAction::Pause));
    assert_eq!(take_tray_action(&mut state), None);
    let closed = line(&state, MenuCommand::OpenResult);
    assert_eq!(choose_from_menu(&mut state, &closed), MenuEffect::Nothing);
    assert_eq!(take_tray_action(&mut state), None);
    let show = line(&state, MenuCommand::Show);
    assert_eq!(choose_from_menu(&mut state, &show), MenuEffect::ShowWindow);
    let exit = line(&state, MenuCommand::Exit);
    assert_eq!(choose_from_menu(&mut state, &exit), MenuEffect::CloseWindow);
    assert!(tray_exit_requested(&state));
    cancel_tray_exit(&mut state);
    assert!(!tray_exit_requested(&state));
    state.exit_requested = true;
    state.action = Some(TrayAction::Resume);
    reset_tray(&mut state);
    assert!(!state.exit_requested && state.action.is_none());
    let tip = set_tray_state(&mut state, "等待", TrayControl::Resume, true);
    assert!(tip.contains("等待"));
    assert_eq!(choose_from_menu(&mut state, &pausing), MenuEffect::Nothing);
    assert_eq!(take_tray_action(&mut state), Some(TrayAction::Pause));
    let resuming = line(&state, MenuCommand::Control);
    assert_eq!(choose_from_menu(&mut state, &resuming), MenuEffect::Nothing);
    assert_eq!(take_tray_action(&mut state), Some(TrayAction::Resume));
    let opening = line(&state, MenuCommand::OpenResult);
    assert_eq!(choose_from_menu(&mut state, &opening), MenuEffect::Nothing);
    assert_eq!(take_tray_action(&mut state), Some(TrayAction::OpenResult));
    assert!(show_window_from_tray(3) && !show_window_from_tray(0));
    assert_eq!(tray_reaction(0x8029, 0x203), TrayReaction::Restore);
    assert_eq!(tray_reaction(0x8029, 0x205), TrayReaction::OpenMenu);
    assert_eq!(
        TrayError::Native("x".into()).message(),
        "failed to initialize the Windows tray icon: x"
    );
}

#[test]
fn wide_paths_are_nul_terminated() {
    let encoded = wide_text("completion.wav");
    assert_eq!(encoded.last(), Some(&0));
    assert_eq!(encoded.iter().filter(|&&unit| unit == 0).count(), 1);
}

#[test]
fn wide_texts_agree_with_the_standard_library() {
    for text in ["", "abc", "高需求", "a😀b"] {
        let mut expected: Vec<u16> = text.encode_utf16().collect();
        expected.push(0);
        assert_eq!(wide_text(text), expected);
    }
    assert_eq!(write_wide_buffer(4, "abcdef"), [97, 98, 99, 0]);
    assert_eq!(write_wide_buffer(4, "a"), [97, 0, 0, 0]);
}

#[test]
fn threads_are_opened_by_link_or_by_command() {
    assert_eq!(thread_target("t"), "codex://threads/t");
    assert_eq!(resume_parameters("t"), "resume t");
    assert!(open_thread(33, None).unwrap());
    assert!(!open_thread(2, None).unwrap());
    assert!(matches!(open_thread(2, Some(31)), Err(OpenThreadError::Launch(_))));
    assert_eq!(quote_for_display("/usr/bin/codex"), "/usr/bin/codex");
    assert_eq!(quote_for_display("it's"), "'it'\\''s'");
    assert_eq!(resume_command("/a b/codex", "t-1"), "'/a b/codex' resume t-1");
    let programs: Vec<String> =
        terminals().into_iter().map(|terminal| terminal.program).collect();
    assert_eq!(
        programs,
        ["x-terminal-emulator", "gnome-terminal", "konsole", "kitty", "alacritty"]
    );
    assert!(no_terminal("busy").message().ends_with("could not be copied: busy"));
}

#[test]
fn utf_16_is_read_like_the_standard_library_does() {
    for units in [
        vec![],
        vec![0xd834, 0xdd1e, 0x6d, 0x75, 0x73, 0xdd1e, 0x69, 0x63, 0xd834],
        vec![0xd800, 0xd800, 0xdc00, 0xe000, 0xffff],
        vec![0xdc00, 0xd7ff],
    ] {
        assert_eq!(read_utf16(&units), String::from_utf16_lossy(&units));
    }
}

#[test]
fn systems_are_described() {
    let release = "NAME=x\nPRETTY_NAME=\"Debian GNU/Linux 13\"\n".to_string();
    assert_eq!(system_summary(&Some(release), "x86_64"), "Debian GNU/Linux 13 (x86_64)");
    assert_eq!(system_summary(&None, "x86_64"), "Linux (x86_64)");
    assert_eq!(macos_summary("aarch64"), "macOS (aarch64)");
    let version = WindowsVersion {
        product: Some("Windows 11 Pro".into()),
        display_version: Some("24H2".into()),
        release_id: Some("2009".into()),
        build: Some("26100".into()),
        build_revision: Some("1".into()),
    };
    assert_eq!(
        windows_summary(&version, "x86_64"),
        "Windows 11 Pro 24H2 · build 26100.1 (x86_64)"
    );
    let units: Vec<u16> = "24H2😀\0\0".encode_utf16().collect();
    assert_eq!(registry_text(&units), "24H2😀");
    assert_eq!(registry_text(&vec![0xd800, 97, 0]), "\u{fffd}a");
    assert_eq!(registry_units(1), None);
    assert_eq!(registry_units(5), Some(3));
    assert!(is_wayland_session(false, &Some("Wayland".into())));
    assert!(!is_wayland_session(false, &Some("x11".into())));
    assert!(is_wayland_session(true, &None));
}

#[test]
fn platform_errors_have_texts() {
    assert_eq!(OpenThreadError::Launch("x".into()).message(), "failed to launch thread target: x");
    assert_eq!(OpenDirectoryError::Launch("x".into()).message(), "failed to open directory: x");
    assert_eq!(
        IdentityError::Native("x".into()).message(),
        "failed to register the Longwatch application identity: x"
    );
    assert_eq!(
        ProcessJobError::Native("x".into()).message(),
        "failed to create or assign the Windows process job: x"
    );
    assert!(check_registry_removal(2).is_ok());
    assert_eq!(
        check_registry_removal(5).unwrap_err().message(),
        "failed to register the Longwatch application identity: RegDeleteTreeW returned 5"
    );
    assert!(check_registry_call("RegSetKeyValueW", 0).is_ok());
    assert!(check_registry_call("RegSetKeyValueW", 5)
        .unwrap_err()
        .message()
        .ends_with("RegSetKeyValueW returned 5"));
    assert!(open_directory(33).is_ok());
    assert_eq!(
        open_directory(-1).unwrap_err().message(),
        "failed to open directory: ShellExecuteW returned -1"
    );
    assert_eq!(show_error_dialog("a", "b"), "a: b");
    assert_eq!(dock_icon(None, true), Some(true));
    assert_eq!(dock_icon(Some(true), true), None);
    assert_eq!(
        AutomationError::Unavailable("x".into()).message(),
        "GUI fallback is unavailable: x"
    );
}

fn node(role: NodeRole, identity: &str) -> AccessibleNode {
    AccessibleNode {
        editable_text: true,
        component: true,
        role,
        defunct: false,
        read_only: false,
        editable: true,
        multi_line: false,
        focused: false,
        focusable: false,
        visible: false,
        showing: false,
        identity: identity.into(),
    }
}

#[test]
fn inputs_of_linux_applications_are_ranked() {
    assert_eq!(candidate_score(&node(NodeRole::Entry, "")), Some(110));
    assert_eq!(candidate_score(&node(NodeRole::Entry, "message")), Some(170));
    assert_eq!(candidate_score(&node(NodeRole::PasswordText, "message")), None);
    assert_eq!(
        rank_candidates(&vec![(5, 1), (9, 2), (5, 3)]),
        [(9, 2), (5, 1), (5, 3)]
    );
    assert_eq!(element_identity(&vec!["Ask".into(), "CODEX".into()]), "ask codex");
    assert!(contains_hint("ask codex", &vec!["prompt", "codex"]));
    assert!(is_codex_application("openai codex") && !is_codex_application("longwatch for codex"));
    assert!(is_codex_window("OpenAI Codex") && !is_codex_window("ChatGPT"));
    assert!(!is_codex_window("LONGWATCH for Codex"));
    assert!(linux_session_usable(false, true).is_ok());
    assert!(linux_session_usable(true, true).is_err());
    assert!(linux_session_usable(false, false).is_err());
}

#[test]
fn elements_are_visited_once() {
    let mut search = EditableSearch::new(&vec![1, 2]);
    assert_eq!(search.next(), Some((1, 0)));
    search.found_children(0, &vec![2, 3, 1]);
    assert_eq!(search.next(), Some((2, 0)));
    assert_eq!(search.next(), Some((3, 1)));
    assert_eq!(search.next(), None);
}

#[test]
fn inputs_of_windows_and_macos() {
    let element = |kind, name: &str| WindowElement {
        enabled: true,
        focusable: true,
        offscreen: false,
        kind,
        name: name.into(),
        automation_id: String::new(),
    };
    let plain = vec![
        element(ElementKind::Edit, "a"),
        element(ElementKind::Edit, "b"),
        element(ElementKind::Document, "codex"),
    ];
    assert_eq!(find_codex_input(&plain), Some(1));
    let hinted = vec![element(ElementKind::Edit, "PROMPT"), element(ElementKind::Edit, "b")];
    assert_eq!(find_codex_input(&hinted), Some(0));
    assert_eq!(find_codex_input(&vec![element(ElementKind::Document, "d")]), Some(0));
    assert_eq!(find_codex_input(&vec![element(ElementKind::Other, "prompt")]), None);
    assert!(check_sent_keys(4, 4).is_ok());
    assert_eq!(
        check_sent_keys(3, 4).unwrap_err().message(),
        "GUI fallback failed: Windows accepted only 3/4 keyboard events"
    );
    assert!(has_composer_hint(&vec!["x".into(), "输入消息".into()]));
    let mac = MacElement {
        role: "AXTextField".into(),
        enabled: true,
        editable: true,
        texts: vec!["ASK Anything".into()],
    };
    assert!(is_mac_input(&mac, true) && !is_mac_input(&mac, false));
}

#[test]
fn the_clipboard_is_given_back_once() {
    let mut restore = ClipboardRestore::install(Some("old".into()));
    assert!(matches!(restore.restore(), ClipboardStep::SetText(text) if text == "old"));
    assert!(matches!(restore.restore(), ClipboardStep::Nothing));
    assert!(matches!(ClipboardRestore::install(None).restore(), ClipboardStep::Clear));
}
