use codex_longwatch::gui_fallback::{
    find_session_file, is_session_name, latest_session_file, new_turn_id, reject_working_directory,
    scan_session, sessions_directory, turn_error_from_json, watched_turn, Claim, GuiFallbackTransport, SessionFile, SessionMonitor,
    SessionWalk,
};
use codex_longwatch::json::parse;
use codex_longwatch::jsonl::{FileFingerprint, JsonlError, JsonlTailer};
use codex_longwatch::paths::PathStyle;
use codex_longwatch::transport::{TransportError, TransportEvent, TransportKind, TurnStatus};

const META: &str = r#"{"type":"session_meta","payload":{"id":"thread-1"}}"#;
const STARTED: &str = r#"{"type":"event_msg","payload":{"type":"task_started","turn_id":"turn-1"}}"#;
const COMPLETE: &str = r#"{"type":"event_msg","payload":{"type":"task_complete","turn_id":"turn-1","last_agent_message":"done","error":null}}"#;

fn file_of(lines: &[&str]) -> Vec<u8> {
    let mut file = Vec::new();
    for line in lines {
        file.extend_from_slice(line.as_bytes());
        file.push(b'\n');
    }
    file
}

fn fingerprint(file: &[u8]) -> FileFingerprint {
    FileFingerprint {
        len: file.len() as u64,
        modified: None,
        prefix: file[..file.len().min(256)].to_vec(),
    }
}

fn at_end(path: &str, file: &[u8]) -> JsonlTailer {
    let mut tailer = JsonlTailer::new(path.into());
    tailer.seek_to_end(fingerprint(file), Vec::new());
    tailer
}

/// Reads the files once and gives the events, as far as the end of the turn.
fn round(monitor: &mut SessionMonitor, files: &[(&str, &[u8])]) -> Vec<TransportEvent> {
    let mut events = Vec::new();
    for (path, _) in files {
        if monitor.is_searching() {
            monitor.follow(path);
        }
    }
    for (path, file) in files {
        if !monitor.reads(path) {
            continue;
        }
        let records = match monitor.tailers.iter_mut().find(|tailer| tailer.path() == path) {
            Some(tailer) => {
                let start = tailer.look_at(fingerprint(file)) as usize;
                tailer.poll(&file[start..])
            }
            None => continue,
        };
        let (reported, over) =
            monitor.read_records(path, &records, &scan_session(&file.to_vec()).thread_id);
        events.extend(reported);
        if over {
            return events;
        }
    }
    events
}

#[test]
fn scans_latest_gui_turn_without_exposing_message_history() {
    let scan = scan_session(&file_of(&[META, STARTED, COMPLETE]));
    assert_eq!(scan.thread_id.as_deref(), Some("thread-1"));
    assert_eq!(scan.latest_turn.unwrap().final_message, "done");
}

#[test]
fn resume_baseline_cannot_skip_a_completion_written_before_the_state_scan() {
    let file = file_of(&[META, STARTED]);
    let mut tailer = at_end("rollout-thread-1.jsonl", &file);
    let file = file_of(&[META, STARTED, COMPLETE]);

    let latest_turn = scan_session(&file).latest_turn;
    assert_eq!(latest_turn.unwrap().status, TurnStatus::Completed);
    let start = tailer.look_at(fingerprint(&file)) as usize;
    assert!(tailer.poll(&file[start..]).iter().any(|record| {
        record.value.to_value()["payload"]["type"].as_str() == Some("task_complete")
    }));
}

#[test]
fn completed_pending_session_resolves_to_the_persisted_thread_id() {
    let meta = r#"{"type":"session_meta","payload":{"id":"thread-real"}}"#;
    let file = file_of(&[meta, STARTED, COMPLETE]);
    let transport = GuiFallbackTransport::new(true);
    let files = vec![SessionFile {
        path: "/s/rollout-thread-real.jsonl".into(),
        name: Some("rollout-thread-real.jsonl".into()),
        modified: 1,
    }];
    let chosen = transport.choose_session(&None, &files, "gui-pending-test").unwrap();
    assert_eq!(chosen, Some(0));
    let session = transport.resumed("gui-pending-test", scan_session(&file));

    assert_eq!(session.id, "thread-real");
    assert_eq!(session.latest_turn.unwrap().status, TurnStatus::Completed);
}

#[test]
fn monitor_keeps_the_runtime_logical_turn_id() {
    let path = "rollout-thread-1.jsonl";
    let mut monitor = SessionMonitor::new(
        "thread-1".into(),
        "gui-logical-turn".into(),
        None,
        Some(path.into()),
        PathStyle::Unix,
    );
    monitor.follow_with(at_end(path, b""));
    let file = file_of(&[
        r#"{"id":"one","type":"event_msg","payload":{"type":"task_started","turn_id":"real-turn"}}"#,
        r#"{"id":"two","type":"event_msg","payload":{"type":"agent_message","message":"working"}}"#,
        r#"{"id":"three","type":"event_msg","payload":{"type":"task_complete","turn_id":"real-turn","last_agent_message":"done","error":null}}"#,
    ]);
    let events = round(&mut monitor, &[(path, &file)]);

    assert!(matches!(events.last(), Some(TransportEvent::TurnCompleted { .. })));
    assert!(events.iter().all(|event| match event {
        TransportEvent::TurnStarted { turn_id, .. }
        | TransportEvent::AgentMessageDelta { turn_id, .. } => {
            turn_id == "gui-logical-turn"
        }
        TransportEvent::TurnCompleted { turn, .. } => turn.id == "gui-logical-turn",
        _ => true,
    }));
}

#[test]
fn switching_sessions_does_not_replay_historical_completion() {
    let old_start = r#"{"id":"old-start","type":"event_msg","payload":{"type":"task_started","turn_id":"old-turn"}}"#;
    let old_done = r#"{"id":"old-done","type":"event_msg","payload":{"type":"task_complete","turn_id":"old-turn","last_agent_message":"historical","error":null}}"#;
    let meta = |thread: &str| {
        format!(r#"{{"type":"session_meta","payload":{{"id":"{thread}"}}}}"#)
    };
    let old = file_of(&[&meta("thread-old"), old_start, old_done]);
    let mut active = file_of(&[&meta("thread-active"), old_start, old_done]);

    let mut monitor = SessionMonitor::new(
        "logical-thread".into(),
        "logical-turn".into(),
        Some("real task".into()),
        None,
        PathStyle::Unix,
    );
    monitor.follow_with(at_end("rollout-thread-old.jsonl", &old));
    monitor.follow_with(at_end("rollout-thread-active.jsonl", &active));
    active.extend_from_slice(&file_of(&[
        r#"{"id":"new-user","type":"event_msg","payload":{"type":"user_message","message":"real task"}}"#,
        r#"{"id":"new-start","type":"event_msg","payload":{"type":"task_started","turn_id":"real-turn"}}"#,
        r#"{"id":"new-done","type":"event_msg","payload":{"type":"task_complete","turn_id":"real-turn","last_agent_message":"current","error":null}}"#,
    ]));
    let events = round(
        &mut monitor,
        &[
            ("rollout-thread-active.jsonl", &active),
            ("rollout-thread-old.jsonl", &old),
        ],
    );

    let mut resolved = false;
    let mut completed = None;
    for event in events {
        match event {
            TransportEvent::ThreadResolved {
                previous_thread_id,
                thread_id,
                turn_id,
            } => {
                assert_eq!(previous_thread_id, "logical-thread");
                assert_eq!(thread_id, "thread-active");
                assert_eq!(turn_id, "logical-turn");
                resolved = true;
            }
            TransportEvent::TurnCompleted { thread_id, turn } => {
                completed = Some((thread_id, turn));
            }
            _ => {}
        }
    }
    let (completed_thread, completed) = completed.expect("the turn is completed");
    assert!(resolved);
    assert_eq!(completed_thread, "thread-active");
    assert_eq!(completed.id, "logical-turn");
    assert_eq!(completed.final_message, "current");
    assert!(monitor.unresolved().is_none());
}

#[test]
fn records_are_claimed_one_by_one() {
    let mut monitor = SessionMonitor::new(
        "t".into(),
        "l".into(),
        Some("task".into()),
        None,
        PathStyle::Unix,
    );
    let record = |text: &str| parse(text.as_bytes()).unwrap();
    let done = record(r#"{"payload":{"type":"task_complete","last_agent_message":"old"}}"#);
    let other = record(r#"{"payload":{"type":"user_message","message":"another"}}"#);
    let typed = record(r#"{"payload":{"type":"user_message","text":"task"}}"#);
    assert_eq!(monitor.claim("a", &done), Claim::Skip);
    assert_eq!(monitor.claim("a", &other), Claim::Skip);
    assert_eq!(monitor.claim("a", &typed), Claim::Resolve);
    assert_eq!(monitor.unresolved().as_deref(), Some("a"));
    assert!(monitor.resolve("a", None).is_none());
    assert!(monitor.resolve("a", Some("real".into())).is_some());
    assert!(monitor.resolve("a", Some("real".into())).is_none());
    assert_eq!(monitor.claim("b", &done), Claim::Skip);
    assert_eq!(monitor.claim("a", &done), Claim::Report);
    assert!(matches!(
        monitor.report(&record(r#"{"payload":{"type":"turn_aborted"}}"#)),
        Some(TransportEvent::TurnCompleted { turn, .. }) if turn.status == TurnStatus::Interrupted
    ));
}

#[test]
fn gui_fallback_rejects_an_unverifiable_working_directory() {
    let error = reject_working_directory(&Some("/tmp/project".into())).unwrap_err();
    assert!(matches!(error, TransportError::Unavailable(_)));
    assert!(reject_working_directory(&None).is_ok());
}

#[test]
fn the_fallback_needs_the_consent_of_the_user() {
    let mut transport = GuiFallbackTransport::new(false);
    assert!(!transport.enabled());
    assert!(matches!(
        transport.may_connect(false),
        Err(TransportError::FallbackDisabled(_))
    ));
    assert!(transport.may_start_turn(&None).is_err());
    transport.set_gui_fallback_enabled(true);
    assert!(transport.may_connect(true).is_err());
    assert!(transport.may_connect(false).is_ok());
    assert!(matches!(
        transport.prepared(Some("no window".into())),
        Err(TransportError::Unavailable(_))
    ));
    assert!(!transport.status().connected);
    assert!(transport.prepared(None).is_ok());
    assert_eq!(transport.status().kind, TransportKind::GuiFallback);
    assert!(transport.status().connected);
    assert!(transport.may_start_turn(&None).is_ok());
    assert!(matches!(
        transport.may_start_turn(&Some("/x".into())),
        Err(TransportError::Unavailable(_))
    ));
    assert!(matches!(
        transport.interrupt_turn(),
        Err(TransportError::Unavailable(_))
    ));
    transport.shut_down();
    assert!(!transport.status().connected);
}

#[test]
fn new_threads_and_turns_get_fresh_names() {
    let first = new_turn_id();
    let second = new_turn_id();
    assert!(first.starts_with("gui-turn-"));
    assert_eq!(first.chars().count(), 45);
    assert_ne!(first, second);
    let unique: Vec<char> = first["gui-turn-".len()..].chars().collect();
    for (place, c) in unique.iter().enumerate() {
        if [8, 13, 18, 23].contains(&place) {
            assert_eq!(*c, '-');
        } else {
            assert!(c.is_ascii_digit() || ('a'..='f').contains(c));
        }
    }
    let transport = GuiFallbackTransport::new(true);
    let session = transport.start_thread(&None, None).unwrap();
    assert!(session.id.starts_with("gui-pending-"));
    assert!(session.latest_turn.is_none());
    let scan = scan_session(&file_of(&[META, STARTED]));
    assert_eq!(transport.start_thread(&None, Some(scan)).unwrap().id, "thread-1");
    let running = transport.resumed("t", scan_session(&file_of(&[META, STARTED])));
    assert_eq!(watched_turn(&running).as_deref(), Some("turn-1"));
    let ended = transport.resumed("t", scan_session(&file_of(&[META, STARTED, COMPLETE])));
    assert_eq!(watched_turn(&ended), None);
    assert_eq!(watched_turn(&session), None);
    assert!(transport.start_thread(&Some("/x".into()), None).is_err());
}

#[test]
fn session_files_are_found_and_walked() {
    let file = |name: &str, modified: i128| SessionFile {
        path: format!("/s/{name}"),
        name: Some(name.into()),
        modified,
    };
    let files = vec![file("a-1.jsonl", 5), file("b-2.jsonl", 9), file("c-2.jsonl", 9)];
    assert_eq!(find_session_file(&files, "2"), Some(1));
    assert_eq!(find_session_file(&files, "7"), None);
    assert_eq!(latest_session_file(&files), Some(2));
    assert_eq!(latest_session_file(&Vec::new()), None);
    assert!(is_session_name("x.jsonl") && !is_session_name(".jsonl") && !is_session_name("x.json"));
    let mut walk = SessionWalk::new("/s".into());
    assert_eq!(walk.next_directory().as_deref(), Some("/s"));
    walk.entry("/s/a".into(), "a", true);
    walk.entry("/s/x.jsonl".into(), "x.jsonl", false);
    walk.entry("/s/y.txt".into(), "y.txt", false);
    assert_eq!(walk.next_directory().as_deref(), Some("/s/a"));
    assert_eq!(walk.next_directory(), None);
    assert_eq!(walk.files, ["/s/x.jsonl"]);
}

#[test]
fn sessions_are_under_the_home_of_codex() {
    let text = |value: &str| Some(value.to_string());
    let unix = PathStyle::Unix;
    assert_eq!(sessions_directory(&text("/c/"), &text("/h"), unix), "/c/sessions");
    assert_eq!(sessions_directory(&text(""), &text("/h"), unix), "sessions");
    assert_eq!(sessions_directory(&None, &text("/h"), unix), "/h/.codex/sessions");
    assert_eq!(sessions_directory(&None, &None, unix), ".codex/sessions");
    assert_eq!(
        sessions_directory(&None, &text("C:\\Users\\me"), PathStyle::Windows),
        "C:\\Users\\me\\.codex\\sessions"
    );
}

#[test]
fn files_are_followed_once_and_in_order() {
    let mut monitor = SessionMonitor::new("t".into(), "l".into(), None, None, PathStyle::Unix);
    for path in ["/s/b/x.jsonl", "/s/a-b/x.jsonl", "/s/a/x.jsonl", "/s//a/./x.jsonl"] {
        monitor.follow(path);
    }
    let paths: Vec<&str> = monitor.tailers.iter().map(|tailer| tailer.path().as_str()).collect();
    assert_eq!(paths, ["/s/a/x.jsonl", "/s/a-b/x.jsonl", "/s/b/x.jsonl"]);
}

#[test]
fn errors_of_the_session_file_are_read() {
    let error = turn_error_from_json(&parse(br#""plain""#).unwrap());
    assert_eq!(error.message, "plain");
    let error = turn_error_from_json(
        &parse(br#"{"message":"m","codex_error_info":"serverOverloaded"}"#).unwrap(),
    );
    assert_eq!(error.message, "m");
    assert_eq!(error.codex_error_info.unwrap().to_text(), "\"serverOverloaded\"");
    let event = SessionMonitor::read_failure(&JsonlError::Watch("w".into()));
    assert!(matches!(
        event,
        TransportEvent::Diagnostic { message } if message.starts_with("GUI 回退 JSONL 读取失败：")
    ));
}
