use codex_longwatch::backoff::RetryPolicy;
use codex_longwatch::queue::{QueueError, QueueMachine, QueuePhase, MAX_PREVIEW_CHARS};

const SECOND: i128 = 1_000_000_000;
const NOW: i128 = 1_785_200_400 * SECOND;

#[test]
fn machine_never_allows_two_turns() {
    let now = NOW;
    let mut machine = QueueMachine::new("codex".into());
    machine.begin_sending(now).unwrap();
    machine.set_active_turn("turn-1".into()).unwrap();
    assert_eq!(
        machine.begin_sending(now),
        Err(QueueError::TurnAlreadyActive)
    );
    assert_eq!(
        machine.set_active_turn("turn-2".into()),
        Err(QueueError::TurnAlreadyActive)
    );
    assert_eq!(machine.set_active_turn("turn-1".into()), Ok(()));
}

#[test]
fn wake_reschedules_without_catch_up_burst() {
    let now = NOW;
    let mut machine = QueueMachine::new("codex".into());
    machine.schedule_retry(now, "busy", 30);
    let wake = now + 5 * 60 * 60 * SECOND;
    machine.delay_after_wake(wake, &RetryPolicy::default());
    assert!(machine.snapshot().next_attempt_at.unwrap() >= wake + 60 * SECOND);
}

#[test]
fn repeated_attempts_are_not_rate_limited() {
    let now = NOW;
    let mut machine = QueueMachine::new("codex".into());
    for index in 0..100_u64 {
        machine
            .begin_sending(now + i128::from(index) * SECOND)
            .unwrap();
        machine.set_active_turn(format!("turn-{index}")).unwrap();
        machine.clear_active_turn();
    }

    assert_eq!(machine.snapshot().attempt_count, 100);
}

#[test]
fn quiet_immediate_retry_does_not_enter_backoff_or_raise_alert() {
    let now = NOW;
    let mut machine = QueueMachine::new("codex".into());

    let next = machine.schedule_quiet_immediate_retry(now, "高需求提示");

    assert_eq!(next, now);
    assert_eq!(machine.snapshot().phase, QueuePhase::Connecting);
    assert_eq!(machine.snapshot().next_attempt_at, Some(now));
    assert_eq!(machine.snapshot().retry_alert_count, 0);
    assert!(machine.snapshot().status_message.contains("立即重试"));
}

#[test]
fn a_retry_is_at_least_fifteen_seconds_away() {
    let mut machine = QueueMachine::new("codex".into());
    assert_eq!(machine.schedule_retry(NOW, "busy", 3), NOW + 15 * SECOND);
    assert_eq!(machine.snapshot().consecutive_retries, 1);
    assert_eq!(machine.snapshot().retry_alert_count, 1);
    assert_eq!(machine.snapshot().status_message, "busy；已安排低频重试");
    assert_eq!(
        machine.schedule_retry_with_alert(NOW, "busy", 40, false),
        NOW + 40 * SECOND
    );
    assert_eq!(machine.snapshot().retry_alert_count, 1);
}

#[test]
fn previews_keep_the_last_characters() {
    let mut machine = QueueMachine::new("codex".into());
    let long = format!("{}{}", "甲".repeat(3), "乙".repeat(MAX_PREVIEW_CHARS));
    machine.set_reply_preview(&long);
    assert_eq!(machine.snapshot().reply_preview, "乙".repeat(MAX_PREVIEW_CHARS));
    machine.append_reply_delta("丙丁");
    assert_eq!(machine.snapshot().reply_preview.chars().count(), MAX_PREVIEW_CHARS);
    assert!(machine.snapshot().reply_preview.ends_with("乙丙丁"));

    let mut pieces = QueueMachine::new("codex".into());
    pieces.append_reply_delta(&long[..3]);
    pieces.append_reply_delta(&long[3..]);
    let mut whole = QueueMachine::new("codex".into());
    whole.append_reply_delta(&long);
    assert_eq!(pieces.snapshot().reply_preview, whole.snapshot().reply_preview);
}

#[test]
fn a_long_preview_is_cut_alike_in_pieces() {
    let long = "甲".repeat(MAX_PREVIEW_CHARS + 7);
    let mut pieces = QueueMachine::new("codex".into());
    pieces.snapshot.reply_preview = long.clone();
    let mut whole = QueueMachine::new("codex".into());
    whole.snapshot.reply_preview = long;
    pieces.append_reply_delta("乙");
    pieces.append_reply_delta("丙");
    whole.append_reply_delta("乙丙");
    assert_eq!(pieces.snapshot().reply_preview, whole.snapshot().reply_preview);
}

#[test]
fn what_is_persisted_comes_back() {
    let mut machine = QueueMachine::new("codex".into());
    machine.set_thread("thread".into());
    machine.begin_sending(NOW).unwrap();
    machine.mark_submission_uncertain();
    machine.set_runtime_warning("warning".into());
    let state = machine.persisted(Some("digest".into()));
    assert!(state.submission_uncertain);
    assert_eq!(state.prompt_digest.as_deref(), Some("digest"));
    let restored = QueueMachine::restore(state, "other".into());
    assert_eq!(restored.snapshot().phase, QueuePhase::Sending);
    assert_eq!(restored.snapshot().active_thread_id.as_deref(), Some("thread"));
    assert_eq!(restored.snapshot().attempt_count, 1);
    assert_eq!(restored.snapshot().codex_path, "other");
    assert!(restored.snapshot().runtime_warning.is_none());
    assert_eq!(restored.attempts.0, [NOW]);
}

#[test]
fn stopping_forgets_everything_but_the_path() {
    let mut machine = QueueMachine::new("/opt/codex".into());
    machine.set_thread("thread".into());
    machine.mark_empty_reply();
    machine.note_internal_retry("x");
    assert_eq!(machine.snapshot().status_message, "Codex 正在内部重试：x");
    assert_eq!(machine.snapshot().retry_alert_count, 1);
    machine.note_internal_retry_quiet("y");
    assert_eq!(machine.snapshot().status_message, "Codex 正在静默重试：y");
    machine.stop();
    assert_eq!(machine.snapshot().phase, QueuePhase::Idle);
    assert!(machine.snapshot().active_thread_id.is_none());
    assert_eq!(machine.snapshot().codex_path, "/opt/codex");
    assert_eq!(machine.snapshot().status_message, "已停止；持久线程记录已清除");
}

#[test]
fn ends_of_a_task() {
    let mut machine = QueueMachine::new("codex".into());
    machine.mark_empty_reply();
    machine.succeed("任务成功完成");
    assert_eq!(machine.snapshot().phase.label(), "成功");
    assert_eq!(machine.snapshot().empty_reply_count, 0);
    machine.fatal("broken");
    assert_eq!(machine.snapshot().phase, QueuePhase::FatalError);
    machine.pause("later");
    assert_eq!(machine.snapshot().phase.label(), "已暂停");
    assert_eq!(QueueError::TurnAlreadyActive.message(), "a turn is already active");
}
