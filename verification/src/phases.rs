//! What each step of the queue changes, and what it leaves alone.

use vstd::prelude::*;

use crate::backoff::RetryPolicy;
use crate::config::StateView;
use crate::queue::{default_snapshot, MachineView, QueuePhase, SnapshotView};
use crate::transport::{StatusView, TransportKind};

verus! {

/// Whether two snapshots agree on the thread, the turn and whether its request
/// may be under way.
pub open spec fn same_turn(left: SnapshotView, right: SnapshotView) -> bool {
    &&& left.active_thread_id == right.active_thread_id
    &&& left.active_turn_id == right.active_turn_id
    &&& left.submission_uncertain == right.submission_uncertain
}

/// Whether two snapshots agree on everything that is counted.
pub open spec fn same_counts(left: SnapshotView, right: SnapshotView) -> bool {
    &&& left.attempt_count == right.attempt_count
    &&& left.consecutive_retries == right.consecutive_retries
    &&& left.retry_alert_count == right.retry_alert_count
    &&& left.empty_reply_count == right.empty_reply_count
}

/// Whether two snapshots agree on what surrounds the task: the executable, the
/// warning and the carrier.
pub open spec fn same_surroundings(left: SnapshotView, right: SnapshotView) -> bool {
    &&& left.codex_path == right.codex_path
    &&& left.runtime_warning == right.runtime_warning
    &&& left.transport_status == right.transport_status
}

/// A pause and a fatal error end every plan for another attempt and show their
/// reason; the thread, the turn, the counts and the reply stay.
pub proof fn resting_keeps_the_turn(snapshot: SnapshotView, reason: Seq<char>)
    ensures
        ({
            let paused = snapshot.paused(reason);
            let failed = snapshot.failed(reason);
            &&& paused.phase == QueuePhase::Paused
            &&& failed.phase == QueuePhase::FatalError
            &&& paused.status_message == reason
            &&& failed.status_message == reason
            &&& paused.next_attempt_at is None
            &&& failed.next_attempt_at is None
            &&& same_turn(paused, snapshot) && same_turn(failed, snapshot)
            &&& same_counts(paused, snapshot) && same_counts(failed, snapshot)
            &&& same_surroundings(paused, snapshot) && same_surroundings(failed, snapshot)
            &&& paused.reply_preview == snapshot.reply_preview
            &&& failed.reply_preview == snapshot.reply_preview
        }),
{
}

/// A success ends the turn and every plan for another attempt and forgets the
/// retries and the empty replies; the thread, the attempts and the reply stay.
pub proof fn success_ends_the_turn(snapshot: SnapshotView, message: Seq<char>)
    ensures
        ({
            let after = snapshot.succeeded(message);
            &&& after.phase == QueuePhase::Success
            &&& after.status_message == message
            &&& after.active_turn_id is None
            &&& !after.submission_uncertain
            &&& after.next_attempt_at is None
            &&& after.consecutive_retries == 0
            &&& after.empty_reply_count == 0
            &&& after.active_thread_id == snapshot.active_thread_id
            &&& after.attempt_count == snapshot.attempt_count
            &&& after.retry_alert_count == snapshot.retry_alert_count
            &&& after.reply_preview == snapshot.reply_preview
            &&& same_surroundings(after, snapshot)
        }),
{
}

/// A stop forgets everything of the task but the executable.
pub proof fn a_stop_forgets_the_task(snapshot: SnapshotView)
    ensures
        ({
            let after = snapshot.stopped();
            &&& after.phase == QueuePhase::Idle
            &&& after.active_thread_id is None
            &&& after.active_turn_id is None
            &&& !after.submission_uncertain
            &&& after.next_attempt_at is None
            &&& after.attempt_count == 0
            &&& after.consecutive_retries == 0
            &&& after.retry_alert_count == 0
            &&& after.empty_reply_count == 0
            &&& after.reply_preview.len() == 0
            &&& after.runtime_warning is None
            &&& after.transport_status.kind == TransportKind::Disconnected
            &&& !after.transport_status.connected
            &&& after.codex_path == snapshot.codex_path
        }),
{
}

/// Connecting, for the first time or again, ends every plan for another attempt
/// and changes nothing else but the phase and the line that is shown.
pub proof fn connecting_keeps_the_turn(snapshot: SnapshotView)
    ensures
        ({
            let first = snapshot.connecting();
            let again = snapshot.reactivated();
            &&& first.phase == QueuePhase::Connecting
            &&& again.phase == QueuePhase::Connecting
            &&& first.next_attempt_at is None
            &&& again.next_attempt_at is None
            &&& same_turn(first, snapshot) && same_turn(again, snapshot)
            &&& same_counts(first, snapshot) && same_counts(again, snapshot)
            &&& same_surroundings(first, snapshot) && same_surroundings(again, snapshot)
            &&& first.reply_preview == snapshot.reply_preview
            &&& again.reply_preview == snapshot.reply_preview
        }),
{
}

/// An opened thread becomes the active one; the phase, the turn, the counts and
/// the plan stay.
pub proof fn opening_a_thread_keeps_the_rest(snapshot: SnapshotView, thread_id: Seq<char>)
    ensures
        ({
            let opened = snapshot.with_thread(thread_id);
            let resolved = snapshot.with_resolved_thread(thread_id);
            &&& opened.active_thread_id == Some(thread_id)
            &&& resolved.active_thread_id == Some(thread_id)
            &&& opened.active_turn_id == snapshot.active_turn_id
            &&& resolved.active_turn_id == snapshot.active_turn_id
            &&& opened.submission_uncertain == snapshot.submission_uncertain
            &&& resolved.submission_uncertain == snapshot.submission_uncertain
            &&& opened.phase == snapshot.phase && resolved.phase == snapshot.phase
            &&& opened.next_attempt_at == snapshot.next_attempt_at
            &&& resolved.next_attempt_at == snapshot.next_attempt_at
            &&& same_counts(opened, snapshot) && same_counts(resolved, snapshot)
            &&& opened.reply_preview == snapshot.reply_preview
            &&& resolved.reply_preview == snapshot.reply_preview
            &&& resolved.status_message == snapshot.status_message
        }),
{
}

/// An attempt is counted when it begins; the reply of the last one is gone, and
/// nothing is planned any more.
pub proof fn an_attempt_is_counted(snapshot: SnapshotView)
    ensures
        ({
            let after = snapshot.sending();
            &&& after.phase == QueuePhase::Sending
            &&& snapshot.attempt_count < u64::MAX ==> after.attempt_count == snapshot.attempt_count
                + 1
            &&& after.attempt_count >= snapshot.attempt_count
            &&& after.next_attempt_at is None
            &&& after.reply_preview.len() == 0
            &&& !after.submission_uncertain
            &&& after.active_thread_id == snapshot.active_thread_id
            &&& after.active_turn_id == snapshot.active_turn_id
            &&& after.consecutive_retries == snapshot.consecutive_retries
            &&& after.retry_alert_count == snapshot.retry_alert_count
            &&& after.empty_reply_count == snapshot.empty_reply_count
            &&& same_surroundings(after, snapshot)
        }),
{
}

/// A turn that is under way is waited for, and whether its request arrived is
/// no longer open; a turn that is already the active one may be reported again,
/// another may not.
pub proof fn a_turn_under_way_is_waited_for(
    snapshot: SnapshotView,
    turn_id: Seq<char>,
    other: Seq<char>,
)
    ensures
        ({
            let after = snapshot.with_turn(turn_id);
            &&& after.phase == QueuePhase::Waiting
            &&& after.active_turn_id == Some(turn_id)
            &&& !after.submission_uncertain
            &&& after.active_thread_id == snapshot.active_thread_id
            &&& after.next_attempt_at == snapshot.next_attempt_at
            &&& same_counts(after, snapshot)
            &&& after.reply_preview == snapshot.reply_preview
            &&& after.accepts_turn(turn_id)
            &&& other != turn_id ==> !after.accepts_turn(other)
            &&& snapshot.active_turn_id is None ==> snapshot.accepts_turn(other)
        }),
{
}

/// A retry that was planned is counted and waits for as long as was drawn, at
/// least fifteen seconds; the turn is over, and an alert is counted where one
/// is raised.
pub proof fn a_planned_retry_waits_as_drawn(
    snapshot: SnapshotView,
    now: int,
    reason: Seq<char>,
    drawn_secs: u64,
    show_alert: bool,
)
    requires
        -1_000_000_000_000_000_000_000_000_000_000 <= now
            <= 1_000_000_000_000_000_000_000_000_000_000,
        drawn_secs <= 9_223_372_036_854_775,
    ensures
        ({
            let after = snapshot.backing_off(now, reason, drawn_secs, show_alert);
            &&& after.phase == QueuePhase::Backoff
            &&& drawn_secs >= 15 ==> after.next_attempt_at == Some(
                (now + drawn_secs * 1_000_000_000) as i128,
            )
            &&& drawn_secs < 15 ==> after.next_attempt_at == Some((now + 15_000_000_000) as i128)
            &&& after.active_turn_id is None
            &&& !after.submission_uncertain
            &&& snapshot.consecutive_retries < u32::MAX ==> after.consecutive_retries
                == snapshot.consecutive_retries + 1
            &&& show_alert && snapshot.retry_alert_count < u64::MAX ==> after.retry_alert_count
                == snapshot.retry_alert_count + 1
            &&& !show_alert ==> after.retry_alert_count == snapshot.retry_alert_count
            &&& after.active_thread_id == snapshot.active_thread_id
            &&& after.attempt_count == snapshot.attempt_count
            &&& after.empty_reply_count == snapshot.empty_reply_count
            &&& after.reply_preview == snapshot.reply_preview
            &&& crate::text::begins(after.status_message, reason)
        }),
{
    let shown = snapshot.backing_off(now, reason, drawn_secs, show_alert).status_message;
    assert(shown.take(reason.len() as int) =~= reason);
}

/// A quiet retry is counted, is due at once and raises no alert.
pub proof fn a_quiet_retry_is_due_at_once(snapshot: SnapshotView, now: i128, reason: Seq<char>)
    ensures
        ({
            let after = snapshot.retrying_quietly(now, reason);
            &&& after.phase == QueuePhase::Connecting
            &&& after.next_attempt_at == Some(now)
            &&& after.active_turn_id is None
            &&& !after.submission_uncertain
            &&& snapshot.consecutive_retries < u32::MAX ==> after.consecutive_retries
                == snapshot.consecutive_retries + 1
            &&& after.retry_alert_count == snapshot.retry_alert_count
            &&& after.active_thread_id == snapshot.active_thread_id
            &&& after.attempt_count == snapshot.attempt_count
            &&& after.empty_reply_count == snapshot.empty_reply_count
            &&& after.reply_preview == snapshot.reply_preview
            &&& crate::text::begins(after.status_message, reason)
        }),
{
    let shown = snapshot.retrying_quietly(now, reason).status_message;
    assert(shown.take(reason.len() as int) =~= reason);
}

/// While Codex retries by itself the same turn is waited for; only the retry
/// that is not quiet counts an alert.
pub proof fn internal_retries_keep_the_turn(snapshot: SnapshotView, message: Seq<char>)
    ensures
        ({
            let loud = snapshot.internally_retrying(message);
            let quiet = snapshot.quietly_retrying(message);
            &&& loud.phase == QueuePhase::Waiting && quiet.phase == QueuePhase::Waiting
            &&& same_turn(loud, snapshot) && same_turn(quiet, snapshot)
            &&& loud.next_attempt_at == snapshot.next_attempt_at
            &&& quiet.next_attempt_at == snapshot.next_attempt_at
            &&& snapshot.retry_alert_count < u64::MAX ==> loud.retry_alert_count
                == snapshot.retry_alert_count + 1
            &&& same_counts(quiet, snapshot)
            &&& loud.attempt_count == snapshot.attempt_count
            &&& loud.consecutive_retries == snapshot.consecutive_retries
            &&& loud.empty_reply_count == snapshot.empty_reply_count
        }),
{
}

/// A wake-up moves a planned attempt to at least a minute, or as long as the
/// user asks, from now, and otherwise leaves it; without a planned attempt, or
/// in another phase, it changes nothing.
pub proof fn a_wake_up_moves_only_planned_attempts(
    snapshot: SnapshotView,
    now: int,
    policy: RetryPolicy,
)
    requires
        -1_000_000_000_000_000_000_000_000_000_000 <= now
            <= 1_000_000_000_000_000_000_000_000_000_000,
        policy.wake_delay_secs <= 9_223_372_036_854_775,
    ensures
        ({
            let after = snapshot.delayed_after_wake(now, policy);
            let rest = if policy.wake_delay_secs < 60 {
                60
            } else {
                policy.wake_delay_secs as int
            };
            let planned = (snapshot.phase == QueuePhase::Backoff || snapshot.phase
                == QueuePhase::Connecting) && snapshot.next_attempt_at is Some;
            &&& !planned ==> after == snapshot
            &&& planned && snapshot.next_attempt_at->0 < now + rest * 1_000_000_000
                ==> after.next_attempt_at == Some((now + rest * 1_000_000_000) as i128)
            &&& planned && snapshot.next_attempt_at->0 >= now + rest * 1_000_000_000
                ==> after.next_attempt_at == snapshot.next_attempt_at
            &&& after.phase == snapshot.phase
            &&& same_turn(after, snapshot)
            &&& same_counts(after, snapshot)
        }),
{
}

/// Small changes change one thing each.
pub proof fn small_changes_change_one_thing(
    snapshot: SnapshotView,
    uncertain: bool,
    message: Seq<char>,
    warning: Option<Seq<char>>,
    status: StatusView,
    next: i128,
)
    ensures
        snapshot.with_uncertainty(uncertain).submission_uncertain == uncertain,
        snapshot.with_uncertainty(uncertain).with_uncertainty(snapshot.submission_uncertain)
            == snapshot,
        snapshot.with_status(message).status_message == message,
        snapshot.with_status(message).with_status(snapshot.status_message) == snapshot,
        snapshot.with_warning(warning).runtime_warning == warning,
        snapshot.with_warning(warning).with_warning(snapshot.runtime_warning) == snapshot,
        snapshot.with_transport(status).transport_status == status,
        snapshot.with_transport(status).with_transport(snapshot.transport_status) == snapshot,
        snapshot.with_next_attempt(next).next_attempt_at == Some(next),
        snapshot.next_attempt_at matches Some(planned) ==> snapshot.with_next_attempt(
            next,
        ).with_next_attempt(planned) == snapshot,
        snapshot.without_turn().active_turn_id is None,
        snapshot.active_turn_id is None ==> snapshot.without_turn() == snapshot,
        snapshot.without_turn().active_thread_id == snapshot.active_thread_id,
        snapshot.without_turn().phase == snapshot.phase,
        same_counts(snapshot.without_turn(), snapshot),
        snapshot.empty_reply_count < u8::MAX ==> snapshot.with_empty_reply().empty_reply_count
            == snapshot.empty_reply_count + 1,
        snapshot.with_empty_reply().attempt_count == snapshot.attempt_count,
        snapshot.with_empty_reply().phase == snapshot.phase,
        snapshot.retry_alert_count < u64::MAX ==> snapshot.alerted().retry_alert_count
            == snapshot.retry_alert_count + 1,
        snapshot.alerted().phase == snapshot.phase,
        same_turn(snapshot.alerted(), snapshot),
{
}

/// The last 4000 characters of a reply are shown, the whole of a shorter one,
/// and nothing else changes.
pub proof fn the_end_of_a_reply_is_shown(snapshot: SnapshotView, reply: Seq<char>)
    ensures
        ({
            let after = snapshot.with_preview(reply);
            &&& reply.len() <= 4000 ==> after.reply_preview == reply
            &&& reply.len() > 4000 ==> after.reply_preview.len() == 4000 && forall|i: int|
                0 <= i < 4000 ==> #[trigger] after.reply_preview[i] == reply[reply.len() - 4000 + i]
            &&& after.phase == snapshot.phase
            &&& same_turn(after, snapshot)
            &&& same_counts(after, snapshot)
            &&& same_surroundings(after, snapshot)
            &&& after.next_attempt_at == snapshot.next_attempt_at
            &&& after.status_message == snapshot.status_message
        }),
{
}

/// What is persisted is what is shown, with the attempts, the digest of the
/// prompt and the version of the form; the warning and the carrier are not.
pub proof fn what_is_shown_is_persisted(machine: MachineView, digest: Option<Seq<char>>)
    ensures
        ({
            let state = machine.to_state(digest);
            let shown = machine.snapshot;
            &&& state.version == 1
            &&& state.prompt_digest == digest
            &&& state.attempts == machine.attempts
            &&& state.phase == shown.phase
            &&& state.status_message == shown.status_message
            &&& state.active_thread_id == shown.active_thread_id
            &&& state.active_turn_id == shown.active_turn_id
            &&& state.submission_uncertain == shown.submission_uncertain
            &&& state.attempt_count == shown.attempt_count
            &&& state.consecutive_retries == shown.consecutive_retries
            &&& state.retry_alert_count == shown.retry_alert_count
            &&& state.empty_reply_count == shown.empty_reply_count
            &&& state.next_attempt_at == shown.next_attempt_at
            &&& state.reply_preview == shown.reply_preview
        }),
{
}

/// What is shown in each step: each has its own line, with the reason where
/// there is one.
pub proof fn each_step_has_its_line(
    snapshot: SnapshotView,
    thread_id: Seq<char>,
    turn_id: Seq<char>,
    reason: Seq<char>,
    now: i128,
    drawn_secs: u64,
    policy: RetryPolicy,
)
    ensures
        snapshot.connecting().status_message == "正在启动 Codex app-server"@,
        snapshot.reactivated().status_message == "正在恢复排队任务"@,
        snapshot.with_thread(thread_id).status_message == "线程已恢复，准备发送"@,
        snapshot.sending().status_message == "正在发送原始任务"@,
        snapshot.with_turn(turn_id).status_message == "Codex 正在处理；不会并发发送"@,
        snapshot.internally_retrying(reason).status_message == "Codex 正在内部重试："@ + reason,
        snapshot.quietly_retrying(reason).status_message == "Codex 正在静默重试："@ + reason,
        snapshot.backing_off(now as int, reason, drawn_secs, true).status_message == reason
            + "；已安排低频重试"@,
        snapshot.retrying_quietly(now, reason).status_message == reason + "；立即重试"@,
        snapshot.stopped().status_message == "已停止；持久线程记录已清除"@,
        (snapshot.phase == QueuePhase::Backoff || snapshot.phase == QueuePhase::Connecting)
            && snapshot.next_attempt_at is Some ==> snapshot.delayed_after_wake(
            now as int,
            policy,
        ).status_message == "检测到系统唤醒；至少等待 60 秒后再试"@,
{
}

/// The phases and the carriers are called what they are.
pub proof fn phases_have_names()
    ensures
        QueuePhase::Idle.name() == "空闲"@,
        QueuePhase::Connecting.name() == "连接中"@,
        QueuePhase::Sending.name() == "发送中"@,
        QueuePhase::Waiting.name() == "等待 Codex"@,
        QueuePhase::Backoff.name() == "退避等待"@,
        QueuePhase::Success.name() == "成功"@,
        QueuePhase::Paused.name() == "已暂停"@,
        QueuePhase::FatalError.name() == "致命错误"@,
        TransportKind::Disconnected.name() == "未连接"@,
        TransportKind::AppServer.name() == "Codex app-server"@,
        TransportKind::GuiFallback.name() == "GUI 兼容回退"@,
{
}

/// A queue that has never run is idle and knows of nothing.
pub proof fn a_new_queue_is_idle()
    ensures
        ({
            let fresh = default_snapshot();
            &&& fresh.phase == QueuePhase::Idle
            &&& fresh.status_message == "等待任务"@
            &&& fresh.active_thread_id is None && fresh.active_turn_id is None
            &&& !fresh.submission_uncertain
            &&& fresh.attempt_count == 0 && fresh.consecutive_retries == 0
            &&& fresh.retry_alert_count == 0 && fresh.empty_reply_count == 0
            &&& fresh.next_attempt_at is None
            &&& fresh.reply_preview.len() == 0
            &&& fresh.codex_path == "codex"@
            &&& fresh.runtime_warning is None
            &&& fresh.transport_status.kind == TransportKind::Disconnected
            &&& !fresh.transport_status.connected
            &&& fresh.transport_status.server_agent is None
        }),
{
}

/// The machine that a state gives back has what the state holds, the executable
/// of the configuration, no warning and no carrier.
pub proof fn a_state_gives_back_what_it_holds(state: StateView, codex_path: Seq<char>)
    ensures
        ({
            let machine = MachineView::from_state(state, codex_path);
            let shown = machine.snapshot;
            &&& machine.attempts == state.attempts
            &&& shown.phase == state.phase
            &&& shown.status_message == state.status_message
            &&& shown.active_thread_id == state.active_thread_id
            &&& shown.active_turn_id == state.active_turn_id
            &&& shown.submission_uncertain == state.submission_uncertain
            &&& shown.attempt_count == state.attempt_count
            &&& shown.consecutive_retries == state.consecutive_retries
            &&& shown.retry_alert_count == state.retry_alert_count
            &&& shown.empty_reply_count == state.empty_reply_count
            &&& shown.next_attempt_at == state.next_attempt_at
            &&& shown.reply_preview == state.reply_preview
            &&& shown.codex_path == codex_path
            &&& shown.runtime_warning is None
            &&& !shown.transport_status.connected
        }),
{
}

/// A count that is at its end stays there.
pub proof fn counts_stay_at_their_end(
    snapshot: SnapshotView,
    now: i128,
    reason: Seq<char>,
    drawn_secs: u64,
)
    ensures
        snapshot.attempt_count == u64::MAX ==> snapshot.sending().attempt_count == u64::MAX,
        snapshot.retry_alert_count == u64::MAX ==> snapshot.alerted().retry_alert_count == u64::MAX
            && snapshot.internally_retrying(reason).retry_alert_count == u64::MAX
            && snapshot.backing_off(now as int, reason, drawn_secs, true).retry_alert_count
            == u64::MAX,
        snapshot.consecutive_retries == u32::MAX ==> snapshot.backing_off(
            now as int,
            reason,
            drawn_secs,
            true,
        ).consecutive_retries == u32::MAX && snapshot.retrying_quietly(
            now,
            reason,
        ).consecutive_retries == u32::MAX,
        snapshot.empty_reply_count == u8::MAX ==> snapshot.with_empty_reply().empty_reply_count
            == u8::MAX,
        drawn_secs > 9_223_372_036_854_775 ==> snapshot.backing_off(
            now as int,
            reason,
            drawn_secs,
            true,
        ).next_attempt_at == Some(now),
{
}

} // verus!
