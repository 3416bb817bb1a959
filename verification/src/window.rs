//! What is promised of the window: what it shows of the queue, and what its
//! controls ask for.

use vstd::prelude::*;

use crate::queue::{QueuePhase, SnapshotView};
use crate::runtime::engine::CommandView;
use crate::text::{
    ascii_folded, begins, blank, decimal, occurs, segments, stands_at, trimmed,
};
use crate::ui::{
    accent, conversation, detail, due_text, phase_title, phrases_of, primary_label, route_stage,
    seconds_until, speaks_of_retry, status_headline, transport_text, under_way, waiting_text,
    EffectView, LocalTime, WindowView, GRID_CELLS,
};

verus! {

/// A task is under way from connecting until it is done, paused, stopped or
/// has failed.
pub proof fn tasks_under_way(phase: QueuePhase)
    ensures
        phase == QueuePhase::Connecting || phase == QueuePhase::Sending || phase
            == QueuePhase::Waiting || phase == QueuePhase::Backoff ==> under_way(phase),
        phase == QueuePhase::Idle || phase == QueuePhase::Success || phase == QueuePhase::Paused
            || phase == QueuePhase::FatalError ==> !under_way(phase),
        under_way(phase) <==> primary_label(phase) == "暂停排队"@,
        phase == QueuePhase::Paused ==> primary_label(phase) == "继续排队"@,
        phase == QueuePhase::Success ==> primary_label(phase) == "开始新任务"@,
        phase == QueuePhase::FatalError ==> primary_label(phase) == "重新开始"@,
        phase == QueuePhase::Idle ==> primary_label(phase) == "开始排队"@,
{
    reveal_strlit("暂停排队");
    reveal_strlit("继续排队");
    reveal_strlit("开始新任务");
    reveal_strlit("重新开始");
    reveal_strlit("开始排队");
    assert("暂停排队"@[0] == '暂' && "继续排队"@[0] == '继' && "开始新任务"@[0] == '开'
        && "重新开始"@[0] == '重' && "开始排队"@[0] == '开');
}

/// Each phase has its own title.
pub proof fn titles_tell_phases_apart(left: QueuePhase, right: QueuePhase)
    ensures
        phase_title(left) == phase_title(right) <==> left == right,
{
    reveal_strlit("准备就绪");
    reveal_strlit("正在连接");
    reveal_strlit("正在发送");
    reveal_strlit("处理中");
    reveal_strlit("稍后重试");
    reveal_strlit("已完成");
    reveal_strlit("已暂停");
    reveal_strlit("需要处理");
    assert("准备就绪"@[0] == '准' && "正在连接"@[0] == '正' && "正在发送"@[0] == '正'
        && "处理中"@[0] == '处' && "稍后重试"@[0] == '稍' && "已完成"@[0] == '已'
        && "已暂停"@[0] == '已' && "需要处理"@[0] == '需');
    assert("正在连接"@[2] == '连' && "正在发送"@[2] == '发' && "已完成"@[1] == '完'
        && "已暂停"@[1] == '暂');
}

/// A status speaks of a retry where it says so, in Chinese or, in capitals or
/// small letters, in English; the rest of it does not matter.
pub proof fn retries_are_recognised(status: Seq<char>)
    ensures
        occurs(status, "重试"@) ==> speaks_of_retry(status),
        occurs(ascii_folded(status), "reconnecting"@) ==> speaks_of_retry(status),
        occurs(ascii_folded(status), "disconnected"@) ==> speaks_of_retry(status),
        occurs(ascii_folded(status), "error sending request"@) ==> speaks_of_retry(status),
        !occurs(status, "重试"@) && !occurs(ascii_folded(status), "reconnecting"@) && !occurs(
            ascii_folded(status),
            "disconnected"@,
        ) && !occurs(ascii_folded(status), "error sending request"@) ==> !speaks_of_retry(status),
{
}

/// The conversation shows the reply where there is one; otherwise it shows the
/// status where the queue waits for another attempt, rests or has failed, or
/// where Codex retries by itself; otherwise a line for the phase.
pub proof fn the_conversation_shows_the_reply(snapshot: SnapshotView)
    ensures
        ({
            let shown = conversation(snapshot);
            let status = trimmed(snapshot.status_message);
            let none = blank(snapshot.reply_preview);
            &&& !none ==> shown == snapshot.reply_preview
            &&& none && status.len() > 0 && (snapshot.phase == QueuePhase::Backoff || snapshot.phase
                == QueuePhase::Paused || snapshot.phase == QueuePhase::FatalError) ==> shown
                == status
            &&& none && status.len() > 0 && snapshot.phase == QueuePhase::Waiting
                && speaks_of_retry(status) ==> shown == status
            &&& none && snapshot.phase == QueuePhase::Waiting && !speaks_of_retry(status) ==> shown
                == waiting_text(QueuePhase::Waiting)
            &&& none && (snapshot.phase == QueuePhase::Connecting || snapshot.phase
                == QueuePhase::Sending || snapshot.phase == QueuePhase::Idle || snapshot.phase
                == QueuePhase::Success) ==> shown == waiting_text(snapshot.phase)
            &&& none && status.len() == 0 ==> shown == waiting_text(snapshot.phase)
        }),
{
}

/// The headline follows the phase; while Codex is waited for it tells whether
/// Codex retries, and while the queue connects whether it connects again.
pub proof fn headlines_follow_the_phase(status: Seq<char>)
    ensures
        speaks_of_retry(status) ==> status_headline(QueuePhase::Waiting, status)
            == "Codex 正在自动重试"@,
        !speaks_of_retry(status) ==> status_headline(QueuePhase::Waiting, status)
            == "Codex 正在处理"@,
        occurs(status, "恢复"@) ==> status_headline(QueuePhase::Connecting, status)
            == "正在恢复连接"@,
        !occurs(status, "恢复"@) ==> status_headline(QueuePhase::Connecting, status)
            == "正在连接 Codex"@,
        status_headline(QueuePhase::Success, status) == "任务已完成"@,
        status_headline(QueuePhase::Paused, status) == "队列已暂停"@,
        status_headline(QueuePhase::FatalError, status) == "运行需要处理"@,
        status_headline(QueuePhase::Backoff, status) == "等待下一次重试"@,
{
}

/// The line of the carrier names it and who answers while it is connected, and
/// says that it is not where it is not.
pub proof fn the_carrier_is_named(snapshot: SnapshotView)
    ensures
        ({
            let shown = transport_text(snapshot);
            let status = snapshot.transport_status;
            let name = status.kind.name();
            &&& status.connected ==> begins(shown, name + " · 已连接"@)
            &&& status.connected && status.server_agent is Some ==> shown == name + " · 已连接"@
                + " · "@ + status.server_agent->0
            &&& status.connected && status.server_agent is None ==> shown == name + " · 已连接"@
            &&& !status.connected && snapshot.phase == QueuePhase::Idle ==> shown
                == "尚未连接 · 开始任务后自动启动 app-server"@
            &&& !status.connected && snapshot.phase != QueuePhase::Idle ==> begins(shown, name)
                && occurs(shown, "未连接"@)
        }),
{
    let shown = transport_text(snapshot);
    let name = snapshot.transport_status.kind.name();
    reveal_strlit(" · 已连接 · ");
    reveal_strlit(" · 已连接");
    reveal_strlit(" · ");
    reveal_strlit(" · 未连接，正在由队列恢复");
    reveal_strlit("未连接");
    assert(" · 已连接 · "@ =~= " · 已连接"@ + " · "@);
    let head = name + " · 已连接"@;
    if snapshot.transport_status.connected {
        assert(shown.take(head.len() as int) =~= head);
        if let Some(agent) = snapshot.transport_status.server_agent {
            assert(shown =~= name + " · 已连接"@ + " · "@ + agent);
        }
    } else if snapshot.phase != QueuePhase::Idle {
        assert(shown.take(name.len() as int) =~= name);
        let at = name.len() as int + 3;
        assert(shown.subrange(at, at + 3) =~= "未连接"@);
        assert(stands_at(shown, "未连接"@, at));
    }
}

/// While the queue waits for another attempt, the line below counts the round,
/// from one, and tells when the attempt is due where that is known.
pub proof fn the_round_is_counted(next: Seq<char>, retry_round: u32)
    ensures
        retry_round >= 1 ==> occurs(
            detail(QueuePhase::Backoff, None, retry_round),
            "第 "@ + decimal(retry_round as nat) + " 轮"@,
        ),
        retry_round == 0 ==> detail(QueuePhase::Backoff, None, 0) == detail(
            QueuePhase::Backoff,
            None,
            1,
        ),
        occurs(detail(QueuePhase::Backoff, Some(next), retry_round), next),
        detail(QueuePhase::Success, Some(next), retry_round).len() == 0,
{
    let round = decimal(
        if retry_round < 1 {
            1
        } else {
            retry_round as nat
        },
    );
    reveal_strlit(" 轮退避 · 已安排下一次低频重试");
    reveal_strlit(" 轮退避 · ");
    reveal_strlit(" 轮");
    let open = detail(QueuePhase::Backoff, None, retry_round);
    let part = "第 "@ + round + " 轮"@;
    assert(open.subrange(0, part.len() as int) =~= part);
    assert(stands_at(open, part, 0));
    let due = detail(QueuePhase::Backoff, Some(next), retry_round);
    let front = "第 "@ + round + " 轮退避 · "@;
    let at = front.len() as int;
    assert(due.subrange(at, at + next.len()) =~= next);
    assert(stands_at(due, next, at));
}

/// The seconds until an attempt are whole ones: as many as have to pass, and
/// none where it is due.
pub proof fn seconds_are_whole(next: int, now: int)
    ensures
        next <= now ==> seconds_until(next, now) == 0,
        next > now ==> seconds_until(next, now) * 1_000_000_000 <= next - now < (seconds_until(
            next,
            now,
        ) + 1) * 1_000_000_000,
{
}

/// When an attempt is due is told in seconds up to a minute and a half, in
/// minutes, to the nearest, up to an hour, and then by the clock, today,
/// tomorrow or with the date.
pub proof fn due_times_are_told(next: int, now: int, local: LocalTime)
    ensures
        ({
            let shown = due_text(next, now, local);
            let left = next - now;
            &&& left < 1_000_000_000 ==> shown == "即将"@
            &&& 1_000_000_000 <= left < 90_000_000_000 ==> occurs(
                shown,
                decimal((left / 1_000_000_000) as nat) + " 秒后"@,
            ) && occurs(shown, local.seconds@)
            &&& 90_000_000_000 <= left < 3_600_000_000_000 ==> occurs(
                shown,
                decimal(((left / 1_000_000_000 + 30) / 60) as nat) + " 分钟后"@,
            ) && occurs(shown, local.minutes@)
            &&& left >= 3_600_000_000_000 && local.day == local.today ==> shown == "今天 "@
                + local.minutes@
            &&& left >= 3_600_000_000_000 && local.day == local.today + 1 ==> shown == "明天 "@
                + local.minutes@
            &&& left >= 3_600_000_000_000 && local.day != local.today && local.day != local.today
                + 1 ==> shown == local.date@
        }),
{
    let shown = due_text(next, now, local);
    let left = next - now;
    reveal_strlit(" 秒后（");
    reveal_strlit(" 秒后");
    reveal_strlit(" 分钟后（");
    reveal_strlit(" 分钟后");
    if 1_000_000_000 <= left < 90_000_000_000 {
        let numeral = decimal((left / 1_000_000_000) as nat);
        let part = numeral + " 秒后"@;
        let at = "约 "@.len() as int;
        assert(shown.subrange(at, at + part.len()) =~= part);
        assert(stands_at(shown, part, at));
        let behind = at + numeral.len() + " 秒后（"@.len();
        assert(shown.subrange(behind, behind + local.seconds@.len()) =~= local.seconds@);
        assert(stands_at(shown, local.seconds@, behind));
    }
    if 90_000_000_000 <= left < 3_600_000_000_000 {
        let numeral = decimal(((left / 1_000_000_000 + 30) / 60) as nat);
        let part = numeral + " 分钟后"@;
        let at = "约 "@.len() as int;
        assert(shown.subrange(at, at + part.len()) =~= part);
        assert(stands_at(shown, part, at));
        let behind = at + numeral.len() + " 分钟后（"@.len();
        assert(shown.subrange(behind, behind + local.minutes@.len()) =~= local.minutes@);
        assert(stands_at(shown, local.minutes@, behind));
    }
}

/// The route of an attempt goes through four stages; a task that rests after an
/// attempt stands where it waited, and before one at the start.
pub proof fn the_route_goes_through_its_stages(attempts: u64)
    ensures
        route_stage(QueuePhase::Idle, attempts) == 0,
        route_stage(QueuePhase::Connecting, attempts) == 1,
        route_stage(QueuePhase::Sending, attempts) == 2,
        route_stage(QueuePhase::Waiting, attempts) == 3,
        route_stage(QueuePhase::Backoff, attempts) == 3,
        route_stage(QueuePhase::Success, attempts) == 4,
        attempts > 0 ==> route_stage(QueuePhase::Paused, attempts) == 3 && route_stage(
            QueuePhase::FatalError,
            attempts,
        ) == 3,
        route_stage(QueuePhase::Paused, 0) == 0,
        route_stage(QueuePhase::FatalError, 0) == 0,
{
}

/// What the user entered is taken over: the prompt as it stands, the directory
/// without the white space around it and none where it is blank, and the
/// phrases between the bars; every other setting stays.
pub proof fn what_was_entered_is_taken_over(
    window: WindowView,
    prompt: Seq<char>,
    cwd: Seq<char>,
    phrases: Seq<char>,
)
    ensures
        ({
            let entered = window.entered(prompt, cwd, phrases);
            &&& entered.prompt == prompt
            &&& blank(cwd) ==> entered.working_directory is None
            &&& !blank(cwd) ==> entered.working_directory == Some(trimmed(cwd))
            &&& entered.failure_phrases == phrases_of(segments(phrases, '|'))
            &&& entered.retry_policy == window.config.retry_policy
            &&& entered.codex_path == window.config.codex_path
            &&& entered.turn_timeout_secs == window.config.turn_timeout_secs
            &&& entered.gui_fallback_enabled == window.config.gui_fallback_enabled
            &&& entered.full_screen_flash_enabled == window.config.full_screen_flash_enabled
            &&& entered.audio_alert_enabled == window.config.audio_alert_enabled
        }),
{
}

/// Each part with words is a phrase, without the white space around it, in the
/// order in which they were entered; a blank part is none.
pub proof fn parts_with_words_are_phrases(parts: Seq<Seq<char>>, part: Seq<char>)
    ensures
        blank(part) ==> phrases_of(parts.push(part)) == phrases_of(parts),
        !blank(part) ==> phrases_of(parts.push(part)) == phrases_of(parts).push(trimmed(part)),
        phrases_of(Seq::empty()).len() == 0,
{
    assert(parts.push(part).drop_last() =~= parts);
}

/// Starting asks for a task: without a prompt nothing is sent and the missing
/// prompt is shown; with one the alerts are acknowledged and the queue is
/// started with what was entered.
pub proof fn starting_sends_what_was_entered(
    window: WindowView,
    prompt: Seq<char>,
    cwd: Seq<char>,
    phrases: Seq<char>,
)
    ensures
        blank(prompt) ==> window.start_effect(prompt, cwd, phrases) is Nothing && window.started(
            prompt,
            cwd,
            phrases,
        ).prompt_error && window.started(prompt, cwd, phrases).config == window.config,
        !blank(prompt) ==> window.start_effect(prompt, cwd, phrases)
            == EffectView::AcknowledgeAndSend(
            CommandView::StartConfigured(window.entered(prompt, cwd, phrases)),
        ) && !window.started(prompt, cwd, phrases).prompt_error && window.started(
            prompt,
            cwd,
            phrases,
        ).config == window.entered(prompt, cwd, phrases),
        window.started(prompt, cwd, phrases).snapshot == window.snapshot,
        window.started(prompt, cwd, phrases).advanced_open == window.advanced_open,
{
}

/// As many alerts are shown as have come since the last snapshot, at most
/// sixteen, and none where none has.
pub proof fn alerts_are_counted(window: WindowView, snapshot: SnapshotView)
    ensures
        ({
            let before = window.snapshot.retry_alert_count;
            let now = snapshot.retry_alert_count;
            &&& now <= before ==> window.new_alerts(snapshot) == 0
            &&& before < now <= before + 16 ==> window.new_alerts(snapshot) == now - before
            &&& now > before + 16 ==> window.new_alerts(snapshot) == 16
        }),
{
}

/// The conversation changes with its reply, its status or its phase, and with
/// nothing else.
pub proof fn the_conversation_changes(window: WindowView, snapshot: SnapshotView)
    ensures
        window.snapshot.reply_preview != snapshot.reply_preview ==> window.conversation_changes(
            snapshot,
        ),
        window.snapshot.status_message != snapshot.status_message ==> window.conversation_changes(
            snapshot,
        ),
        window.snapshot.phase != snapshot.phase ==> window.conversation_changes(snapshot),
        window.snapshot.reply_preview == snapshot.reply_preview && window.snapshot.status_message
            == snapshot.status_message && window.snapshot.phase == snapshot.phase
            ==> !window.conversation_changes(snapshot) && conversation(window.snapshot)
            == conversation(snapshot),
{
}

/// What each phase is called and coloured, and what is said while nothing has
/// come.
pub proof fn phases_are_shown()
    ensures
        phase_title(QueuePhase::Idle) == "准备就绪"@,
        phase_title(QueuePhase::Connecting) == "正在连接"@,
        phase_title(QueuePhase::Sending) == "正在发送"@,
        phase_title(QueuePhase::Waiting) == "处理中"@,
        phase_title(QueuePhase::Backoff) == "稍后重试"@,
        phase_title(QueuePhase::Success) == "已完成"@,
        phase_title(QueuePhase::Paused) == "已暂停"@,
        phase_title(QueuePhase::FatalError) == "需要处理"@,
        accent(QueuePhase::Success) == 0x16a673,
        accent(QueuePhase::Idle) == 0x66736f,
        accent(QueuePhase::Paused) == 0x777777,
        accent(QueuePhase::FatalError) == 0xd54941,
        accent(QueuePhase::Connecting) == 0xe37318,
        accent(QueuePhase::Sending) == 0xe37318,
        accent(QueuePhase::Waiting) == 0xe37318,
        accent(QueuePhase::Backoff) == 0xe37318,
        waiting_text(QueuePhase::Connecting) == "正在连接 Codex…"@,
        waiting_text(QueuePhase::Sending) == "正在发送任务…"@,
        waiting_text(QueuePhase::Waiting) == "正在处理，请稍候…"@,
        waiting_text(QueuePhase::Backoff) == "当前服务繁忙，已安排下一次重试…"@,
        waiting_text(QueuePhase::Paused) == "对话已暂停，继续后将恢复排队。"@,
        waiting_text(QueuePhase::FatalError) == "当前任务需要处理，请检查状态后重新开始。"@,
        waiting_text(QueuePhase::Success) == "任务已完成，正在整理最终回复。"@,
        waiting_text(QueuePhase::Idle) == "等待发送任务…"@,
        status_headline(QueuePhase::Idle, Seq::empty()) == "等待开始"@,
        status_headline(QueuePhase::Sending, Seq::empty()) == "正在发送任务"@,
        GRID_CELLS == 20,
{
}

/// What is said below the headline in each phase.
pub proof fn details_are_told(next: Option<Seq<char>>, retry_round: u32)
    ensures
        detail(QueuePhase::Idle, next, retry_round) == "填写任务后即可开始排队"@,
        detail(QueuePhase::Connecting, next, retry_round) == "正在建立 Codex app-server 连接"@,
        detail(QueuePhase::Sending, next, retry_round) == "任务正在原样发送给 Codex"@,
        detail(QueuePhase::Waiting, next, retry_round) == "正在等待 Codex 完成当前回合"@,
        detail(QueuePhase::Paused, next, retry_round) == "已暂停，不会自动发送新的回合"@,
        detail(QueuePhase::FatalError, next, retry_round)
            == "请检查配置或 Codex 运行状态后重新开始"@,
{
}

} // verus!
