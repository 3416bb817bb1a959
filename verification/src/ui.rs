//! What the window shows and what its controls do.  Drawing is left to the
//! surrounding program; the texts, colours and decisions are here.

use vstd::prelude::*;

use crate::config::{ConfigView, QueueConfig};
use crate::diagnostics::CodexCliInfo;
use crate::platform::tray::{TrayAction, TrayControl};
use crate::queue::{QueuePhase, QueueSnapshot, SnapshotView};
use crate::runtime::engine::{CommandView, RuntimeCommand};
use crate::text::{
    ascii_folded, blank, cat, cat3, contains, copy_opt, decimal, fold_ascii, is_blank, join, joined,
    number_text, occurs, opt, same, segments, split_on, trim, trimmed, views,
};

verus! {

/// Whether the queue is under way: it can be paused, and should not be closed
/// without asking.
pub open spec fn under_way(phase: QueuePhase) -> bool {
    phase == QueuePhase::Connecting || phase == QueuePhase::Sending || phase == QueuePhase::Waiting
        || phase == QueuePhase::Backoff
}

/// Whether the queue is under way.
pub fn is_under_way(phase: QueuePhase) -> (r: bool)
    ensures
        r == under_way(phase),
{
    match phase {
        QueuePhase::Connecting | QueuePhase::Sending | QueuePhase::Waiting | QueuePhase::Backoff => true,
        _ => false,
    }
}

/// The name of a phase on the window.
pub open spec fn phase_title(phase: QueuePhase) -> Seq<char> {
    match phase {
        QueuePhase::Idle => "准备就绪"@,
        QueuePhase::Connecting => "正在连接"@,
        QueuePhase::Sending => "正在发送"@,
        QueuePhase::Waiting => "处理中"@,
        QueuePhase::Backoff => "稍后重试"@,
        QueuePhase::Success => "已完成"@,
        QueuePhase::Paused => "已暂停"@,
        QueuePhase::FatalError => "需要处理"@,
    }
}

/// The name of a phase on the window.
pub fn friendly_phase(phase: QueuePhase) -> (r: &'static str)
    ensures
        r@ == phase_title(phase),
{
    match phase {
        QueuePhase::Idle => "准备就绪",
        QueuePhase::Connecting => "正在连接",
        QueuePhase::Sending => "正在发送",
        QueuePhase::Waiting => "处理中",
        QueuePhase::Backoff => "稍后重试",
        QueuePhase::Success => "已完成",
        QueuePhase::Paused => "已暂停",
        QueuePhase::FatalError => "需要处理",
    }
}

/// The text of the main button.
pub open spec fn primary_label(phase: QueuePhase) -> Seq<char> {
    match phase {
        QueuePhase::Paused => "继续排队"@,
        QueuePhase::Success => "开始新任务"@,
        QueuePhase::FatalError => "重新开始"@,
        QueuePhase::Idle => "开始排队"@,
        _ => "暂停排队"@,
    }
}

/// The text of the main button.
pub fn primary_action_label(phase: QueuePhase) -> (r: &'static str)
    ensures
        r@ == primary_label(phase),
{
    match phase {
        QueuePhase::Paused => "继续排队",
        QueuePhase::Success => "开始新任务",
        QueuePhase::FatalError => "重新开始",
        QueuePhase::Idle => "开始排队",
        _ => "暂停排队",
    }
}

/// The text of the other button.
pub fn secondary_action_label(phase: QueuePhase) -> (r: &'static str)
    ensures
        r@ == (if phase == QueuePhase::Success {
            "打开结果"@
        } else {
            "停止"@
        }),
{
    match phase {
        QueuePhase::Success => "打开结果",
        _ => "停止",
    }
}

/// How prominent something is.
#[derive(Clone, Copy, Debug, PartialEq, Eq, Structural)]
pub enum Tone {
    Default,
    Primary,
    Success,
    Warning,
    Danger,
    Outline,
}

/// How the main button looks.
pub fn primary_tone(phase: QueuePhase) -> (r: Tone)
    ensures
        r == (if under_way(phase) {
            Tone::Warning
        } else if phase == QueuePhase::FatalError {
            Tone::Danger
        } else {
            Tone::Primary
        }),
{
    match phase {
        QueuePhase::Connecting | QueuePhase::Sending | QueuePhase::Waiting | QueuePhase::Backoff => Tone::Warning,
        QueuePhase::FatalError => Tone::Danger,
        _ => Tone::Primary,
    }
}

/// How the other button looks.
pub fn secondary_tone(phase: QueuePhase) -> (r: Tone)
    ensures
        r == (if phase == QueuePhase::Success {
            Tone::Outline
        } else {
            Tone::Danger
        }),
{
    match phase {
        QueuePhase::Success => Tone::Outline,
        _ => Tone::Danger,
    }
}

/// How the mark of a phase looks.
pub fn tag_theme(phase: QueuePhase) -> (r: Tone)
    ensures
        r == (if phase == QueuePhase::Success {
            Tone::Success
        } else if under_way(phase) {
            Tone::Warning
        } else if phase == QueuePhase::FatalError {
            Tone::Danger
        } else {
            Tone::Default
        }),
{
    match phase {
        QueuePhase::Success => Tone::Success,
        QueuePhase::Connecting | QueuePhase::Sending | QueuePhase::Waiting | QueuePhase::Backoff => Tone::Warning,
        QueuePhase::FatalError => Tone::Danger,
        QueuePhase::Paused | QueuePhase::Idle => Tone::Default,
    }
}

/// The mark on the conversation.
pub fn reply_tag_label(phase: QueuePhase) -> (r: &'static str)
    ensures
        r@ == (if phase == QueuePhase::Success {
            "已完成"@
        } else if under_way(phase) {
            "排队中"@
        } else if phase == QueuePhase::FatalError {
            "需处理"@
        } else {
            "等待中"@
        }),
{
    match phase {
        QueuePhase::Success => "已完成",
        QueuePhase::Connecting | QueuePhase::Sending | QueuePhase::Waiting | QueuePhase::Backoff => "排队中",
        QueuePhase::FatalError => "需处理",
        QueuePhase::Idle | QueuePhase::Paused => "等待中",
    }
}

/// The colour of a phase, as red, green and blue.
pub open spec fn accent(phase: QueuePhase) -> u32 {
    match phase {
        QueuePhase::Success => 0x16a673,
        QueuePhase::Idle => 0x66736f,
        QueuePhase::Paused => 0x777777,
        QueuePhase::FatalError => 0xd54941,
        _ => 0xe37318,
    }
}

/// The colour of a phase, as red, green and blue.
pub fn phase_color(phase: QueuePhase) -> (r: u32)
    ensures
        r == accent(phase),
{
    match phase {
        QueuePhase::Success => 0x16a673,
        QueuePhase::Idle => 0x66736f,
        QueuePhase::Paused => 0x777777,
        QueuePhase::FatalError => 0xd54941,
        _ => 0xe37318,
    }
}

/// The colour in which a phase is shown; a success pulses.
pub fn phase_accent(phase: QueuePhase, pulsing: bool) -> (r: u32)
    ensures
        r == (if pulsing && phase == QueuePhase::Success {
            0x0b7f58u32
        } else {
            accent(phase)
        }),
{
    match phase {
        QueuePhase::Success => {
            if pulsing {
                0x0b7f58
            } else {
                phase_color(phase)
            }
        },
        _ => phase_color(phase),
    }
}

/// The colour behind the status, as red, green, blue and opacity.
pub fn status_surface(phase: QueuePhase) -> (r: u32)
    ensures
        r == (match phase {
            QueuePhase::Success => 0xf4faf7ffu32,
            QueuePhase::Idle => 0xf7f8f8ff,
            QueuePhase::FatalError => 0xfff5f3ff,
            QueuePhase::Paused => 0xf7f7f7ff,
            _ => 0xfff7f0ff,
        }),
{
    match phase {
        QueuePhase::Success => 0xf4faf7ff,
        QueuePhase::Idle => 0xf7f8f8ff,
        QueuePhase::FatalError => 0xfff5f3ff,
        QueuePhase::Paused => 0xf7f7f7ff,
        _ => 0xfff7f0ff,
    }
}

/// The colour round the status, as red, green and blue.
pub fn status_surface_border(phase: QueuePhase) -> (r: u32)
    ensures
        r == (match phase {
            QueuePhase::Success => 0xd3e9dfu32,
            QueuePhase::Idle => 0xdde2e0,
            QueuePhase::FatalError => 0xf0c7c1,
            QueuePhase::Paused => 0xdedede,
            _ => 0xf2ceb2,
        }),
{
    match phase {
        QueuePhase::Success => 0xd3e9df,
        QueuePhase::Idle => 0xdde2e0,
        QueuePhase::FatalError => 0xf0c7c1,
        QueuePhase::Paused => 0xdedede,
        _ => 0xf2ceb2,
    }
}

/// The sign of a phase.
#[derive(Clone, Copy, Debug, PartialEq, Eq, Structural)]
pub enum StatusIcon {
    Check,
    Refresh,
    Pause,
    Error,
    Ready,
}

/// The sign of a phase, its size and the size of the circle round it.
pub fn status_icon(phase: QueuePhase) -> (r: (StatusIcon, u32, u32))
    ensures
        r == (match phase {
            QueuePhase::Success => (StatusIcon::Check, 64u32, 76u32),
            QueuePhase::Paused => (StatusIcon::Pause, 25, 40),
            QueuePhase::FatalError => (StatusIcon::Error, 25, 40),
            QueuePhase::Idle => (StatusIcon::Ready, 25, 40),
            _ => (StatusIcon::Refresh, 25, 40),
        }),
{
    match phase {
        QueuePhase::Success => (StatusIcon::Check, 64, 76),
        QueuePhase::Paused => (StatusIcon::Pause, 25, 40),
        QueuePhase::FatalError => (StatusIcon::Error, 25, 40),
        QueuePhase::Idle => (StatusIcon::Ready, 25, 40),
        _ => (StatusIcon::Refresh, 25, 40),
    }
}

/// What stands in the conversation while there is no reply.
pub open spec fn waiting_text(phase: QueuePhase) -> Seq<char> {
    match phase {
        QueuePhase::Connecting => "正在连接 Codex…"@,
        QueuePhase::Sending => "正在发送任务…"@,
        QueuePhase::Waiting => "正在处理，请稍候…"@,
        QueuePhase::Backoff => "当前服务繁忙，已安排下一次重试…"@,
        QueuePhase::Paused => "对话已暂停，继续后将恢复排队。"@,
        QueuePhase::FatalError => "当前任务需要处理，请检查状态后重新开始。"@,
        QueuePhase::Success => "任务已完成，正在整理最终回复。"@,
        QueuePhase::Idle => "等待发送任务…"@,
    }
}

/// What stands in the conversation while there is no reply.
pub fn conversation_waiting_text(phase: QueuePhase) -> (r: &'static str)
    ensures
        r@ == waiting_text(phase),
{
    match phase {
        QueuePhase::Connecting => "正在连接 Codex…",
        QueuePhase::Sending => "正在发送任务…",
        QueuePhase::Waiting => "正在处理，请稍候…",
        QueuePhase::Backoff => "当前服务繁忙，已安排下一次重试…",
        QueuePhase::Paused => "对话已暂停，继续后将恢复排队。",
        QueuePhase::FatalError => "当前任务需要处理，请检查状态后重新开始。",
        QueuePhase::Success => "任务已完成，正在整理最终回复。",
        QueuePhase::Idle => "等待发送任务…",
    }
}

/// Whether a status speaks of a retry.
pub open spec fn speaks_of_retry(status: Seq<char>) -> bool {
    let folded = ascii_folded(status);
    ||| occurs(status, "重试"@)
    ||| occurs(folded, "reconnecting"@)
    ||| occurs(folded, "disconnected"@)
    ||| occurs(folded, "error sending request"@)
}

/// Whether a status speaks of a retry.
pub fn is_retry_status(status: &str) -> (r: bool)
    ensures
        r == speaks_of_retry(status@),
{
    let folded = fold_ascii(status);
    contains(status, "重试") || contains(folded.as_str(), "reconnecting") || contains(
        folded.as_str(),
        "disconnected",
    ) || contains(folded.as_str(), "error sending request")
}

/// Whether the status is what Codex said.
pub open spec fn status_is_reply(phase: QueuePhase, status: Seq<char>) -> bool {
    phase == QueuePhase::Backoff || phase == QueuePhase::Paused || phase == QueuePhase::FatalError
        || phase == QueuePhase::Waiting && speaks_of_retry(status)
}

/// What stands in the conversation: the reply, else what Codex said of the
/// status, else that it is waited for.
pub open spec fn conversation(snapshot: SnapshotView) -> Seq<char> {
    let status = trimmed(snapshot.status_message);
    if !blank(snapshot.reply_preview) {
        snapshot.reply_preview
    } else if status_is_reply(snapshot.phase, status) && status.len() > 0 {
        status
    } else {
        waiting_text(snapshot.phase)
    }
}

/// What stands in the conversation.
pub fn conversation_text(snapshot: &QueueSnapshot) -> (r: String)
    ensures
        r@ == conversation(snapshot@),
{
    if !is_blank(snapshot.reply_preview.as_str()) {
        return snapshot.reply_preview.clone();
    }
    let status = trim(snapshot.status_message.as_str());
    let from_codex = match snapshot.phase {
        QueuePhase::Backoff | QueuePhase::Paused | QueuePhase::FatalError => true,
        QueuePhase::Waiting => is_retry_status(status.as_str()),
        _ => false,
    };
    if from_codex && !status.as_str().is_empty() {
        status
    } else {
        conversation_waiting_text(snapshot.phase).to_owned()
    }
}

/// The headline of the status.
pub open spec fn status_headline(phase: QueuePhase, status: Seq<char>) -> Seq<char> {
    match phase {
        QueuePhase::Idle => "等待开始"@,
        QueuePhase::Connecting => if occurs(status, "恢复"@) {
            "正在恢复连接"@
        } else {
            "正在连接 Codex"@
        },
        QueuePhase::Sending => "正在发送任务"@,
        QueuePhase::Waiting => if speaks_of_retry(status) {
            "Codex 正在自动重试"@
        } else {
            "Codex 正在处理"@
        },
        QueuePhase::Backoff => "等待下一次重试"@,
        QueuePhase::Success => "任务已完成"@,
        QueuePhase::Paused => "队列已暂停"@,
        QueuePhase::FatalError => "运行需要处理"@,
    }
}

/// The headline of the status.
pub fn simple_status_title(snapshot: &QueueSnapshot) -> (r: &'static str)
    ensures
        r@ == status_headline(snapshot@.phase, snapshot@.status_message),
{
    match snapshot.phase {
        QueuePhase::Idle => "等待开始",
        QueuePhase::Connecting => {
            if contains(snapshot.status_message.as_str(), "恢复") {
                "正在恢复连接"
            } else {
                "正在连接 Codex"
            }
        },
        QueuePhase::Sending => "正在发送任务",
        QueuePhase::Waiting => {
            if is_retry_status(snapshot.status_message.as_str()) {
                "Codex 正在自动重试"
            } else {
                "Codex 正在处理"
            }
        },
        QueuePhase::Backoff => "等待下一次重试",
        QueuePhase::Success => "任务已完成",
        QueuePhase::Paused => "队列已暂停",
        QueuePhase::FatalError => "运行需要处理",
    }
}

/// What is said of the carrier.
pub open spec fn transport_text(snapshot: SnapshotView) -> Seq<char> {
    let status = snapshot.transport_status;
    if status.connected {
        match status.server_agent {
            Some(agent) => status.kind.name() + " · 已连接 · "@ + agent,
            None => status.kind.name() + " · 已连接"@,
        }
    } else if snapshot.phase == QueuePhase::Idle {
        "尚未连接 · 开始任务后自动启动 app-server"@
    } else {
        status.kind.name() + " · 未连接，正在由队列恢复"@
    }
}

/// What is said of the carrier.
pub fn transport_status_text(snapshot: &QueueSnapshot) -> (r: String)
    ensures
        r@ == transport_text(snapshot@),
{
    let status = &snapshot.transport_status;
    if status.connected {
        match &status.server_agent {
            Some(agent) => cat3(status.kind.label(), " · 已连接 · ", agent.as_str()),
            None => cat(status.kind.label(), " · 已连接"),
        }
    } else if snapshot.phase == QueuePhase::Idle {
        "尚未连接 · 开始任务后自动启动 app-server".to_owned()
    } else {
        cat(status.kind.label(), " · 未连接，正在由队列恢复")
    }
}

/// The line below the headline.
pub open spec fn detail(phase: QueuePhase, next: Option<Seq<char>>, retry_round: u32) -> Seq<char> {
    let round = decimal(
        if retry_round < 1 {
            1
        } else {
            retry_round as nat
        },
    );
    match phase {
        QueuePhase::Idle => "填写任务后即可开始排队"@,
        QueuePhase::Connecting => "正在建立 Codex app-server 连接"@,
        QueuePhase::Sending => "任务正在原样发送给 Codex"@,
        QueuePhase::Waiting => "正在等待 Codex 完成当前回合"@,
        QueuePhase::Backoff => match next {
            None => "第 "@ + round + " 轮退避 · 已安排下一次低频重试"@,
            Some(next) => "第 "@ + round + " 轮退避 · "@ + next + "重试"@,
        },
        QueuePhase::Success => Seq::empty(),
        QueuePhase::Paused => "已暂停，不会自动发送新的回合"@,
        QueuePhase::FatalError => "请检查配置或 Codex 运行状态后重新开始"@,
    }
}

/// The line below the headline.
pub fn phase_detail(phase: QueuePhase, next: &Option<String>, retry_round: u32) -> (r: String)
    ensures
        r@ == detail(phase, opt(*next), retry_round),
{
    match phase {
        QueuePhase::Idle => "填写任务后即可开始排队".to_owned(),
        QueuePhase::Connecting => "正在建立 Codex app-server 连接".to_owned(),
        QueuePhase::Sending => "任务正在原样发送给 Codex".to_owned(),
        QueuePhase::Waiting => "正在等待 Codex 完成当前回合".to_owned(),
        QueuePhase::Backoff => {
            let round: u64 = if retry_round < 1 {
                1
            } else {
                retry_round as u64
            };
            let numeral = number_text(round);
            match next {
                None => cat3("第 ", numeral.as_str(), " 轮退避 · 已安排下一次低频重试"),
                Some(next) => {
                    let mut text = cat3("第 ", numeral.as_str(), " 轮退避 · ");
                    text.push_str(next.as_str());
                    text.push_str("重试");
                    text
                },
            }
        },
        QueuePhase::Success => String::new(),
        QueuePhase::Paused => "已暂停，不会自动发送新的回合".to_owned(),
        QueuePhase::FatalError => "请检查配置或 Codex 运行状态后重新开始".to_owned(),
    }
}

/// On which day a time lies, seen from now.
#[derive(Clone, Copy, Debug, PartialEq, Eq, Structural)]
pub enum Day {
    Today,
    Tomorrow,
    Other,
}

/// A time in the words of the user's time zone.
#[derive(Debug)]
pub struct LocalTime {
    /// Hours, minutes and seconds.
    pub seconds: String,
    /// Hours and minutes.
    pub minutes: String,
    /// Month, day, hours and minutes.
    pub date: String,
    /// The number of its day, and that of today.
    pub day: i32,
    pub today: i32,
}

/// How a day lies to today.
pub open spec fn day_from(day: int, today: int) -> Day {
    if day == today {
        Day::Today
    } else if day == today + 1 {
        Day::Tomorrow
    } else {
        Day::Other
    }
}

/// How a day lies to today, by their numbers.
pub fn calendar_day(day: i32, today: i32) -> (r: Day)
    ensures
        r == day_from(day as int, today as int),
{
    if day == today {
        Day::Today
    } else if today < day && day - 1 == today {
        Day::Tomorrow
    } else {
        Day::Other
    }
}

/// The whole seconds until a time; none once it has come.
pub open spec fn seconds_until(next: int, now: int) -> int {
    if next <= now {
        0
    } else {
        (next - now) / 1_000_000_000
    }
}

/// When the next attempt is due, in words: exact to the second when it is near,
/// to the minute within the hour, else by the clock.
pub open spec fn due_text(next: int, now: int, local: LocalTime) -> Seq<char> {
    let remaining = seconds_until(next, now);
    if remaining == 0 {
        "即将"@
    } else if remaining < 90 {
        "约 "@ + decimal(remaining as nat) + " 秒后（"@ + local.seconds@ + "）"@
    } else if remaining < 3600 {
        "约 "@ + decimal(((remaining + 30) / 60) as nat) + " 分钟后（"@ + local.minutes@ + "）"@
    } else {
        match day_from(local.day as int, local.today as int) {
            Day::Today => "今天 "@ + local.minutes@,
            Day::Tomorrow => "明天 "@ + local.minutes@,
            Day::Other => local.date@,
        }
    }
}

/// When the next attempt is due, in words.
pub fn next_attempt_label_at(next: i128, now: i128, local: &LocalTime) -> (r: String)
    requires
        crate::clock::valid_time(next as int),
        crate::clock::valid_time(now as int),
    ensures
        r@ == due_text(next as int, now as int, *local),
{
    let remaining: i128 = if next <= now {
        0
    } else {
        (next - now) / 1_000_000_000
    };
    if remaining == 0 {
        return "即将".to_owned();
    }
    if remaining < 90 {
        let mut text = cat3("约 ", number_text(remaining as u64).as_str(), " 秒后（");
        text.push_str(local.seconds.as_str());
        text.push_str("）");
        return text;
    }
    if remaining < 3600 {
        let minutes: i128 = (remaining + 30) / 60;
        let mut text = cat3("约 ", number_text(minutes as u64).as_str(), " 分钟后（");
        text.push_str(local.minutes.as_str());
        text.push_str("）");
        return text;
    }
    match calendar_day(local.day, local.today) {
        Day::Today => cat("今天 ", local.minutes.as_str()),
        Day::Tomorrow => cat("明天 ", local.minutes.as_str()),
        Day::Other => local.date.clone(),
    }
}

/// What the menu of the tray offers for a phase.
pub fn tray_control(phase: QueuePhase) -> (r: TrayControl)
    ensures
        r == (if under_way(phase) {
            TrayControl::Pause
        } else if phase == QueuePhase::Paused {
            TrayControl::Resume
        } else {
            TrayControl::Disabled
        }),
{
    match phase {
        QueuePhase::Connecting | QueuePhase::Sending | QueuePhase::Waiting | QueuePhase::Backoff => TrayControl::Pause,
        QueuePhase::Paused => TrayControl::Resume,
        QueuePhase::Idle | QueuePhase::Success | QueuePhase::FatalError => TrayControl::Disabled,
    }
}

/// What a choice from the menu of the tray asks of the queue; nothing where the
/// thread is opened instead.
pub fn tray_command(action: TrayAction) -> (r: Option<RuntimeCommand>)
    ensures
        opt(r) == (match action {
            TrayAction::Pause => Some(CommandView::Pause),
            TrayAction::Resume => Some(CommandView::Start),
            TrayAction::OpenResult => None,
        }),
{
    match action {
        TrayAction::Pause => Some(RuntimeCommand::Pause),
        TrayAction::Resume => Some(RuntimeCommand::Start),
        TrayAction::OpenResult => None,
    }
}

/// How far the task has come, of five stages.
pub open spec fn route_stage(phase: QueuePhase, attempt_count: u64) -> int {
    match phase {
        QueuePhase::Connecting => 1,
        QueuePhase::Sending => 2,
        QueuePhase::Waiting => 3,
        QueuePhase::Backoff => 3,
        QueuePhase::Success => 4,
        QueuePhase::Paused => if attempt_count > 0 {
            3
        } else {
            0
        },
        QueuePhase::FatalError => if attempt_count > 0 {
            3
        } else {
            0
        },
        QueuePhase::Idle => 0,
    }
}

/// What the line of stages shows.
#[derive(Clone, Copy, Debug, PartialEq, Eq, Structural)]
pub struct RouteView {
    pub stage: usize,
    /// Whether the dot of the current stage is large at the moment.
    pub pulse_on: bool,
}

/// The line of stages at a frame of its motion.
pub fn attempt_route(phase: QueuePhase, attempt_count: u64, motion_frame: u8) -> (r: RouteView)
    ensures
        r.stage == route_stage(phase, attempt_count),
        r.pulse_on == (under_way(phase) && motion_frame % 2 == 0),
{
    let stage: usize = match phase {
        QueuePhase::Connecting => 1,
        QueuePhase::Sending => 2,
        QueuePhase::Waiting | QueuePhase::Backoff => 3,
        QueuePhase::Success => 4,
        QueuePhase::Paused | QueuePhase::FatalError => {
            if attempt_count > 0 {
                3
            } else {
                0
            }
        },
        QueuePhase::Idle => 0,
    };
    RouteView { stage, pulse_on: is_under_way(phase) && motion_frame % 2 == 0 }
}

/// One dot of the line of stages.
#[derive(Clone, Copy, Debug, PartialEq, Eq, Structural)]
pub struct RouteDot {
    pub filled: bool,
    pub current: bool,
    pub size: u32,
}

impl RouteView {
    /// The dot of a stage.
    pub fn dot(&self, index: usize, phase: QueuePhase) -> (r: RouteDot)
        ensures
            r == (RouteDot {
                filled: index <= self.stage || phase == QueuePhase::Success && index == 4,
                current: index == self.stage,
                size: if index == self.stage && self.pulse_on {
                    11
                } else {
                    9
                },
            }),
    {
        let success = match phase {
            QueuePhase::Success => true,
            _ => false,
        };
        RouteDot {
            filled: index <= self.stage || success && index == 4,
            current: index == self.stage,
            size: if index == self.stage && self.pulse_on {
                11
            } else {
                9
            },
        }
    }

    /// Whether the line behind a stage is filled.
    pub fn connector(&self, index: usize) -> (r: bool)
        ensures
            r == (index < self.stage),
    {
        index < self.stage
    }
}

/// The text above the line of stages.
pub fn route_summary(attempt_count: u64, retry_count: u32) -> (r: String)
    ensures
        r@ == "尝试 "@ + decimal(attempt_count as nat) + " 次 · 重试 "@ + decimal(
            retry_count as nat,
        ) + " 轮"@,
{
    let mut text = cat3("尝试 ", number_text(attempt_count).as_str(), " 次 · 重试 ");
    text.push_str(number_text(retry_count as u64).as_str());
    text.push_str(" 轮");
    text
}

/// How many attempts have a cell.
pub const GRID_CELLS: u64 = 20;

/// The cells for the attempts.
#[derive(Clone, Copy, Debug, PartialEq, Eq, Structural)]
pub struct AttemptGrid {
    pub active_cells: u64,
    pub hidden_count: u64,
}

/// How many cells are filled and how many attempts have none.
pub fn attempt_grid(attempt_count: u64) -> (r: AttemptGrid)
    ensures
        r.active_cells + r.hidden_count == attempt_count,
        r.active_cells <= GRID_CELLS,
        r.hidden_count > 0 ==> r.active_cells == GRID_CELLS,
{
    let active_cells: u64 = if attempt_count < GRID_CELLS {
        attempt_count
    } else {
        GRID_CELLS
    };
    AttemptGrid { active_cells, hidden_count: attempt_count - active_cells }
}

/// The text below the cells.
pub fn hidden_attempts_text(hidden_count: u64) -> (r: Option<String>)
    ensures
        opt(r) == (if hidden_count > 0 {
            Some("另有 "@ + decimal(hidden_count as nat) + " 次未展开显示"@)
        } else {
            None
        }),
{
    if hidden_count > 0 {
        Some(cat3("另有 ", number_text(hidden_count).as_str(), " 次未展开显示"))
    } else {
        None
    }
}

/// The opacity of a dot of the pattern behind a success.
pub fn texture_alpha(motion_frame: u8, column: usize, row: usize) -> (r: u32)
    requires
        column < 15,
        row < 5,
    ensures
        ({
            let wave = (motion_frame + column * 3 + row * 5) % 16;
            r == (if wave <= 1 {
                0x42u32
            } else if wave <= 5 {
                0x2e
            } else if wave <= 10 {
                0x22
            } else {
                0x16
            })
        }),
{
    let wave: usize = (motion_frame as usize + column * 3 + row * 5) % 16;
    if wave <= 1 {
        0x42
    } else if wave <= 5 {
        0x2e
    } else if wave <= 10 {
        0x22
    } else {
        0x16
    }
}

/// How a piece of confetti has moved.
#[derive(Clone, Copy, Debug, PartialEq, Eq, Structural)]
pub struct ConfettiMotion {
    pub drift: u32,
    pub sway: u32,
    pub alpha: u32,
}

/// How a piece of confetti has moved at a frame.
pub fn confetti_motion(motion_frame: u8, index: usize) -> (r: ConfettiMotion)
    requires
        index < 14,
    ensures
        r.drift == (motion_frame * 2 + index * 5) % 15,
        ({
            let phase = (motion_frame + index * 3) % 8;
            r.sway == (if phase <= 1 {
                0u32
            } else if phase <= 3 || phase == 7 {
                2
            } else if phase <= 5 {
                4
            } else {
                3
            })
        }),
        ({
            let phase = (motion_frame + index * 2) % 12;
            r.alpha == (if phase <= 2 {
                0x92u32
            } else if phase <= 6 {
                0x78
            } else if phase <= 9 {
                0x60
            } else {
                0x48
            })
        }),
{
    let frame: usize = motion_frame as usize;
    let drift: usize = (frame * 2 + index * 5) % 15;
    let sway_phase: usize = (frame + index * 3) % 8;
    let sway: u32 = if sway_phase <= 1 {
        0
    } else if sway_phase <= 3 || sway_phase == 7 {
        2
    } else if sway_phase <= 5 {
        4
    } else {
        3
    };
    let alpha_phase: usize = (frame + index * 2) % 12;
    let alpha: u32 = if alpha_phase <= 2 {
        0x92
    } else if alpha_phase <= 6 {
        0x78
    } else if alpha_phase <= 9 {
        0x60
    } else {
        0x48
    };
    ConfettiMotion { drift: drift as u32, sway, alpha }
}

/// The measures of the window that depend on its size, in pixels.
#[derive(Clone, Copy, Debug, PartialEq, Eq, Structural)]
pub struct Layout {
    pub status_padding: u32,
    pub status_panel_height: u32,
    pub metrics_panel_height: u32,
    pub bottom_panel_height: u32,
    pub primary_button_width: u32,
    pub stop_button_width: u32,
    pub prompt_rows: u32,
}

/// The measures for a window that is low or not, and wide or not.
pub fn layout(phase: QueuePhase, compact: bool, side_by_side: bool) -> (r: Layout)
    ensures
        r == (Layout {
            status_padding: match (phase == QueuePhase::Success, compact) {
                (true, true) => 16,
                (true, false) => 20,
                (false, true) => 12,
                (false, false) => 16,
            },
            status_panel_height: match (phase == QueuePhase::Success, compact) {
                (true, true) => 156,
                (true, false) => 178,
                (false, true) => 128,
                (false, false) => 146,
            },
            metrics_panel_height: 116,
            bottom_panel_height: if compact {
                104
            } else {
                138
            },
            primary_button_width: if side_by_side {
                104
            } else {
                116
            },
            stop_button_width: if side_by_side {
                88
            } else {
                92
            },
            prompt_rows: if compact {
                1
            } else {
                2
            },
        }),
{
    let success = match phase {
        QueuePhase::Success => true,
        _ => false,
    };
    let base: u32 = if compact {
        12
    } else {
        16
    };
    let extra: u32 = if success {
        4
    } else {
        0
    };
    Layout {
        status_padding: base + extra,
        status_panel_height: match (success, compact) {
            (true, true) => 156,
            (true, false) => 178,
            (false, true) => 128,
            (false, false) => 146,
        },
        metrics_panel_height: 116,
        bottom_panel_height: if compact {
            104
        } else {
            138
        },
        primary_button_width: if side_by_side {
            104
        } else {
            116
        },
        stop_button_width: if side_by_side {
            88
        } else {
            92
        },
        prompt_rows: if compact {
            1
        } else {
            2
        },
    }
}

/// Whether a copy was just made.
#[derive(Clone, Copy, Debug, PartialEq, Eq, Structural)]
pub enum CopyFeedback {
    Idle,
    Copied,
}

/// The text of a button that copies.
pub fn copy_label(feedback: CopyFeedback, label: &'static str) -> (r: &'static str)
    ensures
        r@ == (match feedback {
            CopyFeedback::Copied => "已复制"@,
            CopyFeedback::Idle => label@,
        }),
{
    match feedback {
        CopyFeedback::Copied => "已复制",
        CopyFeedback::Idle => label,
    }
}

/// What is said of the Codex command.
pub fn cli_status(cli: &CodexCliInfo) -> (r: String)
    ensures
        r@ == (if cli@.resolved_path is Some && cli@.version is Some {
            cli@.shown_version() + " · 可用"@
        } else {
            "Codex CLI 不可用"@
        }),
{
    if cli.available() {
        cat(cli.version_label(), " · 可用")
    } else {
        "Codex CLI 不可用".to_owned()
    }
}

/// The phrases that a line holds: what stands between the bars, without the
/// white space round it, where anything is left.
pub open spec fn phrases_of(parts: Seq<Seq<char>>) -> Seq<Seq<char>>
    decreases parts.len(),
{
    if parts.len() == 0 {
        Seq::empty()
    } else {
        let rest = phrases_of(parts.drop_last());
        if blank(parts.last()) {
            rest
        } else {
            rest.push(trimmed(parts.last()))
        }
    }
}

fn read_phrases(line: &str) -> (r: Vec<String>)
    ensures
        views(r@) == phrases_of(segments(line@, '|')),
{
    let parts = split_on(line, '|');
    let ghost all = views(parts@);
    let mut out: Vec<String> = Vec::new();
    let mut i: usize = 0;
    assert(views(out@) =~= phrases_of(all.take(0)));
    while i < parts.len()
        invariant
            i <= parts@.len(),
            all == views(parts@),
            views(out@) == phrases_of(all.take(i as int)),
        decreases parts.len() - i,
    {
        let ghost before = views(out@);
        assert(all.take(i + 1).drop_last() =~= all.take(i as int));
        assert(all.take(i + 1).last() == parts@[i as int]@);
        if !is_blank(parts[i].as_str()) {
            let phrase = trim(parts[i].as_str());
            let ghost shown = phrase@;
            out.push(phrase);
            assert(views(out@) =~= before.push(shown));
        }
        i = i + 1;
    }
    assert(all.take(all.len() as int) =~= all);
    out
}

/// The line in which the phrases are shown.
pub fn phrases_line(phrases: &Vec<String>) -> (r: String)
    ensures
        r@ == joined(views(phrases@), " | "@),
{
    join(phrases, " | ")
}

/// The directory that a line holds: none where it is blank.
pub open spec fn directory_of(line: Seq<char>) -> Option<Seq<char>> {
    if blank(line) {
        None
    } else {
        Some(trimmed(line))
    }
}

/// What the window holds besides what is drawn.
#[derive(Debug)]
pub struct WindowState {
    pub config: QueueConfig,
    pub snapshot: QueueSnapshot,
    pub advanced_open: bool,
    pub pulsing: bool,
    pub route_motion_frame: u8,
    pub prompt_error: bool,
    pub copy_feedback: CopyFeedback,
    pub diagnostic_copy_feedback: CopyFeedback,
}

/// The content of a [`WindowState`].
pub struct WindowView {
    pub config: ConfigView,
    pub snapshot: SnapshotView,
    pub advanced_open: bool,
    pub pulsing: bool,
    pub route_motion_frame: u8,
    pub prompt_error: bool,
    pub copy_feedback: CopyFeedback,
    pub diagnostic_copy_feedback: CopyFeedback,
}

impl View for WindowState {
    type V = WindowView;

    open spec fn view(&self) -> WindowView {
        WindowView {
            config: self.config@,
            snapshot: self.snapshot@,
            advanced_open: self.advanced_open,
            pulsing: self.pulsing,
            route_motion_frame: self.route_motion_frame,
            prompt_error: self.prompt_error,
            copy_feedback: self.copy_feedback,
            diagnostic_copy_feedback: self.diagnostic_copy_feedback,
        }
    }
}

/// What a control does.
#[derive(Debug)]
pub enum Effect {
    Nothing,
    /// Ask something of the queue.
    Send(RuntimeCommand),
    /// End the pulse of a success, then ask something of the queue.
    AcknowledgeAndSend(RuntimeCommand),
    /// End the pulse of a success and open the thread.
    OpenThread(Option<String>),
}

/// The content of an [`Effect`].
pub enum EffectView {
    Nothing,
    Send(CommandView),
    AcknowledgeAndSend(CommandView),
    OpenThread(Option<Seq<char>>),
}

impl View for Effect {
    type V = EffectView;

    open spec fn view(&self) -> EffectView {
        match self {
            Effect::Nothing => EffectView::Nothing,
            Effect::Send(command) => EffectView::Send(command@),
            Effect::AcknowledgeAndSend(command) => EffectView::AcknowledgeAndSend(command@),
            Effect::OpenThread(thread_id) => EffectView::OpenThread(opt(*thread_id)),
        }
    }
}

/// What follows from a new snapshot.
#[derive(Clone, Copy, Debug, PartialEq, Eq, Structural)]
pub struct SnapshotEffects {
    /// Scroll the conversation to its end.
    pub scroll_to_end: bool,
    /// So many pulses for errors.
    pub retry_pulses: u64,
    /// Begin the pulse of the headline.
    pub begin_pulse: bool,
}

impl WindowView {
    /// The configuration with the task that was entered.
    pub open spec fn entered(self, prompt: Seq<char>, cwd: Seq<char>, phrases: Seq<char>) -> ConfigView {
        ConfigView {
            prompt,
            working_directory: directory_of(cwd),
            failure_phrases: phrases_of(segments(phrases, '|')),
            ..self.config
        }
    }

    /// The task that was entered is started; without one the user is told.
    pub open spec fn started(self, prompt: Seq<char>, cwd: Seq<char>, phrases: Seq<char>) -> WindowView {
        if blank(prompt) {
            WindowView { prompt_error: true, ..self }
        } else {
            WindowView {
                prompt_error: false,
                config: self.entered(prompt, cwd, phrases),
                ..self
            }
        }
    }

    /// What starting the task that was entered does.
    pub open spec fn start_effect(self, prompt: Seq<char>, cwd: Seq<char>, phrases: Seq<char>) -> EffectView {
        if blank(prompt) {
            EffectView::Nothing
        } else {
            EffectView::AcknowledgeAndSend(
                CommandView::StartConfigured(self.entered(prompt, cwd, phrases)),
            )
        }
    }

    /// Whether a snapshot changes the conversation.
    pub open spec fn conversation_changes(self, snapshot: SnapshotView) -> bool {
        self.snapshot.reply_preview != snapshot.reply_preview || self.snapshot.status_message
            != snapshot.status_message || self.snapshot.phase != snapshot.phase
    }

    /// How many errors a snapshot adds; at most sixteen are shown.
    pub open spec fn new_alerts(self, snapshot: SnapshotView) -> int {
        if snapshot.retry_alert_count <= self.snapshot.retry_alert_count {
            0
        } else if snapshot.retry_alert_count - self.snapshot.retry_alert_count > 16 {
            16
        } else {
            snapshot.retry_alert_count - self.snapshot.retry_alert_count
        }
    }
}

impl WindowState {
    /// Starts the task that was entered.
    pub fn start_now(&mut self, prompt: String, cwd: String, phrases: String) -> (r: Effect)
        ensures
            final(self)@ == old(self)@.started(prompt@, cwd@, phrases@),
            r@ == old(self)@.start_effect(prompt@, cwd@, phrases@),
    {
        if is_blank(prompt.as_str()) {
            self.prompt_error = true;
            return Effect::Nothing;
        }
        self.prompt_error = false;
        self.config.prompt = prompt;
        self.config.working_directory = if is_blank(cwd.as_str()) {
            None
        } else {
            Some(trim(cwd.as_str()))
        };
        self.config.failure_phrases = read_phrases(phrases.as_str());
        Effect::AcknowledgeAndSend(RuntimeCommand::StartConfigured(self.config.copy()))
    }

    /// The main button: it pauses a queue that is under way and starts any other.
    pub fn primary_action_now(&mut self, prompt: String, cwd: String, phrases: String) -> (r:
        Effect)
        ensures
            under_way(old(self)@.snapshot.phase) ==> final(self)@ == old(self)@ && r@
                == EffectView::Send(CommandView::Pause),
            !under_way(old(self)@.snapshot.phase) ==> final(self)@ == old(self)@.started(
                prompt@,
                cwd@,
                phrases@,
            ) && r@ == old(self)@.start_effect(prompt@, cwd@, phrases@),
    {
        if is_under_way(self.snapshot.phase) {
            Effect::Send(RuntimeCommand::Pause)
        } else {
            self.start_now(prompt, cwd, phrases)
        }
    }

    /// The other button: it opens the thread of a finished task and stops any other.
    pub fn secondary_action_now(&self) -> (r: Effect)
        ensures
            r@ == (if self@.snapshot.phase == QueuePhase::Success
                && self@.snapshot.active_thread_id is Some {
                EffectView::OpenThread(self@.snapshot.active_thread_id)
            } else {
                EffectView::AcknowledgeAndSend(CommandView::Stop)
            }),
    {
        if self.snapshot.phase == QueuePhase::Success && self.snapshot.active_thread_id.is_some() {
            Effect::OpenThread(copy_opt(&self.snapshot.active_thread_id))
        } else {
            Effect::AcknowledgeAndSend(RuntimeCommand::Stop)
        }
    }

    /// The switch for the fallback.
    pub fn set_gui_fallback(&mut self, enabled: bool) -> (r: Effect)
        ensures
            final(self)@ == (WindowView {
                config: ConfigView { gui_fallback_enabled: enabled, ..old(self)@.config },
                ..old(self)@
            }),
            r@ == EffectView::Send(CommandView::Configure(final(self)@.config)),
    {
        self.config.gui_fallback_enabled = enabled;
        Effect::Send(RuntimeCommand::Configure(self.config.copy()))
    }

    /// The switch for the pulses over the desktop; switching them off ends one
    /// that is going on.
    pub fn set_full_screen(&mut self, enabled: bool) -> (r: Effect)
        ensures
            final(self)@ == (WindowView {
                config: ConfigView { full_screen_flash_enabled: enabled, ..old(self)@.config },
                ..old(self)@
            }),
            r@ == (if enabled {
                EffectView::Send(CommandView::Configure(final(self)@.config))
            } else {
                EffectView::AcknowledgeAndSend(CommandView::Configure(final(self)@.config))
            }),
    {
        self.config.full_screen_flash_enabled = enabled;
        let command = RuntimeCommand::Configure(self.config.copy());
        if enabled {
            Effect::Send(command)
        } else {
            Effect::AcknowledgeAndSend(command)
        }
    }

    /// The switch for the sound.
    pub fn set_audio_alert(&mut self, enabled: bool) -> (r: Effect)
        ensures
            final(self)@ == (WindowView {
                config: ConfigView { audio_alert_enabled: enabled, ..old(self)@.config },
                ..old(self)@
            }),
            r@ == EffectView::Send(CommandView::Configure(final(self)@.config)),
    {
        self.config.audio_alert_enabled = enabled;
        Effect::Send(RuntimeCommand::Configure(self.config.copy()))
    }

    /// Opens or closes the settings.
    pub fn toggle_advanced_now(&mut self)
        ensures
            final(self)@ == (WindowView {
                advanced_open: !old(self)@.advanced_open,
                ..old(self)@
            }),
    {
        self.advanced_open = !self.advanced_open;
    }

    /// A key was pressed: the shortcut starts a task unless one is under way or
    /// the settings are open; escape closes the settings.  Tells whether the key
    /// was used.
    pub fn handle_key(
        &mut self,
        key: &str,
        shortcut: bool,
        prompt: String,
        cwd: String,
        phrases: String,
    ) -> (r: (bool, Effect))
        ensures
            ({
                let before = old(self)@;
                if shortcut && (key@ == "enter"@ || key@ == "return"@) {
                    &&& r.0
                    &&& if !under_way(before.snapshot.phase) && !before.advanced_open {
                        &&& final(self)@ == before.started(prompt@, cwd@, phrases@)
                        &&& r.1@ == before.start_effect(prompt@, cwd@, phrases@)
                    } else {
                        final(self)@ == before && r.1@ is Nothing
                    }
                } else if key@ == "escape"@ && before.advanced_open {
                    r.0 && r.1@ is Nothing && final(self)@ == (WindowView {
                        advanced_open: false,
                        ..before
                    })
                } else {
                    !r.0 && r.1@ is Nothing && final(self)@ == before
                }
            }),
    {
        if shortcut && (same(key, "enter") || same(key, "return")) {
            if !is_under_way(self.snapshot.phase) && !self.advanced_open {
                return (true, self.start_now(prompt, cwd, phrases));
            }
            return (true, Effect::Nothing);
        }
        if same(key, "escape") && self.advanced_open {
            self.advanced_open = false;
            return (true, Effect::Nothing);
        }
        (false, Effect::Nothing)
    }

    /// The queue shows a new snapshot; `at_end` tells whether the end of the
    /// conversation is in view.
    pub fn update_snapshot(&mut self, snapshot: QueueSnapshot, at_end: bool) -> (r: SnapshotEffects)
        ensures
            ({
                let before = old(self)@;
                let changed = before.conversation_changes(snapshot@);
                let succeeded = before.snapshot.phase != QueuePhase::Success && snapshot@.phase
                    == QueuePhase::Success;
                &&& r.scroll_to_end == (at_end && changed)
                &&& r.retry_pulses == (if before.config.full_screen_flash_enabled {
                    before.new_alerts(snapshot@)
                } else {
                    0
                })
                &&& r.begin_pulse == (succeeded && !before.pulsing)
                &&& final(self)@ == (WindowView {
                    snapshot: snapshot@,
                    copy_feedback: if changed {
                        CopyFeedback::Idle
                    } else {
                        before.copy_feedback
                    },
                    pulsing: before.pulsing || succeeded,
                    ..before
                })
            }),
    {
        let changed = !same(
            self.snapshot.reply_preview.as_str(),
            snapshot.reply_preview.as_str(),
        ) || !same(self.snapshot.status_message.as_str(), snapshot.status_message.as_str())
            || self.snapshot.phase != snapshot.phase;
        let added: u64 = if snapshot.retry_alert_count <= self.snapshot.retry_alert_count {
            0
        } else {
            snapshot.retry_alert_count - self.snapshot.retry_alert_count
        };
        let alerts: u64 = if added > 16 {
            16
        } else {
            added
        };
        let succeeded = self.snapshot.phase != QueuePhase::Success && snapshot.phase
            == QueuePhase::Success;
        if changed {
            self.copy_feedback = CopyFeedback::Idle;
        }
        self.snapshot = snapshot;
        let retry_pulses: u64 = if self.config.full_screen_flash_enabled {
            alerts
        } else {
            0
        };
        let begin_pulse = succeeded && !self.pulsing;
        if begin_pulse {
            self.pulsing = true;
        }
        SnapshotEffects { scroll_to_end: at_end && changed, retry_pulses, begin_pulse }
    }

    /// One frame of the motion on the window; tells whether anything moves.
    pub fn tick(&mut self) -> (r: bool)
        ensures
            r == (under_way(old(self)@.snapshot.phase) || old(self)@.snapshot.phase
                == QueuePhase::Success),
            final(self)@ == (if r {
                WindowView {
                    route_motion_frame: if old(self)@.route_motion_frame == 255 {
                        0
                    } else {
                        (old(self)@.route_motion_frame + 1) as u8
                    },
                    ..old(self)@
                }
            } else {
                old(self)@
            }),
    {
        let moves = is_under_way(self.snapshot.phase) || self.snapshot.phase == QueuePhase::Success;
        if moves {
            if self.route_motion_frame == 255 {
                self.route_motion_frame = 0;
            } else {
                self.route_motion_frame = self.route_motion_frame + 1;
            }
        }
        moves
    }

    /// The line below the headline: a warning, else what the phase means.
    pub fn detail_line(&self, next: &Option<String>) -> (r: String)
        ensures
            r@ == (match self@.snapshot.runtime_warning {
                Some(warning) => warning,
                None => detail(
                    self@.snapshot.phase,
                    opt(*next),
                    self@.snapshot.consecutive_retries,
                ),
            }),
    {
        match &self.snapshot.runtime_warning {
            Some(warning) => warning.clone(),
            None => phase_detail(self.snapshot.phase, next, self.snapshot.consecutive_retries),
        }
    }

    /// Whether there is a task to show in the conversation.
    pub fn has_conversation_task(&self) -> (r: bool)
        ensures
            r == (self@.snapshot.attempt_count > 0 || self@.snapshot.active_thread_id is Some
                || self@.snapshot.phase != QueuePhase::Idle),
    {
        self.snapshot.attempt_count > 0 || self.snapshot.active_thread_id.is_some()
            || self.snapshot.phase != QueuePhase::Idle
    }

    /// Whether what stands in the conversation is an error.
    pub fn assistant_is_error(&self) -> (r: bool)
        ensures
            r == ({
                let phase = self@.snapshot.phase;
                ||| phase == QueuePhase::Backoff
                ||| phase == QueuePhase::FatalError
                ||| (phase == QueuePhase::Waiting || phase == QueuePhase::Paused)
                    && speaks_of_retry(self@.snapshot.status_message)
            }),
    {
        match self.snapshot.phase {
            QueuePhase::Backoff | QueuePhase::FatalError => true,
            QueuePhase::Waiting | QueuePhase::Paused => is_retry_status(
                self.snapshot.status_message.as_str(),
            ),
            _ => false,
        }
    }
}

/// What is done when the window is to be closed.
#[derive(Clone, Copy, Debug, PartialEq, Eq, Structural)]
pub enum CloseStep {
    /// Close it.
    Close,
    /// Hide it; the tray keeps the queue going.
    HideToTray,
    /// Ask the user first.
    Ask,
}

/// Decides what is done when the window is to be closed.
pub fn close_requested(phase: QueuePhase, tray_available: bool, exit_requested: bool) -> (r:
    CloseStep)
    ensures
        r == (if tray_available && !exit_requested {
            CloseStep::HideToTray
        } else if under_way(phase) {
            CloseStep::Ask
        } else {
            CloseStep::Close
        }),
{
    if tray_available && !exit_requested {
        CloseStep::HideToTray
    } else if is_under_way(phase) {
        CloseStep::Ask
    } else {
        CloseStep::Close
    }
}

/// Without a task nothing is started and nothing of the configuration changes;
/// with one it is taken as it was entered.
pub proof fn starting_needs_a_task(window: WindowView, prompt: Seq<char>, cwd: Seq<char>, phrases: Seq<char>)
    ensures
        blank(prompt) ==> window.start_effect(prompt, cwd, phrases) is Nothing && window.started(
            prompt,
            cwd,
            phrases,
        ).config == window.config,
        !blank(prompt) ==> window.started(prompt, cwd, phrases).config.prompt == prompt,
{
}

/// No phrase that is read from the line is blank.
pub proof fn phrases_are_not_blank(parts: Seq<Seq<char>>)
    ensures
        forall|i: int|
            0 <= i < phrases_of(parts).len() ==> (#[trigger] phrases_of(parts)[i]).len() > 0,
    decreases parts.len(),
{
    if parts.len() > 0 {
        phrases_are_not_blank(parts.drop_last());
        crate::text::blank_is_trimmed_empty(parts.last());
        let rest = phrases_of(parts.drop_last());
        let all = phrases_of(parts);
        assert forall|i: int| 0 <= i < all.len() implies (#[trigger] all[i]).len() > 0 by {
            if i < rest.len() {
                assert(all[i] == rest[i]);
            }
        }
    }
}

} // verus!
