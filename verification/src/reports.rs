//! What is promised of the reports for support and of the texts of failures.

use vstd::prelude::*;

use crate::diagnostics::{
    crash_report, first_line, labelled, shortened, shown_log, stated_version, support_report,
    text_or, CliView, ReportContext, LOG_TAIL_BYTES, REPLY_PREVIEW_CHARS, VERSION_TIMEOUT_MILLIS,
};
use crate::jsonl::JsonlError;
use crate::platform::automation::AutomationError;
use crate::queue::{QueuePhase, SnapshotView};
use crate::runtime::engine::RuntimeError;
use crate::text::{blank, decimal, ends, occurs, signed_decimal, stands_at, text_lines, trimmed};
use crate::transport::{both_failed_text, failure_text, FailureView, TransportKind};

verus! {

/// The first line with words is the one before which all are blank.
pub proof fn the_first_line_with_words(lines: Seq<Seq<char>>, i: int)
    requires
        0 <= i < lines.len(),
        !blank(lines[i]),
        forall|k: int| 0 <= k < i ==> blank(#[trigger] lines[k]),
    ensures
        first_line(lines) == Some(trimmed(lines[i])),
    decreases i,
{
    if i > 0 {
        let rest = lines.skip(1);
        assert(blank(lines[0]));
        assert(rest[i - 1] == lines[i]);
        assert forall|k: int| 0 <= k < i - 1 implies blank(#[trigger] rest[k]) by {
            assert(rest[k] == lines[k + 1]);
        }
        the_first_line_with_words(rest, i - 1);
    }
}

/// Blank lines say nothing.
pub proof fn blank_lines_say_nothing(lines: Seq<Seq<char>>)
    requires
        forall|k: int| 0 <= k < lines.len() ==> blank(#[trigger] lines[k]),
    ensures
        first_line(lines) is None,
    decreases lines.len(),
{
    if lines.len() > 0 {
        let rest = lines.skip(1);
        assert(blank(lines[0]));
        assert forall|k: int| 0 <= k < rest.len() implies blank(#[trigger] rest[k]) by {
            assert(rest[k] == lines[k + 1]);
        }
        blank_lines_say_nothing(rest);
    }
}

/// The version is taken from the output, from what was written as errors only
/// where the output has no words, and is empty where neither has.
pub proof fn the_version_is_taken_from_the_output(stdout: Seq<char>, stderr: Seq<char>)
    ensures
        first_line(text_lines(stdout)) matches Some(line) ==> stated_version(stdout, stderr)
            == line,
        first_line(text_lines(stdout)) is None && first_line(text_lines(stderr)) is Some
            ==> stated_version(stdout, stderr) == first_line(text_lines(stderr))->0,
        first_line(text_lines(stdout)) is None && first_line(text_lines(stderr)) is None
            ==> stated_version(stdout, stderr).len() == 0,
{
}

/// The path that was found is shown before the one that was asked for, and a
/// version only where there is one.
pub proof fn what_is_shown_of_the_command(cli: CliView)
    ensures
        cli.resolved_path matches Some(path) ==> cli.shown_path() == path,
        cli.resolved_path is None ==> cli.shown_path() == cli.requested_path,
        cli.version matches Some(version) ==> cli.shown_version() == version,
        cli.version is None ==> cli.shown_version() == "版本读取失败"@,
{
}

/// A text within the limit is shown whole; of a longer one the first characters
/// are, and that something was cut off is said behind them.
pub proof fn long_texts_are_cut(text: Seq<char>, limit: int)
    requires
        limit >= 0,
    ensures
        text.len() <= limit ==> shortened(text, limit) == text,
        text.len() > limit ==> shortened(text, limit).len() > limit && shortened(text, limit).take(
            limit,
        ) == text.take(limit) && ends(shortened(text, limit), "…（已截断）"@),
{
    reveal_strlit("…（已截断）");
    assert("…（已截断）"@.len() == 6);
    if text.len() > limit {
        let cut = shortened(text, limit);
        assert(cut.take(limit) =~= text.take(limit));
        assert(cut.skip(limit) =~= "…（已截断）"@);
    }
}

/// A report shows 2000 characters of the reply and 48 KiB of the log, and the
/// version is waited for for three seconds.
pub proof fn limits_of_reports()
    ensures
        REPLY_PREVIEW_CHARS == 2000,
        LOG_TAIL_BYTES == 48 * 1024,
        VERSION_TIMEOUT_MILLIS == 3000,
{
}

/// Whether a text holds another.
#[verifier::opaque]
spec fn holds(text: Seq<char>, part: Seq<char>) -> bool {
    occurs(text, part)
}

proof fn added(text: Seq<char>, part: Seq<char>)
    ensures
        holds(text + part, part),
        forall|held: Seq<char>| #[trigger] holds(text, held) ==> holds(text + part, held),
{
    reveal(holds);
    let whole = text + part;
    let at = text.len() as int;
    assert(whole.subrange(at, at + part.len()) =~= part);
    assert(stands_at(whole, part, at));
    assert forall|held: Seq<char>| #[trigger] holds(text, held) implies holds(whole, held) by {
        let at = choose|at: int| stands_at(text, held, at);
        assert(whole.subrange(at, at + held.len()) =~= text.subrange(at, at + held.len()));
        assert(stands_at(whole, held, at));
    }
}

proof fn held(text: Seq<char>, part: Seq<char>)
    requires
        holds(text, part),
    ensures
        occurs(text, part),
{
    reveal(holds);
}

/// A report for support names the program, the system, the command, the
/// carrier and the state of the queue, each in a line of its own, and ends
/// with what it leaves out.
pub proof fn a_support_report_says_what_is_known(
    context: ReportContext,
    cli: CliView,
    snapshot: SnapshotView,
)
    ensures
        ({
            let report = support_report(context, cli, snapshot);
            let reply = shortened(snapshot.reply_preview, 2000);
            &&& occurs(report, "生成时间："@ + context.generated_at@ + "\n"@)
            &&& occurs(report, "应用版本："@ + context.app_version@ + "\n"@)
            &&& occurs(report, "系统："@ + context.system@ + "\n"@)
            &&& occurs(report, "配置目录："@ + context.config_directory@ + "\n"@)
            &&& occurs(report, "Codex 配置路径："@ + cli.requested_path + "\n"@)
            &&& occurs(report, "Codex 解析路径："@ + cli.shown_path() + "\n"@)
            &&& occurs(report, "Codex CLI："@ + cli.shown_version() + "\n"@)
            &&& cli.error matches Some(error) ==> occurs(
                report,
                "Codex CLI 检测错误："@ + error + "\n"@,
            )
            &&& cli.error is None ==> occurs(report, "Codex CLI 检测错误："@ + "无"@ + "\n"@)
            &&& snapshot.transport_status.connected ==> occurs(
                report,
                "连接状态："@ + "已连接"@ + "\n"@,
            )
            &&& !snapshot.transport_status.connected ==> occurs(
                report,
                "连接状态："@ + "未连接"@ + "\n"@,
            )
            &&& snapshot.transport_status.server_agent matches Some(agent) ==> occurs(
                report,
                "app-server："@ + agent + "\n"@,
            )
            &&& occurs(report, "传输通道："@ + snapshot.transport_status.kind.name() + "\n"@)
            &&& occurs(report, "队列阶段："@ + snapshot.phase.name() + "\n"@)
            &&& occurs(report, "累计尝试："@ + decimal(snapshot.attempt_count as nat) + "\n"@)
            &&& occurs(
                report,
                "连续重试："@ + decimal(snapshot.consecutive_retries as nat) + "\n"@,
            )
            &&& snapshot.active_thread_id matches Some(id) ==> occurs(
                report,
                "线程 ID："@ + id + "\n"@,
            )
            &&& snapshot.active_thread_id is None ==> occurs(report, "线程 ID："@ + "无"@ + "\n"@)
            &&& snapshot.active_turn_id matches Some(id) ==> occurs(
                report,
                "回合 ID："@ + id + "\n"@,
            )
            &&& occurs(report, "当前状态："@ + snapshot.status_message + "\n"@)
            &&& reply.len() > 0 ==> occurs(report, "最近回复或错误："@ + reply + "\n"@)
            &&& reply.len() == 0 ==> occurs(report, "最近回复或错误："@ + "无"@ + "\n"@)
            &&& occurs(report, context.log_text())
            &&& ends(
                report,
                "\n\n隐私说明：本报告不包含任务原文、配置文件、环境变量、API Key 或登录凭据。"@,
            )
        }),
{
    let reply = shortened(snapshot.reply_preview, 2000);
    let lines: Seq<Seq<char>> = seq![
        labelled("生成时间："@, context.generated_at@),
        labelled("应用版本："@, context.app_version@),
        labelled("系统："@, context.system@),
        labelled("配置目录："@, context.config_directory@),
        labelled("Codex 配置路径："@, cli.requested_path),
        labelled("Codex 解析路径："@, cli.shown_path()),
        labelled("Codex CLI："@, cli.shown_version()),
        labelled("Codex CLI 检测错误："@, text_or(cli.error, "无"@)),
        labelled("传输通道："@, snapshot.transport_status.kind.name()),
        labelled(
            "连接状态："@,
            if snapshot.transport_status.connected {
                "已连接"@
            } else {
                "未连接"@
            },
        ),
        labelled("app-server："@, text_or(snapshot.transport_status.server_agent, "未提供"@)),
        labelled("队列阶段："@, snapshot.phase.name()),
        labelled("累计尝试："@, decimal(snapshot.attempt_count as nat)),
        labelled("连续重试："@, decimal(snapshot.consecutive_retries as nat)),
        labelled("线程 ID："@, text_or(snapshot.active_thread_id, "无"@)),
        labelled("回合 ID："@, text_or(snapshot.active_turn_id, "无"@)),
        labelled("当前状态："@, snapshot.status_message),
        labelled(
            "最近回复或错误："@,
            if reply.len() == 0 {
                "无"@
            } else {
                reply
            },
        ),
    ];
    let t0 = "Longwatch for Codex 诊断报告\n"@;
    let t1 = t0 + lines[0];
    added(t0, lines[0]);
    let t2 = t1 + lines[1];
    added(t1, lines[1]);
    let t3 = t2 + lines[2];
    added(t2, lines[2]);
    let t4 = t3 + lines[3];
    added(t3, lines[3]);
    let t5 = t4 + lines[4];
    added(t4, lines[4]);
    let t6 = t5 + lines[5];
    added(t5, lines[5]);
    let t7 = t6 + lines[6];
    added(t6, lines[6]);
    let t8 = t7 + lines[7];
    added(t7, lines[7]);
    let t9 = t8 + lines[8];
    added(t8, lines[8]);
    let t10 = t9 + lines[9];
    added(t9, lines[9]);
    let t11 = t10 + lines[10];
    added(t10, lines[10]);
    let t12 = t11 + lines[11];
    added(t11, lines[11]);
    let t13 = t12 + lines[12];
    added(t12, lines[12]);
    let t14 = t13 + lines[13];
    added(t13, lines[13]);
    let t15 = t14 + lines[14];
    added(t14, lines[14]);
    let t16 = t15 + lines[15];
    added(t15, lines[15]);
    let t17 = t16 + lines[16];
    added(t16, lines[16]);
    let t18 = t17 + lines[17];
    added(t17, lines[17]);
    let heading = "\n最近日志（最多 48 KiB）：\n"@;
    let t19 = t18 + heading;
    added(t18, heading);
    let t20 = t19 + context.log_text();
    added(t19, context.log_text());
    let last = "\n\n隐私说明：本报告不包含任务原文、配置文件、环境变量、API Key 或登录凭据。"@;
    let report = t20 + last;
    added(t20, last);
    assert(report == support_report(context, cli, snapshot));
    assert(report.skip(t20.len() as int) =~= last);
    held(report, lines[0]);
    held(report, lines[1]);
    held(report, lines[2]);
    held(report, lines[3]);
    held(report, lines[4]);
    held(report, lines[5]);
    held(report, lines[6]);
    held(report, lines[7]);
    held(report, lines[8]);
    held(report, lines[9]);
    held(report, lines[10]);
    held(report, lines[11]);
    held(report, lines[12]);
    held(report, lines[13]);
    held(report, lines[14]);
    held(report, lines[15]);
    held(report, lines[16]);
    held(report, lines[17]);
    held(report, context.log_text());
}

/// A report after a crash says when and where it happened, what went wrong, how
/// the program got there and what the log says.
pub proof fn a_crash_report_says_what_is_known(
    context: ReportContext,
    panic_message: Seq<char>,
    backtrace: Seq<char>,
)
    ensures
        ({
            let report = crash_report(context, panic_message, backtrace);
            &&& occurs(report, "发生时间："@ + context.generated_at@ + "\n"@)
            &&& occurs(report, "应用版本："@ + context.app_version@ + "\n"@)
            &&& occurs(report, "系统："@ + context.system@ + "\n"@)
            &&& occurs(report, "异常："@ + panic_message + "\n"@)
            &&& occurs(report, backtrace)
            &&& occurs(report, context.log_text())
        }),
{
    let t0 = "Longwatch for Codex 崩溃报告\n"@;
    let a = labelled("发生时间："@, context.generated_at@);
    let b = labelled("应用版本："@, context.app_version@);
    let c = labelled("系统："@, context.system@);
    let d = labelled("异常："@, panic_message);
    added(t0, a);
    added(t0 + a, b);
    added(t0 + a + b, c);
    added(t0 + a + b + c, d);
    let t4 = t0 + a + b + c + d;
    let stack = "\n调用栈：\n"@;
    added(t4, stack);
    added(t4 + stack, backtrace);
    let heading = "\n\n最近日志（最多 48 KiB）：\n"@;
    added(t4 + stack + backtrace, heading);
    added(t4 + stack + backtrace + heading, context.log_text());
    added(t4 + stack + backtrace + heading + context.log_text(), "\n"@);
    let report = crash_report(context, panic_message, backtrace);
    held(report, a);
    held(report, b);
    held(report, c);
    held(report, d);
    held(report, backtrace);
    held(report, context.log_text());
}

/// A log that could be read is shown as it is, and otherwise why it could not.
pub proof fn logs_are_shown(text: Seq<char>)
    ensures
        shown_log(Ok(text)) == text,
        ends(shown_log(Err(text)), text),
        shown_log(Err(text)).len() > text.len(),
{
    let shown = shown_log(Err::<Seq<char>, Seq<char>>(text));
    reveal_strlit("读取最近日志失败：");
    assert("读取最近日志失败："@.len() == 9);
    assert(shown.skip(9) =~= text);
}

/// The text of a failure ends with what was told of it, and failures of
/// different kinds have different texts for the same one.
pub proof fn failures_say_what_was_told(text: Seq<char>, code: i64)
    ensures
        failure_text(FailureView::ExecutableNotFound(text)) == "Codex executable was not found: "@
            + text,
        failure_text(FailureView::Process(text)) == "app-server process failed: "@ + text,
        failure_text(FailureView::Protocol(text)) == "app-server protocol error: "@ + text,
        failure_text(FailureView::Timeout(text)) == "app-server request timed out: "@ + text,
        failure_text(FailureView::FallbackDisabled(text)) == "GUI fallback is disabled: "@ + text,
        failure_text(FailureView::Unavailable(text)) == "transport is unavailable: "@ + text,
        ends(failure_text(FailureView::Rpc { code, message: text, data: None }), text),
        occurs(
            failure_text(FailureView::Rpc { code, message: text, data: None }),
            signed_decimal(code as int),
        ),
{
    let numeral = signed_decimal(code as int);
    let head = "app-server RPC error "@;
    let shown = failure_text(FailureView::Rpc { code, message: text, data: None });
    assert(shown.skip(shown.len() - text.len()) =~= text);
    added(head, numeral);
    added(head + numeral, ": "@);
    added(head + numeral + ": "@, text);
    held(shown, numeral);
}

/// Where neither carrier can be connected, both reasons are told.
pub proof fn both_reasons_are_told(primary: Seq<char>, fallback: Seq<char>)
    ensures
        occurs(both_failed_text(primary, fallback), primary),
        occurs(both_failed_text(primary, fallback), fallback),
{
    let a = "app-server failed ("@;
    let b = "); explicitly enabled GUI fallback also failed ("@;
    added(a, primary);
    added(a + primary, b);
    added(a + primary + b, fallback);
    added(a + primary + b + fallback, ")"@);
    held(both_failed_text(primary, fallback), primary);
    held(both_failed_text(primary, fallback), fallback);
}

/// Each phase and each carrier has its own name.
pub proof fn names_tell_apart(
    left: QueuePhase,
    right: QueuePhase,
    one: TransportKind,
    two: TransportKind,
)
    ensures
        left.name() == right.name() <==> left == right,
        one.name() == two.name() <==> one == two,
{
    reveal_strlit("空闲");
    reveal_strlit("连接中");
    reveal_strlit("发送中");
    reveal_strlit("等待 Codex");
    reveal_strlit("退避等待");
    reveal_strlit("成功");
    reveal_strlit("已暂停");
    reveal_strlit("致命错误");
    reveal_strlit("未连接");
    reveal_strlit("Codex app-server");
    reveal_strlit("GUI 兼容回退");
    assert("空闲"@[0] == '空');
    assert("连接中"@[0] == '连');
    assert("发送中"@[0] == '发');
    assert("等待 Codex"@[0] == '等');
    assert("退避等待"@[0] == '退');
    assert("成功"@[0] == '成');
    assert("已暂停"@[0] == '已');
    assert("致命错误"@[0] == '致');
    assert("未连接"@[0] == '未');
    assert("Codex app-server"@[0] == 'C');
    assert("GUI 兼容回退"@[0] == 'G');
}

/// Without a connection it is said that there is none.
pub proof fn a_missing_connection_is_told()
    ensures
        failure_text(FailureView::NotConnected) == "transport is not connected"@,
{
}

/// The texts of the errors of session files, of the desktop and of the
/// controller name what failed and why.
pub proof fn errors_name_what_failed(path: String, source: String, offset: u64)
    ensures
        (JsonlError::Metadata { path, source }).text() == "failed to inspect JSONL session "@ + path@
            + ": "@ + source@,
        (JsonlError::Open { path, source }).text() == "failed to open JSONL session "@ + path@ + ": "@
            + source@,
        (JsonlError::Read { path, source }).text() == "failed to read JSONL session "@ + path@ + ": "@
            + source@,
        (JsonlError::Json { offset, source }).text() == "invalid JSONL record at byte "@ + decimal(
            offset as nat,
        ) + ": "@ + source@,
        JsonlError::Watch(source).text() == "failed to watch JSONL session: "@ + source@,
        AutomationError::Unavailable(source).text() == "GUI fallback is unavailable: "@ + source@,
        AutomationError::Failed(source).text() == "GUI fallback failed: "@ + source@,
        RuntimeError::ChannelClosed.text() == "后台命令通道已关闭"@,
        RuntimeError::TaskJoin(source).text() == "后台任务异常结束："@ + source@,
{
}

} // verus!
