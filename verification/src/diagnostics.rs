//! Reports for support and after a crash.  None of them takes the task, so
//! that none of them can hold it.

use vstd::prelude::*;

use crate::paths::{
    in_folder, join_path, same_opt_path, same_opt_path_as, same_path, same_path_as, PathStyle,
};
use crate::queue::{QueueSnapshot, SnapshotView};
use crate::text::{
    blank, cat, cat3, decimal, is_blank, lines, number_text, opt, same_opt, take_chars, text_lines, to_chars,
    trim, trimmed, views,
};

verus! {

/// How much of the log is shown.
pub const LOG_TAIL_BYTES: usize = 49_152;

/// How much of the reply is shown.
pub const REPLY_PREVIEW_CHARS: usize = 2_000;

/// How long the version of Codex is waited for, in milliseconds.
pub const VERSION_TIMEOUT_MILLIS: u64 = 3_000;

/// What is known of the Codex command.
#[derive(Clone, Debug)]
pub struct CodexCliInfo {
    pub requested_path: String,
    pub resolved_path: Option<String>,
    pub version: Option<String>,
    pub error: Option<String>,
}

/// The content of a [`CodexCliInfo`].
pub struct CliView {
    pub requested_path: Seq<char>,
    pub resolved_path: Option<Seq<char>>,
    pub version: Option<Seq<char>>,
    pub error: Option<Seq<char>>,
}

impl View for CodexCliInfo {
    type V = CliView;

    open spec fn view(&self) -> CliView {
        CliView {
            requested_path: self.requested_path@,
            resolved_path: opt(self.resolved_path),
            version: opt(self.version),
            error: opt(self.error),
        }
    }
}

impl CliView {
    /// The path that is shown: the resolved one where there is one.
    pub open spec fn shown_path(self) -> Seq<char> {
        match self.resolved_path {
            Some(path) => path,
            None => self.requested_path,
        }
    }

    /// The version that is shown.
    pub open spec fn shown_version(self) -> Seq<char> {
        match self.version {
            Some(version) => version,
            None => "版本读取失败"@,
        }
    }
}

impl CodexCliInfo {
    /// Whether the same is known of two commands; paths are compared part by part.
    pub fn equals(&self, other: &CodexCliInfo, style: PathStyle) -> (r: bool)
        ensures
            r == {
                &&& same_path_as(self@.requested_path, other@.requested_path, style)
                &&& same_opt_path_as(self@.resolved_path, other@.resolved_path, style)
                &&& self@.version == other@.version
                &&& self@.error == other@.error
            },
    {
        same_path(self.requested_path.as_str(), other.requested_path.as_str(), style)
            && same_opt_path(&self.resolved_path, &other.resolved_path, style) && same_opt(
            &self.version,
            &other.version,
        ) && same_opt(&self.error, &other.error)
    }

    /// Whether the command was found and told its version.
    pub fn available(&self) -> (r: bool)
        ensures
            r == (self@.resolved_path is Some && self@.version is Some),
    {
        self.resolved_path.is_some() && self.version.is_some()
    }

    /// The path that is shown.
    pub fn path_label(&self) -> (r: String)
        ensures
            r@ == self@.shown_path(),
    {
        match &self.resolved_path {
            Some(path) => path.clone(),
            None => self.requested_path.clone(),
        }
    }

    /// The version that is shown.
    pub fn version_label(&self) -> (r: &str)
        ensures
            r@ == self@.shown_version(),
    {
        match &self.version {
            Some(version) => version.as_str(),
            None => "版本读取失败",
        }
    }
}

/// Puts together what was found out about the Codex command: where it is, and
/// what it says of its version.
pub fn inspect_codex_cli(
    requested_path: &str,
    resolved: Result<String, String>,
    version: Result<String, String>,
) -> (r: CodexCliInfo)
    ensures
        r@ == (CliView {
            requested_path: requested_path@,
            resolved_path: match resolved {
                Ok(path) => Some(path@),
                Err(_) => None,
            },
            version: match (resolved, version) {
                (Ok(_), Ok(text)) => Some(text@),
                _ => None,
            },
            error: match (resolved, version) {
                (Err(error), _) => Some(error@),
                (Ok(_), Err(error)) => Some(error@),
                (Ok(_), Ok(_)) => None,
            },
        }),
{
    let requested_path = requested_path.to_owned();
    match resolved {
        Err(error) => CodexCliInfo {
            requested_path,
            resolved_path: None,
            version: None,
            error: Some(error),
        },
        Ok(path) => match version {
            Ok(text) => CodexCliInfo {
                requested_path,
                resolved_path: Some(path),
                version: Some(text),
                error: None,
            },
            Err(error) => CodexCliInfo {
                requested_path,
                resolved_path: Some(path),
                version: None,
                error: Some(error),
            },
        },
    }
}

/// The first line that is not blank, without the white space around it.
pub open spec fn first_line(lines: Seq<Seq<char>>) -> Option<Seq<char>>
    decreases lines.len(),
{
    if lines.len() == 0 {
        None
    } else if blank(lines[0]) {
        first_line(lines.skip(1))
    } else {
        Some(trimmed(lines[0]))
    }
}

/// What a command says of its version: the first line of its output, else of
/// what it wrote as errors.
pub open spec fn stated_version(stdout: Seq<char>, stderr: Seq<char>) -> Seq<char> {
    match first_line(text_lines(stdout)) {
        Some(line) => line,
        None => match first_line(text_lines(stderr)) {
            Some(line) => line,
            None => Seq::empty(),
        },
    }
}

fn find_first_line(text: &str) -> (r: Option<String>)
    ensures
        opt(r) == first_line(text_lines(text@)),
{
    let parts = lines(text);
    let ghost all = views(parts@);
    let mut i: usize = 0;
    assert(all.skip(0) =~= all);
    while i < parts.len()
        invariant
            i <= parts@.len(),
            all == views(parts@),
            all == text_lines(text@),
            first_line(all) == first_line(all.skip(i as int)),
        decreases parts.len() - i,
    {
        assert(all.skip(i as int).skip(1) =~= all.skip(i + 1));
        assert(all.skip(i as int)[0] == parts@[i as int]@);
        if !is_blank(parts[i].as_str()) {
            return Some(trim(parts[i].as_str()));
        }
        i = i + 1;
    }
    None
}

/// What the version command gave: its version, or why there is none.
pub fn command_version(success: bool, status: &str, stdout: &str, stderr: &str) -> (r: Result<
    String,
    String,
>)
    ensures
        ({
            let version = stated_version(stdout@, stderr@);
            &&& r is Ok <==> success && version.len() > 0
            &&& r matches Ok(text) ==> text@ == version
            &&& r matches Err(text) ==> text@ == (if version.len() == 0 {
                "Codex CLI 未返回版本信息（"@ + status@ + "）"@
            } else {
                "Codex CLI 版本命令失败（"@ + status@ + "）："@ + version
            })
        }),
{
    let version = match find_first_line(stdout) {
        Some(line) => line,
        None => match find_first_line(stderr) {
            Some(line) => line,
            None => String::new(),
        },
    };
    assert(version@ =~= stated_version(stdout@, stderr@));
    if version.as_str().is_empty() {
        return Err(cat3("Codex CLI 未返回版本信息（", status, "）"));
    }
    if !success {
        let mut text = cat3("Codex CLI 版本命令失败（", status, "）：");
        text.push_str(version.as_str());
        return Err(text);
    }
    Ok(version)
}

/// What is done while the version command runs.
#[derive(Clone, Copy, Debug, PartialEq, Eq, Structural)]
pub enum WaitStep {
    /// It has ended: read what it wrote.
    Read,
    /// It took too long: end it.
    GiveUp,
    /// Look again in forty milliseconds.
    Sleep,
}

/// Decides what is done while the version command runs.
pub fn wait_for_version(exited: bool, elapsed_millis: u64) -> (r: WaitStep)
    ensures
        r == (if exited {
            WaitStep::Read
        } else if elapsed_millis >= VERSION_TIMEOUT_MILLIS {
            WaitStep::GiveUp
        } else {
            WaitStep::Sleep
        }),
{
    if exited {
        WaitStep::Read
    } else if elapsed_millis >= VERSION_TIMEOUT_MILLIS {
        WaitStep::GiveUp
    } else {
        WaitStep::Sleep
    }
}

/// The directory of crash reports, for a directory of configuration.
pub fn configure_report_directory(config_directory: &str, style: PathStyle) -> (r: String)
    ensures
        r@ == in_folder(config_directory@, "crash-reports"@, style),
{
    join_path(config_directory, "crash-reports", style)
}

/// The directory of crash reports before the configuration is known.
pub fn default_report_directory(temporary_directory: &str, style: PathStyle) -> (r: String)
    ensures
        r@ == in_folder(
            in_folder(temporary_directory@, "Longwatch"@, style),
            "crash-reports"@,
            style,
        ),
{
    join_path(
        join_path(temporary_directory, "Longwatch", style).as_str(),
        "crash-reports",
        style,
    )
}

/// A text of at most a number of characters; what is cut off is announced.
pub open spec fn shortened(text: Seq<char>, limit: int) -> Seq<char> {
    if text.len() <= limit {
        text
    } else {
        text.take(limit) + "…（已截断）"@
    }
}

/// A text of at most a number of characters; what is cut off is announced.
pub fn truncate_chars(value: &str, limit: usize) -> (r: String)
    ensures
        r@ == shortened(value@, limit as int),
{
    let chars = to_chars(value);
    if chars.len() <= limit {
        return value.to_owned();
    }
    let mut truncated = take_chars(value, limit);
    truncated.push_str("…（已截断）");
    truncated
}

/// What stands for bytes that are to be read as UTF-8, by `String::from_utf8_lossy`.
pub uninterp spec fn utf8_lossy(bytes: Seq<u8>) -> Seq<char>;

/// `String::from_utf8_lossy`: the text is a function of the bytes, and bytes in
/// UTF-8 give the text that they encode; where replacement characters stand for
/// others is not stated.
#[verifier::external_body]
fn read_lossy(bytes: &Vec<u8>) -> (r: String)
    ensures
        r@ == utf8_lossy(bytes@),
        vstd::utf8::valid_utf8(bytes@) ==> r@ == vstd::utf8::decode_utf8(bytes@),
{
    String::from_utf8_lossy(bytes).into_owned()
}

/// The end of a log: at most its last 48 KiB.
pub fn log_tail(bytes: &Vec<u8>) -> (r: String)
    ensures
        r@ == utf8_lossy(
            if bytes@.len() <= LOG_TAIL_BYTES {
                bytes@
            } else {
                bytes@.skip(bytes@.len() - LOG_TAIL_BYTES)
            },
        ),
{
    let start: usize = if bytes.len() <= LOG_TAIL_BYTES {
        0
    } else {
        bytes.len() - LOG_TAIL_BYTES
    };
    let mut tail: Vec<u8> = Vec::new();
    let mut i: usize = start;
    while i < bytes.len()
        invariant
            start <= i <= bytes@.len(),
            tail@ == bytes@.subrange(start as int, i as int),
        decreases bytes.len() - i,
    {
        tail.push(bytes[i]);
        i = i + 1;
        assert(tail@ =~= bytes@.subrange(start as int, i as int));
    }
    assert(tail@ =~= if bytes@.len() <= LOG_TAIL_BYTES {
        bytes@
    } else {
        bytes@.skip(bytes@.len() - LOG_TAIL_BYTES)
    });
    read_lossy(&tail)
}

/// The file that was modified last; of several, the last in the list.
pub fn latest_log(modified: &Vec<i128>) -> (r: Option<usize>)
    ensures
        match r {
            Some(index) => {
                &&& index < modified@.len()
                &&& forall|k: int|
                    0 <= k < modified@.len() ==> modified@[k] <= modified@[index as int]
                &&& forall|k: int|
                    index < k < modified@.len() ==> modified@[k] < modified@[index as int]
            },
            None => modified@.len() == 0,
        },
{
    if modified.len() == 0 {
        return None;
    }
    let mut best: usize = 0;
    let mut i: usize = 1;
    while i < modified.len()
        invariant
            1 <= i <= modified@.len(),
            best < i,
            forall|k: int| 0 <= k < i ==> modified@[k] <= modified@[best as int],
            forall|k: int| best < k < i ==> modified@[k] < modified@[best as int],
        decreases modified.len() - i,
    {
        if modified[i] >= modified[best] {
            best = i;
        }
        i = i + 1;
    }
    Some(best)
}

/// One line of a report.
pub open spec fn labelled(label: Seq<char>, value: Seq<char>) -> Seq<char> {
    label + value + "\n"@
}

fn add_line(report: &mut String, label: &str, value: &str)
    ensures
        final(report)@ == old(report)@ + labelled(label@, value@),
{
    let ghost before = report@;
    report.push_str(label);
    report.push_str(value);
    report.push_str("\n");
    assert(report@ =~= before + labelled(label@, value@));
}

/// A text, or another where there is none.
pub open spec fn text_or(value: Option<Seq<char>>, other: Seq<char>) -> Seq<char> {
    match value {
        Some(text) => text,
        None => other,
    }
}

fn or_text(value: &Option<String>, other: &str) -> (r: String)
    ensures
        r@ == text_or(opt(*value), other@),
{
    match value {
        Some(text) => text.clone(),
        None => other.to_owned(),
    }
}

/// The log in a report, or why it could not be read.
pub open spec fn shown_log(logs: Result<Seq<char>, Seq<char>>) -> Seq<char> {
    match logs {
        Ok(text) => text,
        Err(error) => "读取最近日志失败："@ + error,
    }
}

/// What a report says of the program and its surroundings.
#[derive(Debug)]
pub struct ReportContext {
    pub generated_at: String,
    pub app_version: String,
    pub system: String,
    pub config_directory: String,
    pub logs: Result<String, String>,
}

impl ReportContext {
    /// The log, or why it could not be read.
    pub open spec fn log_text(self) -> Seq<char> {
        shown_log(
            match self.logs {
                Ok(text) => Ok(text@),
                Err(error) => Err(error@),
            },
        )
    }

    fn logs_shown(&self) -> (r: String)
        ensures
            r@ == self.log_text(),
    {
        match &self.logs {
            Ok(text) => text.clone(),
            Err(error) => cat("读取最近日志失败：", error.as_str()),
        }
    }
}

/// The report for support.
pub open spec fn support_report(
    context: ReportContext,
    cli: CliView,
    snapshot: SnapshotView,
) -> Seq<char> {
    let reply = shortened(snapshot.reply_preview, REPLY_PREVIEW_CHARS as int);
    "Longwatch for Codex 诊断报告\n"@
        + labelled("生成时间："@, context.generated_at@)
        + labelled("应用版本："@, context.app_version@)
        + labelled("系统："@, context.system@)
        + labelled("配置目录："@, context.config_directory@)
        + labelled("Codex 配置路径："@, cli.requested_path)
        + labelled("Codex 解析路径："@, cli.shown_path())
        + labelled("Codex CLI："@, cli.shown_version())
        + labelled("Codex CLI 检测错误："@, text_or(cli.error, "无"@))
        + labelled("传输通道："@, snapshot.transport_status.kind.name())
        + labelled(
        "连接状态："@,
        if snapshot.transport_status.connected {
            "已连接"@
        } else {
            "未连接"@
        },
    ) + labelled("app-server："@, text_or(snapshot.transport_status.server_agent, "未提供"@))
        + labelled("队列阶段："@, snapshot.phase.name())
        + labelled("累计尝试："@, decimal(snapshot.attempt_count as nat))
        + labelled("连续重试："@, decimal(snapshot.consecutive_retries as nat))
        + labelled("线程 ID："@, text_or(snapshot.active_thread_id, "无"@))
        + labelled("回合 ID："@, text_or(snapshot.active_turn_id, "无"@))
        + labelled("当前状态："@, snapshot.status_message)
        + labelled(
        "最近回复或错误："@,
        if reply.len() == 0 {
            "无"@
        } else {
            reply
        },
    ) + "\n最近日志（最多 48 KiB）：\n"@ + context.log_text()
        + "\n\n隐私说明：本报告不包含任务原文、配置文件、环境变量、API Key 或登录凭据。"@
}

/// Builds the report for support.
pub fn build_support_report(
    context: &ReportContext,
    cli: &CodexCliInfo,
    snapshot: &QueueSnapshot,
) -> (r: String)
    ensures
        r@ == support_report(*context, cli@, snapshot@),
{
    let transport = &snapshot.transport_status;
    let connection = if transport.connected {
        "已连接"
    } else {
        "未连接"
    };
    let reply = truncate_chars(snapshot.reply_preview.as_str(), REPLY_PREVIEW_CHARS);
    let shown_reply = if reply.as_str().is_empty() {
        "无"
    } else {
        reply.as_str()
    };
    let mut report = "Longwatch for Codex 诊断报告\n".to_owned();
    add_line(&mut report, "生成时间：", context.generated_at.as_str());
    add_line(&mut report, "应用版本：", context.app_version.as_str());
    add_line(&mut report, "系统：", context.system.as_str());
    add_line(&mut report, "配置目录：", context.config_directory.as_str());
    add_line(&mut report, "Codex 配置路径：", cli.requested_path.as_str());
    add_line(&mut report, "Codex 解析路径：", cli.path_label().as_str());
    add_line(&mut report, "Codex CLI：", cli.version_label());
    add_line(&mut report, "Codex CLI 检测错误：", or_text(&cli.error, "无").as_str());
    add_line(&mut report, "传输通道：", transport.kind.label());
    add_line(&mut report, "连接状态：", connection);
    add_line(&mut report, "app-server：", or_text(&transport.server_agent, "未提供").as_str());
    add_line(&mut report, "队列阶段：", snapshot.phase.label());
    add_line(&mut report, "累计尝试：", number_text(snapshot.attempt_count).as_str());
    add_line(
        &mut report,
        "连续重试：",
        number_text(snapshot.consecutive_retries as u64).as_str(),
    );
    add_line(&mut report, "线程 ID：", or_text(&snapshot.active_thread_id, "无").as_str());
    add_line(&mut report, "回合 ID：", or_text(&snapshot.active_turn_id, "无").as_str());
    add_line(&mut report, "当前状态：", snapshot.status_message.as_str());
    add_line(&mut report, "最近回复或错误：", shown_reply);
    report.push_str("\n最近日志（最多 48 KiB）：\n");
    report.push_str(context.logs_shown().as_str());
    report.push_str(
        "\n\n隐私说明：本报告不包含任务原文、配置文件、环境变量、API Key 或登录凭据。",
    );
    report
}

/// The report after a crash.
pub open spec fn crash_report(
    context: ReportContext,
    panic_message: Seq<char>,
    backtrace: Seq<char>,
) -> Seq<char> {
    "Longwatch for Codex 崩溃报告\n"@
        + labelled("发生时间："@, context.generated_at@)
        + labelled("应用版本："@, context.app_version@)
        + labelled("系统："@, context.system@)
        + labelled("异常："@, panic_message)
        + "\n调用栈：\n"@ + backtrace + "\n\n最近日志（最多 48 KiB）：\n"@ + context.log_text()
        + "\n"@
}

/// Builds the report after a crash.
pub fn build_crash_report(context: &ReportContext, panic_message: &str, backtrace: &str) -> (r:
    String)
    ensures
        r@ == crash_report(*context, panic_message@, backtrace@),
{
    let mut report = "Longwatch for Codex 崩溃报告\n".to_owned();
    add_line(&mut report, "发生时间：", context.generated_at.as_str());
    add_line(&mut report, "应用版本：", context.app_version.as_str());
    add_line(&mut report, "系统：", context.system.as_str());
    add_line(&mut report, "异常：", panic_message);
    report.push_str("\n调用栈：\n");
    report.push_str(backtrace);
    report.push_str("\n\n最近日志（最多 48 KiB）：\n");
    report.push_str(context.logs_shown().as_str());
    report.push_str("\n");
    report
}

/// The name of the file of a crash report.
pub fn crash_file_name(stamp: &str) -> (r: String)
    ensures
        r@ == "crash-"@ + stamp@ + ".txt"@,
{
    cat3("crash-", stamp, ".txt")
}

/// What the user is told after a crash.
pub fn crash_message(panic_message: &str, report_path: &Option<String>) -> (r: String)
    ensures
        r@ == (match report_path {
            Some(path) => panic_message@ + "\n\n已保存完整调用栈与最近日志：\n"@ + path@,
            None => panic_message@ + "\n\n崩溃报告写入失败，请查看日志目录。"@,
        }),
{
    match report_path {
        Some(path) => cat3(
            panic_message,
            "\n\n已保存完整调用栈与最近日志：\n",
            path.as_str(),
        ),
        None => cat(panic_message, "\n\n崩溃报告写入失败，请查看日志目录。"),
    }
}

/// The name that keeps a second instance from starting; on macOS it is the path
/// of the lock file.
pub fn single_instance_name(lock_path: &str, macos: bool) -> (r: String)
    ensures
        r@ == (if macos {
            lock_path@
        } else {
            "Longwatch-for-Codex-98b44998-f31f-45f1-9a36-bf78c7370f87"@
        }),
{
    if macos {
        lock_path.to_owned()
    } else {
        "Longwatch-for-Codex-98b44998-f31f-45f1-9a36-bf78c7370f87".to_owned()
    }
}

/// Two queues that show the same give the same report, whatever their tasks
/// are: the report is built from what is shown alone.
pub proof fn the_report_depends_on_what_is_shown(
    context: ReportContext,
    cli: CliView,
    left: SnapshotView,
    right: SnapshotView,
)
    requires
        left.transport_status == right.transport_status,
        left.phase == right.phase,
        left.attempt_count == right.attempt_count,
        left.consecutive_retries == right.consecutive_retries,
        left.active_thread_id == right.active_thread_id,
        left.active_turn_id == right.active_turn_id,
        left.status_message == right.status_message,
        left.reply_preview == right.reply_preview,
    ensures
        support_report(context, cli, left) == support_report(context, cli, right),
{
}

} // verus!
