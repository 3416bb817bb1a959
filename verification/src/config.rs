//! The configuration of the queue, the state that outlives the process, and
//! how their files are read across versions.

use vstd::prelude::*;

use crate::backoff::{
    default_policy, AttemptLedger, RetryPolicy, RetryPolicyError, ABSOLUTE_MIN_INTERVAL_SECS,
};
use crate::digest::{digest_text, hex, sha256};
use crate::json::{
    compact, error_text, field, field_of_put, field_of_without, json_view, opt_field, parse,
    parsed, put, put_present, number_as_u64, refusal, u64_number, u64_of, without, without_absent,
    Json, JsonView,
};
use crate::paths::{
    in_folder, join_path, same_opt_path, same_opt_path_as, same_path, same_path_as, PathStyle,
};
use crate::queue::QueuePhase;
use crate::text::{
    blank, cat, cat3, copy_opt, copy_texts, decimal, is_blank, number_text, opt, same, same_texts,
    signed_decimal, signed_text, views,
};

verus! {

/// The version in which the configuration is written.
pub const CONFIG_VERSION: u32 = 2;

/// The version in which the state is written.
pub const STATE_VERSION: u32 = 1;

/// The notice with which Codex answers while its servers are busy.
pub const CURRENT_HIGH_DEMAND_PHRASE: &'static str =
    "We're currently experiencing high demand, which may cause temporary errors.";

/// What the user has set.
#[derive(Debug)]
pub struct QueueConfig {
    pub version: u32,
    pub prompt: String,
    pub working_directory: Option<String>,
    pub codex_path: String,
    pub failure_phrases: Vec<String>,
    pub gui_fallback_enabled: bool,
    pub full_screen_flash_enabled: bool,
    pub audio_alert_enabled: bool,
    pub retry_policy: RetryPolicy,
    pub turn_timeout_secs: u64,
}

/// The content of a [`QueueConfig`].
pub struct ConfigView {
    pub version: u32,
    pub prompt: Seq<char>,
    pub working_directory: Option<Seq<char>>,
    pub codex_path: Seq<char>,
    pub failure_phrases: Seq<Seq<char>>,
    pub gui_fallback_enabled: bool,
    pub full_screen_flash_enabled: bool,
    pub audio_alert_enabled: bool,
    pub retry_policy: RetryPolicy,
    pub turn_timeout_secs: u64,
}

impl View for QueueConfig {
    type V = ConfigView;

    open spec fn view(&self) -> ConfigView {
        ConfigView {
            version: self.version,
            prompt: self.prompt@,
            working_directory: opt(self.working_directory),
            codex_path: self.codex_path@,
            failure_phrases: views(self.failure_phrases@),
            gui_fallback_enabled: self.gui_fallback_enabled,
            full_screen_flash_enabled: self.full_screen_flash_enabled,
            audio_alert_enabled: self.audio_alert_enabled,
            retry_policy: self.retry_policy,
            turn_timeout_secs: self.turn_timeout_secs,
        }
    }
}

/// The configuration of a fresh installation.
pub open spec fn default_config() -> ConfigView {
    ConfigView {
        version: CONFIG_VERSION,
        prompt: Seq::empty(),
        working_directory: None,
        codex_path: "codex"@,
        failure_phrases: seq![
            "Server overloaded; retry later."@,
            "We're experiencing high demand. Please try again later."@,
            CURRENT_HIGH_DEMAND_PHRASE@,
        ],
        gui_fallback_enabled: false,
        full_screen_flash_enabled: true,
        audio_alert_enabled: true,
        retry_policy: default_policy(),
        turn_timeout_secs: 1800,
    }
}

impl Default for QueueConfig {
    fn default() -> (r: QueueConfig)
        ensures
            r@ == default_config(),
    {
        let mut failure_phrases: Vec<String> = Vec::new();
        failure_phrases.push("Server overloaded; retry later.".to_owned());
        failure_phrases.push("We're experiencing high demand. Please try again later.".to_owned());
        failure_phrases.push(CURRENT_HIGH_DEMAND_PHRASE.to_owned());
        assert(views(failure_phrases@) =~= default_config().failure_phrases);
        QueueConfig {
            version: CONFIG_VERSION,
            prompt: String::new(),
            working_directory: None,
            codex_path: "codex".to_owned(),
            failure_phrases,
            gui_fallback_enabled: false,
            full_screen_flash_enabled: true,
            audio_alert_enabled: true,
            retry_policy: RetryPolicy::default(),
            turn_timeout_secs: 1800,
        }
    }
}

impl ConfigView {
    /// The first thing that is wrong with the configuration.
    pub open spec fn problem(self) -> Option<ConfigErrorView> {
        match self.retry_policy.problem() {
            Some(error) => Some(ConfigErrorView::RetryPolicy(error)),
            None => if blank(self.prompt) {
                Some(ConfigErrorView::EmptyPrompt)
            } else if self.turn_timeout_secs < 60 {
                Some(ConfigErrorView::TurnTimeoutTooShort)
            } else {
                None
            },
        }
    }

    /// Whether two configurations hold the same settings; paths are compared
    /// part by part.
    pub open spec fn equal(self, other: ConfigView, style: PathStyle) -> bool {
        &&& self.version == other.version
        &&& self.prompt == other.prompt
        &&& same_opt_path_as(self.working_directory, other.working_directory, style)
        &&& same_path_as(self.codex_path, other.codex_path, style)
        &&& self.failure_phrases == other.failure_phrases
        &&& self.gui_fallback_enabled == other.gui_fallback_enabled
        &&& self.full_screen_flash_enabled == other.full_screen_flash_enabled
        &&& self.audio_alert_enabled == other.audio_alert_enabled
        &&& self.retry_policy.equal(other.retry_policy)
        &&& self.turn_timeout_secs == other.turn_timeout_secs
    }
}

impl QueueConfig {
    /// Checks the configuration; the first problem is the error.
    pub fn validate(&self) -> (r: Result<(), ConfigError>)
        ensures
            r is Ok == self@.problem() is None,
            r matches Err(error) ==> Some(error@) == self@.problem(),
    {
        if let Err(error) = self.retry_policy.validate() {
            return Err(ConfigError::RetryPolicy(error));
        }
        if is_blank(self.prompt.as_str()) {
            return Err(ConfigError::EmptyPrompt);
        }
        if self.turn_timeout_secs < 60 {
            return Err(ConfigError::TurnTimeoutTooShort);
        }
        Ok(())
    }

    /// Whether two configurations hold the same settings.
    pub fn equals(&self, other: &QueueConfig, style: PathStyle) -> (r: bool)
        ensures
            r == self@.equal(other@, style),
    {
        self.version == other.version && same(self.prompt.as_str(), other.prompt.as_str())
            && same_opt_path(&self.working_directory, &other.working_directory, style)
            && same_path(
            self.codex_path.as_str(),
            other.codex_path.as_str(),
            style,
        ) && same_texts(&self.failure_phrases, &other.failure_phrases) && self.gui_fallback_enabled
            == other.gui_fallback_enabled && self.full_screen_flash_enabled
            == other.full_screen_flash_enabled && self.audio_alert_enabled
            == other.audio_alert_enabled && self.retry_policy.equals(&other.retry_policy)
            && self.turn_timeout_secs == other.turn_timeout_secs
    }

    /// A copy of the configuration.
    pub fn copy(&self) -> (r: QueueConfig)
        ensures
            r@ == self@,
    {
        QueueConfig {
            version: self.version,
            prompt: self.prompt.clone(),
            working_directory: copy_opt(&self.working_directory),
            codex_path: self.codex_path.clone(),
            failure_phrases: copy_texts(&self.failure_phrases),
            gui_fallback_enabled: self.gui_fallback_enabled,
            full_screen_flash_enabled: self.full_screen_flash_enabled,
            audio_alert_enabled: self.audio_alert_enabled,
            retry_policy: self.retry_policy,
            turn_timeout_secs: self.turn_timeout_secs,
        }
    }
}

/// What of the queue outlives the process.  The prompt is not part of it: only
/// its digest is kept.
#[derive(Debug)]
pub struct PersistedQueueState {
    pub version: u32,
    pub phase: QueuePhase,
    pub status_message: String,
    pub active_thread_id: Option<String>,
    pub active_turn_id: Option<String>,
    /// Set while a request has been handed to Codex and its outcome is unknown.
    /// After a restart the thread is reconciled before another request is sent.
    pub submission_uncertain: bool,
    pub attempt_count: u64,
    pub consecutive_retries: u32,
    /// Counts the errors that lead to a retry; the display pulses once for each.
    pub retry_alert_count: u64,
    pub empty_reply_count: u8,
    pub next_attempt_at: Option<i128>,
    pub reply_preview: String,
    pub attempts: AttemptLedger,
    pub prompt_digest: Option<String>,
}

/// The content of a [`PersistedQueueState`].
pub struct StateView {
    pub version: u32,
    pub phase: QueuePhase,
    pub status_message: Seq<char>,
    pub active_thread_id: Option<Seq<char>>,
    pub active_turn_id: Option<Seq<char>>,
    pub submission_uncertain: bool,
    pub attempt_count: u64,
    pub consecutive_retries: u32,
    pub retry_alert_count: u64,
    pub empty_reply_count: u8,
    pub next_attempt_at: Option<i128>,
    pub reply_preview: Seq<char>,
    pub attempts: Seq<i128>,
    pub prompt_digest: Option<Seq<char>>,
}

impl View for PersistedQueueState {
    type V = StateView;

    open spec fn view(&self) -> StateView {
        StateView {
            version: self.version,
            phase: self.phase,
            status_message: self.status_message@,
            active_thread_id: opt(self.active_thread_id),
            active_turn_id: opt(self.active_turn_id),
            submission_uncertain: self.submission_uncertain,
            attempt_count: self.attempt_count,
            consecutive_retries: self.consecutive_retries,
            retry_alert_count: self.retry_alert_count,
            empty_reply_count: self.empty_reply_count,
            next_attempt_at: self.next_attempt_at,
            reply_preview: self.reply_preview@,
            attempts: self.attempts@,
            prompt_digest: opt(self.prompt_digest),
        }
    }
}

/// The state of a queue that has never run.
pub open spec fn default_state() -> StateView {
    StateView {
        version: STATE_VERSION,
        phase: QueuePhase::Idle,
        status_message: "等待任务"@,
        active_thread_id: None,
        active_turn_id: None,
        submission_uncertain: false,
        attempt_count: 0,
        consecutive_retries: 0,
        retry_alert_count: 0,
        empty_reply_count: 0,
        next_attempt_at: None,
        reply_preview: Seq::empty(),
        attempts: Seq::empty(),
        prompt_digest: None,
    }
}

impl Default for PersistedQueueState {
    fn default() -> (r: PersistedQueueState)
        ensures
            r@ == default_state(),
    {
        PersistedQueueState {
            version: STATE_VERSION,
            phase: QueuePhase::Idle,
            status_message: "等待任务".to_owned(),
            active_thread_id: None,
            active_turn_id: None,
            submission_uncertain: false,
            attempt_count: 0,
            consecutive_retries: 0,
            retry_alert_count: 0,
            empty_reply_count: 0,
            next_attempt_at: None,
            reply_preview: String::new(),
            attempts: AttemptLedger::default(),
            prompt_digest: None,
        }
    }
}

/// What can go wrong with the files of the queue and their content.
#[derive(Debug)]
pub enum ConfigError {
    NoConfigDirectory,
    EmptyPrompt,
    TurnTimeoutTooShort,
    UnsupportedVersion(u64),
    InvalidVersion(String),
    InvalidPath(String),
    Io { path: String, source: String },
    Json(String),
    RetryPolicy(RetryPolicyError),
}

/// The content of a [`ConfigError`].
pub enum ConfigErrorView {
    NoConfigDirectory,
    EmptyPrompt,
    TurnTimeoutTooShort,
    UnsupportedVersion(u64),
    InvalidVersion(Seq<char>),
    InvalidPath(Seq<char>),
    Io { path: Seq<char>, source: Seq<char> },
    Json(Seq<char>),
    RetryPolicy(RetryPolicyError),
}

impl View for ConfigError {
    type V = ConfigErrorView;

    open spec fn view(&self) -> ConfigErrorView {
        match self {
            ConfigError::NoConfigDirectory => ConfigErrorView::NoConfigDirectory,
            ConfigError::EmptyPrompt => ConfigErrorView::EmptyPrompt,
            ConfigError::TurnTimeoutTooShort => ConfigErrorView::TurnTimeoutTooShort,
            ConfigError::UnsupportedVersion(version) => ConfigErrorView::UnsupportedVersion(
                *version,
            ),
            ConfigError::InvalidVersion(text) => ConfigErrorView::InvalidVersion(text@),
            ConfigError::InvalidPath(path) => ConfigErrorView::InvalidPath(path@),
            ConfigError::Io { path, source } => ConfigErrorView::Io { path: path@, source: source@ },
            ConfigError::Json(text) => ConfigErrorView::Json(text@),
            ConfigError::RetryPolicy(error) => ConfigErrorView::RetryPolicy(*error),
        }
    }
}

/// The text that the user is shown.
pub open spec fn config_error_text(error: ConfigErrorView) -> Seq<char> {
    match error {
        ConfigErrorView::NoConfigDirectory => "操作系统未提供可用的标准配置目录"@,
        ConfigErrorView::EmptyPrompt => "请先输入任务内容再开始排队"@,
        ConfigErrorView::TurnTimeoutTooShort => "单回合超时时间不能少于 60 秒"@,
        ConfigErrorView::UnsupportedVersion(version) => "不支持配置文件版本 "@ + decimal(
            version as nat,
        ),
        ConfigErrorView::InvalidVersion(text) => "配置文件版本字段无效："@ + text,
        ConfigErrorView::InvalidPath(path) => "配置路径无效："@ + path,
        ConfigErrorView::Io { path, source } => "读写 "@ + path + " 失败："@ + source,
        ConfigErrorView::Json(text) => "JSON 内容无效："@ + text,
        ConfigErrorView::RetryPolicy(error) => "重试策略无效："@ + error.text(),
    }
}

impl ConfigError {
    /// The text that the user is shown.
    pub fn message(&self) -> (r: String)
        ensures
            r@ == config_error_text(self@),
    {
        match self {
            ConfigError::NoConfigDirectory => "操作系统未提供可用的标准配置目录".to_owned(),
            ConfigError::EmptyPrompt => "请先输入任务内容再开始排队".to_owned(),
            ConfigError::TurnTimeoutTooShort => "单回合超时时间不能少于 60 秒".to_owned(),
            ConfigError::UnsupportedVersion(version) => cat(
                "不支持配置文件版本 ",
                number_text(*version).as_str(),
            ),
            ConfigError::InvalidVersion(text) => cat("配置文件版本字段无效：", text.as_str()),
            ConfigError::InvalidPath(path) => cat("配置路径无效：", path.as_str()),
            ConfigError::Io { path, source } => {
                let mut out = cat3("读写 ", path.as_str(), " 失败：");
                out.push_str(source.as_str());
                out
            },
            ConfigError::Json(text) => cat("JSON 内容无效：", text.as_str()),
            ConfigError::RetryPolicy(error) => cat("重试策略无效：", error.message().as_str()),
        }
    }
}

/// Whether a file with such a problem is set aside and replaced by the defaults.
pub open spec fn recoverable(error: ConfigErrorView) -> bool {
    error is Json || error is UnsupportedVersion || error is InvalidVersion
}

/// Whether a file with such a problem is set aside and replaced by the defaults.
pub fn is_recoverable_document_error(error: &ConfigError) -> (r: bool)
    ensures
        r == recoverable(error@),
{
    match error {
        ConfigError::Json(_) => true,
        ConfigError::UnsupportedVersion(_) => true,
        ConfigError::InvalidVersion(_) => true,
        _ => false,
    }
}

/// The name under which a damaged file is set aside.
pub fn backup_name(file_name: &str, timestamp_millis: i64) -> (r: String)
    ensures
        r@ == file_name@ + ".corrupt-"@ + signed_decimal(timestamp_millis as int),
{
    cat3(file_name, ".corrupt-", signed_text(timestamp_millis).as_str())
}

/// The digest of a prompt, as it is kept in the state.
pub open spec fn digest_of(prompt: Seq<char>) -> Seq<char> {
    hex(sha256(vstd::utf8::encode_utf8(prompt)))
}

/// The digest of a prompt, as it is kept in the state.
pub fn prompt_digest(prompt: &str) -> (r: String)
    ensures
        r@ == digest_of(prompt@),
        r@.len() == 64,
{
    digest_text(prompt.as_bytes())
}

/// The version that a document states: zero where it states none; the text of
/// the member where it is no unsigned integer.
pub open spec fn stated_version(document: JsonView) -> Result<u64, Seq<char>> {
    match field(document, "version"@) {
        None => Ok(0u64),
        Some(version) => match u64_of(version) {
            Some(number) => Ok(number),
            None => Err(compact(version)),
        },
    }
}

fn document_version(document: &Json) -> (r: Result<u64, ConfigError>)
    ensures
        match stated_version(document@) {
            Ok(number) => r == Ok::<u64, ConfigError>(number),
            Err(text) => r is Err && r->Err_0@ == ConfigErrorView::InvalidVersion(text),
        },
{
    match document.get("version") {
        None => Ok(0),
        Some(version) => match version.as_u64() {
            Some(number) => Ok(number),
            None => Err(ConfigError::InvalidVersion(version.to_text())),
        },
    }
}

/// A document without the limits on the number of attempts that earlier
/// versions had.
pub open spec fn limits_removed(document: JsonView) -> JsonView {
    match field(document, "retryPolicy"@) {
        Some(JsonView::Object(members)) => put(
            document,
            "retryPolicy"@,
            without(
                without(JsonView::Object(members), "maxAttemptsPerHour"@),
                "maxAttemptsPerDay"@,
            ),
        ),
        _ => document,
    }
}

fn remove_legacy_attempt_limits(document: &Json) -> (r: Json)
    ensures
        r@ == limits_removed(document@),
{
    match document.get("retryPolicy") {
        Some(policy) => match policy {
            Json::Object(_) => document.put(
                "retryPolicy",
                policy.without("maxAttemptsPerHour").without("maxAttemptsPerDay"),
            ),
            _ => document.copy(),
        },
        None => document.copy(),
    }
}

/// A document whose list of failure phrases holds the notice of high demand.
pub open spec fn phrase_added(document: JsonView) -> JsonView {
    match field(document, "failurePhrases"@) {
        Some(JsonView::Array(items)) => if items.contains(
            JsonView::Text(CURRENT_HIGH_DEMAND_PHRASE@),
        ) {
            document
        } else {
            put(
                document,
                "failurePhrases"@,
                JsonView::Array(items.push(JsonView::Text(CURRENT_HIGH_DEMAND_PHRASE@))),
            )
        },
        _ => document,
    }
}

fn append_current_high_demand_phrase(document: &Json) -> (r: Json)
    ensures
        r@ == phrase_added(document@),
{
    match document.get("failurePhrases") {
        Some(phrases) => match phrases {
            Json::Array(items) => {
                let ghost all = phrases@->Array_0;
                let ghost wanted = JsonView::Text(CURRENT_HIGH_DEMAND_PHRASE@);
                let mut copies: Vec<Json> = Vec::new();
                let mut i: usize = 0;
                while i < items.len()
                    invariant
                        *phrases == Json::Array(*items),
                        all == phrases@->Array_0,
                        wanted == JsonView::Text(CURRENT_HIGH_DEMAND_PHRASE@),
                        all.len() == items@.len(),
                        i <= items@.len(),
                        copies@.len() == i,
                        field(document@, "failurePhrases"@) == Some(JsonView::Array(all)),
                        forall|k: int| 0 <= k < all.len() ==> #[trigger] all[k] == items@[k]@,
                        forall|k: int| 0 <= k < i ==> #[trigger] copies@[k]@ == all[k],
                        forall|k: int| 0 <= k < i ==> #[trigger] all[k] != wanted,
                    decreases items.len() - i,
                {
                    assert(all[i as int] == items@[i as int]@);
                    if let Json::Text(text) = &items[i] {
                        if same(text.as_str(), CURRENT_HIGH_DEMAND_PHRASE) {
                            assert(all.contains(wanted));
                            return document.copy();
                        }
                    }
                    copies.push(items[i].copy());
                    i = i + 1;
                }
                let ghost before = copies@;
                copies.push(Json::text(CURRENT_HIGH_DEMAND_PHRASE));
                assert forall|k: int| 0 <= k < all.len() implies json_view(#[trigger] copies@[k])
                    == all[k] by {
                    assert(before[k]@ == all[k]);
                }
                assert(json_view(copies@[all.len() as int]) == wanted);
                assert(!all.contains(wanted));
                let extended = Json::Array(copies);
                assert(extended@->Array_0 =~= all.push(wanted));
                document.put("failurePhrases", extended)
            },
            _ => document.copy(),
        },
        None => document.copy(),
    }
}

/// Whether a policy member is the given integer.
pub open spec fn holds_number(policy: JsonView, name: Seq<char>, number: u64) -> bool {
    match field(policy, name) {
        Some(value) => u64_of(value) == Some(number),
        None => false,
    }
}

/// A policy in which one number that used to be a default is replaced by the
/// default of today.
pub open spec fn default_replaced(
    policy: JsonView,
    name: Seq<char>,
    old_default: u64,
    new_default: u64,
) -> JsonView {
    if holds_number(policy, name, old_default) {
        put(policy, name, JsonView::Number(u64_number(new_default)))
    } else {
        policy
    }
}

/// A document whose retry policy has the defaults of today where it had those
/// of earlier versions.
pub open spec fn defaults_raised(document: JsonView) -> JsonView {
    match field(document, "retryPolicy"@) {
        Some(JsonView::Object(members)) => put(
            document,
            "retryPolicy"@,
            default_replaced(
                default_replaced(JsonView::Object(members), "baseDelaySecs"@, 90, 30),
                "maxEmptyReplies"@,
                3,
                5,
            ),
        ),
        _ => document,
    }
}

fn replace_default(policy: &Json, name: &str, old_default: u64, new_default: u64) -> (r: Json)
    ensures
        r@ == default_replaced(policy@, name@, old_default, new_default),
{
    if let Some(value) = policy.get(name) {
        if let Some(number) = value.as_u64() {
            if number == old_default {
                return policy.put(name, Json::unsigned(new_default));
            }
        }
    }
    policy.copy()
}

fn migrate_default_retry_delay(document: &Json) -> (r: Json)
    ensures
        r@ == defaults_raised(document@),
{
    match document.get("retryPolicy") {
        Some(policy) => match policy {
            Json::Object(_) => {
                let first = replace_default(policy, "baseDelaySecs", 90, 30);
                document.put("retryPolicy", replace_default(&first, "maxEmptyReplies", 3, 5))
            },
            _ => document.copy(),
        },
        None => document.copy(),
    }
}

/// The interval of the oldest documents moved into the retry policy, not below
/// the absolute minimum.
pub open spec fn interval_moved(document: JsonView) -> JsonView {
    match field(document, "retryIntervalSeconds"@) {
        None => document,
        Some(interval) => {
            let rest = without(document, "retryIntervalSeconds"@);
            let policy = match field(rest, "retryPolicy"@) {
                Some(policy) => policy,
                None => JsonView::Object(Seq::empty()),
            };
            let moved = match u64_of(interval) {
                Some(secs) => put(
                    policy,
                    "baseDelaySecs"@,
                    JsonView::Number(
                        u64_number(
                            if secs < ABSOLUTE_MIN_INTERVAL_SECS {
                                ABSOLUTE_MIN_INTERVAL_SECS
                            } else {
                                secs
                            },
                        ),
                    ),
                ),
                None => policy,
            };
            put(rest, "retryPolicy"@, moved)
        },
    }
}

fn move_legacy_interval(document: &Json) -> (r: Json)
    ensures
        r@ == interval_moved(document@),
{
    match document.get("retryIntervalSeconds") {
        None => document.copy(),
        Some(interval) => {
            let rest = document.without("retryIntervalSeconds");
            let policy = match rest.get("retryPolicy") {
                Some(policy) => policy.copy(),
                None => {
                    let empty = Json::Object(Vec::new());
                    assert(empty@->Object_0 =~= Seq::empty());
                    empty
                },
            };
            let moved = match interval.as_u64() {
                Some(secs) => {
                    let floor: u64 = if secs < ABSOLUTE_MIN_INTERVAL_SECS {
                        ABSOLUTE_MIN_INTERVAL_SECS
                    } else {
                        secs
                    };
                    policy.put("baseDelaySecs", Json::unsigned(floor))
                },
                None => policy,
            };
            rest.put("retryPolicy", moved)
        },
    }
}

/// A document with its version set.
pub open spec fn versioned(document: JsonView, version: u32) -> JsonView {
    put(document, "version"@, JsonView::Number(u64_number(version as u64)))
}

/// A configuration document without what no version of today has.
pub open spec fn legacy_removed(document: JsonView) -> JsonView {
    limits_removed(without(document, "hideAppServerWindow"@))
}

/// A configuration document brought to the version of today.
pub open spec fn migrated_config(document: JsonView) -> Result<JsonView, ConfigErrorView> {
    let cleaned = legacy_removed(document);
    match stated_version(document) {
        Err(text) => Err(ConfigErrorView::InvalidVersion(text)),
        Ok(version) => if version == 0 {
            Ok(defaults_raised(interval_moved(phrase_added(versioned(cleaned, CONFIG_VERSION)))))
        } else if version == 1 {
            Ok(defaults_raised(phrase_added(versioned(cleaned, CONFIG_VERSION))))
        } else if version == 2 {
            Ok(cleaned)
        } else {
            Err(ConfigErrorView::UnsupportedVersion(version))
        },
    }
}

/// Brings a configuration document to the version of today.
pub fn migrate_config(document: &Json) -> (r: Result<Json, ConfigError>)
    ensures
        match migrated_config(document@) {
            Ok(content) => r is Ok && r->Ok_0@ == content,
            Err(error) => r is Err && r->Err_0@ == error,
        },
        r is Ok && document@ is Object ==> stated_version(r->Ok_0@) == Ok::<u64, Seq<char>>(
            CONFIG_VERSION as u64,
        ),
        r is Ok ==> migrated_config(r->Ok_0@) == Ok::<JsonView, ConfigErrorView>(r->Ok_0@),
{
    let version = match document_version(document) {
        Ok(version) => version,
        Err(error) => {
            return Err(error);
        },
    };
    let cleaned = remove_legacy_attempt_limits(&document.without("hideAppServerWindow"));
    proof {
        names_differ();
        cleaned_fields(document@, "version"@);
    }
    if version == 0 || version == 1 {
        let number = Json::unsigned(CONFIG_VERSION as u64);
        let stamped = cleaned.put("version", number);
        let extended = append_current_high_demand_phrase(&stamped);
        let moved = if version == 0 {
            move_legacy_interval(&extended)
        } else {
            extended
        };
        proof {
            field_of_put(cleaned@, "version"@, number@, "version"@);
            phrase_fields(stamped@, "version"@);
            interval_fields(phrase_added(stamped@), "version"@);
            defaults_fields(moved@, "version"@);
            assert(document@ is Object ==> cleaned@ is Object);
            assert(u64_of(number@) == Some(CONFIG_VERSION as u64));
            migration_is_idempotent(document@);
        }
        Ok(migrate_default_retry_delay(&moved))
    } else if version == 2 {
        proof {
            migration_is_idempotent(document@);
        }
        Ok(cleaned)
    } else {
        Err(ConfigError::UnsupportedVersion(version))
    }
}

/// A state document brought to the version of today.
pub open spec fn migrated_state(document: JsonView) -> Result<JsonView, ConfigErrorView> {
    match stated_version(document) {
        Err(text) => Err(ConfigErrorView::InvalidVersion(text)),
        Ok(version) => if version == 0 {
            Ok(versioned(document, STATE_VERSION))
        } else if version == 1 {
            Ok(document)
        } else {
            Err(ConfigErrorView::UnsupportedVersion(version))
        },
    }
}

/// Brings a state document to the version of today.
pub fn migrate_state(document: &Json) -> (r: Result<Json, ConfigError>)
    ensures
        match migrated_state(document@) {
            Ok(content) => r is Ok && r->Ok_0@ == content,
            Err(error) => r is Err && r->Err_0@ == error,
        },
        r is Ok && document@ is Object ==> stated_version(r->Ok_0@) == Ok::<u64, Seq<char>>(
            STATE_VERSION as u64,
        ),
        r is Ok ==> migrated_state(r->Ok_0@) == Ok::<JsonView, ConfigErrorView>(r->Ok_0@),
{
    let version = match document_version(document) {
        Ok(version) => version,
        Err(error) => {
            return Err(error);
        },
    };
    if version == 0 {
        let number = Json::unsigned(STATE_VERSION as u64);
        proof {
            field_of_put(document@, "version"@, number@, "version"@);
        }
        Ok(document.put("version", number))
    } else if version == 1 {
        Ok(document.copy())
    } else {
        Err(ConfigError::UnsupportedVersion(version))
    }
}

/// Reads a configuration file: the document of today that its bytes hold.  A
/// file that is refused can be put aside.
pub fn read_config_document(bytes: &[u8]) -> (r: Result<Json, ConfigError>)
    ensures
        match parsed(bytes@) {
            None => r is Err && r->Err_0@ == ConfigErrorView::Json(refusal(bytes@)),
            Some(document) => match migrated_config(document) {
                Ok(content) => r is Ok && r->Ok_0@ == content,
                Err(error) => r is Err && r->Err_0@ == error,
            },
        },
        r is Err ==> recoverable(r->Err_0@),
        r is Ok ==> migrated_config(r->Ok_0@) == Ok::<JsonView, ConfigErrorView>(r->Ok_0@),
{
    match parse(bytes) {
        Ok(document) => migrate_config(&document),
        Err(error) => Err(ConfigError::Json(error_text(&error))),
    }
}

/// Reads a state file: the document of today that its bytes hold.  A file that
/// is refused can be put aside.
pub fn read_state_document(bytes: &[u8]) -> (r: Result<Json, ConfigError>)
    ensures
        match parsed(bytes@) {
            None => r is Err && r->Err_0@ == ConfigErrorView::Json(refusal(bytes@)),
            Some(document) => match migrated_state(document) {
                Ok(content) => r is Ok && r->Ok_0@ == content,
                Err(error) => r is Err && r->Err_0@ == error,
            },
        },
        r is Err ==> recoverable(r->Err_0@),
{
    match parse(bytes) {
        Ok(document) => migrate_state(&document),
        Err(error) => Err(ConfigError::Json(error_text(&error))),
    }
}

/// What it means that a document could not be read: a file that was opened and
/// then cannot be read counts as a damaged document, one that cannot be opened
/// does not.
pub fn unreadable_document(opened: bool, path: &str, source: &str) -> (r: ConfigError)
    ensures
        r@ == (if opened {
            ConfigErrorView::Json(source@)
        } else {
            ConfigErrorView::Io { path: path@, source: source@ }
        }),
        recoverable(r@) == opened,
{
    if opened {
        ConfigError::Json(source.to_owned())
    } else {
        ConfigError::Io { path: path.to_owned(), source: source.to_owned() }
    }
}

proof fn names_differ()
    ensures
        "version"@ != "hideAppServerWindow"@,
        "version"@ != "retryPolicy"@,
        "version"@ != "failurePhrases"@,
        "version"@ != "retryIntervalSeconds"@,
        "retryPolicy"@ != "hideAppServerWindow"@,
        "retryPolicy"@ != "failurePhrases"@,
        "retryPolicy"@ != "retryIntervalSeconds"@,
        "failurePhrases"@ != "hideAppServerWindow"@,
        "failurePhrases"@ != "retryIntervalSeconds"@,
        "hideAppServerWindow"@ != "retryIntervalSeconds"@,
        "maxAttemptsPerHour"@ != "maxAttemptsPerDay"@,
        "maxAttemptsPerHour"@ != "baseDelaySecs"@,
        "maxAttemptsPerHour"@ != "maxEmptyReplies"@,
        "maxAttemptsPerDay"@ != "baseDelaySecs"@,
        "maxAttemptsPerDay"@ != "maxEmptyReplies"@,
{
    reveal_strlit("version");
    reveal_strlit("hideAppServerWindow");
    reveal_strlit("retryPolicy");
    reveal_strlit("failurePhrases");
    reveal_strlit("retryIntervalSeconds");
    reveal_strlit("maxAttemptsPerHour");
    reveal_strlit("maxAttemptsPerDay");
    reveal_strlit("baseDelaySecs");
    reveal_strlit("maxEmptyReplies");
    assert("version"@.len() == 7);
    assert("hideAppServerWindow"@.len() == 19);
    assert("retryPolicy"@.len() == 11);
    assert("failurePhrases"@.len() == 14);
    assert("retryIntervalSeconds"@.len() == 20);
    assert("maxAttemptsPerHour"@.len() == 18);
    assert("maxAttemptsPerDay"@.len() == 17);
    assert("baseDelaySecs"@.len() == 13);
    assert("maxEmptyReplies"@.len() == 15);
}

proof fn cleaned_fields(document: JsonView, name: Seq<char>)
    ensures
        name != "hideAppServerWindow"@ && name != "retryPolicy"@ ==> field(
            legacy_removed(document),
            name,
        ) == field(document, name),
        name == "hideAppServerWindow"@ ==> field(legacy_removed(document), name) is None,
        name == "retryPolicy"@ ==> match field(document, name) {
            Some(JsonView::Object(members)) => field(legacy_removed(document), name) == Some(
                without(
                    without(JsonView::Object(members), "maxAttemptsPerHour"@),
                    "maxAttemptsPerDay"@,
                ),
            ),
            other => field(legacy_removed(document), name) == other,
        },
{
    names_differ();
    let first = without(document, "hideAppServerWindow"@);
    field_of_without(document, "hideAppServerWindow"@, name);
    field_of_without(document, "hideAppServerWindow"@, "retryPolicy"@);
    if let Some(JsonView::Object(members)) = field(first, "retryPolicy"@) {
        field_of_put(
            first,
            "retryPolicy"@,
            without(
                without(JsonView::Object(members), "maxAttemptsPerHour"@),
                "maxAttemptsPerDay"@,
            ),
            name,
        );
    }
}

proof fn phrase_fields(document: JsonView, name: Seq<char>)
    ensures
        name != "failurePhrases"@ ==> field(phrase_added(document), name) == field(document, name),
        phrase_added(document) is Object == document is Object,
{
    if let Some(JsonView::Array(items)) = field(document, "failurePhrases"@) {
        field_of_put(
            document,
            "failurePhrases"@,
            JsonView::Array(items.push(JsonView::Text(CURRENT_HIGH_DEMAND_PHRASE@))),
            name,
        );
    }
}

proof fn interval_fields(document: JsonView, name: Seq<char>)
    ensures
        name != "retryIntervalSeconds"@ && name != "retryPolicy"@ ==> field(
            interval_moved(document),
            name,
        ) == field(document, name),
        interval_moved(document) is Object == document is Object,
{
    let rest = without(document, "retryIntervalSeconds"@);
    field_of_without(document, "retryIntervalSeconds"@, name);
    if let Some(interval) = field(document, "retryIntervalSeconds"@) {
        let placed = field(interval_moved(document), "retryPolicy"@);
        let policy = match field(rest, "retryPolicy"@) {
            Some(policy) => policy,
            None => JsonView::Object(Seq::empty()),
        };
        if let Some(secs) = u64_of(interval) {
            let number = JsonView::Number(
                u64_number(
                    if secs < ABSOLUTE_MIN_INTERVAL_SECS {
                        ABSOLUTE_MIN_INTERVAL_SECS
                    } else {
                        secs
                    },
                ),
            );
            field_of_put(rest, "retryPolicy"@, put(policy, "baseDelaySecs"@, number), name);
        } else {
            field_of_put(rest, "retryPolicy"@, policy, name);
        }
    }
}

proof fn defaults_fields(document: JsonView, name: Seq<char>)
    ensures
        name != "retryPolicy"@ ==> field(defaults_raised(document), name) == field(document, name),
        defaults_raised(document) is Object == document is Object,
{
    if let Some(JsonView::Object(members)) = field(document, "retryPolicy"@) {
        field_of_put(
            document,
            "retryPolicy"@,
            default_replaced(
                default_replaced(JsonView::Object(members), "baseDelaySecs"@, 90, 30),
                "maxEmptyReplies"@,
                3,
                5,
            ),
            name,
        );
    }
}

/// Whether a migration may touch the setting of a name.
pub open spec fn migrated_setting(name: Seq<char>) -> bool {
    ||| name == "version"@
    ||| name == "failurePhrases"@
    ||| name == "retryPolicy"@
    ||| name == "retryIntervalSeconds"@
    ||| name == "hideAppServerWindow"@
}

/// A migration leaves every setting that it is not about as the user had it:
/// explicitly disabled alerts stay disabled.
pub proof fn migration_keeps_other_settings(document: JsonView, name: Seq<char>)
    requires
        migrated_config(document) is Ok,
        !migrated_setting(name),
    ensures
        field(migrated_config(document)->Ok_0, name) == field(document, name),
{
    cleaned_fields(document, name);
    let cleaned = legacy_removed(document);
    let stamped = versioned(cleaned, CONFIG_VERSION);
    field_of_put(
        cleaned,
        "version"@,
        JsonView::Number(u64_number(CONFIG_VERSION as u64)),
        name,
    );
    phrase_fields(stamped, name);
    interval_fields(phrase_added(stamped), name);
    defaults_fields(interval_moved(phrase_added(stamped)), name);
    defaults_fields(phrase_added(stamped), name);
}

/// The setting for the window of the app-server does not survive a migration.
pub proof fn migration_drops_the_window_setting(document: JsonView)
    requires
        migrated_config(document) is Ok,
    ensures
        field(migrated_config(document)->Ok_0, "hideAppServerWindow"@) is None,
{
    let name = "hideAppServerWindow"@;
    names_differ();
    cleaned_fields(document, name);
    let cleaned = legacy_removed(document);
    let stamped = versioned(cleaned, CONFIG_VERSION);
    field_of_put(
        cleaned,
        "version"@,
        JsonView::Number(u64_number(CONFIG_VERSION as u64)),
        name,
    );
    phrase_fields(stamped, name);
    interval_fields(phrase_added(stamped), name);
    defaults_fields(interval_moved(phrase_added(stamped)), name);
    defaults_fields(phrase_added(stamped), name);
}

/// Whether a document holds no limit on the number of attempts.
pub open spec fn unlimited(document: JsonView) -> bool {
    &&& opt_field(field(document, "retryPolicy"@), "maxAttemptsPerHour"@) is None
    &&& opt_field(field(document, "retryPolicy"@), "maxAttemptsPerDay"@) is None
}

proof fn cleaned_is_unlimited(document: JsonView)
    ensures
        unlimited(legacy_removed(document)),
{
    names_differ();
    cleaned_fields(document, "retryPolicy"@);
    match field(document, "retryPolicy"@) {
        Some(JsonView::Object(members)) => {
            let policy = JsonView::Object(members);
            let first = without(policy, "maxAttemptsPerHour"@);
            field_of_without(policy, "maxAttemptsPerHour"@, "maxAttemptsPerHour"@);
            field_of_without(first, "maxAttemptsPerDay"@, "maxAttemptsPerHour"@);
            field_of_without(first, "maxAttemptsPerDay"@, "maxAttemptsPerDay"@);
        },
        _ => {},
    }
}

/// The limits on the number of attempts do not survive a migration.
pub proof fn migration_drops_attempt_limits(document: JsonView)
    requires
        migrated_config(document) is Ok,
    ensures
        unlimited(migrated_config(document)->Ok_0),
{
    names_differ();
    cleaned_is_unlimited(document);
    let cleaned = legacy_removed(document);
    let number = JsonView::Number(u64_number(CONFIG_VERSION as u64));
    let stamped = versioned(cleaned, CONFIG_VERSION);
    field_of_put(cleaned, "version"@, number, "retryPolicy"@);
    let extended = phrase_added(stamped);
    phrase_fields(stamped, "retryPolicy"@);
    assert(unlimited(extended));
    interval_keeps_unlimited(extended);
    defaults_keep_unlimited(extended);
    defaults_keep_unlimited(interval_moved(extended));
}

proof fn interval_keeps_unlimited(document: JsonView)
    requires
        unlimited(document),
    ensures
        unlimited(interval_moved(document)),
{
    names_differ();
    let rest = without(document, "retryIntervalSeconds"@);
    field_of_without(document, "retryIntervalSeconds"@, "retryPolicy"@);
    if let Some(interval) = field(document, "retryIntervalSeconds"@) {
        let policy = match field(rest, "retryPolicy"@) {
            Some(policy) => policy,
            None => JsonView::Object(Seq::empty()),
        };
        let secs = match u64_of(interval) {
            Some(secs) => if secs < ABSOLUTE_MIN_INTERVAL_SECS {
                ABSOLUTE_MIN_INTERVAL_SECS
            } else {
                secs
            },
            None => 0,
        };
        let number = JsonView::Number(u64_number(secs));
        let moved = if u64_of(interval) is Some {
            put(policy, "baseDelaySecs"@, number)
        } else {
            policy
        };
        field_of_put(policy, "baseDelaySecs"@, number, "maxAttemptsPerHour"@);
        field_of_put(policy, "baseDelaySecs"@, number, "maxAttemptsPerDay"@);
        field_of_put(rest, "retryPolicy"@, moved, "retryPolicy"@);
        assert(interval_moved(document) == put(rest, "retryPolicy"@, moved));
    }
}

proof fn defaults_keep_unlimited(document: JsonView)
    requires
        unlimited(document),
    ensures
        unlimited(defaults_raised(document)),
{
    names_differ();
    if let Some(JsonView::Object(members)) = field(document, "retryPolicy"@) {
        let policy = JsonView::Object(members);
        let first = default_replaced(policy, "baseDelaySecs"@, 90, 30);
        let second = default_replaced(first, "maxEmptyReplies"@, 3, 5);
        let n30 = JsonView::Number(u64_number(30));
        let n5 = JsonView::Number(u64_number(5));
        field_of_put(policy, "baseDelaySecs"@, n30, "maxAttemptsPerHour"@);
        field_of_put(policy, "baseDelaySecs"@, n30, "maxAttemptsPerDay"@);
        field_of_put(first, "maxEmptyReplies"@, n5, "maxAttemptsPerHour"@);
        field_of_put(first, "maxEmptyReplies"@, n5, "maxAttemptsPerDay"@);
        field_of_put(document, "retryPolicy"@, second, "retryPolicy"@);
    }
}

proof fn clean_stays(document: JsonView)
    requires
        field(document, "hideAppServerWindow"@) is None,
        unlimited(document),
    ensures
        legacy_removed(document) == document,
{
    names_differ();
    without_absent(document, "hideAppServerWindow"@);
    if let Some(JsonView::Object(members)) = field(document, "retryPolicy"@) {
        let policy = JsonView::Object(members);
        without_absent(policy, "maxAttemptsPerHour"@);
        without_absent(policy, "maxAttemptsPerDay"@);
        put_present(document, "retryPolicy"@);
    }
}

proof fn migrated_version(document: JsonView)
    requires
        migrated_config(document) is Ok,
        document is Object,
    ensures
        migrated_config(document)->Ok_0 is Object,
        field(migrated_config(document)->Ok_0, "version"@) == (if stated_version(document) == Ok::<
            u64,
            Seq<char>,
        >(CONFIG_VERSION as u64) {
            field(document, "version"@)
        } else {
            Some(JsonView::Number(u64_number(CONFIG_VERSION as u64)))
        }),
{
    let name = "version"@;
    names_differ();
    cleaned_fields(document, name);
    let cleaned = legacy_removed(document);
    let number = JsonView::Number(u64_number(CONFIG_VERSION as u64));
    let stamped = versioned(cleaned, CONFIG_VERSION);
    field_of_put(cleaned, name, number, name);
    phrase_fields(stamped, name);
    interval_fields(phrase_added(stamped), name);
    defaults_fields(interval_moved(phrase_added(stamped)), name);
    defaults_fields(phrase_added(stamped), name);
}

/// Migrating a document twice is the same as migrating it once, given that the
/// number that is written for today's version is read as that version.
pub proof fn migration_is_idempotent(document: JsonView)
    requires
        migrated_config(document) is Ok,
        stated_version(document) == Ok::<u64, Seq<char>>(CONFIG_VERSION as u64) || number_as_u64(
            u64_number(CONFIG_VERSION as u64),
        ) == Some(CONFIG_VERSION as u64),
    ensures
        migrated_config(migrated_config(document)->Ok_0) == migrated_config(document),
{
    let once = migrated_config(document)->Ok_0;
    if document is Object {
        migrated_version(document);
        migration_drops_the_window_setting(document);
        migration_drops_attempt_limits(document);
        clean_stays(once);
    }
}

/// Where the user keeps a list of failure phrases, a migration from an earlier
/// version leaves every phrase in it and the notice of high demand is among them.
pub proof fn migration_adds_the_current_phrase(document: JsonView, phrases: Seq<JsonView>)
    requires
        stated_version(document) == Ok::<u64, Seq<char>>(0) || stated_version(document) == Ok::<
            u64,
            Seq<char>,
        >(1),
        field(document, "failurePhrases"@) == Some(JsonView::Array(phrases)),
    ensures
        ({
            let after = field(migrated_config(document)->Ok_0, "failurePhrases"@);
            &&& after matches Some(JsonView::Array(items)) && items.contains(
                JsonView::Text(CURRENT_HIGH_DEMAND_PHRASE@),
            ) && phrases.is_prefix_of(items)
        }),
{
    let name = "failurePhrases"@;
    names_differ();
    cleaned_fields(document, name);
    let cleaned = legacy_removed(document);
    let number = JsonView::Number(u64_number(CONFIG_VERSION as u64));
    let stamped = versioned(cleaned, CONFIG_VERSION);
    field_of_put(cleaned, "version"@, number, name);
    let notice = JsonView::Text(CURRENT_HIGH_DEMAND_PHRASE@);
    let longer = JsonView::Array(phrases.push(notice));
    field_of_put(stamped, name, longer, name);
    assert(phrases.push(notice).contains(notice)) by {
        assert(phrases.push(notice)[phrases.len() as int] == notice);
    }
    let extended = phrase_added(stamped);
    interval_fields(extended, name);
    defaults_fields(interval_moved(extended), name);
    defaults_fields(extended, name);
}

/// A configuration is accepted exactly where its policy keeps the limits, its
/// prompt has words and a turn gets at least a minute; a faulty policy is named
/// before a missing prompt, and that before a short turn.
pub proof fn accepted_configurations(config: ConfigView)
    ensures
        config.problem() is None <==> {
            &&& config.retry_policy.problem() is None
            &&& exists|i: int|
                0 <= i < config.prompt.len() && !crate::text::white_space(#[trigger] config.prompt[i])
            &&& config.turn_timeout_secs >= 60
        },
        config.retry_policy.problem() matches Some(error) ==> config.problem() == Some(
            ConfigErrorView::RetryPolicy(error),
        ),
        config.retry_policy.problem() is None && config.prompt.len() == 0 ==> config.problem()
            == Some(ConfigErrorView::EmptyPrompt),
        config.retry_policy.problem() is None && !blank(config.prompt) && config.turn_timeout_secs
            < 60 ==> config.problem() == Some(ConfigErrorView::TurnTimeoutTooShort),
{
}

/// A change of any setting is noticed, and an accepted configuration is equal
/// to itself.
pub proof fn changes_of_settings_are_noticed(
    left: ConfigView,
    right: ConfigView,
    style: PathStyle,
)
    ensures
        left.equal(right, style) ==> left.prompt == right.prompt && left.failure_phrases
            == right.failure_phrases && left.gui_fallback_enabled == right.gui_fallback_enabled
            && left.full_screen_flash_enabled == right.full_screen_flash_enabled
            && left.audio_alert_enabled == right.audio_alert_enabled && left.turn_timeout_secs
            == right.turn_timeout_secs && left.retry_policy.base_delay_secs
            == right.retry_policy.base_delay_secs && left.retry_policy.max_delay_secs
            == right.retry_policy.max_delay_secs && left.retry_policy.max_empty_replies
            == right.retry_policy.max_empty_replies && left.retry_policy.wake_delay_secs
            == right.retry_policy.wake_delay_secs && left.version == right.version,
        left.equal(right, style) ==> (left.working_directory is None
            <==> right.working_directory is None),
        left.problem() is None ==> left.equal(left, style),
{
    crate::backoff::policies_are_equal_by_each_number(left.retry_policy, right.retry_policy);
    crate::backoff::policies_are_equal_by_each_number(left.retry_policy, left.retry_policy);
}

/// Only a document that cannot be read as one is set aside: one that is no
/// JSON, or whose version is unknown or no number.
pub proof fn unreadable_documents_are_set_aside(
    version: u64,
    text: Seq<char>,
    path: Seq<char>,
    fault: RetryPolicyError,
)
    ensures
        recoverable(ConfigErrorView::Json(text)),
        recoverable(ConfigErrorView::UnsupportedVersion(version)),
        recoverable(ConfigErrorView::InvalidVersion(text)),
        !recoverable(ConfigErrorView::NoConfigDirectory),
        !recoverable(ConfigErrorView::EmptyPrompt),
        !recoverable(ConfigErrorView::TurnTimeoutTooShort),
        !recoverable(ConfigErrorView::InvalidPath(path)),
        !recoverable(ConfigErrorView::Io { path, source: text }),
        !recoverable(ConfigErrorView::RetryPolicy(fault)),
{
}

/// Configurations without a version and of the first two versions are brought
/// to the second, states without one and of the first to the first; later
/// versions and versions that are no number are refused.
pub proof fn known_versions_are_accepted(document: JsonView, version: JsonView, number: u64)
    ensures
        field(document, "version"@) is None ==> migrated_config(document) is Ok && migrated_state(
            document,
        ) is Ok,
        field(document, "version"@) == Some(version) && u64_of(version) == Some(number) ==> {
            &&& migrated_config(document) is Ok <==> number <= 2
            &&& number > 2 ==> migrated_config(document) == Err::<JsonView, ConfigErrorView>(
                ConfigErrorView::UnsupportedVersion(number),
            )
            &&& migrated_state(document) is Ok <==> number <= 1
            &&& number > 1 ==> migrated_state(document) == Err::<JsonView, ConfigErrorView>(
                ConfigErrorView::UnsupportedVersion(number),
            )
            &&& number == 1 ==> migrated_state(document) == Ok::<JsonView, ConfigErrorView>(
                document,
            )
        },
        field(document, "version"@) == Some(version) && u64_of(version) is None ==> {
            &&& migrated_config(document) == Err::<JsonView, ConfigErrorView>(
                ConfigErrorView::InvalidVersion(compact(version)),
            )
            &&& migrated_state(document) == Err::<JsonView, ConfigErrorView>(
                ConfigErrorView::InvalidVersion(compact(version)),
            )
        },
{
}

/// A state without a version gets the first one and keeps everything else.
pub proof fn states_get_a_version(document: JsonView, name: Seq<char>)
    requires
        document is Object,
        field(document, "version"@) is None,
    ensures
        ({
            let after = migrated_state(document)->Ok_0;
            &&& field(after, "version"@) == Some(JsonView::Number(u64_number(1)))
            &&& name != "version"@ ==> field(after, name) == field(document, name)
        }),
{
    let number = JsonView::Number(u64_number(STATE_VERSION as u64));
    field_of_put(document, "version"@, number, "version"@);
    field_of_put(document, "version"@, number, name);
}

/// A configuration of an earlier version gets today's version; one of today
/// keeps its own, its phrases and its interval.
pub proof fn configurations_get_the_version_of_today(document: JsonView)
    requires
        document is Object,
        migrated_config(document) is Ok,
    ensures
        ({
            let after = migrated_config(document)->Ok_0;
            let before = field(document, "version"@);
            &&& before is None || u64_of(before->0) == Some(0u64) || u64_of(before->0) == Some(1u64)
                ==> field(after, "version"@) == Some(JsonView::Number(u64_number(2)))
            &&& before is Some && u64_of(before->0) == Some(2u64) ==> {
                &&& field(after, "version"@) == before
                &&& field(after, "failurePhrases"@) == field(document, "failurePhrases"@)
                &&& field(after, "retryIntervalSeconds"@) == field(
                    document,
                    "retryIntervalSeconds"@,
                )
            }
        }),
{
    migrated_version(document);
    names_differ();
    cleaned_fields(document, "failurePhrases"@);
    cleaned_fields(document, "retryIntervalSeconds"@);
}

proof fn policy_names_differ()
    ensures
        "baseDelaySecs"@ != "maxEmptyReplies"@,
{
    reveal_strlit("baseDelaySecs");
    reveal_strlit("maxEmptyReplies");
    assert("baseDelaySecs"@.len() == 13);
    assert("maxEmptyReplies"@.len() == 15);
}

proof fn cleaned_policy(
    document: JsonView,
    members: Seq<(Seq<char>, JsonView)>,
    name: Seq<char>,
) -> (cleaned: JsonView)
    requires
        field(document, "retryPolicy"@) == Some(JsonView::Object(members)),
        name != "maxAttemptsPerHour"@,
        name != "maxAttemptsPerDay"@,
    ensures
        field(phrase_added(versioned(legacy_removed(document), CONFIG_VERSION)), "retryPolicy"@)
            == Some(cleaned),
        field(legacy_removed(document), "retryPolicy"@) == Some(cleaned),
        cleaned is Object,
        field(cleaned, name) == field(JsonView::Object(members), name),
        phrase_added(versioned(legacy_removed(document), CONFIG_VERSION)) is Object,
        field(
            phrase_added(versioned(legacy_removed(document), CONFIG_VERSION)),
            "retryIntervalSeconds"@,
        ) == field(document, "retryIntervalSeconds"@),
{
    names_differ();
    let policy = JsonView::Object(members);
    let first = without(policy, "maxAttemptsPerHour"@);
    let cleaned = without(first, "maxAttemptsPerDay"@);
    cleaned_fields(document, "retryPolicy"@);
    cleaned_fields(document, "retryIntervalSeconds"@);
    field_of_without(policy, "maxAttemptsPerHour"@, name);
    field_of_without(first, "maxAttemptsPerDay"@, name);
    let bare = legacy_removed(document);
    let number = JsonView::Number(u64_number(CONFIG_VERSION as u64));
    field_of_put(bare, "version"@, number, "retryPolicy"@);
    field_of_put(bare, "version"@, number, "retryIntervalSeconds"@);
    let stamped = versioned(bare, CONFIG_VERSION);
    phrase_fields(stamped, "retryPolicy"@);
    phrase_fields(stamped, "retryIntervalSeconds"@);
    cleaned
}

proof fn raised_policy(document: JsonView, policy: JsonView, name: Seq<char>)
    requires
        document is Object,
        policy is Object,
        field(document, "retryPolicy"@) == Some(policy),
    ensures
        field(defaults_raised(document), "retryPolicy"@) matches Some(after) && field(after, name)
            == (if name == "baseDelaySecs"@ && holds_number(policy, name, 90) {
            Some(JsonView::Number(u64_number(30)))
        } else if name == "maxEmptyReplies"@ && holds_number(policy, name, 3) {
            Some(JsonView::Number(u64_number(5)))
        } else {
            field(policy, name)
        }),
{
    policy_names_differ();
    let first = default_replaced(policy, "baseDelaySecs"@, 90, 30);
    let second = default_replaced(first, "maxEmptyReplies"@, 3, 5);
    let n30 = JsonView::Number(u64_number(30));
    let n5 = JsonView::Number(u64_number(5));
    field_of_put(policy, "baseDelaySecs"@, n30, name);
    field_of_put(policy, "baseDelaySecs"@, n30, "maxEmptyReplies"@);
    field_of_put(first, "maxEmptyReplies"@, n5, name);
    field_of_put(document, "retryPolicy"@, second, "retryPolicy"@);
}

/// The retry policy of an earlier version keeps what the user chose: only a
/// first delay of 90 seconds, the default of its time, becomes 30, and only a
/// limit of 3 empty replies becomes 5.
pub proof fn earlier_policies_keep_the_choices(
    document: JsonView,
    members: Seq<(Seq<char>, JsonView)>,
    name: Seq<char>,
)
    requires
        field(document, "version"@) is None || u64_of(field(document, "version"@)->0) == Some(0u64)
            || u64_of(field(document, "version"@)->0) == Some(1u64),
        field(document, "retryIntervalSeconds"@) is None,
        field(document, "retryPolicy"@) == Some(JsonView::Object(members)),
        name != "maxAttemptsPerHour"@,
        name != "maxAttemptsPerDay"@,
    ensures
        ({
            let before = field(JsonView::Object(members), name);
            let policy = field(migrated_config(document)->Ok_0, "retryPolicy"@);
            let was = |number: u64| before is Some && u64_of(before->0) == Some(number);
            &&& migrated_config(document) is Ok
            &&& policy is Some
            &&& name == "baseDelaySecs"@ && was(90) ==> field(policy->0, name) == Some(
                JsonView::Number(u64_number(30)),
            )
            &&& name == "baseDelaySecs"@ && !was(90) ==> field(policy->0, name) == before
            &&& name == "maxEmptyReplies"@ && was(3) ==> field(policy->0, name) == Some(
                JsonView::Number(u64_number(5)),
            )
            &&& name == "maxEmptyReplies"@ && !was(3) ==> field(policy->0, name) == before
            &&& name != "baseDelaySecs"@ && name != "maxEmptyReplies"@ ==> field(policy->0, name)
                == before
        }),
{
    policy_names_differ();
    let cleaned = cleaned_policy(document, members, name);
    let extended = phrase_added(versioned(legacy_removed(document), CONFIG_VERSION));
    raised_policy(extended, cleaned, name);
    assert(interval_moved(extended) == extended);
}

/// The retry policy of today's version keeps every setting but the limits on
/// the number of attempts.
pub proof fn policies_of_today_stay(
    document: JsonView,
    members: Seq<(Seq<char>, JsonView)>,
    name: Seq<char>,
)
    requires
        field(document, "version"@) is Some,
        u64_of(field(document, "version"@)->0) == Some(2u64),
        field(document, "retryPolicy"@) == Some(JsonView::Object(members)),
        name != "maxAttemptsPerHour"@,
        name != "maxAttemptsPerDay"@,
    ensures
        migrated_config(document) is Ok,
        field(migrated_config(document)->Ok_0, "retryPolicy"@) matches Some(policy) && field(
            policy,
            name,
        ) == field(JsonView::Object(members), name),
{
    let cleaned = cleaned_policy(document, members, name);
}

/// The interval of the earliest version becomes the first delay of the policy,
/// raised to fifteen seconds where it is shorter, and is itself dropped; one
/// of 90 seconds, the default of its time, becomes 30.
pub proof fn the_earliest_interval_becomes_the_first_delay(
    document: JsonView,
    members: Seq<(Seq<char>, JsonView)>,
    interval: JsonView,
    secs: u64,
)
    requires
        field(document, "version"@) is None || u64_of(field(document, "version"@)->0) == Some(0u64),
        field(document, "retryIntervalSeconds"@) == Some(interval),
        u64_of(interval) == Some(secs),
        field(document, "retryPolicy"@) == Some(JsonView::Object(members)),
        secs >= 15 ==> number_as_u64(u64_number(secs)) == Some(secs),
        number_as_u64(u64_number(15)) == Some(15u64),
    ensures
        ({
            let after = migrated_config(document)->Ok_0;
            &&& migrated_config(document) is Ok
            &&& field(after, "retryIntervalSeconds"@) is None
            &&& field(after, "retryPolicy"@) is Some
            &&& secs < 15 ==> field(field(after, "retryPolicy"@)->0, "baseDelaySecs"@) == Some(
                JsonView::Number(u64_number(15)),
            )
            &&& secs >= 15 && secs != 90 ==> field(
                field(after, "retryPolicy"@)->0,
                "baseDelaySecs"@,
            ) == Some(JsonView::Number(u64_number(secs)))
            &&& secs == 90 ==> field(field(after, "retryPolicy"@)->0, "baseDelaySecs"@) == Some(
                JsonView::Number(u64_number(30)),
            )
        }),
{
    names_differ();
    policy_names_differ();
    let cleaned = cleaned_policy(document, members, "baseDelaySecs"@);
    let extended = phrase_added(versioned(legacy_removed(document), CONFIG_VERSION));
    let rest = without(extended, "retryIntervalSeconds"@);
    field_of_without(extended, "retryIntervalSeconds"@, "retryPolicy"@);
    field_of_without(extended, "retryIntervalSeconds"@, "retryIntervalSeconds"@);
    let kept: u64 = if secs < 15 {
        15
    } else {
        secs
    };
    let number = JsonView::Number(u64_number(kept));
    let moved = put(cleaned, "baseDelaySecs"@, number);
    field_of_put(cleaned, "baseDelaySecs"@, number, "baseDelaySecs"@);
    field_of_put(rest, "retryPolicy"@, moved, "retryPolicy"@);
    field_of_put(rest, "retryPolicy"@, moved, "retryIntervalSeconds"@);
    assert(interval_moved(extended) == put(rest, "retryPolicy"@, moved));
    raised_policy(interval_moved(extended), moved, "baseDelaySecs"@);
    defaults_fields(interval_moved(extended), "retryIntervalSeconds"@);
}

/// A list of phrases that already holds the notice of high demand stays as it
/// is, and another gets it as its last entry.
pub proof fn the_notice_is_added_once(document: JsonView, phrases: Seq<JsonView>)
    requires
        field(document, "version"@) is None || u64_of(field(document, "version"@)->0) == Some(0u64)
            || u64_of(field(document, "version"@)->0) == Some(1u64),
        field(document, "failurePhrases"@) == Some(JsonView::Array(phrases)),
    ensures
        ({
            let notice = JsonView::Text(
                "We're currently experiencing high demand, which may cause temporary errors."@,
            );
            let after = field(migrated_config(document)->Ok_0, "failurePhrases"@);
            &&& phrases.contains(notice) ==> after == Some(JsonView::Array(phrases))
            &&& !phrases.contains(notice) ==> after == Some(JsonView::Array(phrases.push(notice)))
        }),
{
    let name = "failurePhrases"@;
    names_differ();
    cleaned_fields(document, name);
    let cleaned = legacy_removed(document);
    let number = JsonView::Number(u64_number(CONFIG_VERSION as u64));
    let stamped = versioned(cleaned, CONFIG_VERSION);
    field_of_put(cleaned, "version"@, number, name);
    let notice = JsonView::Text(CURRENT_HIGH_DEMAND_PHRASE@);
    field_of_put(stamped, name, JsonView::Array(phrases.push(notice)), name);
    let extended = phrase_added(stamped);
    interval_fields(extended, name);
    defaults_fields(interval_moved(extended), name);
    defaults_fields(extended, name);
}

/// A fresh installation has no task, compares replies with three phrases, shows
/// alerts, does not fall back by itself and gives a turn half an hour.
pub proof fn fresh_installations()
    ensures
        default_config().version == 2,
        default_config().prompt.len() == 0,
        default_config().working_directory is None,
        default_config().codex_path == "codex"@,
        default_config().failure_phrases.len() == 3,
        !default_config().gui_fallback_enabled,
        default_config().full_screen_flash_enabled,
        default_config().audio_alert_enabled,
        default_config().turn_timeout_secs == 1800,
        default_config().retry_policy.base_delay_secs == 30,
        default_config().retry_policy.max_delay_secs == 600,
        default_config().retry_policy.max_empty_replies == 5,
        default_config().retry_policy.wake_delay_secs == 60,
        default_config().problem() == Some(ConfigErrorView::EmptyPrompt),
        default_state().phase == QueuePhase::Idle,
        default_state().active_thread_id is None,
        default_state().active_turn_id is None,
        !default_state().submission_uncertain,
        default_state().attempt_count == 0,
        default_state().next_attempt_at is None,
        default_state().attempts.len() == 0,
        default_state().prompt_digest is None,
{
    crate::backoff::default_policy_is_valid();
}

/// Where the files of the queue are.
#[derive(Clone, Debug)]
pub struct ConfigStore {
    pub directory: String,
    pub style: PathStyle,
}

impl ConfigStore {
    /// The store in a directory.
    pub fn in_directory(directory: String, style: PathStyle) -> (r: ConfigStore)
        ensures
            r.directory@ == directory@,
            r.style == style,
    {
        ConfigStore { directory, style }
    }

    /// The directory of the store.
    pub fn directory(&self) -> (r: &String)
        ensures
            r@ == self.directory@,
    {
        &self.directory
    }

    /// The file that marks the running instance.
    pub fn lock_path(&self) -> (r: String)
        ensures
            r@ == in_folder(self.directory@, "longwatch.lock"@, self.style),
    {
        join_path(self.directory.as_str(), "longwatch.lock", self.style)
    }

    /// The file of the configuration.
    pub fn config_path(&self) -> (r: String)
        ensures
            r@ == in_folder(self.directory@, "config.json"@, self.style),
    {
        join_path(self.directory.as_str(), "config.json", self.style)
    }

    /// The file of the state.
    pub fn state_path(&self) -> (r: String)
        ensures
            r@ == in_folder(self.directory@, "state.json"@, self.style),
    {
        join_path(self.directory.as_str(), "state.json", self.style)
    }
}

/// Where to look for the files when the program starts.
#[derive(Clone, Copy, Debug, PartialEq, Eq, Structural)]
pub enum DirectoryChoice {
    /// Use the directory of today.
    Current,
    /// Move the directory of an earlier name to the one of today; where that
    /// fails, use it where it is.
    Legacy(usize),
}

/// Chooses the directory: the one of today where it exists, else the first of
/// the earlier ones that exists, else the one of today.
pub fn choose_directory(current_exists: bool, legacy_exists: &Vec<bool>) -> (r: DirectoryChoice)
    ensures
        match r {
            DirectoryChoice::Current => current_exists || !legacy_exists@.contains(true),
            DirectoryChoice::Legacy(index) => {
                &&& !current_exists
                &&& index < legacy_exists@.len()
                &&& legacy_exists@[index as int]
                &&& forall|k: int| 0 <= k < index ==> !legacy_exists@[k]
            },
        },
{
    if current_exists {
        return DirectoryChoice::Current;
    }
    let mut i: usize = 0;
    while i < legacy_exists.len()
        invariant
            i <= legacy_exists@.len(),
            !current_exists,
            forall|k: int| 0 <= k < i ==> !legacy_exists@[k],
        decreases legacy_exists.len() - i,
    {
        if legacy_exists[i] {
            return DirectoryChoice::Legacy(i);
        }
        i = i + 1;
    }
    DirectoryChoice::Current
}

/// What the user reads of a faulty configuration or an unreadable file.
pub proof fn faults_of_a_configuration_are_told(
    version: u64,
    text: Seq<char>,
    path: Seq<char>,
    fault: RetryPolicyError,
)
    ensures
        config_error_text(ConfigErrorView::NoConfigDirectory) == "操作系统未提供可用的标准配置目录"@,
        config_error_text(ConfigErrorView::EmptyPrompt) == "请先输入任务内容再开始排队"@,
        config_error_text(ConfigErrorView::TurnTimeoutTooShort) == "单回合超时时间不能少于 60 秒"@,
        config_error_text(ConfigErrorView::UnsupportedVersion(version)) == "不支持配置文件版本 "@
            + decimal(version as nat),
        config_error_text(ConfigErrorView::InvalidVersion(text)) == "配置文件版本字段无效："@ + text,
        config_error_text(ConfigErrorView::InvalidPath(path)) == "配置路径无效："@ + path,
        config_error_text(ConfigErrorView::Io { path, source: text }) == "读写 "@ + path
            + " 失败："@ + text,
        config_error_text(ConfigErrorView::Json(text)) == "JSON 内容无效："@ + text,
        config_error_text(ConfigErrorView::RetryPolicy(fault)) == "重试策略无效："@ + fault.text(),
{
}

} // verus!
