use codex_longwatch::backoff::{RetryPolicy, RetryPolicyError, ABSOLUTE_MIN_INTERVAL_SECS};
use codex_longwatch::config::{
    backup_name, choose_directory, is_recoverable_document_error, migrate_config,
    migrate_state, prompt_digest, read_config_document, read_state_document, unreadable_document, ConfigError,
    ConfigStore, DirectoryChoice, PersistedQueueState, QueueConfig, CONFIG_VERSION,
    CURRENT_HIGH_DEMAND_PHRASE, STATE_VERSION,
};
use codex_longwatch::json::{parse, Json};
use codex_longwatch::paths::PathStyle;

fn json(text: &str) -> Json {
    parse(text.as_bytes()).unwrap()
}

fn migrated(text: &str) -> serde_json::Value {
    migrate_config(&json(text)).unwrap().to_value()
}

#[test]
fn completion_alerts_are_enabled_by_default() {
    let config = QueueConfig::default();
    assert!(config.full_screen_flash_enabled);
    assert!(config.audio_alert_enabled);
}

#[test]
fn migrates_legacy_interval_and_clamps_it() {
    let migrated = migrated(r#"{"prompt": "real task", "retryIntervalSeconds": 12}"#);
    assert_eq!(migrated["version"].as_u64(), Some(u64::from(CONFIG_VERSION)));
    assert_eq!(
        migrated["retryPolicy"]["baseDelaySecs"].as_u64(),
        Some(ABSOLUTE_MIN_INTERVAL_SECS)
    );
}

#[test]
fn v0_default_ninety_second_delay_runs_through_the_full_migration_chain() {
    let migrated = migrated(r#"{"prompt": "real task", "retryIntervalSeconds": 90}"#);

    assert_eq!(migrated["retryPolicy"]["baseDelaySecs"].as_u64(), Some(30));
}

#[test]
fn invalid_version_type_is_rejected_instead_of_treated_as_v0() {
    assert!(matches!(
        migrate_config(&json(r#"{"version": "2", "prompt": "task"}"#)),
        Err(ConfigError::InvalidVersion(_))
    ));
    match migrate_config(&json(r#"{"version": "2", "prompt": "task"}"#)) {
        Err(error) => assert_eq!(error.message(), "配置文件版本字段无效：\"2\""),
        Ok(_) => unreachable!(),
    }
}

#[test]
fn migrates_v1_and_discards_the_legacy_window_visibility_setting() {
    let migrated = migrated(
        r#"{
            "version": 1,
            "prompt": "real task",
            "hideAppServerWindow": false,
            "failurePhrases": ["Server overloaded; retry later."],
            "retryPolicy": {"baseDelaySecs": 90}
        }"#,
    );

    assert_eq!(migrated["version"].as_u64(), Some(u64::from(CONFIG_VERSION)));
    assert_eq!(migrated["retryPolicy"]["baseDelaySecs"].as_u64(), Some(30));
    assert!(migrated["retryPolicy"].get("maxEmptyReplies").is_none());
    assert_eq!(QueueConfig::default().retry_policy.max_empty_replies, 5);
    assert!(migrated.get("fullScreenFlashEnabled").is_none());
    assert!(migrated.get("audioAlertEnabled").is_none());
    assert!(QueueConfig::default().full_screen_flash_enabled);
    assert!(QueueConfig::default().audio_alert_enabled);
    assert!(migrated["failurePhrases"]
        .as_array()
        .unwrap()
        .iter()
        .any(|phrase| phrase == CURRENT_HIGH_DEMAND_PHRASE));
    assert!(migrated.get("hideAppServerWindow").is_none());
}

#[test]
fn migration_preserves_explicitly_disabled_completion_alerts() {
    let migrated = migrated(
        r#"{
            "version": 2,
            "prompt": "real task",
            "fullScreenFlashEnabled": false,
            "audioAlertEnabled": false
        }"#,
    );

    assert_eq!(migrated["fullScreenFlashEnabled"].as_bool(), Some(false));
    assert_eq!(migrated["audioAlertEnabled"].as_bool(), Some(false));
}

#[test]
fn migration_removes_legacy_attempt_limits() {
    let serialized = migrated(
        r#"{
            "version": 2,
            "prompt": "real task",
            "retryPolicy": {
                "maxAttemptsPerHour": 8,
                "maxAttemptsPerDay": 50
            }
        }"#,
    );
    let policy = serialized.get("retryPolicy").unwrap();

    assert!(policy.get("maxAttemptsPerHour").is_none());
    assert!(policy.get("maxAttemptsPerDay").is_none());
}

#[test]
fn migrating_twice_changes_nothing_more() {
    for text in [
        r#"{"retryIntervalSeconds": 40, "failurePhrases": ["x", 3], "extra": 1.5}"#,
        r#"{"version": 1, "failurePhrases": [], "retryPolicy": {"maxEmptyReplies": 3}}"#,
        r#"{"version": 2, "retryPolicy": {"baseDelaySecs": 90, "maxAttemptsPerDay": 1}}"#,
        r#"{"retryIntervalSeconds": "soon"}"#,
        "[1, 2]",
    ] {
        let once = migrate_config(&json(text)).unwrap();
        let twice = migrate_config(&once).unwrap();
        assert_eq!(once.to_value(), twice.to_value());
    }
    let kept = migrated(r#"{"version": 2, "retryPolicy": {"baseDelaySecs": 90}}"#);
    assert_eq!(kept["retryPolicy"]["baseDelaySecs"].as_u64(), Some(90));
    let raised = migrated(r#"{"version": 1, "retryPolicy": {"maxEmptyReplies": 3}}"#);
    assert_eq!(raised["retryPolicy"]["maxEmptyReplies"].as_u64(), Some(5));
    let odd = migrated(r#"{"retryIntervalSeconds": "soon", "retryPolicy": 7}"#);
    assert_eq!(odd["retryPolicy"].as_u64(), Some(7));
    assert!(odd.get("retryIntervalSeconds").is_none());
}

#[test]
fn unsupported_versions_are_refused() {
    assert!(matches!(
        migrate_config(&json(r#"{"version": 3}"#)),
        Err(ConfigError::UnsupportedVersion(3))
    ));
    assert!(matches!(
        migrate_state(&json(r#"{"version": 2}"#)),
        Err(ConfigError::UnsupportedVersion(2))
    ));
    let state = migrate_state(&json(r#"{"phase": "waiting"}"#)).unwrap().to_value();
    assert_eq!(state["version"].as_u64(), Some(u64::from(STATE_VERSION)));
    assert_eq!(state["phase"].as_str(), Some("waiting"));
}

#[test]
fn damaged_documents_are_recoverable() {
    let error = read_config_document(b"{not-json").unwrap_err();
    assert!(matches!(error, ConfigError::Json(_)));
    assert!(is_recoverable_document_error(&error));
    assert!(error.message().starts_with("JSON 内容无效："));
    assert!(is_recoverable_document_error(&read_state_document(b"").unwrap_err()));
    assert!(!is_recoverable_document_error(&ConfigError::EmptyPrompt));
    assert!(is_recoverable_document_error(&unreadable_document(true, "/c", "is a directory")));
    assert!(!is_recoverable_document_error(&unreadable_document(false, "/c", "denied")));
    assert_eq!(unreadable_document(false, "/c", "denied").message(), "读写 /c 失败：denied");
    assert!(!is_recoverable_document_error(&ConfigError::Io {
        path: "a".into(),
        source: "b".into(),
    }));
    assert_eq!(backup_name("config.json", 1_785_200_400_123), "config.json.corrupt-1785200400123");
    assert!(read_config_document(br#"{"prompt": "x"}"#).is_ok());
}

#[test]
fn prompt_digest_is_sha_256_in_hexadecimal() {
    assert_eq!(
        prompt_digest("abc"),
        "ba7816bf8f01cfea414140de5dae2223b00361a396177a9cb410ff61f20015ad"
    );
    assert_eq!(
        prompt_digest(""),
        "e3b0c44298fc1c149afbf4c8996fb92427ae41e4649b934ca495991b7852b855"
    );
}

#[test]
fn validation_names_the_first_problem() {
    let mut config = QueueConfig {
        prompt: "task".into(),
        ..QueueConfig::default()
    };
    assert!(config.validate().is_ok());
    config.turn_timeout_secs = 59;
    assert!(matches!(config.validate(), Err(ConfigError::TurnTimeoutTooShort)));
    config.prompt = " \u{3000}".into();
    assert!(matches!(config.validate(), Err(ConfigError::EmptyPrompt)));
    config.retry_policy = RetryPolicy { base_delay_secs: 1, ..RetryPolicy::default() };
    let error = config.validate().unwrap_err();
    assert!(matches!(
        error,
        ConfigError::RetryPolicy(RetryPolicyError::IntervalTooShort(1))
    ));
    assert_eq!(error.message(), "重试策略无效：重试间隔 1 秒低于 15 秒安全下限");
}

#[test]
fn copies_are_equal_and_changes_are_noticed() {
    let config = QueueConfig::default();
    assert!(config.copy().equals(&config, PathStyle::Unix));
    let mut changed = config.copy();
    changed.failure_phrases.push("x".into());
    assert!(!changed.equals(&config, PathStyle::Unix));
    let mut moved = config.copy();
    moved.working_directory = Some("/tmp/".into());
    assert!(!moved.equals(&config, PathStyle::Unix));
    let mut same = moved.copy();
    same.working_directory = Some("//tmp/.".into());
    assert!(same.equals(&moved, PathStyle::Unix));
}

#[test]
fn error_texts_are_those_of_the_user_interface() {
    assert_eq!(ConfigError::NoConfigDirectory.message(), "操作系统未提供可用的标准配置目录");
    assert_eq!(ConfigError::InvalidPath("/x".into()).message(), "配置路径无效：/x");
    assert_eq!(
        ConfigError::Io { path: "/x".into(), source: "denied".into() }.message(),
        "读写 /x 失败：denied"
    );
    assert_eq!(ConfigError::UnsupportedVersion(9).message(), "不支持配置文件版本 9");
}

#[test]
fn paths_of_the_store() {
    let store = ConfigStore::in_directory("/home/me/.config/Longwatch".into(), PathStyle::Unix);
    assert_eq!(store.directory(), "/home/me/.config/Longwatch");
    assert_eq!(store.lock_path(), "/home/me/.config/Longwatch/longwatch.lock");
    assert_eq!(store.config_path(), "/home/me/.config/Longwatch/config.json");
    assert_eq!(store.state_path(), "/home/me/.config/Longwatch/state.json");
    assert_eq!(choose_directory(true, &vec![true]), DirectoryChoice::Current);
    assert_eq!(choose_directory(false, &vec![false, true]), DirectoryChoice::Legacy(1));
    assert_eq!(choose_directory(false, &vec![false]), DirectoryChoice::Current);
}

#[test]
fn a_fresh_state_is_idle() {
    let state = PersistedQueueState::default();
    assert_eq!(state.status_message, "等待任务");
    assert!(state.prompt_digest.is_none());
}
