use codex_longwatch::classifier::{
    classify_error_notification, classify_turn_completion, normalize_for_match,
    starts_with_failure_phrase, CompletedStatus, TurnDecision, TurnError,
};
use codex_longwatch::config::CURRENT_HIGH_DEMAND_PHRASE;
use codex_longwatch::json::{parse, Json};

fn phrases() -> Vec<String> {
    vec!["Server overloaded; retry later.".into()]
}

fn json(text: &str) -> Json {
    parse(text.as_bytes()).unwrap()
}

#[test]
fn phrase_matching_normalizes_only_the_reply_prefix() {
    assert!(starts_with_failure_phrase(
        "\u{feff}  SERVER   overloaded; retry later. Details follow.",
        &phrases()
    ));
    assert!(!starts_with_failure_phrase(
        "A normal answer mentioning Server overloaded; retry later.",
        &phrases()
    ));
}

#[test]
fn repeated_current_high_demand_notice_is_retryable() {
    let phrase = "We're currently experiencing high demand, which may cause temporary errors.";
    let repeated = format!("{phrase}{phrase}");

    assert!(starts_with_failure_phrase(&repeated, &vec![phrase.into()]));
}

#[test]
fn current_high_demand_notice_retries_quietly_after_five_attempts() {
    let phrase = "We're currently experiencing high demand, which may cause temporary errors.";

    assert!(matches!(
        classify_turn_completion(
            CompletedStatus::Completed,
            phrase,
            None,
            &vec![phrase.into()],
            5,
            5,
        ),
        TurnDecision::RetryImmediatelyQuiet(_)
    ));
}

#[test]
fn current_high_demand_error_notification_is_quiet_whether_codex_retries() {
    let error = TurnError {
        message: CURRENT_HIGH_DEMAND_PHRASE.into(),
        ..TurnError::default()
    };
    assert!(matches!(
        classify_error_notification(&error, true, &phrases()),
        TurnDecision::WaitForInternalRetryQuiet(_)
    ));
    assert!(matches!(
        classify_error_notification(&error, false, &phrases()),
        TurnDecision::RetryImmediatelyQuiet(_)
    ));
}

#[test]
fn fatal_error_still_wins_over_current_high_demand_notice() {
    let error = TurnError {
        message: format!("{CURRENT_HIGH_DEMAND_PHRASE} unauthorized"),
        codex_error_info: Some(Json::text("unauthorized")),
        ..TurnError::default()
    };
    assert!(matches!(
        classify_error_notification(&error, false, &phrases()),
        TurnDecision::Pause(_)
    ));
    assert!(matches!(
        classify_error_notification(&error, true, &phrases()),
        TurnDecision::Pause(_)
    ));
}

#[test]
fn internal_retry_does_not_schedule_an_extra_turn() {
    let error = TurnError {
        message: "temporary disconnect".into(),
        codex_error_info: Some(json(
            r#"{"responseStreamDisconnected": { "httpStatusCode": 503 }}"#,
        )),
        ..TurnError::default()
    };
    assert!(matches!(
        classify_error_notification(&error, true, &phrases()),
        TurnDecision::WaitForInternalRetry(_)
    ));
}

#[test]
fn exhausted_codex_internal_retries_start_a_new_external_retry() {
    let error = TurnError {
        message: "response retry limit reached".into(),
        codex_error_info: Some(json(
            r#"{"responseTooManyFailedAttempts": { "httpStatusCode": 503 }}"#,
        )),
        ..TurnError::default()
    };

    assert!(matches!(
        classify_error_notification(&error, false, &phrases()),
        TurnDecision::RetryImmediately(_)
    ));
    assert_eq!(
        classify_error_notification(&error, false, &phrases()),
        TurnDecision::RetryImmediately("Codex 内部 5 次重试已耗尽".into())
    );
}

#[test]
fn transient_and_fatal_errors_are_separated() {
    let overloaded = TurnError {
        message: "busy".into(),
        codex_error_info: Some(Json::text("serverOverloaded")),
        ..TurnError::default()
    };
    assert!(matches!(
        classify_error_notification(&overloaded, false, &phrases()),
        TurnDecision::Retryable(_)
    ));

    let unauthorized = TurnError {
        message: "please sign in".into(),
        codex_error_info: Some(Json::text("unauthorized")),
        ..TurnError::default()
    };
    assert!(matches!(
        classify_error_notification(&unauthorized, false, &phrases()),
        TurnDecision::Pause(_)
    ));

    let textual_gateway_error = TurnError {
        message: "request failed with HTTP status 503 Service Unavailable".into(),
        ..TurnError::default()
    };
    assert!(matches!(
        classify_error_notification(&textual_gateway_error, false, &phrases()),
        TurnDecision::Retryable(_)
    ));
    assert_eq!(
        classify_error_notification(&textual_gateway_error, false, &phrases()),
        TurnDecision::Retryable("临时 HTTP 状态码 503".into())
    );
}

#[test]
fn fatal_quota_error_wins_over_http_429_and_user_phrases() {
    let error = TurnError {
        message: "usage limit exceeded; Server overloaded; retry later.".into(),
        codex_error_info: Some(json(r#"{"usageLimitExceeded": { "httpStatusCode": 429 }}"#)),
        ..TurnError::default()
    };

    assert!(matches!(
        classify_error_notification(&error, false, &phrases()),
        TurnDecision::Pause(_)
    ));
}

#[test]
fn textual_response_stream_disconnect_keeps_retrying() {
    let disconnected = TurnError {
        message: "stream disconnected before completion: error sending request for url (https://anyrouter.top/v1/responses)".into(),
        ..TurnError::default()
    };

    assert!(matches!(
        classify_error_notification(&disconnected, false, &phrases()),
        TurnDecision::Retryable(reason)
            if reason.contains("stream disconnected before completion")
    ));
}

#[test]
fn empty_reply_pauses_after_configured_limit() {
    assert!(matches!(
        classify_turn_completion(CompletedStatus::Completed, "", None, &phrases(), 4, 5),
        TurnDecision::Retryable(_)
    ));
    assert!(matches!(
        classify_turn_completion(CompletedStatus::Completed, "", None, &phrases(), 5, 5),
        TurnDecision::Pause(_)
    ));
    assert_eq!(
        classify_turn_completion(CompletedStatus::Completed, " \n", None, &phrases(), 4, 5),
        TurnDecision::Retryable("Codex 返回空回复（5/5）".into())
    );
}

#[test]
fn normalizing_joins_words_and_lowers_them() {
    assert_eq!(normalize_for_match("\u{feff}\u{200b} Ä  B\n"), "ä b");
    assert_eq!(normalize_for_match("a \u{feff}b"), "a \u{feff}b");
    assert_eq!(normalize_for_match(" A\t~Z[\n"), "a ~z[");
    for text in ["  Server\tOVERLOADED ;\u{3000}retry", "", " \n", "one"] {
        let once = normalize_for_match(text);
        assert_eq!(normalize_for_match(&once), once);
    }
}

#[test]
fn a_status_too_large_for_http_hides_the_rest() {
    let info = json(r#"{"httpStatusCode": 70000, "inner": {"httpStatusCode": 503}}"#);
    let error = TurnError {
        message: "odd".into(),
        codex_error_info: Some(info),
        ..TurnError::default()
    };
    assert_eq!(
        classify_error_notification(&error, false, &phrases()),
        TurnDecision::Pause("odd".into())
    );
    let nested = TurnError {
        message: "odd".into(),
        codex_error_info: Some(json(r#"{"a": [1, {"b": {"httpStatusCode": 502}}]}"#)),
        ..TurnError::default()
    };
    assert_eq!(
        classify_error_notification(&nested, false, &phrases()),
        TurnDecision::Retryable("临时 HTTP 状态码 502".into())
    );
}

#[test]
fn reasons_are_cut_and_never_empty() {
    let long = TurnError { message: "字".repeat(300), ..TurnError::default() };
    match classify_error_notification(&long, false, &phrases()) {
        TurnDecision::Pause(reason) => assert_eq!(reason.chars().count(), 240),
        other => panic!("{other:?}"),
    }
    assert_eq!(
        classify_error_notification(&TurnError::default(), false, &phrases()),
        TurnDecision::Pause("Codex 返回了未说明原因的错误".into())
    );
}

#[test]
fn ends_of_turns_are_told_apart() {
    let decide = |status, reply| classify_turn_completion(status, reply, None, &phrases(), 0, 5);
    assert_eq!(decide(CompletedStatus::Completed, "done"), TurnDecision::Success);
    assert_eq!(
        decide(CompletedStatus::Completed, "server OVERLOADED; retry later. x"),
        TurnDecision::Retryable("检测到 Codex 繁忙提示".into())
    );
    assert_eq!(
        decide(CompletedStatus::Interrupted, "x"),
        TurnDecision::Retryable("当前任务已中断".into())
    );
    assert_eq!(
        decide(CompletedStatus::Failed, "x"),
        TurnDecision::Pause("任务失败，但 Codex 未提供错误信息".into())
    );
    assert_eq!(
        decide(CompletedStatus::InProgress, "x"),
        TurnDecision::WaitForInternalRetry("Codex 仍在处理当前任务".into())
    );
}
