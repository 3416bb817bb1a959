use codex_longwatch::app_server::{
    exit_event, initialize_params, interrupt_params, message_line, parse_completed_agent_message,
    parse_event, parse_rpc_error, parse_started_turn, parse_thread_session, parse_turn, read_error,
    resume_thread_params, spawn_failure, start_thread_params, start_turn_params,
    AppServerTransport, ConnectPlan, Dispatch, RequestId,
};
use codex_longwatch::json::{parse, Json};
use codex_longwatch::transport::{
    TransportError, TransportEvent, TransportKind, TurnStatus,
};

fn json(text: &str) -> Json {
    parse(text.as_bytes()).unwrap()
}

fn connected() -> AppServerTransport {
    let mut session = AppServerTransport::new("codex".into());
    session.spawned();
    session
}

#[test]
fn extracts_only_agent_messages_from_a_turn() {
    let turn = json(
        r#"{
            "id": "t1",
            "status": "completed",
            "items": [
                {"type": "reasoning", "id": "r", "summary": []},
                {"type": "agentMessage", "id": "a1", "text": "first"},
                {"type": "agentMessage", "id": "a2", "text": "final", "phase": "final_answer"},
                {"type": "agentMessage", "id": "a3", "text": "progress", "phase": "commentary"}
            ]
        }"#,
    );
    let parsed = parse_turn(&turn).unwrap();
    assert_eq!(parsed.final_message, "final");
}

#[test]
fn completed_agent_item_is_authoritative_but_commentary_is_not() {
    let final_item = parse_completed_agent_message(&json(
        r#"{
            "threadId": "th",
            "turnId": "tu",
            "item": {
                "id": "item-1",
                "type": "agentMessage",
                "text": "final answer",
                "phase": "final_answer"
            }
        }"#,
    ))
    .unwrap();
    assert_eq!(
        (final_item.thread_id.as_str(), final_item.turn_id.as_str()),
        ("th", "tu")
    );
    assert_eq!(final_item.text, "final answer");
    assert!(final_item.explicit_final);

    assert!(parse_completed_agent_message(&json(
        r#"{
            "threadId": "th",
            "turnId": "tu",
            "item": {
                "id": "item-2",
                "type": "agentMessage",
                "text": "still working",
                "phase": "commentary"
            }
        }"#,
    ))
    .is_none());
}

#[test]
fn decodes_internal_retry_error() {
    let event = parse_event(
        "error",
        &json(
            r#"{
                "threadId": "th",
                "turnId": "tu",
                "willRetry": true,
                "error": {"message": "busy", "codexErrorInfo": "serverOverloaded"}
            }"#,
        ),
    );
    assert!(matches!(
        event,
        Some(TransportEvent::Error {
            will_retry: true,
            ..
        })
    ));
}

#[test]
fn preserves_string_and_integer_json_rpc_ids() {
    let string_id = RequestId::from_value(&json("\"server-request\"")).unwrap();
    assert_eq!(
        string_id.to_value().to_value(),
        serde_json::Value::from("server-request")
    );
    let integer_id = RequestId::from_value(&json("-7")).unwrap();
    assert_eq!(integer_id.to_value().to_value(), serde_json::Value::from(-7));
    assert!(RequestId::from_value(&Json::Null).is_none());
    assert!(RequestId::from_value(&json("1.5")).is_none());
}

#[test]
fn preserves_structured_json_rpc_errors_for_runtime_classification() {
    let error = parse_rpc_error(&json(
        r#"{
            "code": -32000,
            "message": "Server overloaded; retry later.",
            "data": {
                "codexErrorInfo": "serverOverloaded",
                "httpStatusCode": 503
            }
        }"#,
    ))
    .unwrap();

    assert!(matches!(
        error,
        TransportError::Rpc {
            code: -32000,
            message,
            data: Some(_),
        } if message.contains("overloaded")
    ));
}

#[test]
fn a_server_request_is_always_rejected_with_its_own_id() {
    let mut session = connected();
    let line = r#"{"id":"approval-1","method":"item/commandExecution/requestApproval","params":{}}"#;
    match session.handle_line(line) {
        Dispatch::Rejected { response, diagnostic } => {
            let response = response.to_value();
            assert_eq!(response["id"].as_str(), Some("approval-1"));
            assert_eq!(response["error"]["code"].as_i64(), Some(-32601));
            assert!(response.get("result").is_none());
            assert!(diagnostic.contains("item/commandExecution/requestApproval"));
        }
        other => panic!("{other:?}"),
    }
}

#[test]
fn completed_item_supplies_the_final_reply_when_turn_items_are_empty() {
    let mut session = connected();
    let item = r#"{"method":"item/completed","params":{"threadId":"th","turnId":"tu","item":{"type":"agentMessage","id":"i","text":"authoritative","phase":"final_answer"}}}"#;
    assert!(matches!(session.handle_line(item), Dispatch::Nothing));
    let done = r#"{"method":"turn/completed","params":{"threadId":"th","turn":{"id":"tu","status":"completed","items":[],"error":null}}}"#;
    match session.handle_line(done) {
        Dispatch::Event {
            event: TransportEvent::TurnCompleted { turn, .. },
            lossy,
        } => {
            assert_eq!(turn.final_message, "authoritative");
            assert!(!lossy);
        }
        other => panic!("{other:?}"),
    }
    match session.handle_line(done) {
        Dispatch::Event { event: TransportEvent::TurnCompleted { turn, .. }, .. } => {
            assert_eq!(turn.final_message, "");
        }
        other => panic!("{other:?}"),
    }
}

#[test]
fn requests_are_numbered_and_answered_once() {
    let mut session = AppServerTransport::new("codex".into());
    assert!(matches!(
        session.begin_request("x", Json::Null),
        Err(TransportError::NotConnected)
    ));
    session.spawned();
    let (id, message) = session.begin_request("initialize", initialize_params("1.0")).unwrap();
    assert_eq!(id, 1);
    let line = message_line(&message).unwrap();
    assert_eq!(line.last(), Some(&b'\n'));
    let value = parse(&line).unwrap().to_value();
    assert_eq!(value["id"].as_i64(), Some(1));
    assert_eq!(value["method"].as_str(), Some("initialize"));
    assert_eq!(value["params"]["clientInfo"]["name"].as_str(), Some("codex-longwatch"));
    assert_eq!(value["params"]["clientInfo"]["version"].as_str(), Some("1.0"));
    let (id, _) = session.begin_request("y", Json::Null).unwrap();
    assert_eq!(id, 2);
    match session.handle_line(r#"{"id":1,"result":{"userAgent":"codex/9"}}"#) {
        Dispatch::Response { id, answer: Ok(result) } => {
            assert!(session.finish_request(&id));
            assert!(!session.finish_request(&id));
            let message = session.introduced(&result).to_value();
            assert_eq!(message["method"].as_str(), Some("initialized"));
            assert!(message.get("id").is_none());
            assert_eq!(session.status().server_agent.as_deref(), Some("codex/9"));
        }
        other => panic!("{other:?}"),
    }
    match session.handle_line(r#"{"id":2,"error":{"code":-1,"message":"no"}}"#) {
        Dispatch::Response { answer: Err(TransportError::Rpc { code: -1, .. }), .. } => {}
        other => panic!("{other:?}"),
    }
    session.shut_down();
    assert!(!session.status().connected);
    assert_eq!(session.status().kind, TransportKind::AppServer);
    assert!(session.status().server_agent.is_none());
}

#[test]
fn the_end_of_the_output_fails_what_waits() {
    let mut session = connected();
    session.begin_request("x", Json::Null).unwrap();
    session.begin_request("y", Json::Null).unwrap();
    let (event, failed) = session.output_ended();
    assert!(matches!(
        event,
        TransportEvent::Disconnected { message } if message == "app-server stdout closed"
    ));
    let ids: Vec<i64> = failed.iter().map(|(id, _)| *id).collect();
    assert_eq!(ids, [1, 2]);
    assert!(failed.iter().all(|(_, error)| matches!(
        error,
        TransportError::Process(text) if text == "app-server stdout closed"
    )));
    assert!(session.pending.is_empty());
    assert!(session.status().connected);
}

#[test]
fn a_failed_introduction_ends_the_connection() {
    let mut session = connected();
    assert!(session.introduction_ended(Ok(())).is_ok());
    assert!(session.status().connected);
    session.begin_request("initialize", Json::Null).unwrap();
    let answer = session.introduction_ended(Err(TransportError::Timeout("initialize".into())));
    assert!(matches!(answer, Err(TransportError::Timeout(_))));
    assert!(!session.status().connected);
    assert!(session.pending.is_empty());
}

#[test]
fn connections_are_planned() {
    let mut session = AppServerTransport::new("codex".into()).with_hidden_window(true);
    assert!(session.hide_window);
    assert_eq!(session.codex_path(), "codex");
    assert_eq!(session.plan_connect(false), ConnectPlan::Spawn);
    assert_eq!(session.plan_connect(true), ConnectPlan::ShutDownAndSpawn);
    session.spawned();
    assert_eq!(session.plan_connect(true), ConnectPlan::Connected);
}

#[test]
fn parameters_of_the_requests() {
    let path = Some("/work".to_string());
    let start = start_thread_params(&path).to_value();
    assert_eq!(start["cwd"].as_str(), Some("/work"));
    assert_eq!(start["ephemeral"].as_bool(), Some(false));
    assert_eq!(start["threadSource"].as_str(), Some("codex-longwatch"));
    assert!(start_thread_params(&None).to_value()["cwd"].is_null());
    let resume = resume_thread_params("th", &path).to_value();
    assert_eq!(resume["threadId"].as_str(), Some("th"));
    let turn = start_turn_params("th", "  task\n", &None).to_value();
    assert_eq!(turn["threadId"].as_str(), Some("th"));
    assert_eq!(turn["input"][0]["text"].as_str(), Some("  task\n"));
    let interrupt = interrupt_params("th", "tu").to_value();
    assert_eq!(interrupt["threadId"].as_str(), Some("th"));
    assert_eq!(interrupt["turnId"].as_str(), Some("tu"));
}

#[test]
fn malformed_answers_are_protocol_errors() {
    let text = |error: TransportError| match error {
        TransportError::Protocol(text) => text,
        other => panic!("{other:?}"),
    };
    assert_eq!(
        text(parse_started_turn(&json("{}")).unwrap_err()),
        "turn/start response has no turn.id"
    );
    assert_eq!(parse_started_turn(&json(r#"{"turn":{"id":"x"}}"#)).unwrap().id, "x");
    assert!(parse_thread_session(&json("{}")).is_err());
    let session = parse_thread_session(&json(
        r#"{"thread":{"id":"th","turns":[{"id":"a","status":"failed","error":{"message":"m"}},{"id":"b","status":"inProgress"}]}}"#,
    ))
    .unwrap();
    assert_eq!(session.id, "th");
    let turn = session.latest_turn.unwrap();
    assert_eq!((turn.id.as_str(), turn.status), ("b", TurnStatus::InProgress));
    assert!(parse_turn(&json(r#"{"id":"a","status":"odd"}"#)).is_err());
    assert!(parse_turn(&json(r#"{"status":"completed"}"#)).is_err());
}

#[test]
fn errors_of_turns_are_read() {
    let error = read_error(&json(
        r#"{"message":"m","additionalDetails":"d","codexErrorInfo":{"a":1},"more":2}"#,
    ))
    .unwrap();
    assert_eq!(error.message, "m");
    assert_eq!(error.additional_details.as_deref(), Some("d"));
    assert_eq!(error.codex_error_info.unwrap().to_text(), "{\"a\":1}");
    assert!(read_error(&json("{}")).is_none());
    assert!(read_error(&json("7")).is_none());
}

#[test]
fn unreadable_lines_and_exits_are_reported() {
    let mut session = connected();
    assert!(matches!(session.handle_line("  "), Dispatch::Nothing));
    assert!(matches!(
        session.handle_line("garbage"),
        Dispatch::Event { event: TransportEvent::Diagnostic { .. }, .. }
    ));
    assert!(matches!(
        exit_event(Some("exit status: 1".into())),
        TransportEvent::Disconnected { message } if message == "app-server exited with exit status: 1"
    ));
    assert!(matches!(
        exit_event(None),
        TransportEvent::Disconnected { message } if message == "app-server exited"
    ));
    assert!(matches!(
        spawn_failure(true, "codex", "x"),
        TransportError::ExecutableNotFound(path) if path == "codex"
    ));
    assert!(matches!(
        spawn_failure(false, "codex", "x"),
        TransportError::Process(text) if text == "x"
    ));
}

#[test]
fn deltas_may_be_dropped_and_starts_may_not() {
    let mut session = connected();
    match session.handle_line(
        r#"{"method":"item/agentMessage/delta","params":{"threadId":"th","turnId":"tu","itemId":"i","delta":"d"}}"#,
    ) {
        Dispatch::Event { event: TransportEvent::AgentMessageDelta { delta, .. }, lossy } => {
            assert_eq!(delta, "d");
            assert!(lossy);
        }
        other => panic!("{other:?}"),
    }
    match session.handle_line(
        r#"{"method":"turn/started","params":{"threadId":"th","turn":{"id":"tu"}}}"#,
    ) {
        Dispatch::Event { event: TransportEvent::TurnStarted { turn_id, .. }, lossy } => {
            assert_eq!(turn_id, "tu");
            assert!(!lossy);
        }
        other => panic!("{other:?}"),
    }
}
