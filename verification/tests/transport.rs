use codex_longwatch::transport::{
    ActiveTransport, ConnectStep, PreferredTransport, TransportError, TransportKind,
    TransportStatus,
};

fn status(kind: TransportKind) -> TransportStatus {
    TransportStatus { kind, connected: true, server_agent: None }
}

#[test]
fn a_disabled_gui_fallback_is_never_connected_silently() {
    let mut transport = PreferredTransport::new("primary", "fallback", false);
    let answer = transport.primary_answered(Err(TransportError::ExecutableNotFound("codex".into())));
    assert!(matches!(
        answer,
        ConnectStep::Failed(TransportError::ExecutableNotFound(_))
    ));
    assert_eq!(transport.active, ActiveTransport::Idle);
    assert!(matches!(transport.route(), Err(TransportError::NotConnected)));
}

#[test]
fn an_enabled_gui_fallback_takes_over() {
    let mut transport = PreferredTransport::new((), (), false);
    transport.set_gui_fallback_enabled(true);
    let step = transport.primary_answered(Err(TransportError::NotConnected));
    let text = match step {
        ConnectStep::TryFallback(text) => text,
        other => panic!("{other:?}"),
    };
    assert_eq!(text, TransportError::NotConnected.message());
    let refused = transport.fallback_answered(&text, Err(TransportError::Unavailable("gone".into())));
    assert!(matches!(refused, Err(TransportError::Unavailable(_))));
    assert!(transport.route().is_err());
    assert!(transport.fallback_answered(&text, Ok(())).is_ok());
    assert_eq!(transport.route().unwrap(), ActiveTransport::Fallback);
    let shown = transport.status(
        status(TransportKind::AppServer),
        status(TransportKind::GuiFallback),
    );
    assert_eq!(shown.kind.label(), "GUI 兼容回退");
    transport.shut_down();
    assert_eq!(transport.active, ActiveTransport::Idle);
}

#[test]
fn a_connected_app_server_is_used() {
    let mut transport = PreferredTransport::new((), (), true);
    assert!(matches!(transport.primary_answered(Ok(())), ConnectStep::Connected));
    assert_eq!(transport.route().unwrap(), ActiveTransport::Primary);
    assert_eq!(transport.active, ActiveTransport::Primary);
}

#[test]
fn transport_errors_have_texts() {
    assert_eq!(
        TransportError::ExecutableNotFound("codex".into()).message(),
        "Codex executable was not found: codex"
    );
    assert_eq!(
        TransportError::Process("x".into()).message(),
        "app-server process failed: x"
    );
    assert!(TransportError::Rpc { code: -32000, message: "busy".into(), data: None }
        .message()
        .contains("-32000"));
}
