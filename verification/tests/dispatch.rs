use lsp_server::RequestId;
use serde_json::Value;
use wakatime_ls::command::{CommandError, Directive, MessageLevel};
use wakatime_ls::dispatch::{
    document_kind, entity_path, finish_delivery, finish_query, on_execute_command, Action, Reply,
    Turn,
};
use wakatime_ls::event::{ActivityEvent, EventKind};
use wakatime_ls::identity::ClientInfo;
use wakatime_ls::install::InstallError;
use wakatime_ls::invoker::{AgentInvocation, InvocationError, QueryOutcome};
use wakatime_ls::message::{
    CommandCall, DecodeReason, Message, Notification, Request, Response,
};
use wakatime_ls::session::{
    InitializeError, LanguageServer, SessionError, SessionState,
};

const FOO_IDENTITY: &str = "Foo/1.2 wakatime-ls/0.1.0 Foo-wakatime/0.1.0";

fn json(text: &str) -> Value {
    serde_json::from_str(text).unwrap()
}

fn request(id: i32, method: &str, params: &str) -> Request {
    Request { id: RequestId::from(id), method: method.to_string(), params: json(params) }
}

fn notification(method: &str, params: &str) -> Notification {
    Notification { method: method.to_string(), params: json(params) }
}

fn initialize_with_foo(id: i32) -> Request {
    request(
        id,
        "initialize",
        r#"{"capabilities": {}, "clientInfo": {"name": "Foo", "version": "1.2"}}"#,
    )
}

fn ready_server() -> LanguageServer {
    let mut server = LanguageServer::new(false);
    server.handle_request(initialize_with_foo(1)).unwrap();
    server
}

fn strings(items: &[&str]) -> Vec<String> {
    items.iter().map(|s| s.to_string()).collect()
}

fn report(items: &[&str]) -> Option<Action> {
    Some(Action::Report(AgentInvocation { arguments: strings(items) }))
}

#[test]
fn initialize_with_client_info_sets_the_identity_and_advertises() {
    let mut server = LanguageServer::new(false);
    let action = server.handle_request(initialize_with_foo(1)).unwrap();
    assert_eq!(
        action,
        Some(Action::Respond {
            id: RequestId::from(1),
            reply: Reply::Capabilities(LanguageServer::capabilities()),
        })
    );
    assert_eq!(server.identity(), FOO_IDENTITY);
    assert_eq!(server.state(), SessionState::Ready);
}

#[test]
fn initialize_without_client_info_keeps_the_bare_identity() {
    let mut server = LanguageServer::new(false);
    let action = server.handle_request(request(2, "initialize", r#"{"capabilities": {}}"#));
    assert!(matches!(action, Ok(Some(Action::Respond { reply: Reply::Capabilities(_), .. }))));
    assert_eq!(server.identity(), "wakatime-ls/0.1.0");
    assert_eq!(server.state(), SessionState::Ready);
}

#[test]
fn initialize_with_client_without_version_says_unknown() {
    let mut server = LanguageServer::new(false);
    server
        .handle_request(request(
            2,
            "initialize",
            r#"{"capabilities": {}, "clientInfo": {"name": "Helix"}}"#,
        ))
        .unwrap();
    assert_eq!(server.identity(), "Helix/unknown wakatime-ls/0.1.0 Helix-wakatime/0.1.0");
}

#[test]
fn initialize_with_malformed_client_info_is_a_decode_error() {
    for payload in [
        r#"{"capabilities": {}, "clientInfo": {"name": 5}}"#,
        r#"{"capabilities": {}, "clientInfo": {"version": "1.2"}}"#,
        r#"{"capabilities": {}, "clientInfo": {"name": "Foo", "version": 12}}"#,
        r#"{"clientInfo": 7}"#,
        r#"{"clientInfo": "Foo"}"#,
    ] {
        let mut server = LanguageServer::new(false);
        let error = server.handle_request(request(3, "initialize", payload)).unwrap_err();
        assert_eq!(error.method, "initialize");
        assert!(matches!(error.reason, DecodeReason::Payload(_)));
        assert_eq!(server.state(), SessionState::Created);
        assert_eq!(server.identity(), "wakatime-ls/0.1.0");
    }
}

#[test]
fn initialize_reads_nothing_but_the_client_info() {
    for payload in [
        "{}",
        "null",
        r#"{"clientInfo": null}"#,
        r#"{"rootUri": "not a uri", "capabilities": 5}"#,
    ] {
        let mut server = LanguageServer::new(false);
        let action = server.handle_request(request(3, "initialize", payload)).unwrap();
        assert!(matches!(action, Some(Action::Respond { reply: Reply::Capabilities(_), .. })));
        assert_eq!(server.identity(), "wakatime-ls/0.1.0");
    }
    let mut server = LanguageServer::new(false);
    server
        .handle_request(request(
            3,
            "initialize",
            r#"{"rootUri": "not a uri", "clientInfo": {"name": "Foo", "version": "1.2"}}"#,
        ))
        .unwrap();
    assert_eq!(server.identity(), FOO_IDENTITY);
}

#[test]
fn second_initialize_is_refused() {
    let mut server = ready_server();
    let action = server
        .handle_request(request(
            9,
            "initialize",
            r#"{"capabilities": {}, "clientInfo": {"name": "Bar"}}"#,
        ))
        .unwrap();
    assert_eq!(
        action,
        Some(Action::Respond {
            id: RequestId::from(9),
            reply: Reply::InitializeFailed(InitializeError::Session(
                SessionError::AlreadyStarted
            )),
        })
    );
    assert_eq!(server.identity(), FOO_IDENTITY);
    assert_eq!(server.state(), SessionState::Ready);
}

#[test]
fn initialize_of_a_bootstrapping_session_asks_for_the_bootstrap_first() {
    let mut server = LanguageServer::new(true);
    let action = server.handle_request(initialize_with_foo(4)).unwrap();
    assert_eq!(action, Some(Action::Bootstrap { id: RequestId::from(4) }));
    assert_eq!(server.state(), SessionState::Initializing);
    assert_eq!(server.identity(), FOO_IDENTITY);

    let done = server.finish_initialize(RequestId::from(4), Ok(()));
    assert_eq!(
        done,
        Action::Respond {
            id: RequestId::from(4),
            reply: Reply::Capabilities(LanguageServer::capabilities()),
        }
    );
    assert_eq!(server.state(), SessionState::Ready);
}

#[test]
fn failed_bootstrap_fails_the_initialize_request() {
    let mut server = LanguageServer::new(true);
    server.handle_request(initialize_with_foo(4)).unwrap();
    let error = InstallError::Status { url: "https://example.test/a.zip".to_string(), status: 404 };
    let done = server.finish_initialize(RequestId::from(4), Err(error.clone()));
    assert_eq!(
        done,
        Action::Respond {
            id: RequestId::from(4),
            reply: Reply::InitializeFailed(InitializeError::Install(error)),
        }
    );
    assert_ne!(server.state(), SessionState::Ready);
}

#[test]
fn finish_initialize_out_of_turn_is_refused() {
    let mut server = LanguageServer::new(true);
    assert_eq!(
        server.finish_initialize(RequestId::from(1), Ok(())),
        Action::Respond {
            id: RequestId::from(1),
            reply: Reply::InitializeFailed(InitializeError::Session(
                SessionError::NotInitializing
            )),
        }
    );
    assert_eq!(server.state(), SessionState::Created);
}

#[test]
fn shutdown_is_answered_and_ends_the_session() {
    let mut server = ready_server();
    let action = server.handle_request(request(7, "shutdown", "null")).unwrap();
    assert_eq!(action, Some(Action::Respond { id: RequestId::from(7), reply: Reply::Empty }));
    assert_eq!(server.state(), SessionState::ShuttingDown);
    assert_eq!(server.identity(), FOO_IDENTITY);
}

#[test]
fn shutdown_keeps_a_text_id() {
    let mut server = ready_server();
    let req = Request {
        id: RequestId::from("abc".to_string()),
        method: "shutdown".to_string(),
        params: Value::Null,
    };
    assert_eq!(
        server.handle_request(req).unwrap(),
        Some(Action::Respond { id: RequestId::from("abc".to_string()), reply: Reply::Empty })
    );
}

#[test]
fn request_of_another_method_is_left_unhandled() {
    let mut server = ready_server();
    for method in ["textDocument/hover", "Shutdown", "workspace/executecommand", ""] {
        assert_eq!(server.handle_request(request(5, method, "{}")).unwrap(), None);
    }
    assert_eq!(server.state(), SessionState::Ready);
}

#[test]
fn execute_command_open_dashboard_shows_the_dashboard() {
    let mut server = ready_server();
    let action = server
        .handle_request(request(
            11,
            "workspace/executeCommand",
            r#"{"command": "open_dashboard", "arguments": []}"#,
        ))
        .unwrap();
    assert_eq!(
        action,
        Some(Action::Deliver {
            id: RequestId::from(11),
            directive: Directive::ShowDocument {
                uri: "https://wakatime.com/dashboard".to_string(),
                external: true,
            },
        })
    );
}

#[test]
fn execute_command_show_time_past_queries_the_agent() {
    let mut server = ready_server();
    let action = server
        .handle_request(request(
            12,
            "workspace/executeCommand",
            r#"{"command": "show_time_past"}"#,
        ))
        .unwrap();
    assert_eq!(
        action,
        Some(Action::Query {
            id: RequestId::from(12),
            invocation: AgentInvocation { arguments: strings(&["--today"]) },
        })
    );
}

#[test]
fn execute_command_bogus_yields_one_error_message_and_an_empty_response() {
    let mut server = ready_server();
    let action = server
        .handle_request(request(
            13,
            "workspace/executeCommand",
            r#"{"command": "bogus", "arguments": [1, "two"]}"#,
        ))
        .unwrap();
    assert_eq!(
        action,
        Some(Action::Deliver {
            id: RequestId::from(13),
            directive: Directive::LogMessage {
                level: MessageLevel::Error,
                text: "Unknown workspace command received: `bogus`".to_string(),
            },
        })
    );
    assert_eq!(
        finish_delivery(RequestId::from(13), true),
        Action::Respond { id: RequestId::from(13), reply: Reply::Empty }
    );
    assert_eq!(server.state(), SessionState::Ready);
}

#[test]
fn execute_command_with_malformed_payload_is_a_decode_error() {
    let mut server = ready_server();
    let error = server
        .handle_request(request(14, "workspace/executeCommand", r#"{"command": 7}"#))
        .unwrap_err();
    assert_eq!(error.method, "workspace/executeCommand");
    assert!(matches!(error.reason, DecodeReason::Payload(_)));
    let missing = server
        .handle_request(request(15, "workspace/executeCommand", "null"))
        .unwrap_err();
    assert_eq!(missing.method, "workspace/executeCommand");
    assert_eq!(server.state(), SessionState::Ready);
}

#[test]
fn on_execute_command_takes_the_decoded_call() {
    assert_eq!(
        on_execute_command(
            RequestId::from(3),
            CommandCall { name: "show_time_past".to_string(), arguments: vec![Value::Null] },
        ),
        Action::Query {
            id: RequestId::from(3),
            invocation: AgentInvocation { arguments: strings(&["--today"]) },
        }
    );
}

#[test]
fn show_time_past_relays_the_first_line_as_information() {
    let id = RequestId::from(21);
    let action = finish_query(id.clone(), &QueryOutcome::Output(b"3 hrs 10 mins\n".to_vec()));
    assert_eq!(
        action,
        Action::Deliver {
            id: id.clone(),
            directive: Directive::LogMessage {
                level: MessageLevel::Info,
                text: "3 hrs 10 mins".to_string(),
            },
        }
    );
    assert_eq!(finish_delivery(id.clone(), true), Action::Respond { id, reply: Reply::Empty });
}

#[test]
fn show_time_past_fails_without_a_message_when_the_agent_fails() {
    let id = RequestId::from(22);
    assert_eq!(
        finish_query(id.clone(), &QueryOutcome::SpawnFailed),
        Action::Respond {
            id: id.clone(),
            reply: Reply::CommandFailed(CommandError::Internal(InvocationError::Spawn)),
        }
    );
    assert_eq!(
        finish_query(id.clone(), &QueryOutcome::Output(Vec::new())),
        Action::Respond {
            id: id.clone(),
            reply: Reply::CommandFailed(CommandError::Internal(InvocationError::EmptyOutput)),
        }
    );
    assert_eq!(
        finish_query(id.clone(), &QueryOutcome::Output(vec![0xff])),
        Action::Respond {
            id,
            reply: Reply::CommandFailed(CommandError::Internal(InvocationError::Decode)),
        }
    );
}

#[test]
fn undelivered_directive_fails_the_command() {
    assert_eq!(
        finish_delivery(RequestId::from(30), false),
        Action::Respond {
            id: RequestId::from(30),
            reply: Reply::CommandFailed(CommandError::Delivery),
        }
    );
}

#[test]
fn did_open_reports_the_document_without_write() {
    let server = ready_server();
    let action = server
        .handle_notification(notification(
            "textDocument/didOpen",
            r#"{"textDocument": {"uri": "file:///home/me/a.rs", "languageId": "rust", "version": 1, "text": "fn main() {}"}}"#,
        ))
        .unwrap();
    assert_eq!(action, report(&["--plugin", FOO_IDENTITY, "--entity", "/home/me/a.rs"]));
}

#[test]
fn did_change_reports_the_document_without_write() {
    let server = ready_server();
    let action = server
        .handle_notification(notification(
            "textDocument/didChange",
            r#"{"textDocument": {"uri": "file:///home/me/b.rs", "version": 2}, "contentChanges": [{"text": "x"}]}"#,
        ))
        .unwrap();
    assert_eq!(action, report(&["--plugin", FOO_IDENTITY, "--entity", "/home/me/b.rs"]));
}

#[test]
fn did_close_reports_the_document_without_write() {
    let server = ready_server();
    let action = server
        .handle_notification(notification(
            "textDocument/didClose",
            r#"{"textDocument": {"uri": "file:///home/me/c.rs"}}"#,
        ))
        .unwrap();
    assert_eq!(action, report(&["--plugin", FOO_IDENTITY, "--entity", "/home/me/c.rs"]));
}

#[test]
fn did_save_reports_the_document_with_write() {
    let server = ready_server();
    let action = server
        .handle_notification(notification(
            "textDocument/didSave",
            r#"{"textDocument": {"uri": "file:///home/me/d.rs"}}"#,
        ))
        .unwrap();
    assert_eq!(
        action,
        report(&["--plugin", FOO_IDENTITY, "--entity", "/home/me/d.rs", "--write"])
    );
}

#[test]
fn entity_is_the_path_component_of_the_uri() {
    let server = ready_server();
    let action = server
        .handle_notification(notification(
            "textDocument/didSave",
            r#"{"textDocument": {"uri": "file://host/dir/my%20file.rs?x=1#frag"}}"#,
        ))
        .unwrap();
    assert_eq!(
        action,
        report(&["--plugin", FOO_IDENTITY, "--entity", "/dir/my%20file.rs", "--write"])
    );
}

#[test]
fn entity_path_of_each_payload() {
    assert_eq!(
        entity_path(&json(r#"{"textDocument": {"uri": "file:///a/b.rs"}}"#)).unwrap(),
        "/a/b.rs"
    );
    assert_eq!(
        entity_path(&json(r#"{"textDocument": {"uri": "mailto:--write"}}"#)).unwrap(),
        "--write"
    );
    assert_eq!(entity_path(&json(r#"{"textDocument": {"uri": ""}}"#)).unwrap(), "");
    for payload in ["{}", "null", "[]", r#"{"textDocument": 3}"#, r#"{"textDocument": {"uri": 9}}"#]
    {
        assert!(matches!(entity_path(&json(payload)), Err(DecodeReason::NoUri)));
    }
    for payload in [
        r#"{"textDocument": {"uri": "not a uri"}}"#,
        r#"{"textDocument": {"uri": "file:///a%zz"}}"#,
    ] {
        assert!(matches!(entity_path(&json(payload)), Err(DecodeReason::InvalidUri)));
    }
}

#[test]
fn document_kind_of_each_method() {
    assert_eq!(document_kind("textDocument/didOpen"), Some(EventKind::Opened));
    assert_eq!(document_kind("textDocument/didChange"), Some(EventKind::Changed));
    assert_eq!(document_kind("textDocument/didClose"), Some(EventKind::Closed));
    assert_eq!(document_kind("textDocument/didSave"), Some(EventKind::Saved));
    for method in ["textDocument/willSave", "textDocument/didsave", "initialized", ""] {
        assert_eq!(document_kind(method), None);
    }
}

#[test]
fn document_notifications_are_dropped_unread_while_not_ready() {
    let created = LanguageServer::new(false);
    let mut initializing = LanguageServer::new(true);
    initializing.handle_request(initialize_with_foo(1)).unwrap();
    assert_eq!(initializing.state(), SessionState::Initializing);
    let mut shutting_down = ready_server();
    shutting_down.shutdown();
    for server in [&created, &initializing, &shutting_down] {
        for payload in [r#"{"textDocument": {"uri": "file:///a.rs"}}"#, "42"] {
            assert_eq!(
                server.handle_notification(notification("textDocument/didSave", payload)).unwrap(),
                None
            );
        }
    }
}

#[test]
fn commands_are_refused_unread_while_not_ready() {
    let created = LanguageServer::new(false);
    let mut initializing = LanguageServer::new(true);
    initializing.handle_request(initialize_with_foo(1)).unwrap();
    let mut shutting_down = ready_server();
    shutting_down.shutdown();
    for mut server in [created, initializing, shutting_down] {
        let state = server.state();
        for payload in [r#"{"command": "open_dashboard"}"#, "42"] {
            assert_eq!(
                server.handle_request(request(6, "workspace/executeCommand", payload)).unwrap(),
                Some(Action::Respond { id: RequestId::from(6), reply: Reply::NotReady })
            );
        }
        assert_eq!(server.state(), state);
    }
}

#[test]
fn document_notification_with_malformed_payload_is_a_decode_error() {
    let server = ready_server();
    for method in [
        "textDocument/didOpen",
        "textDocument/didChange",
        "textDocument/didClose",
        "textDocument/didSave",
    ] {
        for payload in [r#"{"textDocument": 3}"#, "42", "null"] {
            let error = server.handle_notification(notification(method, payload)).unwrap_err();
            assert_eq!(error.method, method);
            assert!(matches!(error.reason, DecodeReason::NoUri));
        }
    }
}

#[test]
fn document_notification_with_invalid_uri_is_a_decode_error() {
    let server = ready_server();
    let error = server
        .handle_notification(notification(
            "textDocument/didClose",
            r#"{"textDocument": {"uri": "not a uri"}}"#,
        ))
        .unwrap_err();
    assert_eq!(error.method, "textDocument/didClose");
    assert!(matches!(error.reason, DecodeReason::InvalidUri));
}

#[test]
fn other_notifications_are_dropped() {
    let server = ready_server();
    for method in ["initialized", "textDocument/willSave", "textDocument/didopen", "exit", ""] {
        assert_eq!(server.handle_notification(notification(method, "{}")).unwrap(), None);
    }
}

#[test]
fn on_document_event_uses_the_session_identity() {
    let server = ready_server();
    let event = ActivityEvent::new("/tmp/x".to_string(), EventKind::Saved);
    assert_eq!(
        Some(server.on_document_event(&event)),
        report(&["--plugin", FOO_IDENTITY, "--entity", "/tmp/x", "--write"])
    );
}

#[test]
fn on_initialize_takes_the_decoded_client_info() {
    let mut server = LanguageServer::new(false);
    let client = Some(ClientInfo { name: "Foo".to_string(), version: Some("1.2".to_string()) });
    let action = server.on_initialize(RequestId::from(1), &client);
    assert!(matches!(action, Action::Respond { reply: Reply::Capabilities(_), .. }));
    assert_eq!(server.identity(), FOO_IDENTITY);
}

#[test]
fn dispatch_routes_each_kind_of_message() {
    let mut server = LanguageServer::new(false);
    let turn = server.dispatch(Message::Request(initialize_with_foo(1))).unwrap();
    assert_eq!(
        turn,
        Turn {
            action: Some(Action::Respond {
                id: RequestId::from(1),
                reply: Reply::Capabilities(LanguageServer::capabilities()),
            }),
            last: false,
        }
    );

    let turn = server
        .dispatch(Message::Notification(notification(
            "textDocument/didSave",
            r#"{"textDocument": {"uri": "file:///w/e.rs"}}"#,
        )))
        .unwrap();
    assert_eq!(
        turn,
        Turn {
            action: report(&["--plugin", FOO_IDENTITY, "--entity", "/w/e.rs", "--write"]),
            last: false,
        }
    );

    let turn = server
        .dispatch(Message::Response(Response {
            id: RequestId::from(40),
            result: Some(json(r#"{"success": true}"#)),
        }))
        .unwrap();
    assert_eq!(
        turn,
        Turn {
            action: Some(Action::Trace(Response {
                id: RequestId::from(40),
                result: Some(json(r#"{"success": true}"#)),
            })),
            last: false,
        }
    );

    let turn = server.dispatch(Message::Request(request(2, "shutdown", "null"))).unwrap();
    assert_eq!(
        turn,
        Turn {
            action: Some(Action::Respond { id: RequestId::from(2), reply: Reply::Empty }),
            last: true,
        }
    );
    assert_eq!(server.state(), SessionState::ShuttingDown);
}

#[test]
fn decode_error_on_a_command_comes_before_the_next_message() {
    let mut server = ready_server();
    let error = server
        .dispatch(Message::Request(request(1, "workspace/executeCommand", "42")))
        .unwrap_err();
    assert_eq!(error.method, "workspace/executeCommand");
    assert!(matches!(error.reason, DecodeReason::Payload(_)));
    assert_eq!(server.state(), SessionState::Ready);
}

#[test]
fn dispatch_passes_decode_errors_on_and_stays_usable() {
    let mut server = ready_server();
    let error = server
        .dispatch(Message::Notification(notification("textDocument/didSave", "[]")))
        .unwrap_err();
    assert_eq!(error.method, "textDocument/didSave");
    let turn = server
        .dispatch(Message::Notification(notification(
            "textDocument/didClose",
            r#"{"textDocument": {"uri": "file:///w/f.rs"}}"#,
        )))
        .unwrap();
    assert_eq!(turn.action, report(&["--plugin", FOO_IDENTITY, "--entity", "/w/f.rs"]));
    assert!(!turn.last);
}

#[test]
fn dispatch_drops_unknown_messages_without_ending() {
    let mut server = ready_server();
    assert_eq!(
        server.dispatch(Message::Request(request(8, "textDocument/hover", "{}"))).unwrap(),
        Turn { action: None, last: false }
    );
    assert_eq!(
        server.dispatch(Message::Notification(notification("initialized", "{}"))).unwrap(),
        Turn { action: None, last: false }
    );
}

#[test]
fn uri_of_many_bytes_below_the_limit_is_parsed() {
    let uri = format!("file:///{}", "a".repeat(1 << 20));
    let mut document = serde_json::Map::new();
    document.insert("uri".to_string(), Value::String(uri));
    let mut payload = serde_json::Map::new();
    payload.insert("textDocument".to_string(), Value::Object(document));
    assert_eq!(entity_path(&Value::Object(payload)).unwrap().len(), (1 << 20) + 1);
}
