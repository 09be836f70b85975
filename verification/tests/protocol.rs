//! End-to-end tests of the protocol loop: the handshake, document-change
//! dispatch, diagnostics publication, and shutdown.

use wgsl_ls::driver::{handle_message, Outbound};
use wgsl_ls::messages::{DidChangeParams, DocumentId, Message, Payload, RequestId};
use wgsl_ls::session::{Session, SessionState};

fn initialize_request(id: i64) -> Message {
    Message::Request { id: RequestId::Number(id), method: "initialize".to_string() }
}

fn initialized_notification() -> Message {
    Message::Notification { method: "initialized".to_string(), payload: Payload::Irrelevant }
}

fn did_change(uri: &str, version: i32, texts: &[&str]) -> Message {
    Message::Notification {
        method: "textDocument/didChange".to_string(),
        payload: Payload::DidChange(DidChangeParams {
            document: DocumentId { uri: uri.to_string(), version },
            changes: texts.iter().map(|t| t.to_string()).collect(),
        }),
    }
}

fn shutdown_request(id: i64) -> Message {
    Message::Request { id: RequestId::Number(id), method: "shutdown".to_string() }
}

fn handshake(session: &mut Session) {
    let r = handle_message(session, initialize_request(1));
    assert!(matches!(r.outbound, Some(Outbound::InitializeResult { .. })));
    let r = handle_message(session, initialized_notification());
    assert!(r.outbound.is_none());
}

#[test]
fn full_session_scenario() {
    let mut session = Session::new();
    assert!(matches!(session.state, SessionState::AwaitingInitialize));

    let r = handle_message(&mut session, initialize_request(1));
    assert!(!r.exit);
    match r.outbound {
        Some(Outbound::InitializeResult { id, capabilities }) => {
            assert!(matches!(id, RequestId::Number(1)));
            assert!(capabilities.full_document_sync);
        },
        _ => panic!("expected an initialize result"),
    }
    assert!(matches!(session.state, SessionState::AwaitingInitialized));

    let r = handle_message(&mut session, initialized_notification());
    assert!(!r.exit);
    assert!(r.outbound.is_none());
    assert!(matches!(session.state, SessionState::Initialized));

    let r = handle_message(&mut session, did_change("file://a.txt", 2, &["invalid("]));
    assert!(!r.exit);
    match r.outbound {
        Some(Outbound::Publish { params }) => {
            assert_eq!(params.uri, "file://a.txt");
            assert_eq!(params.version, 2);
            assert_eq!(params.diagnostics.len(), 1);
            assert!(matches!(
                params.diagnostics[0].severity,
                wgsl_ls::diagnostics::Severity::Error
            ));
        },
        _ => panic!("expected a diagnostics publication"),
    }

    let r = handle_message(&mut session, shutdown_request(3));
    assert!(r.exit);
    match r.outbound {
        Some(Outbound::ShutdownResult { id }) => {
            assert!(matches!(id, RequestId::Number(3)));
        },
        _ => panic!("expected a shutdown acknowledgement"),
    }
    assert!(matches!(session.state, SessionState::ShuttingDown));
}

#[test]
fn accepted_text_publishes_empty_batch() {
    let mut session = Session::new();
    handshake(&mut session);
    let r = handle_message(&mut session, did_change("file://ok.wgsl", 7, &["fn main() {}"]));
    match r.outbound {
        Some(Outbound::Publish { params }) => {
            assert_eq!(params.uri, "file://ok.wgsl");
            assert_eq!(params.version, 7);
            assert!(params.diagnostics.is_empty());
        },
        _ => panic!("expected an empty diagnostics publication"),
    }
}

#[test]
fn empty_text_publishes_empty_batch() {
    let mut session = Session::new();
    handshake(&mut session);
    let r = handle_message(&mut session, did_change("file://empty.wgsl", 1, &[""]));
    match r.outbound {
        Some(Outbound::Publish { params }) => {
            assert!(params.diagnostics.is_empty());
        },
        _ => panic!("expected an empty diagnostics publication"),
    }
}

#[test]
fn same_change_twice_publishes_identical_batches() {
    let mut session = Session::new();
    handshake(&mut session);
    let first = handle_message(&mut session, did_change("file://a.wgsl", 4, &["nonsense {"]));
    let second = handle_message(&mut session, did_change("file://a.wgsl", 4, &["nonsense {"]));
    let (p1, p2) = match (first.outbound, second.outbound) {
        (Some(Outbound::Publish { params: p1 }), Some(Outbound::Publish { params: p2 })) => {
            (p1, p2)
        },
        _ => panic!("expected two publications"),
    };
    assert_eq!(p1.uri, p2.uri);
    assert_eq!(p1.version, p2.version);
    assert_eq!(p1.diagnostics.len(), p2.diagnostics.len());
    for (d1, d2) in p1.diagnostics.iter().zip(p2.diagnostics.iter()) {
        assert_eq!(d1.range.start.line, d2.range.start.line);
        assert_eq!(d1.range.start.character, d2.range.start.character);
        assert_eq!(d1.range.end.line, d2.range.end.line);
        assert_eq!(d1.range.end.character, d2.range.end.character);
        assert_eq!(d1.message, d2.message);
    }
}

#[test]
fn publications_arrive_in_order_of_changes() {
    let mut session = Session::new();
    handshake(&mut session);
    let mut published: Vec<i32> = Vec::new();
    for version in 1..=3 {
        let text = if version == 2 { "broken (" } else { "fn main() {}" };
        let r = handle_message(&mut session, did_change("file://o.wgsl", version, &[text]));
        if let Some(Outbound::Publish { params }) = r.outbound {
            published.push(params.version);
        }
    }
    assert_eq!(published, vec![1, 2, 3]);
}

#[test]
fn shutdown_is_acknowledged_once_and_stops_the_loop() {
    let mut session = Session::new();
    handshake(&mut session);
    let messages = vec![
        did_change("file://a.wgsl", 1, &["fn main() {}"]),
        shutdown_request(9),
        did_change("file://a.wgsl", 2, &["fn main() {}"]),
        shutdown_request(10),
    ];
    let mut acknowledgements = 0;
    let mut processed = 0;
    for msg in messages {
        let r = handle_message(&mut session, msg);
        processed += 1;
        if matches!(r.outbound, Some(Outbound::ShutdownResult { .. })) {
            acknowledgements += 1;
        }
        if r.exit {
            break;
        }
    }
    assert_eq!(acknowledgements, 1);
    assert_eq!(processed, 2);
}

#[test]
fn change_before_handshake_is_ignored() {
    let mut session = Session::new();
    let r = handle_message(&mut session, did_change("file://a.wgsl", 1, &["invalid("]));
    assert!(r.outbound.is_none());
    assert!(!r.exit);
    assert!(matches!(session.state, SessionState::AwaitingInitialize));
}

#[test]
fn change_before_initialized_notification_is_ignored() {
    let mut session = Session::new();
    let r = handle_message(&mut session, initialize_request(1));
    assert!(r.outbound.is_some());
    let r = handle_message(&mut session, did_change("file://a.wgsl", 1, &["invalid("]));
    assert!(r.outbound.is_none());
    assert!(matches!(session.state, SessionState::AwaitingInitialized));
}

#[test]
fn shutdown_before_handshake_is_ignored() {
    let mut session = Session::new();
    let r = handle_message(&mut session, shutdown_request(1));
    assert!(r.outbound.is_none());
    assert!(!r.exit);
    assert!(matches!(session.state, SessionState::AwaitingInitialize));
}

#[test]
fn second_initialize_is_ignored() {
    let mut session = Session::new();
    handshake(&mut session);
    let r = handle_message(&mut session, initialize_request(5));
    assert!(r.outbound.is_none());
    assert!(!r.exit);
    assert!(matches!(session.state, SessionState::Initialized));
}

#[test]
fn unknown_request_is_ignored() {
    let mut session = Session::new();
    handshake(&mut session);
    let msg = Message::Request {
        id: RequestId::Number(2),
        method: "textDocument/definition".to_string(),
    };
    let r = handle_message(&mut session, msg);
    assert!(r.outbound.is_none());
    assert!(!r.exit);
}

#[test]
fn unknown_notification_is_ignored() {
    let mut session = Session::new();
    handshake(&mut session);
    let msg = Message::Notification {
        method: "textDocument/didSave".to_string(),
        payload: Payload::Irrelevant,
    };
    let r = handle_message(&mut session, msg);
    assert!(r.outbound.is_none());
}

#[test]
fn response_is_ignored() {
    let mut session = Session::new();
    handshake(&mut session);
    let msg = Message::Response { id: RequestId::Number(1) };
    let r = handle_message(&mut session, msg);
    assert!(r.outbound.is_none());
    assert!(!r.exit);
}

#[test]
fn undecoded_change_params_are_ignored() {
    let mut session = Session::new();
    handshake(&mut session);
    let msg = Message::Notification {
        method: "textDocument/didChange".to_string(),
        payload: Payload::Undecoded,
    };
    let r = handle_message(&mut session, msg);
    assert!(r.outbound.is_none());
}

#[test]
fn change_without_exactly_one_entry_is_ignored() {
    let mut session = Session::new();
    handshake(&mut session);
    let r = handle_message(&mut session, did_change("file://a.wgsl", 1, &[]));
    assert!(r.outbound.is_none());
    let r = handle_message(&mut session, did_change("file://a.wgsl", 2, &["fn main() {}", ""]));
    assert!(r.outbound.is_none());
}

#[test]
fn text_id_is_accepted_in_requests() {
    let mut session = Session::new();
    let msg = Message::Request { id: RequestId::Text("abc".to_string()), method: "initialize"
        .to_string() };
    let r = handle_message(&mut session, msg);
    match r.outbound {
        Some(Outbound::InitializeResult { id, .. }) => match id {
            RequestId::Text(t) => assert_eq!(t, "abc"),
            _ => panic!("expected the text identifier back"),
        },
        _ => panic!("expected an initialize result"),
    }
}
