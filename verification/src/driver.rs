//! The loop driver: what each inbound message does to the session and what,
//! if anything, goes out in reply.
//!
//! `step_spec` is the mathematical step function of the protocol: from a
//! session state and a message to the next state, the outbound message (if
//! any) and whether the loop is to exit. `handle_message` is its executable
//! counterpart and is proved to follow it exactly. The surrounding binary
//! only pulls messages from the transport, hands each to `handle_message`,
//! sends what comes back, and stops when told to.

use vstd::prelude::*;

use crate::diagnostics::{translate, translate_spec, DiagnosticV, PublishParams, PublishV};
use crate::messages::{DidChangeParams, DocumentId, Message, MethodKind, Payload, RequestId};
use crate::messages::classify_method;
use crate::messages::method_kind;
use crate::session::{Session, SessionState};
use crate::validator::{accepted, error_of, validate};

verus! {

/// What the server declares it can do: it always expects the complete
/// document text on every change (full-document synchronization), never an
/// incremental edit.
pub struct Capabilities {
    pub full_document_sync: bool,
}

/// The capabilities this server declares in its `initialize` response.
pub fn declared_capabilities() -> (c: Capabilities)
    ensures
        c.full_document_sync,
{
    Capabilities { full_document_sync: true }
}

/// An outbound message. A reply to `initialize` carries the declared
/// capabilities; a reply to `shutdown` carries an empty result; a
/// diagnostics publication is a notification.
pub enum Outbound {
    InitializeResult { id: RequestId, capabilities: Capabilities },
    ShutdownResult { id: RequestId },
    Publish { params: PublishParams },
}

/// A view of an outbound message, with the diagnostics batch abstracted.
#[verifier::ext_equal]
pub enum OutboundV {
    InitializeResult { id: RequestId, capabilities: Capabilities },
    ShutdownResult { id: RequestId },
    Publish { params: PublishV },
}

impl View for Outbound {
    type V = OutboundV;

    open spec fn view(&self) -> OutboundV {
        match self {
            Outbound::InitializeResult { id, capabilities } => OutboundV::InitializeResult {
                id: *id,
                capabilities: *capabilities,
            },
            Outbound::ShutdownResult { id } => OutboundV::ShutdownResult { id: *id },
            Outbound::Publish { params } => OutboundV::Publish { params: params@ },
        }
    }
}

/// What one step of the loop produced: the outbound message, if any, and
/// whether the loop is to exit.
pub struct StepResult {
    pub outbound: Option<Outbound>,
    pub exit: bool,
}

/// A view of one step: the session state after it, the outbound message (as
/// a view), and whether the loop is to exit.
#[verifier::ext_equal]
pub struct StepV {
    pub state: SessionState,
    pub outbound: Option<OutboundV>,
    pub exit: bool,
}

/// The view of an optional outbound message.
pub open spec fn opt_outbound_view(o: Option<Outbound>) -> Option<OutboundV> {
    match o {
        Option::Some(out) => Option::Some(out@),
        Option::None => Option::None,
    }
}

/// A step that leaves the state as it was and sends nothing.
pub open spec fn ignore_step(s: SessionState) -> StepV {
    StepV { state: s, outbound: Option::None, exit: false }
}

/// The diagnostics found in a document text: none when the validator accepts
/// it, and exactly one Error-severity record at the reported position when it
/// rejects it.
pub open spec fn diags_for(text: Seq<char>) -> Seq<DiagnosticV> {
    if accepted(text) {
        Seq::empty()
    } else {
        seq![translate_spec(error_of(text).0, error_of(text).1, error_of(text).2)]
    }
}

/// The diagnostics batch published for one validated snapshot: the
/// document's own URI and version, and the diagnostics found in its text.
pub open spec fn publish_for(doc: DocumentId, text: Seq<char>) -> PublishV {
    PublishV { uri: doc.uri@, version: doc.version, diagnostics: diags_for(text) }
}

/// The step function of the protocol.
///
/// - Awaiting `initialize`: an `initialize` request is answered with the
///   declared capabilities and the session then awaits `initialized`;
///   everything else is ignored.
/// - Awaiting `initialized`: the `initialized` notification completes the
///   handshake; everything else is ignored.
/// - Initialized: a `shutdown` request is acknowledged and the loop exits; a
///   document-change notification whose parameters decoded and hold exactly
///   one content change (the full-synchronization contract) has its text
///   validated and a diagnostics batch published; everything else — other
///   requests, responses, other notifications, a change notification with
///   zero or several content changes — is ignored.
/// - Shutting down: nothing further is acted on.
pub open spec fn step_spec(s: SessionState, m: Message) -> StepV {
    match s {
        SessionState::AwaitingInitialize => match m {
            Message::Request { id, method } => {
                if method_kind(method@) is Initialize {
                    StepV {
                        state: SessionState::AwaitingInitialized,
                        outbound: Option::Some(
                            OutboundV::InitializeResult {
                                id: id,
                                capabilities: Capabilities { full_document_sync: true },
                            },
                        ),
                        exit: false,
                    }
                } else {
                    ignore_step(s)
                }
            },
            _ => ignore_step(s),
        },
        SessionState::AwaitingInitialized => match m {
            Message::Notification { method, payload } => {
                if method_kind(method@) is Initialized {
                    StepV { state: SessionState::Initialized, outbound: Option::None, exit: false }
                } else {
                    ignore_step(s)
                }
            },
            _ => ignore_step(s),
        },
        SessionState::Initialized => match m {
            Message::Request { id, method } => {
                if method_kind(method@) is Shutdown {
                    StepV {
                        state: SessionState::ShuttingDown,
                        outbound: Option::Some(OutboundV::ShutdownResult { id: id }),
                        exit: true,
                    }
                } else {
                    ignore_step(s)
                }
            },
            Message::Notification { method, payload } => {
                if method_kind(method@) is DidChange {
                    match payload {
                        Payload::DidChange(p) => {
                            if p.changes.len() == 1 {
                                StepV {
                                    state: s,
                                    outbound: Option::Some(
                                        OutboundV::Publish {
                                            params: publish_for(p.document, p.changes@[0]@),
                                        },
                                    ),
                                    exit: false,
                                }
                            } else {
                                ignore_step(s)
                            }
                        },
                        _ => ignore_step(s),
                    }
                } else {
                    ignore_step(s)
                }
            },
            _ => ignore_step(s),
        },
        SessionState::ShuttingDown => ignore_step(s),
    }
}

/// Validate one document snapshot and build its diagnostics batch.
fn publish_snapshot(doc: DocumentId, text: &String) -> (params: PublishParams)
    ensures
        params@ == publish_for(doc, text@),
{
    let res = validate(text.as_str());
    let mut diags: Vec<crate::diagnostics::DiagnosticRecord> = Vec::new();
    match res {
        Ok(()) => {},
        Err(e) => {
            let d = translate(&e);
            diags.push(d);
        },
    }
    let params = PublishParams { uri: doc.uri, version: doc.version, diagnostics: diags };
    proof {
        assert(params@.diagnostics =~= diags_for(text@));
        assert(params@ =~= publish_for(doc, text@));
    }
    params
}

/// Process one inbound message: move the session along `step_spec`, and
/// return the outbound message (if any) and whether the loop is to exit.
pub fn handle_message(session: &mut Session, msg: Message) -> (r: StepResult)
    ensures
        ({
            let st = step_spec(old(session).state, msg);
            final(session).state == st.state && r.exit == st.exit && opt_outbound_view(r.outbound)
                == st.outbound
        }),
{
    match msg {
        Message::Request { id, method } => {
            let kind = classify_method(&method);
            match (&session.state, kind) {
                (SessionState::AwaitingInitialize, MethodKind::Initialize) => {
                    session.state = SessionState::AwaitingInitialized;
                    StepResult {
                        outbound: Option::Some(
                            Outbound::InitializeResult {
                                id,
                                capabilities: declared_capabilities(),
                            },
                        ),
                        exit: false,
                    }
                },
                (SessionState::Initialized, MethodKind::Shutdown) => {
                    session.state = SessionState::ShuttingDown;
                    StepResult {
                        outbound: Option::Some(Outbound::ShutdownResult { id }),
                        exit: true,
                    }
                },
                _ => StepResult { outbound: Option::None, exit: false },
            }
        },
        Message::Response { id } => StepResult { outbound: Option::None, exit: false },
        Message::Notification { method, payload } => {
            let kind = classify_method(&method);
            match (&session.state, kind) {
                (SessionState::AwaitingInitialized, MethodKind::Initialized) => {
                    session.state = SessionState::Initialized;
                    StepResult { outbound: Option::None, exit: false }
                },
                (SessionState::Initialized, MethodKind::DidChange) => match payload {
                    Payload::DidChange(p) => {
                        if p.changes.len() == 1 {
                            let DidChangeParams { document, mut changes } = p;
                            let text = changes.pop().unwrap();
                            let params = publish_snapshot(document, &text);
                            StepResult {
                                outbound: Option::Some(Outbound::Publish { params }),
                                exit: false,
                            }
                        } else {
                            StepResult { outbound: Option::None, exit: false }
                        }
                    },
                    _ => StepResult { outbound: Option::None, exit: false },
                },
                _ => StepResult { outbound: Option::None, exit: false },
            }
        },
    }
}

} // verus!
