//! The inbound message model and the method classifier.
//!
//! A message is a request (it carries an identifier and expects a reply), a
//! response, or a notification. Method names arrive as strings; the
//! classifier maps each to the method the server knows, or to `Other`. The
//! parameters of a document-change notification are decoded outside the
//! library; a recognized method whose parameters failed to decode arrives
//! with an `Undecoded` payload and is left unhandled.

use vstd::prelude::*;

verus! {

/// A request identifier: the protocol allows integers and strings.
pub enum RequestId {
    Number(i64),
    Text(String),
}

/// A document snapshot identifier: a URI and a version number that grows
/// with each change. Every diagnostics batch echoes both.
pub struct DocumentId {
    pub uri: String,
    pub version: i32,
}

/// The parameters of a document-change notification: the document snapshot
/// it announces and the content changes. Under full-document
/// synchronization, exactly one change holding the complete new text is
/// expected.
pub struct DidChangeParams {
    pub document: DocumentId,
    pub changes: Vec<String>,
}

/// The decoded payload of a notification. `DidChange` carries the parameters
/// of a document-change notification; `Undecoded` stands for parameters that
/// could not be decoded for the method they arrived under; `Irrelevant` is
/// the payload of every method the server does not dispatch on.
pub enum Payload {
    DidChange(DidChangeParams),
    Undecoded,
    Irrelevant,
}

/// An inbound message, classified by shape: a request carries an identifier
/// and a method, a response answers a request this server never sent, a
/// notification carries a method and a payload and expects no reply.
pub enum Message {
    Request { id: RequestId, method: String },
    Response { id: RequestId },
    Notification { method: String, payload: Payload },
}

/// The methods this server recognizes.
pub enum MethodKind {
    Initialize,
    Initialized,
    DidChange,
    Shutdown,
    Other,
}

/// Which recognized method a method name denotes.
pub open spec fn method_kind(m: Seq<char>) -> MethodKind {
    if m == "initialize"@ {
        MethodKind::Initialize
    } else if m == "initialized"@ {
        MethodKind::Initialized
    } else if m == "textDocument/didChange"@ {
        MethodKind::DidChange
    } else if m == "shutdown"@ {
        MethodKind::Shutdown
    } else {
        MethodKind::Other
    }
}

/// Classify a method name: the recognized method it denotes, or `Other`.
pub fn classify_method(m: &String) -> (k: MethodKind)
    ensures
        k == method_kind(m@),
{
    if *m == "initialize".to_owned() {
        MethodKind::Initialize
    } else if *m == "initialized".to_owned() {
        MethodKind::Initialized
    } else if *m == "textDocument/didChange".to_owned() {
        MethodKind::DidChange
    } else if *m == "shutdown".to_owned() {
        MethodKind::Shutdown
    } else {
        MethodKind::Other
    }
}

} // verus!
