//! Laws of the protocol loop, stated over the step function and proved once
//! and for all.
//!
//! `run_spec` models a whole sitting of the loop: the outcomes of processing
//! a sequence of inbound messages in arrival order, stopping after the step
//! that asks for exit. The proof functions below state what the protocol
//! guarantees of any such run.

use vstd::prelude::*;

use crate::diagnostics::{translate_spec, DiagnosticV};
use crate::messages::{DidChangeParams, Message, Payload, RequestId};
use crate::messages::method_kind;
use crate::driver::{diags_for, publish_for, step_spec, OutboundV, StepV};
use crate::session::SessionState;
use crate::validator::{accepted, error_of};

verus! {

/// The outcomes of processing `msgs` in order, starting in state `s`: one
/// step per message, in arrival order, and nothing after a step that asks
/// for exit.
pub open spec fn run_spec(s: SessionState, msgs: Seq<Message>) -> Seq<StepV>
    decreases msgs.len(),
{
    if msgs.len() == 0 {
        Seq::empty()
    } else {
        let st = step_spec(s, msgs[0]);
        if st.exit {
            seq![st]
        } else {
            seq![st] + run_spec(st.state, msgs.drop_first())
        }
    }
}

/// The session state in which message `i` of `msgs` is processed, starting
/// from state `s`.
pub open spec fn state_before(s: SessionState, msgs: Seq<Message>, i: int) -> SessionState
    decreases i,
{
    if i <= 0 {
        s
    } else {
        step_spec(state_before(s, msgs, i - 1), msgs[i - 1]).state
    }
}

/// Messages are processed strictly in arrival order: the run has at most one
/// outcome per message, and its `i`-th outcome is exactly the step taken on
/// the `i`-th message, in the state the first `i` messages left behind. In
/// particular, whatever is published for a message comes before whatever is
/// published for any later one.
pub proof fn lemma_run_in_order(s: SessionState, msgs: Seq<Message>)
    ensures
        run_spec(s, msgs).len() <= msgs.len(),
        forall|i: int|
            0 <= i < run_spec(s, msgs).len() ==> run_spec(s, msgs)[i] == step_spec(
                state_before(s, msgs, i),
                msgs[i],
            ),
    decreases msgs.len(),
{
    if msgs.len() == 0 {
    } else {
        let st = step_spec(s, msgs[0]);
        if st.exit {
        } else {
            let rest = msgs.drop_first();
            lemma_run_in_order(st.state, rest);
            assert forall|i: int| 0 <= i < run_spec(s, msgs).len() implies run_spec(s, msgs)[i]
                == step_spec(state_before(s, msgs, i), msgs[i]) by {
                if i == 0 {
                } else {
                    lemma_state_before_shift(s, msgs, i);
                    assert(run_spec(st.state, rest)[i - 1] == step_spec(
                        state_before(st.state, rest, i - 1),
                        rest[i - 1],
                    ));
                }
            }
        }
    }
}

/// Dropping the first message shifts the state-before function by one.
proof fn lemma_state_before_shift(s: SessionState, msgs: Seq<Message>, i: int)
    requires
        1 <= i <= msgs.len(),
    ensures
        state_before(s, msgs, i) == state_before(
            step_spec(s, msgs[0]).state,
            msgs.drop_first(),
            i - 1,
        ),
    decreases i,
{
    if i == 1 {
    } else {
        lemma_state_before_shift(s, msgs, i - 1);
    }
}

/// A diagnostics batch goes out only once the handshake has completed: a
/// step that publishes was taken in the `Initialized` state, on a
/// document-change notification.
pub proof fn lemma_dispatch_needs_handshake(s: SessionState, m: Message)
    ensures
        step_spec(s, m).outbound matches Option::Some(OutboundV::Publish { .. }) ==> s
            is Initialized && (m matches Message::Notification { method, payload }
            && method_kind(method@) is DidChange),
{
}

/// A well-formed handshake succeeds: starting from a fresh session, an
/// `initialize` request followed by the `initialized` notification is
/// answered with the declared capabilities, reaches the `Initialized` state,
/// and only from then on are document changes dispatched (by
/// `lemma_dispatch_needs_handshake`).
pub proof fn lemma_handshake(id: RequestId, init_method: String, inited_method: String, rest: Seq<
    Message,
>)
    requires
        method_kind(init_method@) is Initialize,
        method_kind(inited_method@) is Initialized,
    ensures
        ({
            let msgs = seq![
                Message::Request { id: id, method: init_method },
                Message::Notification { method: inited_method, payload: Payload::Irrelevant },
            ] + rest;
            let run = run_spec(SessionState::AwaitingInitialize, msgs);
            run.len() >= 2 && run[0].state is AwaitingInitialized && (run[0].outbound matches
            Option::Some(OutboundV::InitializeResult { id: rid, capabilities })
                && rid == id
                && capabilities.full_document_sync) && run[1].state is Initialized
                && run[1].outbound is None
        }),
{
    let msgs = seq![
        Message::Request { id: id, method: init_method },
        Message::Notification { method: inited_method, payload: Payload::Irrelevant },
    ] + rest;
    let tail = msgs.drop_first();
    assert(msgs[0] == Message::Request { id: id, method: init_method });
    assert(tail[0] == Message::Notification {
        method: inited_method,
        payload: Payload::Irrelevant,
    });
    let st0 = step_spec(SessionState::AwaitingInitialize, msgs[0]);
    let st1 = step_spec(st0.state, tail[0]);
    assert(!st0.exit && !st1.exit);
    assert(run_spec(SessionState::AwaitingInitialize, msgs) == seq![st0] + run_spec(
        st0.state,
        tail,
    ));
    assert(run_spec(st0.state, tail) == seq![st1] + run_spec(st1.state, tail.drop_first()));
    assert(run_spec(st0.state, tail)[0] == st1);
    assert(run_spec(SessionState::AwaitingInitialize, msgs)[1] == st1);
}

/// A document text the validator accepts yields a publication with an empty
/// diagnostics sequence, tagged with the triggering change's own URI and
/// version.
pub proof fn lemma_accepted_clears_diagnostics(method: String, p: DidChangeParams)
    requires
        method_kind(method@) is DidChange,
        p.changes.len() == 1,
        accepted(p.changes@[0]@),
    ensures
        ({
            let st = step_spec(
                SessionState::Initialized,
                Message::Notification { method: method, payload: Payload::DidChange(p) },
            );
            st.outbound matches Option::Some(OutboundV::Publish { params }) && params.diagnostics
                =~= Seq::<DiagnosticV>::empty() && params.uri == p.document.uri@ && params.version
                == p.document.version && st.state is Initialized && !st.exit
        }),
{
}

/// A document text the validator rejects at 1-based position (L, C) yields a
/// publication with exactly one diagnostic, whose range starts at the
/// 0-based position (L - 1, C - 1) and whose severity is Error, tagged with
/// the triggering change's own URI and version.
pub proof fn lemma_rejected_positions_diagnostic(method: String, p: DidChangeParams)
    requires
        method_kind(method@) is DidChange,
        p.changes.len() == 1,
        !accepted(p.changes@[0]@),
        // the validator reports 1-based positions, which `validate` guarantees
        // of every error it returns
        error_of(p.changes@[0]@).0 >= 1,
        error_of(p.changes@[0]@).1 >= 1,
    ensures
        ({
            let st = step_spec(
                SessionState::Initialized,
                Message::Notification { method: method, payload: Payload::DidChange(p) },
            );
            let err = error_of(p.changes@[0]@);
            st.outbound matches Option::Some(OutboundV::Publish { params })
                && params.diagnostics.len() == 1 && params.diagnostics[0].range.start.line
                == err.0 - 1 && params.diagnostics[0].range.start.character == err.1 - 1
                && params.diagnostics[0].severity is Error && params.diagnostics[0].message == err.2
                && params.uri == p.document.uri@ && params.version == p.document.version
        }),
{
    let text = p.changes@[0]@;
    assert(diags_for(text) == seq![
        translate_spec(error_of(text).0, error_of(text).1, error_of(text).2),
    ]);
}

/// Translation is a pure function of the validator's outcome: two
/// document-change notifications that carry the same text for the same
/// document snapshot are answered with identical publications, however many
/// times and in whatever order they arrive.
pub proof fn lemma_publication_deterministic(
    m1: String,
    p1: DidChangeParams,
    m2: String,
    p2: DidChangeParams,
)
    requires
        method_kind(m1@) is DidChange,
        method_kind(m2@) is DidChange,
        p1.changes.len() == 1,
        p2.changes.len() == 1,
        p1.changes@[0]@ == p2.changes@[0]@,
        p1.document.uri@ == p2.document.uri@,
        p1.document.version == p2.document.version,
    ensures
        step_spec(
            SessionState::Initialized,
            Message::Notification { method: m1, payload: Payload::DidChange(p1) },
        ).outbound == step_spec(
            SessionState::Initialized,
            Message::Notification { method: m2, payload: Payload::DidChange(p2) },
        ).outbound,
{
    assert(publish_for(p1.document, p1.changes@[0]@) =~= publish_for(
        p2.document,
        p2.changes@[0]@,
    ));
}

/// The loop exits only by acknowledging a shutdown request: a step that asks
/// for exit was taken on a `shutdown` request in the `Initialized` state,
/// and its one outbound message is the acknowledgement, carrying the
/// request's own identifier.
pub proof fn lemma_exit_acknowledges_shutdown(s: SessionState, m: Message)
    ensures
        step_spec(s, m).exit ==> s is Initialized && (m matches Message::Request { id, method }
            && method_kind(method@) is Shutdown && step_spec(s, m).outbound == Option::Some(
            OutboundV::ShutdownResult { id: id },
        )) && step_spec(s, m).state is ShuttingDown,
{
}

/// After the step that acknowledges shutdown, nothing further is processed:
/// an outcome that asks for exit is the last outcome of the run.
pub proof fn lemma_nothing_after_exit(s: SessionState, msgs: Seq<Message>, i: int)
    requires
        0 <= i < run_spec(s, msgs).len(),
        run_spec(s, msgs)[i].exit,
    ensures
        run_spec(s, msgs).len() == i + 1,
    decreases msgs.len(),
{
    if msgs.len() == 0 {
    } else {
        let st = step_spec(s, msgs[0]);
        if st.exit {
        } else {
            if i == 0 {
            } else {
                lemma_nothing_after_exit(st.state, msgs.drop_first(), i - 1);
            }
        }
    }
}

} // verus!
