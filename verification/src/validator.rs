//! Validation of document text through the WGSL front end.
//!
//! The parse itself is an outside capability; the library names its outcome
//! with an uninterpreted function and works with that name. Everything after
//! the parse — choosing a fallback position when the front end reports none,
//! and packaging the error — is verified.

use vstd::prelude::*;

verus! {

/// The outcome of parsing a document text as WGSL. `None` means the text was
/// accepted. `Some((loc, msg))` means it was rejected with the human-readable
/// description `msg` and, when the front end reports one, the 1-based
/// (line, column) position `loc` of the error.
///
/// Parsing is a pure function of the text, so the outcome may be named.
pub uninterp spec fn wgsl_outcome(text: Seq<char>) -> Option<(Option<(u32, u32)>, Seq<char>)>;

/// The validator accepts the text: parsing it reports no error.
pub open spec fn accepted(text: Seq<char>) -> bool {
    wgsl_outcome(text) is None
}

/// The (line, column, description) triple of a rejected text, with
/// (1, 1) — the start of the document — standing in when the front end
/// reports no position. Line and column are 1-based.
pub open spec fn error_of(text: Seq<char>) -> (u32, u32, Seq<char>) {
    match wgsl_outcome(text) {
        Option::Some((loc, msg)) => match loc {
            Option::Some((line, column)) => (line, column, msg),
            Option::None => (1u32, 1u32, msg),
        },
        Option::None => (1u32, 1u32, Seq::empty()),
    }
}

/// A validation failure: a 1-based source position and a description.
pub struct ValidatorError {
    pub line: u32,
    pub column: u32,
    pub message: String,
}

/// A view of a validation failure with the description as a character
/// sequence.
#[verifier::ext_equal]
pub struct ValidatorErrorV {
    pub line: u32,
    pub column: u32,
    pub message: Seq<char>,
}

impl View for ValidatorError {
    type V = ValidatorErrorV;

    open spec fn view(&self) -> ValidatorErrorV {
        ValidatorErrorV { line: self.line, column: self.column, message: self.message@ }
    }
}

impl ValidatorError {
    /// Positions are 1-based, so both coordinates are at least 1.
    pub open spec fn wf(self) -> bool {
        self.line >= 1 && self.column >= 1
    }
}

/// Relies on naga::front::wgsl::parse_str and naga::front::wgsl::ParseError::location:
/// parsing is a pure function of the source text; a reported location carries a
/// 1-based line number and a 1-based column.
#[verifier::external_body]
fn parse_wgsl(text: &str) -> (r: Option<(Option<(u32, u32)>, String)>)
    ensures
        match (r, wgsl_outcome(text@)) {
            (Option::None, Option::None) => true,
            (Option::Some((loc, msg)), Option::Some(o)) => loc == o.0 && msg@ == o.1 && (match loc {
                Option::Some(p) => p.0 >= 1 && p.1 >= 1,
                Option::None => true,
            }),
            _ => false,
        },
{
    match naga::front::wgsl::parse_str(text) {
        Ok(_) => None,
        Err(e) => {
            let loc = e.location(text).map(|l| (l.line_number, l.line_position));
            Some((loc, format!("{:?}", e)))
        },
    }
}

/// Validate a document text. Returns `Ok(())` exactly when the WGSL front end
/// accepts the text, and otherwise the front end's error with its 1-based
/// position (or the start of the document, when no position is reported).
pub fn validate(text: &str) -> (r: Result<(), ValidatorError>)
    ensures
        r is Ok <==> accepted(text@),
        r matches Err(e) ==> e@.line == error_of(text@).0 && e@.column == error_of(text@).1
            && e@.message == error_of(text@).2 && e.wf(),
{
    match parse_wgsl(text) {
        Option::None => Ok(()),
        Option::Some((loc, msg)) => match loc {
            Option::Some((line, column)) => Err(ValidatorError { line, column, message: msg }),
            Option::None => Err(ValidatorError { line: 1, column: 1, message: msg }),
        },
    }
}

} // verus!
