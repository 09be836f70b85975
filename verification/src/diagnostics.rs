//! Translation of validation failures into protocol diagnostic records.
//!
//! The validator reports a 1-based (line, column) position; a diagnostic
//! range is 0-based. The start of the range is the exact error location; the
//! end is a heuristic — same line, a fixed span past the reported column —
//! because the validator reports no end position.

use vstd::prelude::*;

use crate::validator::ValidatorError;

verus! {

/// A 0-based position in a document: line and character (column).
pub struct Position {
    pub line: u32,
    pub character: u32,
}

/// A 0-based range in a document, from `start` up to `end`.
pub struct SourceRange {
    pub start: Position,
    pub end: Position,
}

/// The severity of a diagnostic.
pub enum Severity {
    Error,
    Warning,
    Information,
    Hint,
}

/// A diagnostic: a 0-based range, a severity, and a human-readable message.
pub struct DiagnosticRecord {
    pub range: SourceRange,
    pub severity: Severity,
    pub message: String,
}

/// A view of a diagnostic with the message as a character sequence.
#[verifier::ext_equal]
pub struct DiagnosticV {
    pub range: SourceRange,
    pub severity: Severity,
    pub message: Seq<char>,
}

impl View for DiagnosticRecord {
    type V = DiagnosticV;

    open spec fn view(&self) -> DiagnosticV {
        DiagnosticV { range: self.range, severity: self.severity, message: self.message@ }
    }
}

/// A batch of diagnostics for one snapshot of one document: the document's
/// URI, the version of the snapshot that was validated, and the diagnostics
/// (possibly none) found in it.
pub struct PublishParams {
    pub uri: String,
    pub version: i32,
    pub diagnostics: Vec<DiagnosticRecord>,
}

/// A view of a diagnostics batch.
#[verifier::ext_equal]
pub struct PublishV {
    pub uri: Seq<char>,
    pub version: i32,
    pub diagnostics: Seq<DiagnosticV>,
}

impl View for PublishParams {
    type V = PublishV;

    open spec fn view(&self) -> PublishV {
        PublishV {
            uri: self.uri@,
            version: self.version,
            diagnostics: self.diagnostics@.map_values(|d: DiagnosticRecord| d@),
        }
    }
}

/// The heuristic end column of a diagnostic whose start column (1-based) is
/// `column`: a fixed span of 100 characters past the 0-based start, capped at
/// the largest representable column.
pub open spec fn end_character(column: u32) -> u32 {
    if column + 99 <= u32::MAX {
        (column + 99) as u32
    } else {
        u32::MAX
    }
}

/// What translating a validation failure at 1-based (line, column) with
/// description `message` yields: the range starts at the exact 0-based error
/// location, ends on the same line a fixed span later, and the severity is
/// always Error.
pub open spec fn translate_spec(line: u32, column: u32, message: Seq<char>) -> DiagnosticV
    recommends
        line >= 1,
        column >= 1,
{
    DiagnosticV {
        range: SourceRange {
            start: Position { line: (line - 1) as u32, character: (column - 1) as u32 },
            end: Position { line: (line - 1) as u32, character: end_character(column) },
        },
        severity: Severity::Error,
        message: message,
    }
}

/// Translate a validation failure into a diagnostic record. The start of the
/// range is the exact error location, converted from 1-based to 0-based; the
/// severity is Error; the message is carried over whole.
pub fn translate(err: &ValidatorError) -> (d: DiagnosticRecord)
    requires
        err.wf(),
    ensures
        d@ == translate_spec(err.line, err.column, err.message@),
        d.range.start.line == err.line - 1,
        d.range.start.character == err.column - 1,
        d.severity is Error,
        d.message@ == err.message@,
{
    let end_col: u32 = if err.column <= u32::MAX - 99 {
        err.column + 99
    } else {
        u32::MAX
    };
    DiagnosticRecord {
        range: SourceRange {
            start: Position { line: err.line - 1, character: err.column - 1 },
            end: Position { line: err.line - 1, character: end_col },
        },
        severity: Severity::Error,
        message: err.message.clone(),
    }
}

} // verus!
