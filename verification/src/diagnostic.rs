//! What the analysis engine has to say about a source file.

use crate::source_location::{Place, SourceLocation};
use crate::text::{append_chars, chars_of, string_of};
use crate::types::CXDiagnosticSeverity;
use vstd::prelude::*;

verus! {

/// One finding of the analysis engine.
#[derive(Debug)]
pub struct Diagnostic {
    /// The name of the group of findings that this one belongs to.
    pub category: String,
    /// The place that the finding is about.
    pub location: SourceLocation,
    pub severity: CXDiagnosticSeverity,
    /// The message alone.
    pub spelling: String,
    /// The finding as the engine prints it: the place, the severity and
    /// the message.
    pub formatted: String,
}

/// A finding as a mathematical value.
pub struct Finding {
    pub category: Seq<char>,
    pub location: Place,
    pub severity: CXDiagnosticSeverity,
    pub spelling: Seq<char>,
    pub formatted: Seq<char>,
}

impl View for Diagnostic {
    type V = Finding;

    open spec fn view(&self) -> Finding {
        Finding {
            category: self.category@,
            location: self.location@,
            severity: self.severity,
            spelling: self.spelling@,
            formatted: self.formatted@,
        }
    }
}

/// The findings of a vector, as mathematical values.
pub open spec fn findings_view(v: Seq<Diagnostic>) -> Seq<Finding> {
    v.map_values(|d: Diagnostic| d@)
}

/// The finding that stands for a failure of the engine to read `file`. It is
/// fatal, belongs to no group and is about the file as a whole; its message
/// is what the engine said, and it prints as the file, the severity and the
/// message.
pub open spec fn engine_failure(file: Seq<char>, detail: Seq<char>) -> Finding {
    Finding {
        category: Seq::empty(),
        location: Place { file, line: 0, column: 0, offset: 0 },
        severity: CXDiagnosticSeverity::CXDiagnostic_Fatal,
        spelling: detail,
        formatted: file + ": fatal error: "@ + detail,
    }
}

impl Diagnostic {
    pub fn new(
        category: String,
        location: SourceLocation,
        severity: CXDiagnosticSeverity,
        spelling: String,
        formatted: String,
    ) -> (d: Diagnostic)
        ensures
            d == (Diagnostic { category, location, severity, spelling, formatted }),
    {
        Diagnostic { category, location, severity, spelling, formatted }
    }

    /// The finding that stands for a failure of the engine to read `file`.
    pub fn engine_failure(file: &str, detail: &str) -> (d: Diagnostic)
        ensures
            d@ == engine_failure(file@, detail@),
    {
        let mut formatted = chars_of(file);
        let severity = chars_of(": fatal error: ");
        let message = chars_of(detail);
        append_chars(&mut formatted, severity.as_slice());
        append_chars(&mut formatted, message.as_slice());
        Diagnostic {
            category: String::new(),
            location: SourceLocation {
                file: String::from_str(file),
                line: 0,
                column: 0,
                offset: 0,
            },
            severity: CXDiagnosticSeverity::CXDiagnostic_Fatal,
            spelling: String::from_str(detail),
            formatted: string_of(formatted.as_slice()),
        }
    }
}

} // verus!
