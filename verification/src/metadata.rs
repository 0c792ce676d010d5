//! What the translation pass records beside the symbol table: proof harnesses
//! and diagnostics.

use crate::goto::{Location, LocationView};
use vstd::prelude::*;
use vstd::string::*;

verus! {

/// What is known of one proof harness.
#[derive(Debug, PartialEq, Eq)]
pub struct HarnessMetadata {
    /// The name that the user sees.
    pub pretty_name: String,
    /// The name of the function in the goto program.
    pub mangled_name: String,
    /// The file in which the harness is written.
    pub original_file: String,
    /// The line at which it starts, as a decimal numeral.
    pub original_line: String,
    /// The bound on unwinding, if one was asked for.
    pub unwind_value: Option<u32>,
}

pub ghost struct HarnessView {
    pub pretty_name: Seq<char>,
    pub mangled_name: Seq<char>,
    pub original_file: Seq<char>,
    pub original_line: Seq<char>,
    pub unwind_value: Option<u32>,
}

impl View for HarnessMetadata {
    type V = HarnessView;

    open spec fn view(&self) -> HarnessView {
        HarnessView {
            pretty_name: self.pretty_name@,
            mangled_name: self.mangled_name@,
            original_file: self.original_file@,
            original_line: self.original_line@,
            unwind_value: self.unwind_value,
        }
    }
}

impl Clone for HarnessMetadata {
    fn clone(&self) -> (res: Self)
        ensures
            res@ == self@,
    {
        HarnessMetadata {
            pretty_name: self.pretty_name.clone(),
            mangled_name: self.mangled_name.clone(),
            original_file: self.original_file.clone(),
            original_line: self.original_line.clone(),
            unwind_value: self.unwind_value,
        }
    }
}

/// How grave a diagnostic is.
#[derive(Clone, Copy, Debug, PartialEq, Eq)]
pub enum Level {
    /// The user made a mistake; the pass goes on.
    Error,
    /// Something unexpected that does no harm.
    Warning,
}

/// A message for the user, with the place it speaks of.
#[derive(Debug, PartialEq, Eq)]
pub struct Diagnostic {
    pub level: Level,
    pub span: Location,
    pub message: String,
}

pub ghost struct DiagnosticView {
    pub level: Level,
    pub span: LocationView,
    pub message: Seq<char>,
}

impl View for Diagnostic {
    type V = DiagnosticView;

    open spec fn view(&self) -> DiagnosticView {
        DiagnosticView { level: self.level, span: self.span@, message: self.message@ }
    }
}

impl Clone for Diagnostic {
    fn clone(&self) -> (res: Self)
        ensures
            res@ == self@,
    {
        Diagnostic { level: self.level, span: self.span.clone(), message: self.message.clone() }
    }
}

/// The error that `message` makes at `span`.
pub open spec fn error_at(span: LocationView, message: Seq<char>) -> DiagnosticView {
    DiagnosticView { level: Level::Error, span, message }
}

/// The warning that `message` makes at `span`.
pub open spec fn warning_at(span: LocationView, message: Seq<char>) -> DiagnosticView {
    DiagnosticView { level: Level::Warning, span, message }
}

impl Diagnostic {
    /// Makes an error.
    pub fn error(span: &Location, message: &str) -> (d: Diagnostic)
        ensures
            d@ == error_at(span@, message@),
    {
        Diagnostic { level: Level::Error, span: span.clone(), message: String::from_str(message) }
    }

    /// Makes a warning.
    pub fn warning(span: &Location, message: &str) -> (d: Diagnostic)
        ensures
            d@ == warning_at(span@, message@),
    {
        Diagnostic {
            level: Level::Warning,
            span: span.clone(),
            message: String::from_str(message),
        }
    }
}

} // verus!
