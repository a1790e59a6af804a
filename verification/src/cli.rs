//! Command-line vocabularies: output formats, failure thresholds and starters.

use vstd::prelude::*;

verus! {

/// Output format of `audit`.
#[derive(Clone, Copy, Debug, PartialEq, Eq, Structural)]
pub enum AuditFormat {
    Human,
    Json,
    JsonStream,
}

/// Output format of `eval`.
#[derive(Clone, Copy, Debug, PartialEq, Eq, Structural)]
pub enum EvalFormat {
    Human,
    Json,
    JsonStream,
}

/// Output format of `build`, `check` and `serve`.
#[derive(Clone, Copy, Debug, PartialEq, Eq, Structural)]
pub enum DiagnosticFormat {
    Human,
    Json,
    JsonStream,
}

/// The least severe diagnostic that fails a command.
#[derive(Clone, Copy, Debug, PartialEq, Eq, Structural)]
pub enum FailOn {
    Error,
    Warn,
}

/// `errors` and `warnings` fail a run under the threshold `f`.
pub open spec fn spec_threshold_exceeded(f: FailOn, errors: nat, warnings: nat) -> bool {
    match f {
        FailOn::Error => errors > 0,
        FailOn::Warn => errors > 0 || warnings > 0,
    }
}

impl FailOn {
    pub fn threshold_exceeded(self, errors: usize, warnings: usize) -> (r: bool)
        ensures
            r == spec_threshold_exceeded(self, errors as nat, warnings as nat),
    {
        match self {
            FailOn::Error => errors > 0,
            FailOn::Warn => errors > 0 || warnings > 0,
        }
    }
}

impl AuditFormat {
    pub fn is_json(self) -> (r: bool)
        ensures
            r == (self != AuditFormat::Human),
    {
        matches!(self, AuditFormat::Json | AuditFormat::JsonStream)
    }

    pub fn is_json_stream(self) -> (r: bool)
        ensures
            r == (self == AuditFormat::JsonStream),
    {
        matches!(self, AuditFormat::JsonStream)
    }
}

impl EvalFormat {
    pub fn is_json(self) -> (r: bool)
        ensures
            r == (self != EvalFormat::Human),
    {
        matches!(self, EvalFormat::Json | EvalFormat::JsonStream)
    }

    pub fn is_json_stream(self) -> (r: bool)
        ensures
            r == (self == EvalFormat::JsonStream),
    {
        matches!(self, EvalFormat::JsonStream)
    }
}

impl DiagnosticFormat {
    pub fn is_json(self) -> (r: bool)
        ensures
            r == (self != DiagnosticFormat::Human),
    {
        matches!(self, DiagnosticFormat::Json | DiagnosticFormat::JsonStream)
    }

    pub fn is_json_stream(self) -> (r: bool)
        ensures
            r == (self == DiagnosticFormat::JsonStream),
    {
        matches!(self, DiagnosticFormat::JsonStream)
    }
}

/// The scaffold that `init` writes.
#[derive(Clone, Copy, Debug, PartialEq, Eq, Structural)]
pub enum InitStarter {
    AnswerFirst,
    AiReferenceLayer,
}

} // verus!
