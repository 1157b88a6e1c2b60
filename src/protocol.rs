//! The protocol-level values this core produces: diagnostics with their
//! line ranges, and the capability announcement returned on initialize.

use vstd::prelude::*;

verus! {

/// A zero-based line and character offset inside a document.
#[derive(Clone, Copy, Debug, PartialEq, Eq, Structural)]
pub struct Position {
    pub line: u32,
    pub character: u32,
}

/// A span between two positions, end exclusive.
#[derive(Clone, Copy, Debug, PartialEq, Eq, Structural)]
pub struct Range {
    pub start: Position,
    pub end: Position,
}

/// How serious a reported issue is.
#[derive(Clone, Copy, Debug, PartialEq, Eq, Structural)]
pub enum DiagnosticSeverity {
    Error,
    Warning,
    Information,
    Hint,
}

/// One finding reported to the client for a document.
#[derive(Clone, Debug)]
pub struct Diagnostic {
    pub range: Range,
    pub severity: DiagnosticSeverity,
    pub source: String,
    pub message: String,
}

/// The mathematical value of a [`Diagnostic`]: its strings as character
/// sequences.
pub struct DiagnosticView {
    pub range: Range,
    pub severity: DiagnosticSeverity,
    pub source: Seq<char>,
    pub message: Seq<char>,
}

impl View for Diagnostic {
    type V = DiagnosticView;

    open spec fn view(&self) -> DiagnosticView {
        DiagnosticView {
            range: self.range,
            severity: self.severity,
            source: self.source@,
            message: self.message@,
        }
    }
}

/// The views of a sequence of diagnostics, element by element.
pub open spec fn views_of(ds: Seq<Diagnostic>) -> Seq<DiagnosticView> {
    ds.map_values(|d: Diagnostic| d@)
}

/// How the client is to send document changes (no sync at all is an unset
/// capability).
#[derive(Clone, Copy, Debug, PartialEq, Eq, Structural)]
pub enum TextDocumentSyncKind {
    Full,
    Incremental,
}

/// What the server announces about pull diagnostics.
#[derive(Clone, Copy, Debug, PartialEq, Eq, Structural)]
pub struct DiagnosticOptions {
    pub inter_file_dependencies: bool,
    pub workspace_diagnostics: bool,
}

/// The part of the capability announcement that this server fills in; every
/// other capability is left unset.
#[derive(Clone, Copy, Debug, PartialEq, Eq, Structural)]
pub struct ServerCapabilities {
    pub text_document_sync: Option<TextDocumentSyncKind>,
    pub diagnostic_provider: Option<DiagnosticOptions>,
}

/// The capabilities this server announces: full-document sync, and a
/// diagnostics provider without inter-file dependencies or workspace-wide
/// diagnostics.
pub open spec fn announced_capabilities() -> ServerCapabilities {
    ServerCapabilities {
        text_document_sync: Some(TextDocumentSyncKind::Full),
        diagnostic_provider: Some(
            DiagnosticOptions { inter_file_dependencies: false, workspace_diagnostics: false },
        ),
    }
}

/// Builds the capability announcement returned from initialize.
pub fn server_capabilities() -> (r: ServerCapabilities)
    ensures
        r == announced_capabilities(),
{
    ServerCapabilities {
        text_document_sync: Some(TextDocumentSyncKind::Full),
        diagnostic_provider: Some(
            DiagnosticOptions { inter_file_dependencies: false, workspace_diagnostics: false },
        ),
    }
}

} // verus!
