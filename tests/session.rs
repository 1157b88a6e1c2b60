use std::sync::Arc;

use lsp_playground::protocol::{
    DiagnosticOptions, DiagnosticSeverity, ServerCapabilities, TextDocumentSyncKind,
};
use lsp_playground::session::{Action, Event, ServerState, Session};

fn s(x: &str) -> String {
    x.to_string()
}

fn started() -> Session {
    let mut session = Session::new();
    session.initialize();
    let r = session.initialized();
    assert_eq!(r.len(), 1);
    session
}

fn expected_capabilities() -> ServerCapabilities {
    ServerCapabilities {
        text_document_sync: Some(TextDocumentSyncKind::Full),
        diagnostic_provider: Some(DiagnosticOptions {
            inter_file_dependencies: false,
            workspace_diagnostics: false,
        }),
    }
}

fn publish_of(a: &Action) -> (&String, Vec<(u32, u32, u32, u32)>) {
    match a {
        Action::Publish { uri, diagnostics } => {
            let ranges = diagnostics
                .iter()
                .map(|d| {
                    assert_eq!(d.severity, DiagnosticSeverity::Warning);
                    assert_eq!(d.source, "todo-checker");
                    assert_eq!(d.message, "TODO found");
                    (d.range.start.line, d.range.start.character, d.range.end.line, d.range.end.character)
                })
                .collect();
            (uri, ranges)
        }
        other => panic!("expected a publication, got {:?}", other),
    }
}

fn log_of(a: &Action) -> &String {
    match a {
        Action::Log(m) => m,
        other => panic!("expected a log message, got {:?}", other),
    }
}

#[test]
fn initialize_announces_full_sync_and_diagnostics() {
    let mut session = Session::new();
    assert_eq!(session.initialize(), expected_capabilities());
    assert_eq!(session.state(), ServerState::InitializePending);
    assert_eq!(session.initialize(), expected_capabilities());
    assert_eq!(session.state(), ServerState::InitializePending);
}

#[test]
fn handle_initialize_replies_with_capabilities() {
    let mut session = Session::new();
    let r = session.handle(Event::Initialize);
    assert_eq!(r.len(), 1);
    match &r[0] {
        Action::Capabilities(c) => assert_eq!(*c, expected_capabilities()),
        other => panic!("expected capabilities, got {:?}", other),
    }
}

#[test]
fn initialized_logs_startup_once() {
    let mut session = Session::new();
    assert!(session.initialized().is_empty());
    session.initialize();
    let r = session.initialized();
    assert_eq!(r.len(), 1);
    assert_eq!(log_of(&r[0]), "lsp_playground server initialized!");
    assert_eq!(session.state(), ServerState::Initialized);
    assert!(session.initialized().is_empty());
}

#[test]
fn open_stores_text_without_publishing() {
    let mut session = started();
    let r = session.did_open(s("file:///a.txt"), s("line0\nline1 TODO\nline2"));
    assert_eq!(r.len(), 1);
    assert_eq!(log_of(&r[0]), "did_open: file:///a.txt");
    assert_eq!(
        session.document(&s("file:///a.txt")),
        Some(s("line0\nline1 TODO\nline2"))
    );
}

#[test]
fn change_publishes_diagnostics_of_new_text() {
    let mut session = started();
    session.did_open(s("file:///a.txt"), s("line0\nline1 TODO\nline2"));
    let r = session.did_change(s("file:///a.txt"), vec![s("a TODO\nb\nc TODO")]);
    assert_eq!(r.len(), 2);
    assert_eq!(log_of(&r[0]), "did_change: file:///a.txt");
    let (uri, ranges) = publish_of(&r[1]);
    assert_eq!(uri, "file:///a.txt");
    assert_eq!(ranges, vec![(0, 0, 0, 6), (2, 0, 2, 6)]);
    assert_eq!(session.document(&s("file:///a.txt")), Some(s("a TODO\nb\nc TODO")));
}

#[test]
fn empty_change_batch_is_a_no_op() {
    let mut session = started();
    session.did_open(s("file:///a.txt"), s("x TODO"));
    let r = session.did_change(s("file:///a.txt"), vec![]);
    assert!(r.is_empty());
    assert_eq!(session.document(&s("file:///a.txt")), Some(s("x TODO")));
}

#[test]
fn only_first_change_entry_is_read() {
    let mut session = started();
    let r = session.did_change(s("file:///a.txt"), vec![s("one\nTODO"), s("TODO two")]);
    assert_eq!(r.len(), 2);
    let (_, ranges) = publish_of(&r[1]);
    assert_eq!(ranges, vec![(1, 0, 1, 4)]);
    assert_eq!(session.document(&s("file:///a.txt")), Some(s("one\nTODO")));
}

#[test]
fn change_of_unopened_document_stores_it() {
    let mut session = started();
    let r = session.did_change(s("file:///new.txt"), vec![s("plain")]);
    let (uri, ranges) = publish_of(&r[1]);
    assert_eq!(uri, "file:///new.txt");
    assert!(ranges.is_empty());
    assert_eq!(session.document(&s("file:///new.txt")), Some(s("plain")));
}

#[test]
fn unknown_document_has_no_diagnostics() {
    let session = started();
    assert_eq!(session.document(&s("file:///none.txt")), None);
    assert!(session.diagnostics_for(&s("file:///none.txt")).is_empty());
}

#[test]
fn documents_ignored_before_initialize() {
    let mut session = Session::new();
    assert!(session.did_open(s("file:///a.txt"), s("TODO")).is_empty());
    assert!(session.did_change(s("file:///a.txt"), vec![s("TODO")]).is_empty());
    assert_eq!(session.document(&s("file:///a.txt")), None);
}

#[test]
fn documents_accepted_while_initialize_pending() {
    let mut session = Session::new();
    session.initialize();
    assert_eq!(session.did_open(s("file:///a.txt"), s("t")).len(), 1);
    assert_eq!(session.document(&s("file:///a.txt")), Some(s("t")));
}

#[test]
fn shutdown_acknowledges_and_stops_document_handling() {
    let mut session = started();
    session.did_open(s("file:///a.txt"), s("kept"));
    let r = session.handle(Event::Shutdown);
    assert_eq!(r.len(), 1);
    assert!(matches!(r[0], Action::Acknowledge));
    assert_eq!(session.state(), ServerState::ShuttingDown);
    assert!(session.did_change(s("file:///a.txt"), vec![s("TODO")]).is_empty());
    assert_eq!(session.document(&s("file:///a.txt")), Some(s("kept")));
    assert!(session.handle(Event::TransportClosed).is_empty());
    assert_eq!(session.state(), ServerState::Terminated);
    session.shutdown();
    assert_eq!(session.state(), ServerState::Terminated);
}

#[test]
fn handle_routes_document_events() {
    let mut session = Session::new();
    session.handle(Event::Initialize);
    session.handle(Event::Initialized);
    let r = session.handle(Event::DidOpen { uri: s("file:///a.txt"), text: s("a") });
    assert_eq!(r.len(), 1);
    let r = session.handle(Event::DidChange { uri: s("file:///a.txt"), changes: vec![s("TODO")] });
    let (_, ranges) = publish_of(&r[1]);
    assert_eq!(ranges, vec![(0, 0, 0, 4)]);
}

#[test]
fn concurrent_changes_to_distinct_documents() {
    let runtime = tokio::runtime::Runtime::new().unwrap();
    let published = runtime.block_on(async {
        let session = Arc::new(tokio::sync::RwLock::new(started()));
        let tasks: Vec<_> = [("file:///a.txt", "TODO a"), ("file:///b.txt", "b\nb\nTODO b\nTODO")]
            .into_iter()
            .map(|(uri, text)| {
                let session = Arc::clone(&session);
                tokio::spawn(async move {
                    let actions = session.write().await.did_change(s(uri), vec![s(text)]);
                    let (u, ranges) = publish_of(&actions[1]);
                    (u.clone(), ranges)
                })
            })
            .collect();
        let mut published = Vec::new();
        for t in tasks {
            published.push(t.await.unwrap());
        }
        let session = session.read().await;
        assert_eq!(session.document(&s("file:///a.txt")), Some(s("TODO a")));
        assert_eq!(session.document(&s("file:///b.txt")), Some(s("b\nb\nTODO b\nTODO")));
        published
    });
    assert_eq!(published[0], (s("file:///a.txt"), vec![(0, 0, 0, 6)]));
    assert_eq!(published[1], (s("file:///b.txt"), vec![(2, 0, 2, 6), (3, 0, 3, 4)]));
}

