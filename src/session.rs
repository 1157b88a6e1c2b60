//! The session controller: the lifecycle state machine of one connection.
//!
//! Each lifecycle event moves the session to its next state, updates the
//! document store, and yields the actions the transport is to carry out, in
//! order. Requests always succeed; document events are honoured once the
//! server has answered initialize and until it is asked to shut down.
//!
//! Of a change batch only the first entry is read: this core speaks
//! full-document sync, where a batch holds one entry, and later entries are
//! ignored rather than merged.

use vstd::prelude::*;
use crate::analyzer::{analyze, diagnostics_of};
use crate::protocol::{
    Diagnostic,
    DiagnosticView,
    ServerCapabilities,
    announced_capabilities,
    server_capabilities,
    views_of,
};
use crate::store::{
    DocumentStore,
    lemma_distinct_uris_independent,
    lemma_never_stored_is_absent,
    stored_after,
};

verus! {

/// Where a connection stands in its lifecycle.
#[derive(Clone, Copy, Debug, PartialEq, Eq, Structural)]
pub enum ServerState {
    Uninitialized,
    /// Initialize was answered; the client has not yet confirmed it.
    InitializePending,
    Initialized,
    ShuttingDown,
    Terminated,
}

/// A lifecycle event delivered by the transport.
#[derive(Clone, Debug)]
pub enum Event {
    Initialize,
    Initialized,
    DidOpen { uri: String, text: String },
    /// The full texts of a change batch, in order.
    DidChange { uri: String, changes: Vec<String> },
    Shutdown,
    TransportClosed,
}

/// Something the transport is to do on the session's behalf.
#[derive(Clone, Debug)]
pub enum Action {
    /// Answer initialize with these capabilities.
    Capabilities(ServerCapabilities),
    /// Answer shutdown with success.
    Acknowledge,
    /// Send a log message to the client.
    Log(String),
    /// Publish these diagnostics for the document `uri`.
    Publish { uri: String, diagnostics: Vec<Diagnostic> },
}

/// The value of a session: its lifecycle state and its documents.
pub struct SessionView {
    pub state: ServerState,
    pub documents: Map<Seq<char>, Seq<char>>,
}

/// Whether document events are honoured in state `s`.
pub open spec fn accepts_documents(s: ServerState) -> bool {
    s == ServerState::InitializePending || s == ServerState::Initialized
}

/// The state after an initialize request.
pub open spec fn state_after_initialize(s: ServerState) -> ServerState {
    if s == ServerState::Uninitialized {
        ServerState::InitializePending
    } else {
        s
    }
}

/// The state after the client's initialized notification.
pub open spec fn state_after_initialized(s: ServerState) -> ServerState {
    if s == ServerState::InitializePending {
        ServerState::Initialized
    } else {
        s
    }
}

/// The state after a shutdown request.
pub open spec fn state_after_shutdown(s: ServerState) -> ServerState {
    if s == ServerState::Terminated {
        ServerState::Terminated
    } else {
        ServerState::ShuttingDown
    }
}

/// The diagnostics of document `uri`: none when it has no text.
pub open spec fn document_diagnostics(docs: Map<Seq<char>, Seq<char>>, uri: Seq<char>) -> Seq<
    DiagnosticView,
> {
    if docs.contains_key(uri) {
        diagnostics_of(docs[uri])
    } else {
        Seq::empty()
    }
}

/// Whether `a` logs exactly `msg`.
pub open spec fn is_log(a: Action, msg: Seq<char>) -> bool {
    match a {
        Action::Log(m) => m@ == msg,
        _ => false,
    }
}

/// Whether `a` publishes exactly `ds` for `uri`.
pub open spec fn is_publish(a: Action, uri: Seq<char>, ds: Seq<DiagnosticView>) -> bool {
    match a {
        Action::Publish { uri: u, diagnostics } => u@ == uri && views_of(diagnostics@) == ds,
        _ => false,
    }
}

/// The message logged once the client confirms initialization.
pub open spec fn started_message() -> Seq<char> {
    "lsp_playground server initialized!"@
}

/// What an initialized notification does.
pub open spec fn initialized_step(pre: SessionView, post: SessionView, r: Seq<Action>) -> bool {
    &&& post.state == state_after_initialized(pre.state)
    &&& post.documents == pre.documents
    &&& if pre.state == ServerState::InitializePending {
        r.len() == 1 && is_log(r[0], started_message())
    } else {
        r.len() == 0
    }
}

/// What a document-open notification does.
pub open spec fn open_step(
    pre: SessionView,
    post: SessionView,
    uri: Seq<char>,
    text: Seq<char>,
    r: Seq<Action>,
) -> bool {
    &&& post.state == pre.state
    &&& if accepts_documents(pre.state) {
        &&& post.documents == pre.documents.insert(uri, text)
        &&& r.len() == 1
        &&& is_log(r[0], "did_open: "@ + uri)
    } else {
        post.documents == pre.documents && r.len() == 0
    }
}

/// What a document-change notification does: the first entry of a non-empty
/// batch replaces the text and its diagnostics are published; an empty batch
/// does nothing.
pub open spec fn change_step(
    pre: SessionView,
    post: SessionView,
    uri: Seq<char>,
    changes: Seq<String>,
    r: Seq<Action>,
) -> bool {
    &&& post.state == pre.state
    &&& if accepts_documents(pre.state) && changes.len() > 0 {
        &&& post.documents == pre.documents.insert(uri, changes[0]@)
        &&& r.len() == 2
        &&& is_log(r[0], "did_change: "@ + uri)
        &&& is_publish(r[1], uri, diagnostics_of(changes[0]@))
    } else {
        post.documents == pre.documents && r.len() == 0
    }
}

/// One connection's lifecycle state and document store.
pub struct Session {
    state: ServerState,
    store: DocumentStore,
}

impl View for Session {
    type V = SessionView;

    closed spec fn view(&self) -> SessionView {
        SessionView { state: self.state, documents: self.store@ }
    }
}

impl Session {
    /// The store is well formed.
    pub closed spec fn wf(&self) -> bool {
        self.store.wf()
    }

    /// A fresh connection: uninitialized, with no documents.
    pub fn new() -> (r: Session)
        ensures
            r.wf(),
            r@.state == ServerState::Uninitialized,
            r@.documents == Map::<Seq<char>, Seq<char>>::empty(),
    {
        Session { state: ServerState::Uninitialized, store: DocumentStore::new() }
    }

    /// The current lifecycle state.
    pub fn state(&self) -> (r: ServerState)
        ensures
            r == self@.state,
    {
        self.state
    }

    /// The current text of `uri`, if it was stored.
    pub fn document(&self, uri: &String) -> (r: Option<String>)
        requires
            self.wf(),
        ensures
            match r {
                Some(t) => self@.documents.contains_key(uri@) && t@ == self@.documents[uri@],
                None => !self@.documents.contains_key(uri@),
            },
    {
        self.store.get(uri)
    }

    /// The diagnostics of document `uri`: those of its current text, or none
    /// when no text is stored for it.
    pub fn diagnostics_for(&self, uri: &String) -> (r: Vec<Diagnostic>)
        requires
            self.wf(),
        ensures
            views_of(r@) == document_diagnostics(self@.documents, uri@),
    {
        match self.store.get(uri) {
            Some(text) => analyze(text.as_str()),
            None => {
                let r: Vec<Diagnostic> = Vec::new();
                assert(views_of(r@) =~= Seq::<DiagnosticView>::empty());
                r
            },
        }
    }

    /// Answers an initialize request, whatever it asked: the announcement is
    /// always the same.
    pub fn initialize(&mut self) -> (r: ServerCapabilities)
        requires
            old(self).wf(),
        ensures
            final(self).wf(),
            r == announced_capabilities(),
            final(self)@.state == state_after_initialize(old(self)@.state),
            final(self)@.documents == old(self)@.documents,
    {
        if self.state == ServerState::Uninitialized {
            self.state = ServerState::InitializePending;
        }
        server_capabilities()
    }

    /// Takes the client's confirmation that initialization is complete.
    pub fn initialized(&mut self) -> (r: Vec<Action>)
        requires
            old(self).wf(),
        ensures
            final(self).wf(),
            initialized_step(old(self)@, final(self)@, r@),
    {
        let mut r: Vec<Action> = Vec::new();
        if self.state == ServerState::InitializePending {
            self.state = ServerState::Initialized;
            r.push(Action::Log(String::from_str("lsp_playground server initialized!")));
        }
        r
    }

    /// Stores the text of a newly opened document. Nothing is published.
    pub fn did_open(&mut self, uri: String, text: String) -> (r: Vec<Action>)
        requires
            old(self).wf(),
        ensures
            final(self).wf(),
            open_step(old(self)@, final(self)@, uri@, text@, r@),
    {
        let mut r: Vec<Action> = Vec::new();
        if self.state == ServerState::InitializePending || self.state == ServerState::Initialized {
            let mut msg = String::from_str("did_open: ");
            msg.append(uri.as_str());
            self.store.put(uri, text);
            r.push(Action::Log(msg));
        }
        r
    }

    /// Replaces the text of a document with the first entry of a change batch
    /// and publishes the diagnostics of the new text.
    pub fn did_change(&mut self, uri: String, changes: Vec<String>) -> (r: Vec<Action>)
        requires
            old(self).wf(),
        ensures
            final(self).wf(),
            change_step(old(self)@, final(self)@, uri@, changes@, r@),
    {
        let mut r: Vec<Action> = Vec::new();
        if (self.state == ServerState::InitializePending || self.state == ServerState::Initialized)
            && changes.len() > 0 {
            let mut msg = String::from_str("did_change: ");
            msg.append(uri.as_str());
            let text = changes[0].clone();
            self.store.put(uri.clone(), text);
            let diagnostics = self.diagnostics_for(&uri);
            r.push(Action::Log(msg));
            r.push(Action::Publish { uri, diagnostics });
        }
        r
    }

    /// Acknowledges a shutdown request; the documents are left as they are.
    pub fn shutdown(&mut self)
        requires
            old(self).wf(),
        ensures
            final(self).wf(),
            final(self)@.state == state_after_shutdown(old(self)@.state),
            final(self)@.documents == old(self)@.documents,
    {
        if self.state != ServerState::Terminated {
            self.state = ServerState::ShuttingDown;
        }
    }

    /// Ends the session when the transport closes.
    pub fn transport_closed(&mut self)
        requires
            old(self).wf(),
        ensures
            final(self).wf(),
            final(self)@.state == ServerState::Terminated,
            final(self)@.documents == old(self)@.documents,
    {
        self.state = ServerState::Terminated;
    }

    /// Routes one lifecycle event to its handler and returns the actions the
    /// transport is to carry out, in order.
    pub fn handle(&mut self, event: Event) -> (r: Vec<Action>)
        requires
            old(self).wf(),
        ensures
            final(self).wf(),
            match event {
                Event::Initialize => {
                    &&& r@ == seq![Action::Capabilities(announced_capabilities())]
                    &&& final(self)@.state == state_after_initialize(old(self)@.state)
                    &&& final(self)@.documents == old(self)@.documents
                },
                Event::Initialized => initialized_step(old(self)@, final(self)@, r@),
                Event::DidOpen { uri, text } => open_step(old(self)@, final(self)@, uri@, text@, r@),
                Event::DidChange { uri, changes } => change_step(
                    old(self)@,
                    final(self)@,
                    uri@,
                    changes@,
                    r@,
                ),
                Event::Shutdown => {
                    &&& r@ == seq![Action::Acknowledge]
                    &&& final(self)@.state == state_after_shutdown(old(self)@.state)
                    &&& final(self)@.documents == old(self)@.documents
                },
                Event::TransportClosed => {
                    &&& r@.len() == 0
                    &&& final(self)@.state == ServerState::Terminated
                    &&& final(self)@.documents == old(self)@.documents
                },
            },
    {
        match event {
            Event::Initialize => {
                let caps = self.initialize();
                let mut r: Vec<Action> = Vec::new();
                r.push(Action::Capabilities(caps));
                assert(r@ =~= seq![Action::Capabilities(announced_capabilities())]);
                r
            },
            Event::Initialized => self.initialized(),
            Event::DidOpen { uri, text } => self.did_open(uri, text),
            Event::DidChange { uri, changes } => self.did_change(uri, changes),
            Event::Shutdown => {
                self.shutdown();
                let mut r: Vec<Action> = Vec::new();
                r.push(Action::Acknowledge);
                assert(r@ =~= seq![Action::Acknowledge]);
                r
            },
            Event::TransportClosed => {
                self.transport_closed();
                Vec::new()
            },
        }
    }
}

/// A document that no write named has no text, and so no diagnostics.
pub proof fn lemma_unknown_document_has_no_diagnostics(
    writes: Seq<(Seq<char>, Seq<char>)>,
    uri: Seq<char>,
)
    requires
        forall|i: int| 0 <= i < writes.len() ==> (#[trigger] writes[i]).0 != uri,
    ensures
        !stored_after(writes).contains_key(uri),
        document_diagnostics(stored_after(writes), uri) == Seq::<DiagnosticView>::empty(),
{
    lemma_never_stored_is_absent(writes, uri);
}

/// Two changes to distinct documents, applied one after the other in either
/// order, leave each document with its own new text, and each publication
/// carries the diagnostics of its own document's text alone.
pub proof fn lemma_changes_to_distinct_documents_commute(
    pre: SessionView,
    mid: SessionView,
    post: SessionView,
    a: Seq<char>,
    changes_a: Seq<String>,
    r_a: Seq<Action>,
    b: Seq<char>,
    changes_b: Seq<String>,
    r_b: Seq<Action>,
)
    requires
        a != b,
        accepts_documents(pre.state),
        changes_a.len() > 0,
        changes_b.len() > 0,
        change_step(pre, mid, a, changes_a, r_a),
        change_step(mid, post, b, changes_b, r_b),
    ensures
        post.documents[a] == changes_a[0]@,
        post.documents[b] == changes_b[0]@,
        post.documents == pre.documents.insert(b, changes_b[0]@).insert(a, changes_a[0]@),
        is_publish(r_a[1], a, diagnostics_of(changes_a[0]@)),
        is_publish(r_b[1], b, diagnostics_of(changes_b[0]@)),
{
    lemma_distinct_uris_independent(pre.documents, a, changes_a[0]@, b, changes_b[0]@);
}

} // verus!
