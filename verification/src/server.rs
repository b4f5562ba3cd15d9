//! Admitting requests, and telling which handler serves them.

use lsp_server::RequestId;
use vstd::prelude::*;

verus! {

/// The error code of a request that is not valid.
pub const INVALID_REQUEST: i32 = -32600;

/// What the server remembers between requests.
pub struct LanguageServerState {
    /// The client has asked the server to shut down.
    pub shutdown_requested: bool,
}

/// The requests that the server serves.
#[derive(Clone, Copy, Debug, PartialEq, Eq, Structural)]
pub enum RequestKind {
    Shutdown,
    GotoDefinition,
    References,
    Hover,
    DocumentSymbol,
    CodeAction,
    Formatting,
    RangeFormatting,
    Rename,
    SemanticTokensFull,
    InlayHint,
    SignatureHelp,
    Completion,
}

/// How a request is served.
#[derive(Clone, Copy, Debug, PartialEq, Eq, Structural)]
pub enum Mode {
    /// At once, with the server's state at hand.
    Sync,
    /// By a handler of its own.
    Handler,
    /// By a handler of its own that knows the request's identifier, since it may
    /// put the request off.
    MaybeRetry,
}

/// What becomes of a request.
#[derive(Debug, PartialEq, Eq)]
pub enum Admission {
    /// It is answered with an error, under its own identifier.
    Refuse { id: RequestId, code: i32, message: String },
    /// It is served.
    Serve { kind: RequestKind, mode: Mode },
    /// No handler serves it.
    Unhandled,
}

/// How far the server has come with a request. `E` is the error of the caller's calls.
pub enum Progress<E> {
    /// It was received.
    Received,
    /// It is among the requests that wait for an answer.
    Registered,
    /// What was to become of it was done, or that failed.
    Handled(Result<(), E>),
}

/// What the server does next with a request.
#[derive(Debug, PartialEq, Eq)]
pub enum Action<E> {
    /// Take it among the requests that wait for an answer: [`Progress::Registered`].
    Register { id: RequestId },
    /// Answer it, or hand it to its handler: [`Progress::Handled`].
    Admit(Admission),
    /// Nothing more: the request ends so.
    Return(Result<(), E>),
}

impl RequestKind {
    /// The method by which the protocol names the request.
    pub open spec fn method(self) -> Seq<char> {
        match self {
            RequestKind::Shutdown => "shutdown"@,
            RequestKind::GotoDefinition => "textDocument/definition"@,
            RequestKind::References => "textDocument/references"@,
            RequestKind::Hover => "textDocument/hover"@,
            RequestKind::DocumentSymbol => "textDocument/documentSymbol"@,
            RequestKind::CodeAction => "textDocument/codeAction"@,
            RequestKind::Formatting => "textDocument/formatting"@,
            RequestKind::RangeFormatting => "textDocument/rangeFormatting"@,
            RequestKind::Rename => "textDocument/rename"@,
            RequestKind::SemanticTokensFull => "textDocument/semanticTokens/full"@,
            RequestKind::InlayHint => "textDocument/inlayHint"@,
            RequestKind::SignatureHelp => "textDocument/signatureHelp"@,
            RequestKind::Completion => "textDocument/completion"@,
        }
    }

    /// How the request is served.
    pub open spec fn served(self) -> Mode {
        match self {
            RequestKind::Shutdown => Mode::Sync,
            RequestKind::Completion => Mode::MaybeRetry,
            _ => Mode::Handler,
        }
    }
}

/// Whether the method is the one that is spelled so.
fn is(method: &String, name: &str) -> (same: bool)
    ensures
        same == (method@ == name@),
{
    *method == name.to_owned()
}

/// The methods of the requests are all different.
pub proof fn law_methods_differ(one: RequestKind, other: RequestKind)
    ensures
        one.method() == other.method() <==> one == other,
{
    reveal_strlit("shutdown");
    reveal_strlit("textDocument/definition");
    reveal_strlit("textDocument/references");
    reveal_strlit("textDocument/hover");
    reveal_strlit("textDocument/documentSymbol");
    reveal_strlit("textDocument/codeAction");
    reveal_strlit("textDocument/formatting");
    reveal_strlit("textDocument/rangeFormatting");
    reveal_strlit("textDocument/rename");
    reveal_strlit("textDocument/semanticTokens/full");
    reveal_strlit("textDocument/inlayHint");
    reveal_strlit("textDocument/signatureHelp");
    reveal_strlit("textDocument/completion");
    let first = one.method();
    let second = other.method();
    if first == second {
        // Methods of the same length differ at one of these places.
        assert(first.len() == second.len());
        assert(first.len() == 23 ==> first[13] == second[13] && first[15] == second[15]);
    }
}

/// The request that a method names.
pub fn kind_of(method: &String) -> (kind: Option<RequestKind>)
    ensures
        forall|named: RequestKind|
            kind == Some(named) <==> method@ == #[trigger] named.method(),
{
    let kind = if is(method, "shutdown") {
        Some(RequestKind::Shutdown)
    } else if is(method, "textDocument/definition") {
        Some(RequestKind::GotoDefinition)
    } else if is(method, "textDocument/references") {
        Some(RequestKind::References)
    } else if is(method, "textDocument/hover") {
        Some(RequestKind::Hover)
    } else if is(method, "textDocument/documentSymbol") {
        Some(RequestKind::DocumentSymbol)
    } else if is(method, "textDocument/codeAction") {
        Some(RequestKind::CodeAction)
    } else if is(method, "textDocument/formatting") {
        Some(RequestKind::Formatting)
    } else if is(method, "textDocument/rangeFormatting") {
        Some(RequestKind::RangeFormatting)
    } else if is(method, "textDocument/rename") {
        Some(RequestKind::Rename)
    } else if is(method, "textDocument/semanticTokens/full") {
        Some(RequestKind::SemanticTokensFull)
    } else if is(method, "textDocument/inlayHint") {
        Some(RequestKind::InlayHint)
    } else if is(method, "textDocument/signatureHelp") {
        Some(RequestKind::SignatureHelp)
    } else if is(method, "textDocument/completion") {
        Some(RequestKind::Completion)
    } else {
        None
    };
    proof {
        if kind is Some {
            assert forall|named: RequestKind|
                kind == Some(named) <==> method@ == #[trigger] named.method() by {
                law_methods_differ(kind->0, named);
            }
        }
    }
    kind
}

impl LanguageServerState {
    /// What becomes of a request with this identifier and method.
    pub open spec fn admits(
        self,
        id: RequestId,
        method: Seq<char>,
        admission: Admission,
    ) -> bool {
        if self.shutdown_requested {
            &&& admission is Refuse
            &&& admission->id == id
            &&& admission->code == INVALID_REQUEST
            &&& admission->message@ == "shutdown was requested"@
        } else {
            match admission {
                Admission::Refuse { .. } => false,
                Admission::Serve { kind, mode } => {
                    &&& forall|named: RequestKind|
                        named == kind <==> method == #[trigger] named.method()
                    &&& mode == kind.served()
                },
                Admission::Unhandled => forall|kind: RequestKind|
                    method != #[trigger] kind.method(),
            }
        }
    }

    /// What is done next with a request: first it is registered, then it is refused or
    /// served, and what comes of that is what the request ends with.
    pub open spec fn acts<E>(
        self,
        id: RequestId,
        method: Seq<char>,
        progress: Progress<E>,
        action: Action<E>,
    ) -> bool {
        match progress {
            Progress::Received => action == Action::<E>::Register { id },
            Progress::Registered => action is Admit && self.admits(id, method, action->Admit_0),
            Progress::Handled(result) => action == Action::Return(result),
        }
    }

    /// The state once a request of this kind is served.
    pub open spec fn after_serving(self, kind: RequestKind) -> Self {
        LanguageServerState {
            shutdown_requested: self.shutdown_requested || kind == RequestKind::Shutdown,
        }
    }

    /// The state in which the server starts.
    pub fn new() -> (state: Self)
        ensures
            !state.shutdown_requested,
    {
        LanguageServerState { shutdown_requested: false }
    }

    /// Handles a language server protocol request: tells what is to be done next.
    pub fn on_request<E>(
        &self,
        id: RequestId,
        method: &String,
        progress: Progress<E>,
    ) -> (action: Action<E>)
        ensures
            self.acts(id, method@, progress, action),
    {
        match progress {
            Progress::Received => Action::Register { id },
            Progress::Registered => Action::Admit(self.admission(id, method)),
            Progress::Handled(result) => Action::Return(result),
        }
    }

    /// Tells what becomes of a request. If a shutdown was requested earlier, it is
    /// answered with an error.
    fn admission(&self, id: RequestId, method: &String) -> (admission: Admission)
        ensures
            self.admits(id, method@, admission),
    {
        if self.shutdown_requested {
            return Admission::Refuse {
                id,
                code: INVALID_REQUEST,
                message: "shutdown was requested".to_owned(),
            };
        }
        match kind_of(method) {
            Some(RequestKind::Shutdown) => Admission::Serve {
                kind: RequestKind::Shutdown,
                mode: Mode::Sync,
            },
            Some(RequestKind::Completion) => Admission::Serve {
                kind: RequestKind::Completion,
                mode: Mode::MaybeRetry,
            },
            Some(kind) => Admission::Serve { kind, mode: Mode::Handler },
            None => Admission::Unhandled,
        }
    }

    /// Takes note that a request is served: a shutdown is remembered.
    pub fn on_served(&mut self, kind: RequestKind)
        ensures
            *final(self) == old(self).after_serving(kind),
            final(self).shutdown_requested == (old(self).shutdown_requested || kind
                == RequestKind::Shutdown),
    {
        if kind == RequestKind::Shutdown {
            self.shutdown_requested = true;
        }
    }
}

} // verus!
