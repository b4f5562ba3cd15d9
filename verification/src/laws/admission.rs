//! How the server goes about a request.

use crate::server::{kind_of, Action, Admission, LanguageServerState, Mode, Progress, RequestKind};
use lsp_server::RequestId;
use vstd::prelude::*;

verus! {

/// A request is of the kind that the protocol gives its method, and of none if it
/// gives the method none.
pub proof fn law_methods_name_their_kinds(method: &String, kind: Option<RequestKind>)
    requires
        call_ensures(kind_of, (method,), kind),
    ensures
        method@ == "shutdown"@ <==> kind == Some(RequestKind::Shutdown),
        method@ == "textDocument/definition"@ <==> kind == Some(RequestKind::GotoDefinition),
        method@ == "textDocument/references"@ <==> kind == Some(RequestKind::References),
        method@ == "textDocument/hover"@ <==> kind == Some(RequestKind::Hover),
        method@ == "textDocument/documentSymbol"@ <==> kind == Some(RequestKind::DocumentSymbol),
        method@ == "textDocument/codeAction"@ <==> kind == Some(RequestKind::CodeAction),
        method@ == "textDocument/formatting"@ <==> kind == Some(RequestKind::Formatting),
        method@ == "textDocument/rangeFormatting"@ <==> kind == Some(RequestKind::RangeFormatting),
        method@ == "textDocument/rename"@ <==> kind == Some(RequestKind::Rename),
        method@ == "textDocument/semanticTokens/full"@ <==> kind == Some(
            RequestKind::SemanticTokensFull,
        ),
        method@ == "textDocument/inlayHint"@ <==> kind == Some(RequestKind::InlayHint),
        method@ == "textDocument/signatureHelp"@ <==> kind == Some(RequestKind::SignatureHelp),
        method@ == "textDocument/completion"@ <==> kind == Some(RequestKind::Completion),
{
    assert(RequestKind::Shutdown.method() == "shutdown"@);
    assert(RequestKind::GotoDefinition.method() == "textDocument/definition"@);
    assert(RequestKind::References.method() == "textDocument/references"@);
    assert(RequestKind::Hover.method() == "textDocument/hover"@);
    assert(RequestKind::DocumentSymbol.method() == "textDocument/documentSymbol"@);
    assert(RequestKind::CodeAction.method() == "textDocument/codeAction"@);
    assert(RequestKind::Formatting.method() == "textDocument/formatting"@);
    assert(RequestKind::RangeFormatting.method() == "textDocument/rangeFormatting"@);
    assert(RequestKind::Rename.method() == "textDocument/rename"@);
    assert(RequestKind::SemanticTokensFull.method() == "textDocument/semanticTokens/full"@);
    assert(RequestKind::InlayHint.method() == "textDocument/inlayHint"@);
    assert(RequestKind::SignatureHelp.method() == "textDocument/signatureHelp"@);
    assert(RequestKind::Completion.method() == "textDocument/completion"@);
}

/// A request is registered under its own identifier before anything else; what was done
/// with it in the end is what it ends with.
pub proof fn law_requests_are_registered_and_ended<E>(
    state: &LanguageServerState,
    id: RequestId,
    method: &String,
    result: Result<(), E>,
    begun: Action<E>,
    ended: Action<E>,
)
    requires
        call_ensures(
            LanguageServerState::on_request::<E>,
            (state, id, method, Progress::Received),
            begun,
        ),
        call_ensures(
            LanguageServerState::on_request::<E>,
            (state, id, method, Progress::Handled(result)),
            ended,
        ),
    ensures
        begun == (Action::<E>::Register { id }),
        ended == Action::Return(result),
{
}

/// After a shutdown every registered request is refused under its own identifier.
/// Before, it is served as the kind that its method names: a shutdown at once, a
/// completion by a handler that may put it off, all others by a handler; a request
/// whose method names none is not served.
pub proof fn law_registered_requests_are_served_or_refused<E>(
    state: &LanguageServerState,
    id: RequestId,
    method: &String,
    kind: Option<RequestKind>,
    action: Action<E>,
)
    requires
        call_ensures(kind_of, (method,), kind),
        call_ensures(
            LanguageServerState::on_request::<E>,
            (state, id, method, Progress::Registered),
            action,
        ),
    ensures
        action is Admit,
        state.shutdown_requested ==> {
            &&& action->Admit_0 is Refuse
            &&& action->Admit_0->id == id
            &&& action->Admit_0->code == -32600
            &&& action->Admit_0->message@ == "shutdown was requested"@
        },
        !state.shutdown_requested && kind is None ==> action->Admit_0 is Unhandled,
        !state.shutdown_requested && kind is Some ==> action->Admit_0 == (Admission::Serve {
            kind: kind->0,
            mode: match kind->0 {
                RequestKind::Shutdown => Mode::Sync,
                RequestKind::Completion => Mode::MaybeRetry,
                _ => Mode::Handler,
            },
        }),
{
    if !state.shutdown_requested && kind is Some {
        assert(method@ == kind->0.method());
    }
    if action->Admit_0 is Serve {
        let served = action->Admit_0->kind;
        assert(method@ == served.method());
        assert(kind == Some(served));
    }
}

/// The server starts without a shutdown having been requested.
pub proof fn law_servers_start_open(state: LanguageServerState)
    requires
        call_ensures(LanguageServerState::new, (), state),
    ensures
        !state.shutdown_requested,
{
}

/// Serving a shutdown is remembered, serving any other request changes nothing, and
/// what is remembered is not forgotten.
pub proof fn law_served_shutdowns_are_remembered(state: &mut LanguageServerState, kind: RequestKind)
    requires
        call_ensures(LanguageServerState::on_served, (state, kind), ()),
    ensures
        kind == RequestKind::Shutdown ==> final(state).shutdown_requested,
        kind != RequestKind::Shutdown ==> final(state).shutdown_requested == old(
            state,
        ).shutdown_requested,
        old(state).shutdown_requested ==> final(state).shutdown_requested,
{
}

} // verus!
