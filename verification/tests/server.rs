use kcl_requests::server::{
    kind_of, Action, Admission, LanguageServerState, Mode, Progress, RequestKind, INVALID_REQUEST,
};
use lsp_server::{ErrorCode, RequestId};
use lsp_types::request::{
    CodeActionRequest, Completion, DocumentSymbolRequest, Formatting, GotoDefinition,
    HoverRequest, InlayHintRequest, RangeFormatting, References, Rename, Request,
    SemanticTokensFullRequest, Shutdown, SignatureHelpRequest,
};

/// What the server does with a request that it has registered.
fn admission(state: &LanguageServerState, id: i32, method: &str) -> Admission {
    let registered: Progress<&str> = Progress::Registered;
    match state.on_request(RequestId::from(id), &method.to_string(), registered) {
        Action::Admit(admission) => admission,
        other => panic!("{other:?}"),
    }
}

fn served(method: &str) -> Admission {
    admission(&LanguageServerState::new(), 1, method)
}

fn serve(kind: RequestKind, mode: Mode) -> Admission {
    Admission::Serve { kind, mode }
}

#[test]
fn the_protocol_names_reach_their_handlers() {
    assert_eq!(served(Shutdown::METHOD), serve(RequestKind::Shutdown, Mode::Sync));
    assert_eq!(served(GotoDefinition::METHOD), serve(RequestKind::GotoDefinition, Mode::Handler));
    assert_eq!(served(References::METHOD), serve(RequestKind::References, Mode::Handler));
    assert_eq!(served(HoverRequest::METHOD), serve(RequestKind::Hover, Mode::Handler));
    assert_eq!(
        served(DocumentSymbolRequest::METHOD),
        serve(RequestKind::DocumentSymbol, Mode::Handler)
    );
    assert_eq!(served(CodeActionRequest::METHOD), serve(RequestKind::CodeAction, Mode::Handler));
    assert_eq!(served(Formatting::METHOD), serve(RequestKind::Formatting, Mode::Handler));
    assert_eq!(
        served(RangeFormatting::METHOD),
        serve(RequestKind::RangeFormatting, Mode::Handler)
    );
    assert_eq!(served(Rename::METHOD), serve(RequestKind::Rename, Mode::Handler));
    assert_eq!(
        served(SemanticTokensFullRequest::METHOD),
        serve(RequestKind::SemanticTokensFull, Mode::Handler)
    );
    assert_eq!(served(InlayHintRequest::METHOD), serve(RequestKind::InlayHint, Mode::Handler));
    assert_eq!(
        served(SignatureHelpRequest::METHOD),
        serve(RequestKind::SignatureHelp, Mode::Handler)
    );
    assert_eq!(served(Completion::METHOD), serve(RequestKind::Completion, Mode::MaybeRetry));
}

#[test]
fn other_methods_are_not_handled() {
    assert_eq!(served("textDocument/foldingRange"), Admission::Unhandled);
    assert_eq!(served("Shutdown"), Admission::Unhandled);
    assert_eq!(served(""), Admission::Unhandled);
    assert_eq!(kind_of(&"textDocument/hover ".to_string()), None);
    assert_eq!(kind_of(&"textDocument/hover".to_string()), Some(RequestKind::Hover));
}

#[test]
fn after_a_shutdown_every_request_is_refused() {
    let mut state = LanguageServerState::new();
    assert_eq!(admission(&state, 1, "shutdown"), serve(RequestKind::Shutdown, Mode::Sync));
    assert!(!state.shutdown_requested);
    state.on_served(RequestKind::Shutdown);
    assert!(state.shutdown_requested);
    let methods = ["textDocument/hover", "shutdown", "textDocument/foldingRange", ""];
    for (id, method) in [2, 3, 4, 5].into_iter().zip(methods) {
        assert_eq!(
            admission(&state, id, method),
            Admission::Refuse {
                id: RequestId::from(id),
                code: -32600,
                message: "shutdown was requested".to_string()
            }
        );
    }
}

#[test]
fn after_any_other_request_the_next_is_served() {
    for kind in [
        RequestKind::GotoDefinition,
        RequestKind::References,
        RequestKind::Hover,
        RequestKind::DocumentSymbol,
        RequestKind::CodeAction,
        RequestKind::Formatting,
        RequestKind::RangeFormatting,
        RequestKind::Rename,
        RequestKind::SemanticTokensFull,
        RequestKind::InlayHint,
        RequestKind::SignatureHelp,
        RequestKind::Completion,
    ] {
        let mut state = LanguageServerState::new();
        state.on_served(kind);
        assert!(!state.shutdown_requested);
        assert_eq!(
            admission(&state, 1, "textDocument/hover"),
            serve(RequestKind::Hover, Mode::Handler)
        );
    }
}

#[test]
fn a_shutdown_is_not_forgotten() {
    let mut state = LanguageServerState::new();
    state.on_served(RequestKind::Hover);
    state.on_served(RequestKind::Shutdown);
    state.on_served(RequestKind::Hover);
    assert!(state.shutdown_requested);
    assert!(matches!(admission(&state, 1, "shutdown"), Admission::Refuse { .. }));
}

#[test]
fn a_request_is_registered_before_it_is_refused() {
    let hover = "textDocument/hover".to_string();
    for shutdown_requested in [false, true] {
        let state = LanguageServerState { shutdown_requested };
        let received: Progress<&str> = Progress::Received;
        assert_eq!(
            state.on_request(RequestId::from(7), &hover, received),
            Action::Register { id: RequestId::from(7) }
        );
    }
}

#[test]
fn an_answer_that_cannot_be_sent_fails_the_request() {
    let hover = "textDocument/hover".to_string();
    for shutdown_requested in [false, true] {
        let state = LanguageServerState { shutdown_requested };
        assert_eq!(
            state.on_request(RequestId::from(7), &hover, Progress::Handled(Err("closed"))),
            Action::Return(Err("closed"))
        );
        let sent: Progress<&str> = Progress::Handled(Ok(()));
        assert_eq!(
            state.on_request(RequestId::from(7), &hover, sent),
            Action::Return(Ok(()))
        );
    }
}

#[test]
fn the_error_code_is_that_of_the_protocol() {
    assert_eq!(INVALID_REQUEST, ErrorCode::InvalidRequest as i32);
}
