//! The handlers whose answer is what an analysis finds.

use crate::errors::{HandlerError, LspError};
use crate::exchange::{answers, retry, Call, Event, Exchange, Question, Reply, Stage, Step, Way};
use crate::messages::join;
use crate::outside::has_entry;
use crate::protocol::{trigger_char, trigger_text, Location, Position, TriggerContext};
use crate::snapshot::{entry_in, entry_metadata, metadata_of, AnalysisDatabase, CachedEntry};
use lsp_server::RequestId;
use std::sync::Arc;
use vstd::prelude::*;

verus! {

/// What the references of a symbol are found to be: where they stand, or why they
/// cannot be told.
pub type FoundReferences = Result<Vec<Location>, String>;

impl<A, R, E> Exchange<A, Option<R>, E> {
    /// The step of a handler that runs an analysis and answers with what it gave
    /// only if the document has not changed since it was compiled.
    pub open spec fn answers_if_current<M>(
        self,
        call: Call<M>,
        step: Step<A, M, Option<R>, R, E>,
    ) -> bool {
        match self.stage(false) {
            Stage::Open(db) => match self.answer {
                None => step == self.analyses::<M, R>(call, db),
                Some(answer) => match self.current {
                    None => step == (Step::<A, M, Option<R>, R, E>::Ask {
                        question: Question::Versions,
                        exchange: self,
                    }),
                    Some(Ok(true)) => step == answers::<A, M, Option<R>, R, E>(Ok(answer)),
                    Some(Ok(false)) => step == answers::<A, M, Option<R>, R, E>(retry()),
                    Some(Err(error)) => step == answers::<A, M, Option<R>, R, E>(
                        Err(HandlerError::Lsp(error)),
                    ),
                },
            },
            _ => self.stops(false, step),
        }
    }

    /// The step of a handler that has opened the analysis, answers with what it
    /// gives, and logs `message` if that is nothing.
    pub open spec fn answers_or_logs<M>(
        self,
        call: Call<M>,
        db: Arc<AnalysisDatabase<A>>,
        message: Seq<char>,
        step: Step<A, M, Option<R>, R, E>,
    ) -> bool {
        match self.answer {
            None => step == self.analyses::<M, R>(call, db),
            Some(Some(found)) => step == answers::<A, M, Option<R>, R, E>(Ok(Some(found))),
            Some(None) => self.logs(message, Ok(None), step),
        }
    }

    /// Runs an analysis and answers if the document has not changed.
    fn answer_if_current<M>(self, call: Call<M>) -> (step: Step<A, M, Option<R>, R, E>)
        ensures
            self.answers_if_current(call, step),
    {
        let (now, file, db) = match self.enter(false) {
            Way::Stop(step) => return step,
            Way::Through(now, file, db) => (now, file, db),
        };
        if now.answer.is_none() {
            return Step::Ask { question: Question::Analyse { call, file, db }, exchange: now };
        }
        match now.current {
            None => Step::Ask { question: Question::Versions, exchange: now },
            Some(Ok(true)) => match now.answer {
                Some(answer) => Step::Done(Reply { note: None, response: Ok(answer) }),
                None => Step::Done(Reply { note: None, response: Ok(None) }),
            },
            Some(Ok(false)) => Step::Done(
                Reply { note: None, response: Err(HandlerError::Lsp(LspError::Retry)) },
            ),
            Some(Err(error)) => Step::Done(
                Reply { note: None, response: Err(HandlerError::Lsp(error)) },
            ),
        }
    }

    /// Runs an analysis and answers, with a log message if nothing was found.
    fn answer_or_log<M>(
        self,
        call: Call<M>,
        file: String,
        db: Arc<AnalysisDatabase<A>>,
        message: &str,
    ) -> (step: Step<A, M, Option<R>, R, E>)
        requires
            self.file == Ok::<String, E>(file),
        ensures
            self.answers_or_logs(call, db, message@, step),
    {
        match self.answer {
            None => Step::Ask {
                question: Question::Analyse { call, file, db },
                exchange: self,
            },
            Some(Some(found)) => Step::Done(Reply { note: None, response: Ok(Some(found)) }),
            Some(None) => self.log(message.to_owned(), Ok(None)),
        }
    }
}

/// Called when all semantic tokens of a document are asked for.
pub fn handle_semantic_tokens_full<A, N, M, R, E>(
    exchange: Exchange<A, Option<R>, E>,
    event: Event<A, N, Option<R>, E>,
) -> (step: Step<A, M, Option<R>, R, E>)
    ensures
        exchange.recorded(event).asks_unknown(step),
        exchange.recorded(event).answers_if_current(Call::SemanticTokens, step),
{
    exchange.record(event).answer_if_current(Call::SemanticTokens)
}

/// Called when a `textDocument/documentSymbol` request was received.
pub fn handle_document_symbol<A, N, M, R, E>(
    exchange: Exchange<A, Option<R>, E>,
    event: Event<A, N, Option<R>, E>,
) -> (step: Step<A, M, Option<R>, R, E>)
    ensures
        exchange.recorded(event).asks_unknown(step),
        exchange.recorded(event).answers_if_current(Call::DocumentSymbols, step),
{
    exchange.record(event).answer_if_current(Call::DocumentSymbols)
}

/// Called when the inlay hints of a document are asked for.
pub fn handle_inlay_hint<A, N, M, R, E>(
    exchange: Exchange<A, Option<R>, E>,
    event: Event<A, N, Option<R>, E>,
) -> (step: Step<A, M, Option<R>, R, E>)
    ensures
        exchange.recorded(event).asks_unknown(step),
        exchange.recorded(event).answers_if_current(Call::InlayHints, step),
{
    exchange.record(event).answer_if_current(Call::InlayHints)
}

/// Called when a `textDocument/definition` request was received.
pub fn handle_goto_definition<A, N, M, R, E>(
    position: Position,
    exchange: Exchange<A, Option<R>, E>,
    event: Event<A, N, Option<R>, E>,
) -> (step: Step<A, M, Option<R>, R, E>)
    ensures
        exchange.recorded(event).asks_unknown(step),
        match exchange.recorded(event).stage(true) {
            Stage::Open(db) => exchange.recorded(event).answers_or_logs(
                Call::Definition { position },
                db,
                "Definition item not found"@,
                step,
            ),
            _ => exchange.recorded(event).stops(true, step),
        },
{
    match exchange.record(event).enter(true) {
        Way::Stop(step) => step,
        Way::Through(now, file, db) => now.answer_or_log(
            Call::Definition { position },
            file,
            db,
            "Definition item not found",
        ),
    }
}

/// Called when a `textDocument/hover` request was received.
pub fn handle_hover<A, N, M, R, E>(
    position: Position,
    exchange: Exchange<A, Option<R>, E>,
    event: Event<A, N, Option<R>, E>,
) -> (step: Step<A, M, Option<R>, R, E>)
    ensures
        exchange.recorded(event).asks_unknown(step),
        match exchange.recorded(event).stage(true) {
            Stage::Open(db) => exchange.recorded(event).answers_or_logs(
                Call::Hover { position },
                db,
                "Hover definition not found"@,
                step,
            ),
            _ => exchange.recorded(event).stops(true, step),
        },
{
    match exchange.record(event).enter(true) {
        Way::Stop(step) => step,
        Way::Through(now, file, db) => now.answer_or_log(
            Call::Hover { position },
            file,
            db,
            "Hover definition not found",
        ),
    }
}

/// The step of a signature help: it answers with what the analysis gives.
pub open spec fn helps<A, M, R, E>(
    position: Position,
    typed: Option<String>,
    now: Exchange<A, Option<R>, E>,
    step: Step<A, M, Option<R>, R, E>,
) -> bool {
    match now.stage(false) {
        Stage::Open(db) => match now.answer {
            None => step == now.analyses::<M, R>(Call::SignatureHelp { position, typed }, db),
            Some(answer) => step == answers::<A, M, Option<R>, R, E>(Ok(answer)),
        },
        _ => now.stops(false, step),
    }
}

/// Called when the help on a signature is asked for.
pub fn handle_signature_help<A, N, M, R, E>(
    position: Position,
    context: Option<TriggerContext>,
    exchange: Exchange<A, Option<R>, E>,
    event: Event<A, N, Option<R>, E>,
) -> (step: Step<A, M, Option<R>, R, E>)
    ensures
        exchange.recorded(event).asks_unknown(step),
        helps(position, trigger_text(context), exchange.recorded(event), step),
{
    let typed = TriggerContext::text(context);
    match exchange.record(event).enter(false) {
        Way::Stop(step) => step,
        Way::Through(now, file, db) => match now.answer {
            None => Step::Ask {
                question: Question::Analyse {
                    call: Call::SignatureHelp { position, typed },
                    file,
                    db,
                },
                exchange: now,
            },
            Some(answer) => Step::Done(Reply { note: None, response: Ok(answer) }),
        },
    }
}

/// The step of a request for references: it answers with the locations that the
/// analysis finds, and logs why if it cannot tell them.
pub open spec fn refers<A, M, E>(
    position: Position,
    include_declaration: bool,
    now: Exchange<A, FoundReferences, E>,
    step: Step<A, M, FoundReferences, Vec<Location>, E>,
) -> bool {
    match now.stage(true) {
        Stage::Open(db) => match now.answer {
            None => step == now.analyses::<M, Vec<Location>>(
                Call::References { position, include_declaration },
                db,
            ),
            Some(Ok(locations)) => step == answers::<A, M, FoundReferences, Vec<Location>, E>(
                Ok(Some(locations)),
            ),
            Some(Err(reason)) => now.logs(
                "Find references failed: "@ + reason@,
                Ok(None),
                step,
            ),
        },
        _ => now.stops(true, step),
    }
}

/// Called when a `textDocument/references` request was received.
pub fn handle_reference<A, N, M, E>(
    position: Position,
    include_declaration: bool,
    exchange: Exchange<A, FoundReferences, E>,
    event: Event<A, N, FoundReferences, E>,
) -> (step: Step<A, M, FoundReferences, Vec<Location>, E>)
    ensures
        exchange.recorded(event).asks_unknown(step),
        refers(position, include_declaration, exchange.recorded(event), step),
{
    let (now, file, db) = match exchange.record(event).enter(true) {
        Way::Stop(step) => return step,
        Way::Through(now, file, db) => (now, file, db),
    };
    match now.answer {
        None => Step::Ask {
            question: Question::Analyse {
                call: Call::References { position, include_declaration },
                file,
                db,
            },
            exchange: now,
        },
        Some(Ok(locations)) => Step::Done(Reply { note: None, response: Ok(Some(locations)) }),
        Some(Err(ref reason)) => {
            let message = join("Find references failed: ", reason.as_str(), "");
            proof {
                reveal_strlit("");
            }
            assert(message@ =~= "Find references failed: "@ + reason@);
            now.log(message, Ok(None))
        },
    }
}

/// What is known after the event of a completion request: the table of retries is
/// looked up under the request's identifier.
pub open spec fn completion_recorded<A, N, R, E>(
    id: RequestId,
    exchange: Exchange<A, Option<R>, E>,
    event: Event<A, N, Option<R>, E>,
) -> Exchange<A, Option<R>, E> {
    match event {
        Event::Retries { table } => Exchange {
            retried: Some(table@.contains_key(id)),
            ..exchange
        },
        _ => exchange.recorded(event),
    }
}

/// What the event says of a file's entry in the cache of entry points, if it brings
/// the cache.
pub open spec fn brought<A, N, T, E>(file: String, event: Event<A, N, T, E>) -> Option<
    Option<N>,
> {
    match event {
        Event::Cached { cache } => Some(entry_in(cache@, file)),
        _ => None,
    }
}

/// The step of a completion that is not put off: it looks up its file in the cache of
/// entry points, runs the analysis with the metadata of the entry, and answers with
/// what that gives.
pub open spec fn completes_now<A, F, O, M, S, R, E>(
    position: Position,
    trigger: Option<char>,
    now: Exchange<A, Option<R>, E>,
    entry: Option<Option<CachedEntry<F, O, M, S>>>,
    db: Arc<AnalysisDatabase<A>>,
    step: Step<A, M, Option<R>, R, E>,
) -> bool {
    if now.answer is None && entry is None {
        step == (Step::<A, M, Option<R>, R, E>::Ask {
            question: Question::Cached,
            exchange: now,
        })
    } else {
        now.answers_or_logs(
            Call::Completion { position, trigger, metadata: metadata_of(entry->0) },
            db,
            "Completion item not found"@,
            step,
        )
    }
}

/// The step of a completion that has opened the analysis. After a line break the
/// request is put off once, and then as long as the analysis is not of the
/// version that is open in the editor.
pub open spec fn completes<A, F, O, M, S, R, E>(
    position: Position,
    trigger: Option<char>,
    now: Exchange<A, Option<R>, E>,
    entry: Option<Option<CachedEntry<F, O, M, S>>>,
    db: Arc<AnalysisDatabase<A>>,
    step: Step<A, M, Option<R>, R, E>,
) -> bool {
    if trigger != Some('\n') {
        completes_now(position, trigger, now, entry, db, step)
    } else {
        match now.retried {
            None => step == (Step::<A, M, Option<R>, R, E>::Ask {
                question: Question::Retries,
                exchange: now,
            }),
            Some(false) => step == answers::<A, M, Option<R>, R, E>(retry()),
            Some(true) => match now.current {
                None => step == (Step::<A, M, Option<R>, R, E>::Ask {
                    question: Question::Versions,
                    exchange: now,
                }),
                Some(Ok(true)) => completes_now(position, trigger, now, entry, db, step),
                Some(Ok(false)) => step == answers::<A, M, Option<R>, R, E>(retry()),
                Some(Err(error)) => step == answers::<A, M, Option<R>, R, E>(
                    Err(HandlerError::Lsp(error)),
                ),
            },
        }
    }
}

/// Called when a `textDocument/completion` request was received.
pub fn handle_completion<A, F, O, M, S, R, E>(
    position: Position,
    context: &Option<TriggerContext>,
    id: &RequestId,
    exchange: Exchange<A, Option<R>, E>,
    event: Event<A, CachedEntry<F, O, M, S>, Option<R>, E>,
) -> (step: Step<A, M, Option<R>, R, E>)
    ensures
        completion_recorded(*id, exchange, event).asks_unknown(step),
        match completion_recorded(*id, exchange, event).stage(true) {
            Stage::Open(db) => completes(
                position,
                trigger_char(*context),
                completion_recorded(*id, exchange, event),
                brought(exchange.file->Ok_0, event),
                db,
                step,
            ),
            _ => completion_recorded(*id, exchange, event).stops(true, step),
        },
{
    let (now, cache) = match event {
        Event::Retries { table } => {
            let retried = Some(has_entry(table, id));
            (Exchange { retried, ..exchange }, None)
        },
        Event::Cached { cache } => (exchange, Some(cache)),
        event => (exchange.record(event), None),
    };
    let (now, file, db) = match now.enter(true) {
        Way::Stop(step) => return step,
        Way::Through(now, file, db) => (now, file, db),
    };
    let trigger = TriggerContext::character(context);
    if matches!(trigger, Some('\n')) {
        match now.retried {
            None => return Step::Ask { question: Question::Retries, exchange: now },
            Some(false) => return Step::Done(
                Reply { note: None, response: Err(HandlerError::Lsp(LspError::Retry)) },
            ),
            Some(true) => {},
        }
        match now.current {
            None => return Step::Ask { question: Question::Versions, exchange: now },
            Some(Ok(true)) => {},
            Some(Ok(false)) => return Step::Done(
                Reply { note: None, response: Err(HandlerError::Lsp(LspError::Retry)) },
            ),
            Some(Err(error)) => return Step::Done(
                Reply { note: None, response: Err(HandlerError::Lsp(error)) },
            ),
        }
    }
    let metadata = match cache {
        Some(cache) => entry_metadata(cache, &file),
        None => {
            if now.answer.is_none() {
                return Step::Ask { question: Question::Cached, exchange: now };
            }
            None
        },
    };
    now.answer_or_log(
        Call::Completion { position, trigger, metadata },
        file,
        db,
        "Completion item not found",
    )
}

/// Called when a `textDocument/codeAction` request was received: the answer is
/// what the quick fixes offer, in their order.
pub fn handle_code_action<R, E>(fixes: Vec<R>) -> (response: Result<
    Option<Vec<R>>,
    HandlerError<E>,
>)
    ensures
        response is Ok,
        response->Ok_0 is Some,
        response->Ok_0->0@ == fixes@,
{
    let mut fixes = fixes;
    let mut code_actions: Vec<R> = Vec::new();
    code_actions.append(&mut fixes);
    Ok(Some(code_actions))
}

} // verus!
