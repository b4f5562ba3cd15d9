//! What is answered once the analysis has been run.

use crate::errors::{HandlerError, LspError};
use crate::exchange::{Event, Exchange, Reply, Step};
use crate::handlers::{
    handle_code_action, handle_document_symbol, handle_goto_definition, handle_hover,
    handle_inlay_hint, handle_reference, handle_semantic_tokens_full, handle_signature_help,
    FoundReferences,
};
use crate::outside::vfs_ids;
use crate::protocol::{Location, Position, TriggerContext};
use crate::snapshot::{AnalysisDatabase, PathStatus, VersionTable};
use ra_ap_vfs::Vfs;
use std::sync::Arc;
use vstd::prelude::*;

verus! {

/// What the analysis finds for a hover is answered, all of it and as it is. If it finds
/// nothing, that is logged, and then nothing is answered, unless the message cannot be
/// sent, which fails the request.
pub proof fn law_hover_shows_what_is_found<A, N, M, R, E>(
    position: Position,
    exchange: Exchange<A, Option<R>, E>,
    database: Arc<AnalysisDatabase<A>>,
    found: R,
    sent: Result<(), E>,
    shown: Step<A, M, Option<R>, R, E>,
    empty: Step<A, M, Option<R>, R, E>,
    ended: Step<A, M, Option<R>, R, E>,
)
    requires
        exchange.file is Ok,
        exchange.path is Ok,
        exchange.verified == Some(PathStatus::Known),
        exchange.opened == Some(
            Ok::<Option<Arc<AnalysisDatabase<A>>>, LspError>(Some(database)),
        ),
        exchange.logged is None,
        call_ensures(
            handle_hover::<A, N, M, R, E>,
            (position, exchange, Event::Answer(Some(found))),
            shown,
        ),
        call_ensures(
            handle_hover::<A, N, M, R, E>,
            (position, exchange, Event::Answer(None)),
            empty,
        ),
        call_ensures(
            handle_hover::<A, N, M, R, E>,
            (position, empty->exchange, Event::Logged(sent)),
            ended,
        ),
    ensures
        shown == (Step::<A, M, Option<R>, R, E>::Done(
            Reply { note: None, response: Ok(Some(found)) },
        )),
        empty is Ask,
        empty->question is Log,
        empty->question->Log_0@ == "Hover definition not found"@,
        sent is Ok ==> ended == (Step::<A, M, Option<R>, R, E>::Done(
            Reply { note: None, response: Ok(None) },
        )),
        sent is Err ==> ended == (Step::<A, M, Option<R>, R, E>::Done(
            Reply { note: None, response: Err(HandlerError::Outside(sent->Err_0)) },
        )),
{
}

/// What the analysis finds for a definition is answered, all of it and as it is. If it
/// finds nothing, that is logged, and then nothing is answered, unless the message
/// cannot be sent, which fails the request.
pub proof fn law_definition_leads_to_what_is_found<A, N, M, R, E>(
    position: Position,
    exchange: Exchange<A, Option<R>, E>,
    database: Arc<AnalysisDatabase<A>>,
    found: R,
    sent: Result<(), E>,
    shown: Step<A, M, Option<R>, R, E>,
    empty: Step<A, M, Option<R>, R, E>,
    ended: Step<A, M, Option<R>, R, E>,
)
    requires
        exchange.file is Ok,
        exchange.path is Ok,
        exchange.verified == Some(PathStatus::Known),
        exchange.opened == Some(
            Ok::<Option<Arc<AnalysisDatabase<A>>>, LspError>(Some(database)),
        ),
        exchange.logged is None,
        call_ensures(
            handle_goto_definition::<A, N, M, R, E>,
            (position, exchange, Event::Answer(Some(found))),
            shown,
        ),
        call_ensures(
            handle_goto_definition::<A, N, M, R, E>,
            (position, exchange, Event::Answer(None)),
            empty,
        ),
        call_ensures(
            handle_goto_definition::<A, N, M, R, E>,
            (position, empty->exchange, Event::Logged(sent)),
            ended,
        ),
    ensures
        shown == (Step::<A, M, Option<R>, R, E>::Done(
            Reply { note: None, response: Ok(Some(found)) },
        )),
        empty is Ask,
        empty->question is Log,
        empty->question->Log_0@ == "Definition item not found"@,
        sent is Ok ==> ended == (Step::<A, M, Option<R>, R, E>::Done(
            Reply { note: None, response: Ok(None) },
        )),
        sent is Err ==> ended == (Step::<A, M, Option<R>, R, E>::Done(
            Reply { note: None, response: Err(HandlerError::Outside(sent->Err_0)) },
        )),
{
}

/// What the analysis gives for a signature is answered as it is, be it something or
/// nothing, and whatever text was or was not typed.
pub proof fn law_signature_help_shows_what_is_found<A, N, M, R, E>(
    position: Position,
    context: Option<TriggerContext>,
    exchange: Exchange<A, Option<R>, E>,
    database: Arc<AnalysisDatabase<A>>,
    answer: Option<R>,
    step: Step<A, M, Option<R>, R, E>,
)
    requires
        exchange.file is Ok,
        exchange.path is Ok,
        exchange.opened == Some(
            Ok::<Option<Arc<AnalysisDatabase<A>>>, LspError>(Some(database)),
        ),
        call_ensures(
            handle_signature_help::<A, N, M, R, E>,
            (position, context, exchange, Event::Answer(answer)),
            step,
        ),
    ensures
        step == (Step::<A, M, Option<R>, R, E>::Done(Reply { note: None, response: Ok(answer) })),
{
}

/// The locations that the analysis finds are answered, all of them and in their order,
/// also if there are none. If it cannot tell them, the reason is logged, and then
/// nothing is answered, unless the message cannot be sent, which fails the request.
pub proof fn law_references_are_what_is_found<A, N, M, E>(
    position: Position,
    include_declaration: bool,
    exchange: Exchange<A, FoundReferences, E>,
    database: Arc<AnalysisDatabase<A>>,
    locations: Vec<Location>,
    reason: String,
    sent: Result<(), E>,
    shown: Step<A, M, FoundReferences, Vec<Location>, E>,
    failed: Step<A, M, FoundReferences, Vec<Location>, E>,
    ended: Step<A, M, FoundReferences, Vec<Location>, E>,
)
    requires
        exchange.file is Ok,
        exchange.path is Ok,
        exchange.verified == Some(PathStatus::Known),
        exchange.opened == Some(
            Ok::<Option<Arc<AnalysisDatabase<A>>>, LspError>(Some(database)),
        ),
        exchange.logged is None,
        call_ensures(
            handle_reference::<A, N, M, E>,
            (position, include_declaration, exchange, Event::Answer(Ok(locations))),
            shown,
        ),
        call_ensures(
            handle_reference::<A, N, M, E>,
            (position, include_declaration, exchange, Event::Answer(Err(reason))),
            failed,
        ),
        call_ensures(
            handle_reference::<A, N, M, E>,
            (position, include_declaration, failed->exchange, Event::Logged(sent)),
            ended,
        ),
    ensures
        shown == (Step::<A, M, FoundReferences, Vec<Location>, E>::Done(
            Reply { note: None, response: Ok(Some(locations)) },
        )),
        failed is Ask,
        failed->question is Log,
        failed->question->Log_0@ == "Find references failed: "@ + reason@,
        sent is Ok ==> ended == (Step::<A, M, FoundReferences, Vec<Location>, E>::Done(
            Reply { note: None, response: Ok(None) },
        )),
        sent is Err ==> ended == (Step::<A, M, FoundReferences, Vec<Location>, E>::Done(
            Reply { note: None, response: Err(HandlerError::Outside(sent->Err_0)) },
        )),
{
}

/// Once the analysis of the semantic tokens has been run, the tables are asked for the
/// version that is open in the editor. If that is the version of the analysis, what the
/// analysis gave is answered as it is; if it is another one, the request is put off. A
/// file that is not there, or not open, is told as an error.
pub proof fn law_semantic_tokens_are_of_the_open_version<A, N, M, R, E>(
    exchange: Exchange<A, Option<R>, E>,
    database: Arc<AnalysisDatabase<A>>,
    answer: Option<R>,
    vfs: &Vfs,
    opened_files: &VersionTable,
    asked: Step<A, M, Option<R>, R, E>,
    step: Step<A, M, Option<R>, R, E>,
)
    requires
        exchange.file is Ok,
        exchange.path is Ok,
        exchange.opened == Some(
            Ok::<Option<Arc<AnalysisDatabase<A>>>, LspError>(Some(database)),
        ),
        exchange.current is None,
        call_ensures(
            handle_semantic_tokens_full::<A, N, M, R, E>,
            (exchange, Event::Answer(answer)),
            asked,
        ),
        call_ensures(
            handle_semantic_tokens_full::<A, N, M, R, E>,
            (asked->exchange, Event::Versions { vfs, opened_files }),
            step,
        ),
    ensures
        asked is Ask,
        asked->question is Versions,
        step is Done,
        step->Done_0.note is None,
        ({
            let path = exchange.path->Ok_0;
            let found = vfs_ids(*vfs).contains_key(path@);
            let id = vfs_ids(*vfs)[path@];
            let open = opened_files@.contains_key(id);
            let response = step->Done_0.response;
            &&& !found ==> response == Err::<Option<R>, HandlerError<E>>(
                HandlerError::Lsp(LspError::FileIdNotFound(path)),
            )
            &&& found && !open ==> response == Err::<Option<R>, HandlerError<E>>(
                HandlerError::Lsp(LspError::DocumentVersionNotFound(path)),
            )
            &&& found && open && opened_files@[id] == database.version ==> response == Ok::<
                Option<R>,
                HandlerError<E>,
            >(answer)
            &&& found && open && opened_files@[id] != database.version ==> response == Err::<
                Option<R>,
                HandlerError<E>,
            >(HandlerError::Lsp(LspError::Retry))
        }),
{
}

/// Once the analysis of the document symbols has been run, the tables are asked for the
/// version that is open in the editor. If that is the version of the analysis, what the
/// analysis gave is answered as it is; if it is another one, the request is put off. A
/// file that is not there, or not open, is told as an error.
pub proof fn law_document_symbols_are_of_the_open_version<A, N, M, R, E>(
    exchange: Exchange<A, Option<R>, E>,
    database: Arc<AnalysisDatabase<A>>,
    answer: Option<R>,
    vfs: &Vfs,
    opened_files: &VersionTable,
    asked: Step<A, M, Option<R>, R, E>,
    step: Step<A, M, Option<R>, R, E>,
)
    requires
        exchange.file is Ok,
        exchange.path is Ok,
        exchange.opened == Some(
            Ok::<Option<Arc<AnalysisDatabase<A>>>, LspError>(Some(database)),
        ),
        exchange.current is None,
        call_ensures(
            handle_document_symbol::<A, N, M, R, E>,
            (exchange, Event::Answer(answer)),
            asked,
        ),
        call_ensures(
            handle_document_symbol::<A, N, M, R, E>,
            (asked->exchange, Event::Versions { vfs, opened_files }),
            step,
        ),
    ensures
        asked is Ask,
        asked->question is Versions,
        step is Done,
        step->Done_0.note is None,
        ({
            let path = exchange.path->Ok_0;
            let found = vfs_ids(*vfs).contains_key(path@);
            let id = vfs_ids(*vfs)[path@];
            let open = opened_files@.contains_key(id);
            let response = step->Done_0.response;
            &&& !found ==> response == Err::<Option<R>, HandlerError<E>>(
                HandlerError::Lsp(LspError::FileIdNotFound(path)),
            )
            &&& found && !open ==> response == Err::<Option<R>, HandlerError<E>>(
                HandlerError::Lsp(LspError::DocumentVersionNotFound(path)),
            )
            &&& found && open && opened_files@[id] == database.version ==> response == Ok::<
                Option<R>,
                HandlerError<E>,
            >(answer)
            &&& found && open && opened_files@[id] != database.version ==> response == Err::<
                Option<R>,
                HandlerError<E>,
            >(HandlerError::Lsp(LspError::Retry))
        }),
{
}

/// Once the analysis of the inlay hints has been run, the tables are asked for the
/// version that is open in the editor. If that is the version of the analysis, what the
/// analysis gave is answered as it is; if it is another one, the request is put off. A
/// file that is not there, or not open, is told as an error.
pub proof fn law_inlay_hints_are_of_the_open_version<A, N, M, R, E>(
    exchange: Exchange<A, Option<R>, E>,
    database: Arc<AnalysisDatabase<A>>,
    answer: Option<R>,
    vfs: &Vfs,
    opened_files: &VersionTable,
    asked: Step<A, M, Option<R>, R, E>,
    step: Step<A, M, Option<R>, R, E>,
)
    requires
        exchange.file is Ok,
        exchange.path is Ok,
        exchange.opened == Some(
            Ok::<Option<Arc<AnalysisDatabase<A>>>, LspError>(Some(database)),
        ),
        exchange.current is None,
        call_ensures(
            handle_inlay_hint::<A, N, M, R, E>,
            (exchange, Event::Answer(answer)),
            asked,
        ),
        call_ensures(
            handle_inlay_hint::<A, N, M, R, E>,
            (asked->exchange, Event::Versions { vfs, opened_files }),
            step,
        ),
    ensures
        asked is Ask,
        asked->question is Versions,
        step is Done,
        step->Done_0.note is None,
        ({
            let path = exchange.path->Ok_0;
            let found = vfs_ids(*vfs).contains_key(path@);
            let id = vfs_ids(*vfs)[path@];
            let open = opened_files@.contains_key(id);
            let response = step->Done_0.response;
            &&& !found ==> response == Err::<Option<R>, HandlerError<E>>(
                HandlerError::Lsp(LspError::FileIdNotFound(path)),
            )
            &&& found && !open ==> response == Err::<Option<R>, HandlerError<E>>(
                HandlerError::Lsp(LspError::DocumentVersionNotFound(path)),
            )
            &&& found && open && opened_files@[id] == database.version ==> response == Ok::<
                Option<R>,
                HandlerError<E>,
            >(answer)
            &&& found && open && opened_files@[id] != database.version ==> response == Err::<
                Option<R>,
                HandlerError<E>,
            >(HandlerError::Lsp(LspError::Retry))
        }),
{
}

/// The code actions that are answered are the quick fixes: all of them, in their order.
pub proof fn law_code_actions_are_the_quick_fixes<R, E>(
    fixes: Vec<R>,
    response: Result<Option<Vec<R>>, HandlerError<E>>,
)
    requires
        call_ensures(handle_code_action::<R, E>, (fixes,), response),
    ensures
        response is Ok,
        response->Ok_0 is Some,
        response->Ok_0->0@.len() == fixes@.len(),
        forall|i: int| 0 <= i < fixes@.len() ==> response->Ok_0->0@[i] == fixes@[i],
{
}

} // verus!
