//! When a completion is put off, what it is run with, and what it answers.

use crate::errors::{HandlerError, LspError};
use crate::exchange::{Call, Event, Exchange, Question, Reply, Step};
use crate::handlers::handle_completion;
use crate::outside::vfs_ids;
use crate::protocol::{Position, TriggerContext};
use crate::snapshot::{AnalysisDatabase, CachedEntry, PathStatus, VersionTable};
use lsp_server::RequestId;
use ra_ap_vfs::Vfs;
use std::collections::HashMap;
use std::sync::Arc;
use vstd::prelude::*;

verus! {

/// A completion after a line break is put off if it was not tried before. If it was,
/// the tables are asked for the version that is open in the editor: with the version of
/// the analysis the request goes on, with another one it is put off, and a file that is
/// not there, or not open, is told as an error.
pub proof fn law_line_break_waits_for_the_open_version<A, F, O, M, S, R, E>(
    position: Position,
    context: &Option<TriggerContext>,
    id: &RequestId,
    exchange: Exchange<A, Option<R>, E>,
    database: Arc<AnalysisDatabase<A>>,
    table: &HashMap<RequestId, i32>,
    vfs: &Vfs,
    opened_files: &VersionTable,
    looked_up: Step<A, M, Option<R>, R, E>,
    step: Step<A, M, Option<R>, R, E>,
)
    requires
        exchange.file is Ok,
        exchange.path is Ok,
        exchange.verified == Some(PathStatus::Known),
        exchange.opened == Some(
            Ok::<Option<Arc<AnalysisDatabase<A>>>, LspError>(Some(database)),
        ),
        exchange.current is None,
        exchange.answer is None,
        context is Some,
        context->0.trigger_character is Some,
        context->0.trigger_character->0@.len() > 0,
        context->0.trigger_character->0@[0] == '\n',
        call_ensures(
            handle_completion::<A, F, O, M, S, R, E>,
            (position, context, id, exchange, Event::Retries { table }),
            looked_up,
        ),
        call_ensures(
            handle_completion::<A, F, O, M, S, R, E>,
            (position, context, id, looked_up->exchange, Event::Versions { vfs, opened_files }),
            step,
        ),
    ensures
        !table@.contains_key(*id) ==> looked_up == (Step::<A, M, Option<R>, R, E>::Done(
            Reply { note: None, response: Err(HandlerError::Lsp(LspError::Retry)) },
        )),
        table@.contains_key(*id) ==> looked_up is Ask && looked_up->question is Versions,
        table@.contains_key(*id) ==> ({
            let path = exchange.path->Ok_0;
            let found = vfs_ids(*vfs).contains_key(path@);
            let file_id = vfs_ids(*vfs)[path@];
            let open = opened_files@.contains_key(file_id);
            &&& !found ==> step == (Step::<A, M, Option<R>, R, E>::Done(
                Reply {
                    note: None,
                    response: Err(HandlerError::Lsp(LspError::FileIdNotFound(path))),
                },
            ))
            &&& found && !open ==> step == (Step::<A, M, Option<R>, R, E>::Done(
                Reply {
                    note: None,
                    response: Err(HandlerError::Lsp(LspError::DocumentVersionNotFound(path))),
                },
            ))
            &&& found && open && opened_files@[file_id] != database.version ==> step == (
            Step::<A, M, Option<R>, R, E>::Done(
                Reply { note: None, response: Err(HandlerError::Lsp(LspError::Retry)) },
            ))
            &&& found && open && opened_files@[file_id] == database.version ==> step == (
            Step::<A, M, Option<R>, R, E>::Ask {
                question: Question::Cached,
                exchange: Exchange {
                    retried: Some(true),
                    current: Some(Ok::<bool, LspError>(true)),
                    ..exchange
                },
            })
        }),
{
}

/// The analysis of a completion that is not put off is run on the request's file and
/// position, with the first character of the text that was typed, if any was, and with
/// the metadata that the cache of entry points has for the file; without metadata if it
/// has no entry for it.
pub proof fn law_completion_is_run_with_the_metadata<A, F, O, M, S, R, E>(
    position: Position,
    context: &Option<TriggerContext>,
    id: &RequestId,
    exchange: Exchange<A, Option<R>, E>,
    database: Arc<AnalysisDatabase<A>>,
    cache: &HashMap<String, CachedEntry<F, O, M, S>>,
    step: Step<A, M, Option<R>, R, E>,
)
    requires
        exchange.file is Ok,
        exchange.path is Ok,
        exchange.verified == Some(PathStatus::Known),
        exchange.opened == Some(
            Ok::<Option<Arc<AnalysisDatabase<A>>>, LspError>(Some(database)),
        ),
        exchange.answer is None,
        (context is Some && context->0.trigger_character is Some
            && context->0.trigger_character->0@.len() > 0
            && context->0.trigger_character->0@[0] == '\n') ==> exchange.retried == Some(true)
            && exchange.current == Some(Ok::<bool, LspError>(true)),
        call_ensures(
            handle_completion::<A, F, O, M, S, R, E>,
            (position, context, id, exchange, Event::Cached { cache }),
            step,
        ),
    ensures
        step is Ask,
        step->exchange == exchange,
        ({
            let file = exchange.file->Ok_0;
            let typed = context is Some && context->0.trigger_character is Some
                && context->0.trigger_character->0@.len() > 0;
            step->question == (Question::<A, M>::Analyse {
                call: Call::Completion {
                    position,
                    trigger: if typed {
                        Some(context->0.trigger_character->0@[0])
                    } else {
                        None
                    },
                    metadata: if cache@.contains_key(file) {
                        (cache@[file].0).2
                    } else {
                        None
                    },
                },
                file,
                db: database,
            })
        }),
{
}

/// What the analysis finds for a completion that is not put off is answered, all of it
/// and as it is, whatever brought the completion about. If it finds nothing, that is
/// logged, and then nothing is answered, unless the message cannot be sent, which fails
/// the request.
pub proof fn law_completion_offers_what_is_found<A, F, O, M, S, R, E>(
    position: Position,
    context: &Option<TriggerContext>,
    id: &RequestId,
    exchange: Exchange<A, Option<R>, E>,
    database: Arc<AnalysisDatabase<A>>,
    found: R,
    sent: Result<(), E>,
    shown: Step<A, M, Option<R>, R, E>,
    empty: Step<A, M, Option<R>, R, E>,
    ended: Step<A, M, Option<R>, R, E>,
)
    requires
        exchange.file is Ok,
        exchange.path is Ok,
        exchange.verified == Some(PathStatus::Known),
        exchange.opened == Some(
            Ok::<Option<Arc<AnalysisDatabase<A>>>, LspError>(Some(database)),
        ),
        exchange.logged is None,
        (context is Some && context->0.trigger_character is Some
            && context->0.trigger_character->0@.len() > 0
            && context->0.trigger_character->0@[0] == '\n') ==> exchange.retried == Some(true)
            && exchange.current == Some(Ok::<bool, LspError>(true)),
        call_ensures(
            handle_completion::<A, F, O, M, S, R, E>,
            (position, context, id, exchange, Event::Answer(Some(found))),
            shown,
        ),
        call_ensures(
            handle_completion::<A, F, O, M, S, R, E>,
            (position, context, id, exchange, Event::Answer(None)),
            empty,
        ),
        call_ensures(
            handle_completion::<A, F, O, M, S, R, E>,
            (position, context, id, empty->exchange, Event::Logged(sent)),
            ended,
        ),
    ensures
        shown == (Step::<A, M, Option<R>, R, E>::Done(
            Reply { note: None, response: Ok(Some(found)) },
        )),
        empty is Ask,
        empty->question is Log,
        empty->question->Log_0@ == "Completion item not found"@,
        sent is Ok ==> ended == (Step::<A, M, Option<R>, R, E>::Done(
            Reply { note: None, response: Ok(None) },
        )),
        sent is Err ==> ended == (Step::<A, M, Option<R>, R, E>::Done(
            Reply { note: None, response: Err(HandlerError::Outside(sent->Err_0)) },
        )),
{
}

} // verus!
