//! Which requests come to an analysis, which analysis that is, and what becomes of
//! the others.

use crate::errors::{HandlerError, LspError};
use crate::exchange::{Call, Event, Exchange, Question, Step};
use crate::handlers::{
    handle_completion, handle_document_symbol, handle_goto_definition, handle_hover,
    handle_inlay_hint, handle_reference, handle_semantic_tokens_full, handle_signature_help,
    FoundReferences,
};
use crate::outside::vfs_ids;
use crate::protocol::{Location, Position, TriggerContext};
use crate::rename::{handle_rename, WorkspaceEdit};
use crate::snapshot::{AnalysisDatabase, DatabaseTable, PathStatus};
use lsp_server::RequestId;
use ra_ap_vfs::Vfs;
use std::sync::Arc;
use vstd::prelude::*;

verus! {

/// A hover is only looked for where it can be found. A URI that names no document ends
/// the request with its error. A path that the tables do not have is answered with
/// nothing, and logged. While a table is busy or the compilation is under way the
/// request is put off; after a failed compilation nothing is answered. In all other
/// cases the analysis is run: what is at the request's position of the request's file.
pub proof fn law_hover_opens<A, N, M, R, E>(
    position: Position,
    exchange: Exchange<A, Option<R>, E>,
    vfs: &Vfs,
    db: &DatabaseTable<A>,
    free_vfs: Option<&Vfs>,
    free_db: Option<&DatabaseTable<A>>,
    started: Step<A, M, Option<R>, R, E>,
    checked: Step<A, M, Option<R>, R, E>,
    tried: Step<A, M, Option<R>, R, E>,
)
    requires
        call_ensures(handle_hover::<A, N, M, R, E>, (position, exchange, Event::Start), started),
        call_ensures(
            handle_hover::<A, N, M, R, E>,
            (position, exchange, Event::Checked { vfs, db }),
            checked,
        ),
        call_ensures(
            handle_hover::<A, N, M, R, E>,
            (position, exchange, Event::Tried { free_vfs, free_db }),
            tried,
        ),
    ensures
        ({
            let located = exchange.file is Ok && exchange.path is Ok;
            let path = exchange.path->Ok_0@;
            let found = vfs_ids(*vfs).contains_key(path);
            let compiled = db@.contains_key(vfs_ids(*vfs)[path]);
            let known = located && exchange.verified == Some(PathStatus::Known);
            let free_id = vfs_ids(*free_vfs->0)[path];
            let missing = free_vfs is Some && !vfs_ids(*free_vfs->0).contains_key(path);
            let entered = free_db is Some && free_db->0@.contains_key(free_id);
            let database = free_db->0@[free_id];
            &&& exchange.file is Err ==> {
                &&& started is Done
                &&& started->Done_0.note is None
                &&& started->Done_0.response == Err::<Option<R>, HandlerError<E>>(
                    HandlerError::Outside(exchange.file->Err_0),
                )
                &&& checked == started
                &&& tried == started
            }
            &&& exchange.file is Ok && exchange.path is Err ==> {
                &&& started is Done
                &&& started->Done_0.note is None
                &&& started->Done_0.response == Err::<Option<R>, HandlerError<E>>(
                    HandlerError::Outside(exchange.path->Err_0),
                )
                &&& checked == started
                &&& tried == started
            }
            &&& located && exchange.verified is None ==> started == (
            Step::<A, M, Option<R>, R, E>::Ask {
                question: Question::Check,
                exchange,
            })
            &&& located && !found ==> {
                &&& checked is Done
                &&& checked->Done_0.note is Some
                &&& checked->Done_0.note->0@ == "Vfs not contains: "@ + path
                    + ", request failed"@
                &&& checked->Done_0.response == Ok::<Option<R>, HandlerError<E>>(None)
            }
            &&& located && found && !compiled ==> {
                &&& checked is Done
                &&& checked->Done_0.note is Some
                &&& checked->Done_0.note->0@ == "LSP AnalysisDatabase not contains: "@ + path
                    + ", request failed"@
                &&& checked->Done_0.response == Ok::<Option<R>, HandlerError<E>>(None)
            }
            &&& located && found && compiled && exchange.opened is None ==> checked == (
            Step::<A, M, Option<R>, R, E>::Ask {
                question: Question::Try,
                exchange: Exchange { verified: Some(PathStatus::Known), ..exchange },
            })
            &&& known && (free_vfs is None || (!missing && (free_db is None || (entered
                && database is None)))) ==> {
                &&& tried is Done
                &&& tried->Done_0.note is None
                &&& tried->Done_0.response == Err::<Option<R>, HandlerError<E>>(
                    HandlerError::Lsp(LspError::Retry),
                )
            }
            &&& known && (missing || (free_vfs is Some && free_db is Some && !entered)) ==> {
                &&& tried is Done
                &&& tried->Done_0.note is None
                &&& tried->Done_0.response == Ok::<Option<R>, HandlerError<E>>(None)
            }
            &&& known && exchange.answer is None && free_vfs is Some
                && !missing && entered && database is Some ==> {
                &&& tried is Ask
                &&& tried->question == (Question::<A, M>::Analyse {
                    call: Call::Hover { position },
                    file: exchange.file->Ok_0,
                    db: database->0,
                })
                &&& tried->exchange == (Exchange {
                    opened: Some(Ok::<Option<Arc<AnalysisDatabase<A>>>, LspError>(database)),
                    ..exchange
                })
            }
        }),
{
}

/// A definition is only looked for where it can be found. A URI that names no document
/// ends the request with its error. A path that the tables do not have is answered with
/// nothing, and logged. While a table is busy or the compilation is under way the
/// request is put off; after a failed compilation nothing is answered. In all other
/// cases the analysis is run: what is defined at the request's position of the
/// request's file.
pub proof fn law_definition_opens<A, N, M, R, E>(
    position: Position,
    exchange: Exchange<A, Option<R>, E>,
    vfs: &Vfs,
    db: &DatabaseTable<A>,
    free_vfs: Option<&Vfs>,
    free_db: Option<&DatabaseTable<A>>,
    started: Step<A, M, Option<R>, R, E>,
    checked: Step<A, M, Option<R>, R, E>,
    tried: Step<A, M, Option<R>, R, E>,
)
    requires
        call_ensures(
            handle_goto_definition::<A, N, M, R, E>,
            (position, exchange, Event::Start),
            started,
        ),
        call_ensures(
            handle_goto_definition::<A, N, M, R, E>,
            (position, exchange, Event::Checked { vfs, db }),
            checked,
        ),
        call_ensures(
            handle_goto_definition::<A, N, M, R, E>,
            (position, exchange, Event::Tried { free_vfs, free_db }),
            tried,
        ),
    ensures
        ({
            let located = exchange.file is Ok && exchange.path is Ok;
            let path = exchange.path->Ok_0@;
            let found = vfs_ids(*vfs).contains_key(path);
            let compiled = db@.contains_key(vfs_ids(*vfs)[path]);
            let known = located && exchange.verified == Some(PathStatus::Known);
            let free_id = vfs_ids(*free_vfs->0)[path];
            let missing = free_vfs is Some && !vfs_ids(*free_vfs->0).contains_key(path);
            let entered = free_db is Some && free_db->0@.contains_key(free_id);
            let database = free_db->0@[free_id];
            &&& exchange.file is Err ==> {
                &&& started is Done
                &&& started->Done_0.note is None
                &&& started->Done_0.response == Err::<Option<R>, HandlerError<E>>(
                    HandlerError::Outside(exchange.file->Err_0),
                )
                &&& checked == started
                &&& tried == started
            }
            &&& exchange.file is Ok && exchange.path is Err ==> {
                &&& started is Done
                &&& started->Done_0.note is None
                &&& started->Done_0.response == Err::<Option<R>, HandlerError<E>>(
                    HandlerError::Outside(exchange.path->Err_0),
                )
                &&& checked == started
                &&& tried == started
            }
            &&& located && exchange.verified is None ==> started == (
            Step::<A, M, Option<R>, R, E>::Ask {
                question: Question::Check,
                exchange,
            })
            &&& located && !found ==> {
                &&& checked is Done
                &&& checked->Done_0.note is Some
                &&& checked->Done_0.note->0@ == "Vfs not contains: "@ + path
                    + ", request failed"@
                &&& checked->Done_0.response == Ok::<Option<R>, HandlerError<E>>(None)
            }
            &&& located && found && !compiled ==> {
                &&& checked is Done
                &&& checked->Done_0.note is Some
                &&& checked->Done_0.note->0@ == "LSP AnalysisDatabase not contains: "@ + path
                    + ", request failed"@
                &&& checked->Done_0.response == Ok::<Option<R>, HandlerError<E>>(None)
            }
            &&& located && found && compiled && exchange.opened is None ==> checked == (
            Step::<A, M, Option<R>, R, E>::Ask {
                question: Question::Try,
                exchange: Exchange { verified: Some(PathStatus::Known), ..exchange },
            })
            &&& known && (free_vfs is None || (!missing && (free_db is None || (entered
                && database is None)))) ==> {
                &&& tried is Done
                &&& tried->Done_0.note is None
                &&& tried->Done_0.response == Err::<Option<R>, HandlerError<E>>(
                    HandlerError::Lsp(LspError::Retry),
                )
            }
            &&& known && (missing || (free_vfs is Some && free_db is Some && !entered)) ==> {
                &&& tried is Done
                &&& tried->Done_0.note is None
                &&& tried->Done_0.response == Ok::<Option<R>, HandlerError<E>>(None)
            }
            &&& known && exchange.answer is None && free_vfs is Some
                && !missing && entered && database is Some ==> {
                &&& tried is Ask
                &&& tried->question == (Question::<A, M>::Analyse {
                    call: Call::Definition { position },
                    file: exchange.file->Ok_0,
                    db: database->0,
                })
                &&& tried->exchange == (Exchange {
                    opened: Some(Ok::<Option<Arc<AnalysisDatabase<A>>>, LspError>(database)),
                    ..exchange
                })
            }
        }),
{
}

/// A reference is only looked for where it can be found. A URI that names no document
/// ends the request with its error. A path that the tables do not have is answered with
/// nothing, and logged. While a table is busy or the compilation is under way the
/// request is put off; after a failed compilation nothing is answered. In all other
/// cases the analysis is run: the references of what is at the request's position, with
/// the declaration if and only if the request asks for it.
pub proof fn law_references_open<A, N, M, E>(
    position: Position,
    include_declaration: bool,
    exchange: Exchange<A, FoundReferences, E>,
    vfs: &Vfs,
    db: &DatabaseTable<A>,
    free_vfs: Option<&Vfs>,
    free_db: Option<&DatabaseTable<A>>,
    started: Step<A, M, FoundReferences, Vec<Location>, E>,
    checked: Step<A, M, FoundReferences, Vec<Location>, E>,
    tried: Step<A, M, FoundReferences, Vec<Location>, E>,
)
    requires
        call_ensures(
            handle_reference::<A, N, M, E>,
            (position, include_declaration, exchange, Event::Start),
            started,
        ),
        call_ensures(
            handle_reference::<A, N, M, E>,
            (position, include_declaration, exchange, Event::Checked { vfs, db }),
            checked,
        ),
        call_ensures(
            handle_reference::<A, N, M, E>,
            (position, include_declaration, exchange, Event::Tried { free_vfs, free_db }),
            tried,
        ),
    ensures
        ({
            let located = exchange.file is Ok && exchange.path is Ok;
            let path = exchange.path->Ok_0@;
            let found = vfs_ids(*vfs).contains_key(path);
            let compiled = db@.contains_key(vfs_ids(*vfs)[path]);
            let known = located && exchange.verified == Some(PathStatus::Known);
            let free_id = vfs_ids(*free_vfs->0)[path];
            let missing = free_vfs is Some && !vfs_ids(*free_vfs->0).contains_key(path);
            let entered = free_db is Some && free_db->0@.contains_key(free_id);
            let database = free_db->0@[free_id];
            &&& exchange.file is Err ==> {
                &&& started is Done
                &&& started->Done_0.note is None
                &&& started->Done_0.response == Err::<Option<Vec<Location>>, HandlerError<E>>(
                    HandlerError::Outside(exchange.file->Err_0),
                )
                &&& checked == started
                &&& tried == started
            }
            &&& exchange.file is Ok && exchange.path is Err ==> {
                &&& started is Done
                &&& started->Done_0.note is None
                &&& started->Done_0.response == Err::<Option<Vec<Location>>, HandlerError<E>>(
                    HandlerError::Outside(exchange.path->Err_0),
                )
                &&& checked == started
                &&& tried == started
            }
            &&& located && exchange.verified is None ==> started == (
            Step::<A, M, FoundReferences, Vec<Location>, E>::Ask {
                question: Question::Check,
                exchange,
            })
            &&& located && !found ==> {
                &&& checked is Done
                &&& checked->Done_0.note is Some
                &&& checked->Done_0.note->0@ == "Vfs not contains: "@ + path
                    + ", request failed"@
                &&& checked->Done_0.response == Ok::<Option<Vec<Location>>, HandlerError<E>>(None)
            }
            &&& located && found && !compiled ==> {
                &&& checked is Done
                &&& checked->Done_0.note is Some
                &&& checked->Done_0.note->0@ == "LSP AnalysisDatabase not contains: "@ + path
                    + ", request failed"@
                &&& checked->Done_0.response == Ok::<Option<Vec<Location>>, HandlerError<E>>(None)
            }
            &&& located && found && compiled && exchange.opened is None ==> checked == (
            Step::<A, M, FoundReferences, Vec<Location>, E>::Ask {
                question: Question::Try,
                exchange: Exchange { verified: Some(PathStatus::Known), ..exchange },
            })
            &&& known && (free_vfs is None || (!missing && (free_db is None || (entered
                && database is None)))) ==> {
                &&& tried is Done
                &&& tried->Done_0.note is None
                &&& tried->Done_0.response == Err::<Option<Vec<Location>>, HandlerError<E>>(
                    HandlerError::Lsp(LspError::Retry),
                )
            }
            &&& known && (missing || (free_vfs is Some && free_db is Some && !entered)) ==> {
                &&& tried is Done
                &&& tried->Done_0.note is None
                &&& tried->Done_0.response == Ok::<Option<Vec<Location>>, HandlerError<E>>(None)
            }
            &&& known && exchange.answer is None && free_vfs is Some
                && !missing && entered && database is Some ==> {
                &&& tried is Ask
                &&& tried->question == (Question::<A, M>::Analyse {
                    call: Call::References { position, include_declaration },
                    file: exchange.file->Ok_0,
                    db: database->0,
                })
                &&& tried->exchange == (Exchange {
                    opened: Some(Ok::<Option<Arc<AnalysisDatabase<A>>>, LspError>(database)),
                    ..exchange
                })
            }
        }),
{
}

/// A symbol with a valid new name is only looked for where it can be found. A URI that
/// names no document ends the request with its error. A path that the tables do not
/// have is answered with nothing, and logged. While a table is busy or the compilation
/// is under way the request is put off; after a failed compilation nothing is answered.
/// In all other cases the analysis is run: all references of what is at the request's
/// position, the declaration among them.
pub proof fn law_rename_opens<A, N, M, E>(
    position: Position,
    new_name: &String,
    exchange: Exchange<A, FoundReferences, E>,
    vfs: &Vfs,
    db: &DatabaseTable<A>,
    free_vfs: Option<&Vfs>,
    free_db: Option<&DatabaseTable<A>>,
    started: Step<A, M, FoundReferences, WorkspaceEdit, E>,
    checked: Step<A, M, FoundReferences, WorkspaceEdit, E>,
    tried: Step<A, M, FoundReferences, WorkspaceEdit, E>,
)
    requires
        call_ensures(
            handle_rename::<A, N, M, E>,
            (position, new_name, true, exchange, Event::Start),
            started,
        ),
        call_ensures(
            handle_rename::<A, N, M, E>,
            (position, new_name, true, exchange, Event::Checked { vfs, db }),
            checked,
        ),
        call_ensures(
            handle_rename::<A, N, M, E>,
            (position, new_name, true, exchange, Event::Tried { free_vfs, free_db }),
            tried,
        ),
    ensures
        ({
            let located = exchange.file is Ok && exchange.path is Ok;
            let path = exchange.path->Ok_0@;
            let found = vfs_ids(*vfs).contains_key(path);
            let compiled = db@.contains_key(vfs_ids(*vfs)[path]);
            let known = located && exchange.verified == Some(PathStatus::Known);
            let free_id = vfs_ids(*free_vfs->0)[path];
            let missing = free_vfs is Some && !vfs_ids(*free_vfs->0).contains_key(path);
            let entered = free_db is Some && free_db->0@.contains_key(free_id);
            let database = free_db->0@[free_id];
            &&& exchange.file is Err ==> {
                &&& started is Done
                &&& started->Done_0.note is None
                &&& started->Done_0.response == Err::<Option<WorkspaceEdit>, HandlerError<E>>(
                    HandlerError::Outside(exchange.file->Err_0),
                )
                &&& checked == started
                &&& tried == started
            }
            &&& exchange.file is Ok && exchange.path is Err ==> {
                &&& started is Done
                &&& started->Done_0.note is None
                &&& started->Done_0.response == Err::<Option<WorkspaceEdit>, HandlerError<E>>(
                    HandlerError::Outside(exchange.path->Err_0),
                )
                &&& checked == started
                &&& tried == started
            }
            &&& located && exchange.verified is None ==> started == (
            Step::<A, M, FoundReferences, WorkspaceEdit, E>::Ask {
                question: Question::Check,
                exchange,
            })
            &&& located && !found ==> {
                &&& checked is Done
                &&& checked->Done_0.note is Some
                &&& checked->Done_0.note->0@ == "Vfs not contains: "@ + path
                    + ", request failed"@
                &&& checked->Done_0.response == Ok::<Option<WorkspaceEdit>, HandlerError<E>>(None)
            }
            &&& located && found && !compiled ==> {
                &&& checked is Done
                &&& checked->Done_0.note is Some
                &&& checked->Done_0.note->0@ == "LSP AnalysisDatabase not contains: "@ + path
                    + ", request failed"@
                &&& checked->Done_0.response == Ok::<Option<WorkspaceEdit>, HandlerError<E>>(None)
            }
            &&& located && found && compiled && exchange.opened is None ==> checked == (
            Step::<A, M, FoundReferences, WorkspaceEdit, E>::Ask {
                question: Question::Try,
                exchange: Exchange { verified: Some(PathStatus::Known), ..exchange },
            })
            &&& known && (free_vfs is None || (!missing && (free_db is None || (entered
                && database is None)))) ==> {
                &&& tried is Done
                &&& tried->Done_0.note is None
                &&& tried->Done_0.response == Err::<Option<WorkspaceEdit>, HandlerError<E>>(
                    HandlerError::Lsp(LspError::Retry),
                )
            }
            &&& known && (missing || (free_vfs is Some && free_db is Some && !entered)) ==> {
                &&& tried is Done
                &&& tried->Done_0.note is None
                &&& tried->Done_0.response == Ok::<Option<WorkspaceEdit>, HandlerError<E>>(None)
            }
            &&& known && exchange.answer is None && free_vfs is Some
                && !missing && entered && database is Some ==> {
                &&& tried is Ask
                &&& tried->question == (Question::<A, M>::Analyse {
                    call: Call::References { position, include_declaration: true },
                    file: exchange.file->Ok_0,
                    db: database->0,
                })
                &&& tried->exchange == (Exchange {
                    opened: Some(Ok::<Option<Arc<AnalysisDatabase<A>>>, LspError>(database)),
                    ..exchange
                })
            }
        }),
{
}

/// Semantic tokens are only looked for where they can be found. A URI that names no
/// document ends the request with its error. While a table is busy or the compilation
/// is under way the request is put off; after a failed compilation, or of a file that
/// is not there, nothing is answered. In all other cases the analysis is run: all of
/// the request's file.
pub proof fn law_semantic_tokens_open<A, N, M, R, E>(
    exchange: Exchange<A, Option<R>, E>,
    free_vfs: Option<&Vfs>,
    free_db: Option<&DatabaseTable<A>>,
    started: Step<A, M, Option<R>, R, E>,
    tried: Step<A, M, Option<R>, R, E>,
)
    requires
        call_ensures(
            handle_semantic_tokens_full::<A, N, M, R, E>,
            (exchange, Event::Start),
            started,
        ),
        call_ensures(
            handle_semantic_tokens_full::<A, N, M, R, E>,
            (exchange, Event::Tried { free_vfs, free_db }),
            tried,
        ),
    ensures
        ({
            let located = exchange.file is Ok && exchange.path is Ok;
            let path = exchange.path->Ok_0@;
            let free_id = vfs_ids(*free_vfs->0)[path];
            let missing = free_vfs is Some && !vfs_ids(*free_vfs->0).contains_key(path);
            let entered = free_db is Some && free_db->0@.contains_key(free_id);
            let database = free_db->0@[free_id];
            &&& exchange.file is Err ==> {
                &&& started is Done
                &&& started->Done_0.note is None
                &&& started->Done_0.response == Err::<Option<R>, HandlerError<E>>(
                    HandlerError::Outside(exchange.file->Err_0),
                )
                &&& tried == started
            }
            &&& exchange.file is Ok && exchange.path is Err ==> {
                &&& started is Done
                &&& started->Done_0.note is None
                &&& started->Done_0.response == Err::<Option<R>, HandlerError<E>>(
                    HandlerError::Outside(exchange.path->Err_0),
                )
                &&& tried == started
            }
            &&& located && exchange.opened is None ==> started == (
            Step::<A, M, Option<R>, R, E>::Ask { question: Question::Try, exchange })
            &&& located && (free_vfs is None || (!missing && (free_db is None || (entered
                && database is None)))) ==> {
                &&& tried is Done
                &&& tried->Done_0.note is None
                &&& tried->Done_0.response == Err::<Option<R>, HandlerError<E>>(
                    HandlerError::Lsp(LspError::Retry),
                )
            }
            &&& located && (missing || (free_vfs is Some && free_db is Some && !entered)) ==> {
                &&& tried is Done
                &&& tried->Done_0.note is None
                &&& tried->Done_0.response == Ok::<Option<R>, HandlerError<E>>(None)
            }
            &&& located && exchange.answer is None && free_vfs is Some
                && !missing && entered && database is Some ==> {
                &&& tried is Ask
                &&& tried->question == (Question::<A, M>::Analyse {
                    call: Call::<M>::SemanticTokens,
                    file: exchange.file->Ok_0,
                    db: database->0,
                })
                &&& tried->exchange == (Exchange {
                    opened: Some(Ok::<Option<Arc<AnalysisDatabase<A>>>, LspError>(database)),
                    ..exchange
                })
            }
        }),
{
}

/// Document symbols are only looked for where they can be found. A URI that names no
/// document ends the request with its error. While a table is busy or the compilation
/// is under way the request is put off; after a failed compilation, or of a file that
/// is not there, nothing is answered. In all other cases the analysis is run: all of
/// the request's file.
pub proof fn law_document_symbols_open<A, N, M, R, E>(
    exchange: Exchange<A, Option<R>, E>,
    free_vfs: Option<&Vfs>,
    free_db: Option<&DatabaseTable<A>>,
    started: Step<A, M, Option<R>, R, E>,
    tried: Step<A, M, Option<R>, R, E>,
)
    requires
        call_ensures(handle_document_symbol::<A, N, M, R, E>, (exchange, Event::Start), started),
        call_ensures(
            handle_document_symbol::<A, N, M, R, E>,
            (exchange, Event::Tried { free_vfs, free_db }),
            tried,
        ),
    ensures
        ({
            let located = exchange.file is Ok && exchange.path is Ok;
            let path = exchange.path->Ok_0@;
            let free_id = vfs_ids(*free_vfs->0)[path];
            let missing = free_vfs is Some && !vfs_ids(*free_vfs->0).contains_key(path);
            let entered = free_db is Some && free_db->0@.contains_key(free_id);
            let database = free_db->0@[free_id];
            &&& exchange.file is Err ==> {
                &&& started is Done
                &&& started->Done_0.note is None
                &&& started->Done_0.response == Err::<Option<R>, HandlerError<E>>(
                    HandlerError::Outside(exchange.file->Err_0),
                )
                &&& tried == started
            }
            &&& exchange.file is Ok && exchange.path is Err ==> {
                &&& started is Done
                &&& started->Done_0.note is None
                &&& started->Done_0.response == Err::<Option<R>, HandlerError<E>>(
                    HandlerError::Outside(exchange.path->Err_0),
                )
                &&& tried == started
            }
            &&& located && exchange.opened is None ==> started == (
            Step::<A, M, Option<R>, R, E>::Ask { question: Question::Try, exchange })
            &&& located && (free_vfs is None || (!missing && (free_db is None || (entered
                && database is None)))) ==> {
                &&& tried is Done
                &&& tried->Done_0.note is None
                &&& tried->Done_0.response == Err::<Option<R>, HandlerError<E>>(
                    HandlerError::Lsp(LspError::Retry),
                )
            }
            &&& located && (missing || (free_vfs is Some && free_db is Some && !entered)) ==> {
                &&& tried is Done
                &&& tried->Done_0.note is None
                &&& tried->Done_0.response == Ok::<Option<R>, HandlerError<E>>(None)
            }
            &&& located && exchange.answer is None && free_vfs is Some
                && !missing && entered && database is Some ==> {
                &&& tried is Ask
                &&& tried->question == (Question::<A, M>::Analyse {
                    call: Call::<M>::DocumentSymbols,
                    file: exchange.file->Ok_0,
                    db: database->0,
                })
                &&& tried->exchange == (Exchange {
                    opened: Some(Ok::<Option<Arc<AnalysisDatabase<A>>>, LspError>(database)),
                    ..exchange
                })
            }
        }),
{
}

/// Inlay hints are only looked for where they can be found. A URI that names no
/// document ends the request with its error. While a table is busy or the compilation
/// is under way the request is put off; after a failed compilation, or of a file that
/// is not there, nothing is answered. In all other cases the analysis is run: all of
/// the request's file.
pub proof fn law_inlay_hints_open<A, N, M, R, E>(
    exchange: Exchange<A, Option<R>, E>,
    free_vfs: Option<&Vfs>,
    free_db: Option<&DatabaseTable<A>>,
    started: Step<A, M, Option<R>, R, E>,
    tried: Step<A, M, Option<R>, R, E>,
)
    requires
        call_ensures(handle_inlay_hint::<A, N, M, R, E>, (exchange, Event::Start), started),
        call_ensures(
            handle_inlay_hint::<A, N, M, R, E>,
            (exchange, Event::Tried { free_vfs, free_db }),
            tried,
        ),
    ensures
        ({
            let located = exchange.file is Ok && exchange.path is Ok;
            let path = exchange.path->Ok_0@;
            let free_id = vfs_ids(*free_vfs->0)[path];
            let missing = free_vfs is Some && !vfs_ids(*free_vfs->0).contains_key(path);
            let entered = free_db is Some && free_db->0@.contains_key(free_id);
            let database = free_db->0@[free_id];
            &&& exchange.file is Err ==> {
                &&& started is Done
                &&& started->Done_0.note is None
                &&& started->Done_0.response == Err::<Option<R>, HandlerError<E>>(
                    HandlerError::Outside(exchange.file->Err_0),
                )
                &&& tried == started
            }
            &&& exchange.file is Ok && exchange.path is Err ==> {
                &&& started is Done
                &&& started->Done_0.note is None
                &&& started->Done_0.response == Err::<Option<R>, HandlerError<E>>(
                    HandlerError::Outside(exchange.path->Err_0),
                )
                &&& tried == started
            }
            &&& located && exchange.opened is None ==> started == (
            Step::<A, M, Option<R>, R, E>::Ask { question: Question::Try, exchange })
            &&& located && (free_vfs is None || (!missing && (free_db is None || (entered
                && database is None)))) ==> {
                &&& tried is Done
                &&& tried->Done_0.note is None
                &&& tried->Done_0.response == Err::<Option<R>, HandlerError<E>>(
                    HandlerError::Lsp(LspError::Retry),
                )
            }
            &&& located && (missing || (free_vfs is Some && free_db is Some && !entered)) ==> {
                &&& tried is Done
                &&& tried->Done_0.note is None
                &&& tried->Done_0.response == Ok::<Option<R>, HandlerError<E>>(None)
            }
            &&& located && exchange.answer is None && free_vfs is Some
                && !missing && entered && database is Some ==> {
                &&& tried is Ask
                &&& tried->question == (Question::<A, M>::Analyse {
                    call: Call::<M>::InlayHints,
                    file: exchange.file->Ok_0,
                    db: database->0,
                })
                &&& tried->exchange == (Exchange {
                    opened: Some(Ok::<Option<Arc<AnalysisDatabase<A>>>, LspError>(database)),
                    ..exchange
                })
            }
        }),
{
}

/// Signatures are only looked for where they can be found. A URI that names no document
/// ends the request with its error. While a table is busy or the compilation is under
/// way the request is put off; after a failed compilation, or of a file that is not
/// there, nothing is answered. In all other cases the analysis is run: the signature at
/// the request's position, with the text that was typed, if any was.
pub proof fn law_signature_help_opens<A, N, M, R, E>(
    position: Position,
    context: Option<TriggerContext>,
    exchange: Exchange<A, Option<R>, E>,
    free_vfs: Option<&Vfs>,
    free_db: Option<&DatabaseTable<A>>,
    started: Step<A, M, Option<R>, R, E>,
    tried: Step<A, M, Option<R>, R, E>,
)
    requires
        call_ensures(
            handle_signature_help::<A, N, M, R, E>,
            (position, context, exchange, Event::Start),
            started,
        ),
        call_ensures(
            handle_signature_help::<A, N, M, R, E>,
            (position, context, exchange, Event::Tried { free_vfs, free_db }),
            tried,
        ),
    ensures
        ({
            let located = exchange.file is Ok && exchange.path is Ok;
            let path = exchange.path->Ok_0@;
            let free_id = vfs_ids(*free_vfs->0)[path];
            let missing = free_vfs is Some && !vfs_ids(*free_vfs->0).contains_key(path);
            let entered = free_db is Some && free_db->0@.contains_key(free_id);
            let database = free_db->0@[free_id];
            &&& exchange.file is Err ==> {
                &&& started is Done
                &&& started->Done_0.note is None
                &&& started->Done_0.response == Err::<Option<R>, HandlerError<E>>(
                    HandlerError::Outside(exchange.file->Err_0),
                )
                &&& tried == started
            }
            &&& exchange.file is Ok && exchange.path is Err ==> {
                &&& started is Done
                &&& started->Done_0.note is None
                &&& started->Done_0.response == Err::<Option<R>, HandlerError<E>>(
                    HandlerError::Outside(exchange.path->Err_0),
                )
                &&& tried == started
            }
            &&& located && exchange.opened is None ==> started == (
            Step::<A, M, Option<R>, R, E>::Ask { question: Question::Try, exchange })
            &&& located && (free_vfs is None || (!missing && (free_db is None || (entered
                && database is None)))) ==> {
                &&& tried is Done
                &&& tried->Done_0.note is None
                &&& tried->Done_0.response == Err::<Option<R>, HandlerError<E>>(
                    HandlerError::Lsp(LspError::Retry),
                )
            }
            &&& located && (missing || (free_vfs is Some && free_db is Some && !entered)) ==> {
                &&& tried is Done
                &&& tried->Done_0.note is None
                &&& tried->Done_0.response == Ok::<Option<R>, HandlerError<E>>(None)
            }
            &&& located && exchange.answer is None && free_vfs is Some
                && !missing && entered && database is Some ==> {
                &&& tried is Ask
                &&& tried->question == (Question::<A, M>::Analyse {
                    call: Call::SignatureHelp {
                        position,
                        typed: if context is Some {
                            context->0.trigger_character
                        } else {
                            None
                        },
                    },
                    file: exchange.file->Ok_0,
                    db: database->0,
                })
                &&& tried->exchange == (Exchange {
                    opened: Some(Ok::<Option<Arc<AnalysisDatabase<A>>>, LspError>(database)),
                    ..exchange
                })
            }
        }),
{
}

/// A completion is only looked for where it can be found. A URI that names no document
/// ends the request with its error. A path that the tables do not have is answered with
/// nothing, and logged. While a table is busy or the compilation is under way the
/// request is put off; after a failed compilation nothing is answered. In all other
/// cases the analysis is run: after a line break the table of retries is asked for
/// first, otherwise the cache of entry points.
pub proof fn law_completion_opens<A, F, O, M, S, R, E>(
    position: Position,
    context: &Option<TriggerContext>,
    id: &RequestId,
    exchange: Exchange<A, Option<R>, E>,
    vfs: &Vfs,
    db: &DatabaseTable<A>,
    free_vfs: Option<&Vfs>,
    free_db: Option<&DatabaseTable<A>>,
    started: Step<A, M, Option<R>, R, E>,
    checked: Step<A, M, Option<R>, R, E>,
    tried: Step<A, M, Option<R>, R, E>,
)
    requires
        call_ensures(
            handle_completion::<A, F, O, M, S, R, E>,
            (position, context, id, exchange, Event::Start),
            started,
        ),
        call_ensures(
            handle_completion::<A, F, O, M, S, R, E>,
            (position, context, id, exchange, Event::Checked { vfs, db }),
            checked,
        ),
        call_ensures(
            handle_completion::<A, F, O, M, S, R, E>,
            (position, context, id, exchange, Event::Tried { free_vfs, free_db }),
            tried,
        ),
    ensures
        ({
            let located = exchange.file is Ok && exchange.path is Ok;
            let path = exchange.path->Ok_0@;
            let found = vfs_ids(*vfs).contains_key(path);
            let compiled = db@.contains_key(vfs_ids(*vfs)[path]);
            let known = located && exchange.verified == Some(PathStatus::Known);
            let free_id = vfs_ids(*free_vfs->0)[path];
            let missing = free_vfs is Some && !vfs_ids(*free_vfs->0).contains_key(path);
            let entered = free_db is Some && free_db->0@.contains_key(free_id);
            let database = free_db->0@[free_id];
            &&& exchange.file is Err ==> {
                &&& started is Done
                &&& started->Done_0.note is None
                &&& started->Done_0.response == Err::<Option<R>, HandlerError<E>>(
                    HandlerError::Outside(exchange.file->Err_0),
                )
                &&& checked == started
                &&& tried == started
            }
            &&& exchange.file is Ok && exchange.path is Err ==> {
                &&& started is Done
                &&& started->Done_0.note is None
                &&& started->Done_0.response == Err::<Option<R>, HandlerError<E>>(
                    HandlerError::Outside(exchange.path->Err_0),
                )
                &&& checked == started
                &&& tried == started
            }
            &&& located && exchange.verified is None ==> started == (
            Step::<A, M, Option<R>, R, E>::Ask {
                question: Question::Check,
                exchange,
            })
            &&& located && !found ==> {
                &&& checked is Done
                &&& checked->Done_0.note is Some
                &&& checked->Done_0.note->0@ == "Vfs not contains: "@ + path
                    + ", request failed"@
                &&& checked->Done_0.response == Ok::<Option<R>, HandlerError<E>>(None)
            }
            &&& located && found && !compiled ==> {
                &&& checked is Done
                &&& checked->Done_0.note is Some
                &&& checked->Done_0.note->0@ == "LSP AnalysisDatabase not contains: "@ + path
                    + ", request failed"@
                &&& checked->Done_0.response == Ok::<Option<R>, HandlerError<E>>(None)
            }
            &&& located && found && compiled && exchange.opened is None ==> checked == (
            Step::<A, M, Option<R>, R, E>::Ask {
                question: Question::Try,
                exchange: Exchange { verified: Some(PathStatus::Known), ..exchange },
            })
            &&& known && (free_vfs is None || (!missing && (free_db is None || (entered
                && database is None)))) ==> {
                &&& tried is Done
                &&& tried->Done_0.note is None
                &&& tried->Done_0.response == Err::<Option<R>, HandlerError<E>>(
                    HandlerError::Lsp(LspError::Retry),
                )
            }
            &&& known && (missing || (free_vfs is Some && free_db is Some && !entered)) ==> {
                &&& tried is Done
                &&& tried->Done_0.note is None
                &&& tried->Done_0.response == Ok::<Option<R>, HandlerError<E>>(None)
            }
            &&& known && exchange.answer is None && exchange.retried is None && free_vfs is Some
                && !missing && entered && database is Some ==> {
                &&& tried is Ask
                &&& tried->question is Retries <==> (context is Some
                    && context->0.trigger_character is Some
                    && context->0.trigger_character->0@.len() > 0
                    && context->0.trigger_character->0@[0] == '\n')
                &&& tried->question is Retries || tried->question is Cached
                &&& tried->exchange == (Exchange {
                    opened: Some(Ok::<Option<Arc<AnalysisDatabase<A>>>, LspError>(database)),
                    ..exchange
                })
            }
        }),
{
}

} // verus!
