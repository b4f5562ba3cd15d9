//! What is read from the tables, and what is kept of it.

use crate::errors::LspError;
use crate::exchange::{Event, Exchange};
use crate::outside::{vfs_ids, vfs_path_text};
use crate::protocol::TriggerContext;
use crate::snapshot::{
    entry_metadata, try_get_db, verify_db, verify_request_path, verify_request_version, verify_vfs,
    AnalysisDatabase, CachedEntry, DatabaseTable, DocumentVersion, PathStatus, VersionTable,
};
use ra_ap_vfs::Vfs;
use std::collections::HashMap;
use std::sync::Arc;
use vstd::prelude::*;

verus! {

/// A path is known if the file system has a file there and the analyses have an entry
/// for that file, whatever the entry holds. Which of the two is missing is told, the
/// file first.
pub proof fn law_known_paths_are_in_both_tables<A>(
    vfs: &Vfs,
    db: &DatabaseTable<A>,
    path: &String,
    in_files: bool,
    in_analyses: bool,
    status: PathStatus,
)
    requires
        call_ensures(verify_vfs, (vfs, path), in_files),
        in_files ==> call_ensures(verify_db::<A>, (vfs, db, path), in_analyses),
        call_ensures(verify_request_path::<A>, (vfs, db, path), status),
    ensures
        in_files <==> vfs_ids(*vfs).contains_key(path@),
        in_files ==> (in_analyses <==> db@.contains_key(vfs_ids(*vfs)[path@])),
        status == PathStatus::Known <==> in_files && in_analyses,
        status == PathStatus::NotInVfs <==> !in_files,
        status == PathStatus::NotInDb <==> in_files && !in_analyses,
{
}

/// The message about a path that is not known tells the path and the table that does
/// not have it; of a known path there is none.
pub proof fn law_messages_tell_the_path(
    path: &String,
    known: Option<String>,
    not_in_vfs: Option<String>,
    not_in_db: Option<String>,
)
    requires
        call_ensures(PathStatus::message, (PathStatus::Known, path), known),
        call_ensures(PathStatus::message, (PathStatus::NotInVfs, path), not_in_vfs),
        call_ensures(PathStatus::message, (PathStatus::NotInDb, path), not_in_db),
    ensures
        known is None,
        not_in_vfs is Some,
        not_in_vfs->0@ == "Vfs not contains: "@ + path@ + ", request failed"@,
        not_in_db is Some,
        not_in_db->0@ == "LSP AnalysisDatabase not contains: "@ + path@ + ", request failed"@,
{
}

/// Getting an analysis never waits. With a table busy there is nothing yet, except that
/// a file system that is free can tell that the file is missing. With both free, the
/// entry of the file is given as it is; without entry, the compilation failed.
pub proof fn law_analyses_are_the_entries_of_their_files<A>(
    vfs: Option<&Vfs>,
    db: Option<&DatabaseTable<A>>,
    path: &String,
    opened: Result<Option<Arc<AnalysisDatabase<A>>>, LspError>,
)
    requires
        call_ensures(try_get_db::<A>, (vfs, db, path), opened),
    ensures
        ({
            let found = vfs_ids(*vfs->0).contains_key(path@);
            let id = vfs_ids(*vfs->0)[path@];
            &&& vfs is None ==> opened == Ok::<Option<Arc<AnalysisDatabase<A>>>, LspError>(None)
            &&& vfs is Some && !found ==> opened == Err::<
                Option<Arc<AnalysisDatabase<A>>>,
                LspError,
            >(LspError::FileIdNotFound(*path))
            &&& vfs is Some && found && db is None ==> opened == Ok::<
                Option<Arc<AnalysisDatabase<A>>>,
                LspError,
            >(None)
            &&& vfs is Some && found && db is Some && !db->0@.contains_key(id) ==> opened == Err::<
                Option<Arc<AnalysisDatabase<A>>>,
                LspError,
            >(LspError::AnalysisDatabaseNotFound(*path))
            &&& vfs is Some && found && db is Some && db->0@.contains_key(id) ==> opened == Ok::<
                Option<Arc<AnalysisDatabase<A>>>,
                LspError,
            >(db->0@[id])
        }),
{
}

/// An analysis is current if and only if its version is the one that is open in the
/// editor, whatever version that is. A file that is not there, or not open, is told.
pub proof fn law_current_is_the_open_version(
    vfs: &Vfs,
    opened_files: &VersionTable,
    version: DocumentVersion,
    path: &String,
    current: Result<bool, LspError>,
)
    requires
        call_ensures(verify_request_version, (vfs, opened_files, version, path), current),
    ensures
        ({
            let found = vfs_ids(*vfs).contains_key(path@);
            let id = vfs_ids(*vfs)[path@];
            let open = opened_files@.contains_key(id);
            &&& !found ==> current == Err::<bool, LspError>(LspError::FileIdNotFound(*path))
            &&& found && !open ==> current == Err::<bool, LspError>(
                LspError::DocumentVersionNotFound(*path),
            )
            &&& found && open && version == opened_files@[id] ==> current == Ok::<bool, LspError>(
                true,
            )
            &&& found && open && version != opened_files@[id] ==> current == Ok::<bool, LspError>(
                false,
            )
        }),
{
}

/// The metadata of a file is the last part of what its entry in the cache holds of the
/// compilation; a file without entry has none.
pub proof fn law_metadata_is_in_the_entry_of_the_file<F, O, M, S>(
    cache: &HashMap<String, CachedEntry<F, O, M, S>>,
    file: &String,
    metadata: Option<Arc<M>>,
)
    requires
        call_ensures(entry_metadata::<F, O, M, S>, (cache, file), metadata),
    ensures
        cache@.contains_key(*file) ==> metadata == (cache@[*file].0).2,
        !cache@.contains_key(*file) ==> metadata is None,
{
}

/// The trigger of a request is the text that was typed, and the trigger character its
/// first character; without a context, or without text, there is none.
pub proof fn law_trigger_is_what_was_typed(
    context: Option<TriggerContext>,
    text: Option<String>,
    character: Option<char>,
)
    requires
        call_ensures(TriggerContext::text, (context,), text),
        call_ensures(TriggerContext::character, (&context,), character),
    ensures
        context is None ==> text is None,
        context is Some ==> text == context->0.trigger_character,
        text is None || text->0@.len() == 0 ==> character is None,
        text is Some && text->0@.len() > 0 ==> character == Some(text->0@[0]),
{
}

/// A request begins with its file and with its path, as the file system shows it, or
/// with their errors, and nothing else is known of it.
pub proof fn law_requests_begin_with_their_document<A, T, E>(
    file: Result<String, E>,
    path: Result<String, E>,
    exchange: Exchange<A, T, E>,
)
    requires
        call_ensures(Exchange::<A, T, E>::new, (file, path), exchange),
    ensures
        exchange.file == file,
        path is Ok ==> exchange.path is Ok && exchange.path->Ok_0@ == vfs_path_text(path->Ok_0@),
        path is Err ==> exchange.path == path,
        exchange.verified is None,
        exchange.opened is None,
        exchange.retried is None,
        exchange.current is None,
        exchange.answer is None,
        exchange.logged is None,
{
}

/// What an event tells is kept, and all that was known before stays as it was.
pub proof fn law_events_are_kept<A, N, T, E>(
    exchange: Exchange<A, T, E>,
    event: Event<A, N, T, E>,
    now: Exchange<A, T, E>,
)
    requires
        exchange.path is Ok,
        call_ensures(Exchange::<A, T, E>::record::<N>, (exchange, event), now),
    ensures
        event is Start || event is Retries || event is Cached ==> now == exchange,
        event matches Event::Checked { vfs, db } ==> {
            let found = vfs_ids(*vfs).contains_key(exchange.path->Ok_0@);
            let entered = db@.contains_key(vfs_ids(*vfs)[exchange.path->Ok_0@]);
            now == (Exchange {
                verified: Some(
                    if !found {
                        PathStatus::NotInVfs
                    } else if !entered {
                        PathStatus::NotInDb
                    } else {
                        PathStatus::Known
                    },
                ),
                ..exchange
            })
        },
        event matches Event::Tried { free_vfs, free_db } ==> {
            &&& now == (Exchange { opened: now.opened, ..exchange })
            &&& now.opened is Some
            &&& now.opened->0 is Ok && now.opened->0->Ok_0 is Some <==> {
                &&& free_vfs is Some
                &&& free_db is Some
                &&& vfs_ids(*free_vfs->0).contains_key(exchange.path->Ok_0@)
                &&& free_db->0@.contains_key(vfs_ids(*free_vfs->0)[exchange.path->Ok_0@])
                &&& free_db->0@[vfs_ids(*free_vfs->0)[exchange.path->Ok_0@]] is Some
            }
            &&& now.opened->0 is Ok && now.opened->0->Ok_0 is Some ==> now.opened->0->Ok_0
                == free_db->0@[vfs_ids(*free_vfs->0)[exchange.path->Ok_0@]]
        },
        event matches Event::Versions { vfs, opened_files } ==> {
            &&& now == (Exchange { current: now.current, ..exchange })
            &&& exchange.opened matches Some(Ok(Some(database))) ==> {
                &&& now.current is Some
                &&& now.current->0 == Ok::<bool, LspError>(true) <==> {
                    &&& vfs_ids(*vfs).contains_key(exchange.path->Ok_0@)
                    &&& opened_files@.contains_key(vfs_ids(*vfs)[exchange.path->Ok_0@])
                    &&& opened_files@[vfs_ids(*vfs)[exchange.path->Ok_0@]] == database.version
                }
            }
        },
        event matches Event::Answer(answer) ==> now == (Exchange {
            answer: Some(answer),
            ..exchange
        }),
        event matches Event::Logged(sent) ==> now == (Exchange { logged: Some(sent), ..exchange }),
{
}

} // verus!
