//! What holds of the handlers as a whole, and, in the modules below, what each
//! operation does, told of what a call is given and what it gives back.

use crate::errors::{HandlerError, LspError};
use crate::exchange::{retry, settles, Call, Event, Exchange, Question, Reply, Stage, Step};
use crate::formatting::cuts;
use crate::handlers::{
    brought, completes, completion_recorded, helps, refers, FoundReferences,
};
use crate::messages::{status_message, text_of};
use crate::outside::vfs_ids;
use crate::protocol::{Location, Position, Range};
use crate::rename::{
    has_site, in_document, renames, renames_in, renames_symbol, sites, sites_in, WorkspaceEdit,
};
use crate::server::{
    Action, Admission, LanguageServerState, Progress, RequestKind, INVALID_REQUEST,
};
use crate::snapshot::{
    db_of, entry_in, in_db, in_vfs, metadata_of, path_status, AnalysisDatabase, CachedEntry,
    DatabaseTable, PathStatus, VersionTable,
};
use lsp_server::RequestId;
use ra_ap_vfs::Vfs;
use std::collections::HashMap;
use std::sync::Arc;
use vstd::prelude::*;
use vstd::utf8::{encode_utf8, encode_utf8_valid_utf8, is_char_boundary_start_end_of_seq};

pub mod admission;
pub mod answers;
pub mod completion;
pub mod documents;
pub mod opening;
pub mod renaming;
pub mod tables;

verus! {

/// Once a shutdown was requested, every request is answered with the same error,
/// whatever its method; before that none is refused.
pub proof fn law_shutdown_refuses_all(
    state: LanguageServerState,
    id: RequestId,
    method: Seq<char>,
    admission: Admission,
)
    requires
        state.admits(id, method, admission),
    ensures
        admission is Refuse <==> state.shutdown_requested,
        admission is Refuse ==> {
            &&& admission->id == id
            &&& admission->code == INVALID_REQUEST
            &&& admission->message@ == "shutdown was requested"@
        },
{
}

/// A request is registered before anything else is done with it, also one that is then
/// refused, and if its answer cannot be sent, that is what it ends with.
pub proof fn law_requests_are_registered_first<E>(
    state: LanguageServerState,
    id: RequestId,
    method: Seq<char>,
    progress: Progress<E>,
    action: Action<E>,
)
    requires
        state.acts(id, method, progress, action),
    ensures
        progress is Received <==> action is Register,
        action is Register ==> action->Register_id == id,
        action is Admit ==> progress is Registered,
        state.shutdown_requested && progress is Registered ==> {
            &&& action matches Action::Admit(Admission::Refuse { id: answered, .. })
            &&& answered == id
        },
        progress matches Progress::Handled(Err(error)) ==> action == Action::<E>::Return(
            Err(error),
        ),
        action is Return ==> progress == Progress::Handled(action->Return_0),
{
}

/// A served shutdown is remembered: the next request is refused, whatever its method,
/// and that stays so, whatever would be served after it. Serving any other request
/// changes nothing.
pub proof fn law_served_shutdown_refuses_next(
    state: LanguageServerState,
    ids: (RequestId, RequestId, RequestId),
    first: Seq<char>,
    kind: RequestKind,
    second: Seq<char>,
    later: RequestKind,
    third: Seq<char>,
    admissions: (Admission, Admission, Admission),
)
    requires
        state.admits(ids.0, first, admissions.0),
        admissions.0 matches Admission::Serve { kind: served, .. } && served == kind,
        state.after_serving(kind).admits(ids.1, second, admissions.1),
        state.after_serving(kind).after_serving(later).admits(ids.2, third, admissions.2),
    ensures
        first == "shutdown"@ <==> admissions.1 is Refuse,
        first == "shutdown"@ ==> {
            &&& admissions.1->id == ids.1
            &&& admissions.1->code == INVALID_REQUEST
            &&& admissions.1->message@ == "shutdown was requested"@
            &&& admissions.2 is Refuse
        },
        first != "shutdown"@ ==> state.after_serving(kind) == state,
{
    assert(RequestKind::Shutdown.method() == "shutdown"@);
}

/// A request whose URI names no document ends at once: nothing is asked, whatever
/// else is known, and the answer is the URI's error, that of the file name first.
pub proof fn law_unlocated_asks_nothing<A, M, T, R, E>(
    now: Exchange<A, T, E>,
    verifies: bool,
    step: Step<A, M, T, R, E>,
)
    requires
        now.file is Err || now.path is Err,
        now.stops(verifies, step),
    ensures
        step is Done,
        now.file is Err ==> step->Done_0.response == Err::<Option<R>, HandlerError<E>>(
            HandlerError::Outside(now.file->Err_0),
        ),
        now.file is Ok ==> step->Done_0.response == Err::<Option<R>, HandlerError<E>>(
            HandlerError::Outside(now.path->Err_0),
        ),
{
}

/// A handler that checks the path answers a path that the tables do not have with
/// nothing, and logs which of them does not have it; no analysis is run.
pub proof fn law_unknown_path_is_refused<A, M, N, T, R, E>(
    exchange: Exchange<A, T, E>,
    vfs: &Vfs,
    db: &DatabaseTable<A>,
    step: Step<A, M, T, R, E>,
)
    requires
        exchange.file is Ok,
        exchange.path is Ok,
        !in_db(*vfs, db@, exchange.path->Ok_0@),
        exchange.recorded::<N>(Event::Checked { vfs, db }).stops(true, step),
    ensures
        !(exchange.recorded::<N>(Event::Checked { vfs, db }).stage(true) is Open),
        step is Done,
        step->Done_0.response == Ok::<Option<R>, HandlerError<E>>(None),
        text_of(step->Done_0.note) == status_message(
            if in_vfs(*vfs, exchange.path->Ok_0@) {
                PathStatus::NotInDb
            } else {
                PathStatus::NotInVfs
            },
            exchange.path->Ok_0@,
        ),
{
}

/// The paths that pass the check are those that are not turned down when their
/// analysis is opened from the same tables.
pub proof fn law_known_path_opens<A>(vfs: &Vfs, db: &DatabaseTable<A>, path: String)
    ensures
        path_status(*vfs, db@, path@) == PathStatus::Known <==> db_of(
            Some(vfs),
            Some(db),
            path,
        ) is Ok,
{
}

/// What an entry of the analyses means for a file that the file system has: with a
/// database, the compilation is completed; without, it is under way; no entry, it
/// failed.
pub proof fn law_compilation_states<A>(vfs: &Vfs, db: &DatabaseTable<A>, path: String)
    requires
        in_vfs(*vfs, path@),
    ensures
        db@.contains_key(vfs_ids(*vfs)[path@]) <==> db_of(Some(vfs), Some(db), path) is Ok,
        db@.contains_key(vfs_ids(*vfs)[path@]) ==> db_of(Some(vfs), Some(db), path) == Ok::<
            Option<Arc<AnalysisDatabase<A>>>,
            LspError,
        >(db@[vfs_ids(*vfs)[path@]]),
        !db@.contains_key(vfs_ids(*vfs)[path@]) ==> db_of(Some(vfs), Some(db), path) == Err::<
            Option<Arc<AnalysisDatabase<A>>>,
            LspError,
        >(LspError::AnalysisDatabaseNotFound(path)),
{
}

/// A handler never waits for the analyses: with the file system busy, the analyses
/// busy, or the compilation under way, the request is put off.
pub proof fn law_busy_is_put_off<A, M, N, T, R, E>(
    exchange: Exchange<A, T, E>,
    verifies: bool,
    free_vfs: Option<&Vfs>,
    free_db: Option<&DatabaseTable<A>>,
    step: Step<A, M, T, R, E>,
)
    requires
        exchange.file is Ok,
        exchange.path is Ok,
        verifies ==> exchange.verified == Some(PathStatus::Known),
        free_vfs is None || (in_vfs(*free_vfs->0, exchange.path->Ok_0@) && (free_db is None || (
        free_db->0@.contains_key(vfs_ids(*free_vfs->0)[exchange.path->Ok_0@])
            && free_db->0@[vfs_ids(*free_vfs->0)[exchange.path->Ok_0@]] is None))),
        exchange.recorded::<N>(Event::Tried { free_vfs, free_db }).stops(verifies, step),
    ensures
        step is Done,
        step->Done_0.response == retry::<R, E>(),
{
}

/// A handler whose document failed to compile answers with nothing.
pub proof fn law_failed_compilation_answers_nothing<A, M, N, T, R, E>(
    exchange: Exchange<A, T, E>,
    verifies: bool,
    vfs: &Vfs,
    db: &DatabaseTable<A>,
    step: Step<A, M, T, R, E>,
)
    requires
        exchange.file is Ok,
        exchange.path is Ok,
        verifies ==> exchange.verified == Some(PathStatus::Known),
        !in_db(*vfs, db@, exchange.path->Ok_0@),
        exchange.recorded::<N>(Event::Tried { free_vfs: Some(vfs), free_db: Some(db) }).stops(
            verifies,
            step,
        ),
    ensures
        step is Done,
        step->Done_0.response == Ok::<Option<R>, HandlerError<E>>(None),
{
}

/// What a handler answers is what the analysis gave: nothing is answered that it did
/// not find.
pub proof fn law_answers_come_from_the_analysis<A, F, O, M, S, R, E>(
    now: Exchange<A, Option<R>, E>,
    verifies: bool,
    call: Call<M>,
    db: Arc<AnalysisDatabase<A>>,
    message: Seq<char>,
    position: Position,
    typed: Option<String>,
    trigger: Option<char>,
    entry: Option<Option<CachedEntry<F, O, M, S>>>,
    step: Step<A, M, Option<R>, R, E>,
)
    requires
        ({
            ||| now.stops(verifies, step)
            ||| now.answers_if_current(call, step)
            ||| now.answers_or_logs(call, db, message, step)
            ||| helps(position, typed, now, step)
            ||| completes(position, trigger, now, entry, db, step)
        }),
        step is Done,
        step->Done_0.response is Ok,
        step->Done_0.response->Ok_0 is Some,
    ensures
        now.answer == Some(step->Done_0.response->Ok_0),
{
}

/// The references that are answered are those that the analysis found, and what a
/// rename edits are those that it found, if any.
pub proof fn law_references_come_from_the_analysis<A, M, E>(
    now: Exchange<A, FoundReferences, E>,
    position: Position,
    include_declaration: bool,
    new_name: Seq<char>,
    listed: Step<A, M, FoundReferences, Vec<Location>, E>,
    renamed: Step<A, M, FoundReferences, WorkspaceEdit, E>,
)
    requires
        refers(position, include_declaration, now, listed),
        now.answer is Some,
        renames_symbol(now, new_name, renamed),
    ensures
        listed matches Step::Done(Reply { response: Ok(Some(locations)), .. }) ==> now.answer
            == Some(Ok::<Vec<Location>, String>(locations)),
        renamed matches Step::Done(Reply { response: Ok(Some(edit)), .. }) ==> {
            &&& now.answer matches Some(Ok(locations))
            &&& locations@.len() > 0
            &&& edit@ == renames(sites(locations@), new_name)
        },
{
}

/// Semantic tokens, document symbols and inlay hints are only answered from an
/// analysis of the version that is open in the editor; with another version open,
/// the request is put off.
pub proof fn law_outdated_is_not_answered<A, M, N, R, E>(
    exchange: Exchange<A, Option<R>, E>,
    database: Arc<AnalysisDatabase<A>>,
    vfs: &Vfs,
    opened_files: &VersionTable,
    call: Call<M>,
    step: Step<A, M, Option<R>, R, E>,
)
    requires
        exchange.file is Ok,
        exchange.path is Ok,
        exchange.opened == Some(
            Ok::<Option<Arc<AnalysisDatabase<A>>>, LspError>(Some(database)),
        ),
        exchange.answer is Some,
        exchange.recorded::<N>(Event::Versions { vfs, opened_files }).answers_if_current(
            call,
            step,
        ),
    ensures
        step is Done,
        step->Done_0.response is Ok ==> {
            &&& in_vfs(*vfs, exchange.path->Ok_0@)
            &&& opened_files@.contains_key(vfs_ids(*vfs)[exchange.path->Ok_0@])
            &&& opened_files@[vfs_ids(*vfs)[exchange.path->Ok_0@]] == database.version
            &&& step->Done_0.response->Ok_0 == exchange.answer->0
        },
        in_vfs(*vfs, exchange.path->Ok_0@) && opened_files@.contains_key(
            vfs_ids(*vfs)[exchange.path->Ok_0@],
        ) && opened_files@[vfs_ids(*vfs)[exchange.path->Ok_0@]] != database.version
            ==> step->Done_0.response == retry::<R, E>(),
{
}

/// A completion after a line break is put off the first time, and what is then
/// answered comes from an analysis that is not outdated.
pub proof fn law_line_break_is_put_off<A, F, O, M, S, R, E>(
    position: Position,
    now: Exchange<A, Option<R>, E>,
    entry: Option<Option<CachedEntry<F, O, M, S>>>,
    db: Arc<AnalysisDatabase<A>>,
    step: Step<A, M, Option<R>, R, E>,
)
    requires
        completes(position, Some('\n'), now, entry, db, step),
    ensures
        now.retried == Some(false) ==> step is Done && step->Done_0.response == retry::<R, E>(),
        step is Done && step->Done_0.response is Ok ==> {
            &&& now.retried == Some(true)
            &&& now.current == Some(Ok::<bool, LspError>(true))
        },
        step is Ask && step->question is Analyse ==> {
            &&& now.retried == Some(true)
            &&& now.current == Some(Ok::<bool, LspError>(true))
        },
{
}

/// A completion that no line break brought about is never put off for being the
/// first try or for an outdated analysis.
pub proof fn law_completion_elsewhere_ignores_retries<A, F, O, M, S, R, E>(
    position: Position,
    trigger: Option<char>,
    now: Exchange<A, Option<R>, E>,
    entry: Option<Option<CachedEntry<F, O, M, S>>>,
    db: Arc<AnalysisDatabase<A>>,
    step: Step<A, M, Option<R>, R, E>,
)
    requires
        trigger != Some('\n'),
        completes(position, trigger, now, entry, db, step),
    ensures
        step is Done ==> step->Done_0.response != retry::<R, E>(),
        step is Ask ==> step->question is Cached || step->question is Analyse || step->question
            is Log,
{
}

/// The analysis of a completion is only run with what the cache of entry points says
/// of the request's file: the metadata of its entry, or none where it has no entry.
pub proof fn law_completion_takes_the_metadata<A, F, O, M, S, R, E>(
    position: Position,
    trigger: Option<char>,
    now: Exchange<A, Option<R>, E>,
    entry: Option<Option<CachedEntry<F, O, M, S>>>,
    db: Arc<AnalysisDatabase<A>>,
    step: Step<A, M, Option<R>, R, E>,
)
    requires
        completes(position, trigger, now, entry, db, step),
        step is Ask,
    ensures
        step->question is Cached ==> entry is None,
        step->question matches Question::Analyse { call, file, .. } ==> {
            &&& entry is Some
            &&& file == now.file->Ok_0
            &&& call == (Call::Completion { position, trigger, metadata: metadata_of(entry->0) })
            &&& entry->0 matches Some(((_, _, kept), _)) ==> call->metadata == kept
            &&& entry->0 is None ==> call->metadata is None
        },
{
}

/// Doing what a handler asks gives it something that it did not know, so that no
/// handler asks for ever: of the six things that can be unknown, each event that
/// answers a question leaves fewer.
pub proof fn law_questions_come_to_an_end<A, M, N, T, E>(
    now: Exchange<A, T, E>,
    question: Question<A, M>,
    event: Event<A, N, T, E>,
)
    requires
        now.lacks(question),
        settles(question, event),
        !(question is Retries),
        !(question is Cached),
    ensures
        now.recorded(event).unknowns() < now.unknowns() <= 6,
        !now.recorded(event).lacks(question),
{
}

/// The same holds of a completion, which also asks for the table of retries.
pub proof fn law_completion_comes_to_an_end<A, M, N, R, E>(
    id: RequestId,
    now: Exchange<A, Option<R>, E>,
    question: Question<A, M>,
    event: Event<A, N, Option<R>, E>,
)
    requires
        now.lacks(question),
        settles(question, event),
        !(question is Cached),
    ensures
        completion_recorded(id, now, event).unknowns() < now.unknowns() <= 6,
        !completion_recorded(id, now, event).lacks(question),
{
}

/// A completion asks for the cache of entry points right before the analysis, and uses
/// it at once: the analysis is run with the metadata that the cache has for the file.
pub proof fn law_cached_entry_brings_the_analysis<A, F, O, M, S, R, E>(
    id: RequestId,
    position: Position,
    trigger: Option<char>,
    now: Exchange<A, Option<R>, E>,
    cache: &HashMap<String, CachedEntry<F, O, M, S>>,
    db: Arc<AnalysisDatabase<A>>,
    before: Step<A, M, Option<R>, R, E>,
    step: Step<A, M, Option<R>, R, E>,
)
    requires
        completes::<A, F, O, M, S, R, E>(position, trigger, now, None, db, before),
        before is Ask,
        before->question is Cached,
        completes(
            position,
            trigger,
            completion_recorded::<A, CachedEntry<F, O, M, S>, R, E>(
                id,
                before->exchange,
                Event::Cached { cache },
            ),
            brought::<A, CachedEntry<F, O, M, S>, Option<R>, E>(
                before->exchange.file->Ok_0,
                Event::Cached { cache },
            ),
            db,
            step,
        ),
    ensures
        step == now.analyses::<M, R>(
            Call::Completion {
                position,
                trigger,
                metadata: metadata_of(entry_in(cache@, now.file->Ok_0)),
            },
            db,
        ),
{
}

/// The course of a request whose document is there and compiled: a handler that
/// checks the path asks for that, then for the analysis, and then works with the
/// database that the tables hold, to which the analysis' answer is added. A handler
/// that does not check the path begins with the analysis.
pub proof fn law_course_of_a_request<A, N, T, E>(
    file: String,
    path: String,
    vfs: &Vfs,
    db: &DatabaseTable<A>,
    database: Arc<AnalysisDatabase<A>>,
    answer: T,
)
    requires
        in_db(*vfs, db@, path@),
        db@[vfs_ids(*vfs)[path@]] == Some(database),
    ensures
        ({
            let begun = Exchange::<A, T, E>::fresh(Ok(file), Ok(path)).recorded::<N>(Event::Start);
            let checked = begun.recorded::<N>(Event::Checked { vfs, db });
            let tried = Event::Tried { free_vfs: Some(vfs), free_db: Some(db) };
            let opened = checked.recorded::<N>(tried);
            let answered = opened.recorded::<N>(Event::Answer(answer));
            &&& begun.stage(true) == Stage::<A>::Check
            &&& begun.stage(false) == Stage::<A>::Try
            &&& begun.recorded(tried).stage(false) == Stage::Open(database)
            &&& checked.stage(true) == Stage::<A>::Try
            &&& opened.stage(true) == Stage::Open(database)
            &&& opened.answer is None
            &&& answered.stage(true) == Stage::Open(database)
            &&& answered.answer == Some(answer)
            &&& answered.logged is None
        }),
{
}

/// A rename replaces every reference by the new name, each in its own document,
/// and nothing else.
pub proof fn law_rename_covers_the_references(
    sites: Seq<(Seq<char>, Range)>,
    new_name: Seq<char>,
)
    ensures
        forall|i: int|
            0 <= i < sites.len() ==> renames(sites, new_name).contains_key((#[trigger] sites[i]).0)
                && renames(sites, new_name)[sites[i].0].contains((sites[i].1, new_name)),
        forall|uri: Seq<char>, k: int|
            #![trigger renames(sites, new_name)[uri][k]]
            renames(sites, new_name).contains_key(uri) && 0 <= k < renames(
                sites,
                new_name,
            )[uri].len() ==> renames(sites, new_name)[uri][k].1 == new_name && sites.contains(
                (uri, renames(sites, new_name)[uri][k].0),
            ),
        forall|uri: Seq<char>|
            #[trigger] renames(sites, new_name).contains_key(uri) ==> renames(
                sites,
                new_name,
            )[uri].len() == sites_in(sites, uri).len(),
{
    let edits = renames(sites, new_name);
    assert forall|i: int| 0 <= i < sites.len() implies edits.contains_key((#[trigger] sites[i]).0)
        && edits[sites[i].0].contains((sites[i].1, new_name)) by {
        let uri = sites[i].0;
        assert(has_site(sites, uri));
        let pred = in_document(uri);
        assert(pred(sites[i]));
        sites.lemma_filter_contains(pred, i);
        let k = choose|k: int|
            0 <= k < sites_in(sites, uri).len() && sites_in(sites, uri)[k] == sites[i];
        assert(renames_in(sites, uri, new_name)[k] == (sites[i].1, new_name));
    }
    assert forall|uri: Seq<char>, k: int|
        #![trigger edits[uri][k]]
        edits.contains_key(uri) && 0 <= k < edits[uri].len() implies edits[uri][k].1 == new_name
        && sites.contains((uri, edits[uri][k].0)) by {
        let pred = in_document(uri);
        let site = sites_in(sites, uri)[k];
        sites.lemma_filter_pred(pred, k);
        assert(sites_in(sites, uri).contains(site));
        sites.lemma_filter_contains_rev(pred, site);
        assert(site == (uri, edits[uri][k].0));
    }
}

/// The range that spans a whole text selects the whole text.
pub proof fn law_whole_range_selects_all(text: Seq<char>)
    ensures
        cuts(encode_utf8(text), 0, encode_utf8(text).len() as int),
        encode_utf8(text).subrange(0, encode_utf8(text).len() as int) == encode_utf8(text),
{
    let bytes = encode_utf8(text);
    encode_utf8_valid_utf8(text);
    is_char_boundary_start_end_of_seq(bytes);
    assert(bytes.subrange(0, bytes.len() as int) =~= bytes);
}

} // verus!
