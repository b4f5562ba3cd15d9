//! What a rename edits.

use crate::errors::{HandlerError, LspError};
use crate::exchange::{Event, Exchange, Step};
use crate::handlers::FoundReferences;
use crate::protocol::{Location, Position, Range};
use crate::rename::{
    handle_rename, has_change, has_site, in_document, place_of, rename_locations, renames,
    renames_in, replacements, sites, sites_in, WorkspaceEdit,
};
use crate::snapshot::{AnalysisDatabase, PathStatus};
use std::sync::Arc;
use vstd::prelude::*;

verus! {

/// Which of all sites are in a document, in their order.
proof fn lemma_sites_in(all: Seq<(Seq<char>, Range)>, uri: Seq<char>) -> (from: Seq<int>)
    ensures
        from.len() == sites_in(all, uri).len(),
        forall|k: int|
            0 <= k < from.len() ==> 0 <= #[trigger] from[k] < all.len() && all[from[k]].0 == uri
                && sites_in(all, uri)[k] == all[from[k]],
        forall|k: int, l: int| 0 <= k < l < from.len() ==> from[k] < from[l],
        forall|i: int|
            0 <= i < all.len() && (#[trigger] all[i]).0 == uri ==> from.contains(i),
    decreases all.len(),
{
    reveal(Seq::filter);
    if all.len() == 0 {
        Seq::empty()
    } else {
        let last = all.len() - 1;
        let rest = all.drop_last();
        let before = lemma_sites_in(rest, uri);
        rest.lemma_filter_push(all.last(), in_document(uri));
        assert(rest.push(all.last()) =~= all);
        if all.last().0 == uri {
            let from = before.push(last);
            assert forall|i: int| 0 <= i < all.len() && (#[trigger] all[i]).0 == uri implies
                from.contains(i) by {
                if i == last {
                    assert(from[before.len() as int] == i);
                } else {
                    assert(rest[i] == all[i]);
                    let k = choose|k: int| 0 <= k < before.len() && before[k] == i;
                    assert(from[k] == i);
                }
            }
            from
        } else {
            assert forall|i: int| 0 <= i < all.len() && (#[trigger] all[i]).0 == uri implies
                before.contains(i) by {
                assert(rest[i] == all[i]);
            }
            before
        }
    }
}

/// What the edits are, document by document, if they rename the locations.
proof fn lemma_edits_of_locations(
    edit: WorkspaceEdit,
    locations: Seq<Location>,
    new_name: Seq<char>,
    which: int,
)
    requires
        edit.well_formed(),
        edit@ == renames(sites(locations), new_name),
    ensures
        0 <= which < locations.len() ==> exists|c: int|
            0 <= c < edit.changes@.len() && (#[trigger] edit.changes@[c]).uri@
                == locations[which].uri@,
        forall|c: int|
            0 <= c < edit.changes@.len() ==> (#[trigger] edit.changes@[c]).edits@.len() > 0
                && exists|from: Seq<int>|
                #![trigger from.len()]
                {
                    let change = edit.changes@[c];
                    &&& from.len() == change.edits@.len()
                    &&& forall|k: int|
                        0 <= k < from.len() ==> {
                            &&& 0 <= #[trigger] from[k] < locations.len()
                            &&& locations[from[k]].uri@ == change.uri@
                            &&& change.edits@[k].range == locations[from[k]].range
                            &&& change.edits@[k].new_text@ == new_name
                        }
                    &&& forall|k: int, l: int| 0 <= k < l < from.len() ==> from[k] < from[l]
                    &&& forall|i: int|
                        0 <= i < locations.len() && (#[trigger] locations[i]).uri@ == change.uri@
                            ==> from.contains(i)
                },
{
    let changes = edit.changes@;
    let all = sites(locations);
    if 0 <= which < locations.len() {
        let uri = locations[which].uri@;
        assert(all[which].0 == uri);
        assert(has_site(all, uri));
        assert(renames(all, new_name).contains_key(uri));
        assert(edit@.contains_key(uri));
        assert(has_change(changes, uri));
    }
    assert forall|c: int| 0 <= c < changes.len() implies (#[trigger] changes[c]).edits@.len() > 0
        && exists|from: Seq<int>|
        #![trigger from.len()]
        {
            let change = changes[c];
            &&& from.len() == change.edits@.len()
            &&& forall|k: int|
                0 <= k < from.len() ==> {
                    &&& 0 <= #[trigger] from[k] < locations.len()
                    &&& locations[from[k]].uri@ == change.uri@
                    &&& change.edits@[k].range == locations[from[k]].range
                    &&& change.edits@[k].new_text@ == new_name
                }
            &&& forall|k: int, l: int| 0 <= k < l < from.len() ==> from[k] < from[l]
            &&& forall|i: int|
                0 <= i < locations.len() && (#[trigger] locations[i]).uri@ == change.uri@
                    ==> from.contains(i)
        } by {
        let change = changes[c];
        let uri = change.uri@;
        assert(has_change(changes, uri));
        let place = place_of(changes, uri);
        assert(changes[place].uri@ == uri);
        assert(place == c);
        assert(edit@.contains_key(uri));
        assert(edit@[uri] == replacements(change.edits@));
        assert(renames(all, new_name).contains_key(uri));
        assert(has_site(all, uri));
        assert(replacements(change.edits@) == renames_in(all, uri, new_name));
        let from = lemma_sites_in(all, uri);
        let some = choose|i: int| 0 <= i < all.len() && (#[trigger] all[i]).0 == uri;
        assert(from.contains(some));
        assert(change.edits@.len() == replacements(change.edits@).len());
        assert(from.len() == change.edits@.len());
        assert forall|k: int| 0 <= k < from.len() implies {
            &&& 0 <= #[trigger] from[k] < locations.len()
            &&& locations[from[k]].uri@ == change.uri@
            &&& change.edits@[k].range == locations[from[k]].range
            &&& change.edits@[k].new_text@ == new_name
        } by {
            assert(replacements(change.edits@)[k] == (
                change.edits@[k].range,
                change.edits@[k].new_text@,
            ));
            assert(renames_in(all, uri, new_name)[k] == (sites_in(all, uri)[k].1, new_name));
            assert(all[from[k]] == (locations[from[k]].uri@, locations[from[k]].range));
        }
        assert forall|i: int|
            0 <= i < locations.len() && (#[trigger] locations[i]).uri@ == uri implies from.contains(
            i,
        ) by {
            assert(all[i].0 == uri);
        }
    }
}

/// Renaming locations edits each document of theirs, once, and nothing else: the edits
/// of a document are its locations, all of them and in their order, each replaced by
/// the new name.
pub proof fn law_locations_are_edited_in_their_documents(
    locations: &Vec<Location>,
    new_name: &String,
    which: int,
    edit: WorkspaceEdit,
)
    requires
        call_ensures(rename_locations, (locations, new_name), edit),
    ensures
        forall|c: int, d: int|
            0 <= c < d < edit.changes@.len() ==> (#[trigger] edit.changes@[c]).uri@ != (
            #[trigger] edit.changes@[d]).uri@,
        0 <= which < locations@.len() ==> exists|c: int|
            0 <= c < edit.changes@.len() && (#[trigger] edit.changes@[c]).uri@
                == locations@[which].uri@,
        forall|c: int|
            0 <= c < edit.changes@.len() ==> (#[trigger] edit.changes@[c]).edits@.len() > 0
                && exists|from: Seq<int>|
                #![trigger from.len()]
                {
                    let change = edit.changes@[c];
                    &&& from.len() == change.edits@.len()
                    &&& forall|k: int|
                        0 <= k < from.len() ==> {
                            &&& 0 <= #[trigger] from[k] < locations@.len()
                            &&& locations@[from[k]].uri@ == change.uri@
                            &&& change.edits@[k].range == locations@[from[k]].range
                            &&& change.edits@[k].new_text@ == new_name@
                        }
                    &&& forall|k: int, l: int| 0 <= k < l < from.len() ==> from[k] < from[l]
                    &&& forall|i: int|
                        0 <= i < locations@.len() && (#[trigger] locations@[i]).uri@ == change.uri@
                            ==> from.contains(i)
                },
{
    lemma_edits_of_locations(edit, locations@, new_name@, which);
}

/// A rename to a valid name whose references are found, be it a single one, is
/// answered with edits, and nothing is logged. They replace each of the references by
/// the new name, and nothing else: the edits of a document are its references, all of
/// them and in their order, and no document occurs twice.
pub proof fn law_rename_edits_every_reference<A, N, M, E>(
    position: Position,
    new_name: &String,
    exchange: Exchange<A, FoundReferences, E>,
    database: Arc<AnalysisDatabase<A>>,
    locations: Vec<Location>,
    which: int,
    step: Step<A, M, FoundReferences, WorkspaceEdit, E>,
)
    requires
        exchange.file is Ok,
        exchange.path is Ok,
        exchange.verified == Some(PathStatus::Known),
        exchange.opened == Some(
            Ok::<Option<Arc<AnalysisDatabase<A>>>, LspError>(Some(database)),
        ),
        locations@.len() > 0,
        call_ensures(
            handle_rename::<A, N, M, E>,
            (position, new_name, true, exchange, Event::Answer(Ok(locations))),
            step,
        ),
    ensures
        step is Done,
        step->Done_0.note is None,
        step->Done_0.response is Ok,
        step->Done_0.response->Ok_0 is Some,
        ({
            let changes = step->Done_0.response->Ok_0->0.changes@;
            &&& forall|c: int, d: int|
                0 <= c < d < changes.len() ==> (#[trigger] changes[c]).uri@ != (
                #[trigger] changes[d]).uri@
            &&& 0 <= which < locations@.len() ==> exists|c: int|
                0 <= c < changes.len() && (#[trigger] changes[c]).uri@ == locations@[which].uri@
            &&& forall|c: int|
                0 <= c < changes.len() ==> (#[trigger] changes[c]).edits@.len() > 0
                    && exists|from: Seq<int>|
                    #![trigger from.len()]
                    {
                        let change = changes[c];
                        &&& from.len() == change.edits@.len()
                        &&& forall|k: int|
                            0 <= k < from.len() ==> {
                                &&& 0 <= #[trigger] from[k] < locations@.len()
                                &&& locations@[from[k]].uri@ == change.uri@
                                &&& change.edits@[k].range == locations@[from[k]].range
                                &&& change.edits@[k].new_text@ == new_name@
                            }
                        &&& forall|k: int, l: int| 0 <= k < l < from.len() ==> from[k] < from[l]
                        &&& forall|i: int|
                            0 <= i < locations@.len() && (#[trigger] locations@[i]).uri@
                                == change.uri@ ==> from.contains(i)
                    }
        }),
{
    lemma_edits_of_locations(step->Done_0.response->Ok_0->0, locations@, new_name@, which);
}

/// A rename to a valid name that finds no reference is answered with nothing, and that
/// is logged; one that cannot tell the references logs the reason and fails with it, or
/// with the error of the sending if the message cannot be sent.
pub proof fn law_rename_without_references<A, N, M, E>(
    position: Position,
    new_name: &String,
    exchange: Exchange<A, FoundReferences, E>,
    database: Arc<AnalysisDatabase<A>>,
    none: Vec<Location>,
    reason: String,
    sent: Result<(), E>,
    empty: Step<A, M, FoundReferences, WorkspaceEdit, E>,
    failed: Step<A, M, FoundReferences, WorkspaceEdit, E>,
    ended: Step<A, M, FoundReferences, WorkspaceEdit, E>,
)
    requires
        exchange.file is Ok,
        exchange.path is Ok,
        exchange.verified == Some(PathStatus::Known),
        exchange.opened == Some(
            Ok::<Option<Arc<AnalysisDatabase<A>>>, LspError>(Some(database)),
        ),
        exchange.logged is None,
        none@.len() == 0,
        call_ensures(
            handle_rename::<A, N, M, E>,
            (position, new_name, true, exchange, Event::Answer(Ok(none))),
            empty,
        ),
        call_ensures(
            handle_rename::<A, N, M, E>,
            (position, new_name, true, exchange, Event::Answer(Err(reason))),
            failed,
        ),
        call_ensures(
            handle_rename::<A, N, M, E>,
            (position, new_name, true, failed->exchange, Event::Logged(sent)),
            ended,
        ),
    ensures
        empty is Done,
        empty->Done_0.note is Some,
        empty->Done_0.note->0@ == "Symbol not found"@,
        empty->Done_0.response == Ok::<Option<WorkspaceEdit>, HandlerError<E>>(None),
        failed is Ask,
        failed->question is Log,
        failed->question->Log_0@ == "Can not rename symbol: "@ + reason@,
        ended is Done,
        ended->Done_0.note is None,
        ended->Done_0.response is Err,
        sent is Ok ==> {
            &&& ended->Done_0.response->Err_0 is Message
            &&& ended->Done_0.response->Err_0->Message_0@ == "Can not rename symbol: "@ + reason@
        },
        sent is Err ==> ended->Done_0.response->Err_0 == HandlerError::Outside(sent->Err_0),
{
}

/// A rename to a name that is not valid fails at once, whatever else is known or
/// happens: nothing is asked, and the error tells the name.
pub proof fn law_invalid_name_is_refused<A, N, M, E>(
    position: Position,
    new_name: &String,
    exchange: Exchange<A, FoundReferences, E>,
    event: Event<A, N, FoundReferences, E>,
    step: Step<A, M, FoundReferences, WorkspaceEdit, E>,
)
    requires
        call_ensures(
            handle_rename::<A, N, M, E>,
            (position, new_name, false, exchange, event),
            step,
        ),
    ensures
        step is Done,
        step->Done_0.note is None,
        step->Done_0.response is Err,
        step->Done_0.response->Err_0 is Message,
        step->Done_0.response->Err_0->Message_0@ == "Can not rename to: "@ + new_name@
            + ", invalid name"@,
{
}

} // verus!
