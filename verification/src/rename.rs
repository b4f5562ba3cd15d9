//! Renaming a symbol: one edit for each of its references, by document.

use crate::errors::HandlerError;
use crate::exchange::{fails, Call, Event, Exchange, Question, Reply, Stage, Step, Way};
use crate::handlers::FoundReferences;
use crate::messages::{join, text_of};
use crate::protocol::{Location, Position, Range, TextEdit};
use vstd::prelude::*;

verus! {

/// The edits of one document.
#[derive(Debug, PartialEq, Eq)]
pub struct FileEdits {
    pub uri: String,
    pub edits: Vec<TextEdit>,
}

/// Edits of several documents. No document occurs twice.
#[derive(Debug, PartialEq, Eq)]
pub struct WorkspaceEdit {
    pub changes: Vec<FileEdits>,
}

/// The documents and ranges of some locations, in their order.
pub open spec fn sites(locations: Seq<Location>) -> Seq<(Seq<char>, Range)> {
    locations.map_values(|location: Location| (location.uri@, location.range))
}

/// The ranges and texts of some edits, in their order.
pub open spec fn replacements(edits: Seq<TextEdit>) -> Seq<(Range, Seq<char>)> {
    edits.map_values(|edit: TextEdit| (edit.range, edit.new_text@))
}

/// Some of the sites are in the document.
pub open spec fn has_site(sites: Seq<(Seq<char>, Range)>, uri: Seq<char>) -> bool {
    exists|i: int| 0 <= i < sites.len() && (#[trigger] sites[i]).0 == uri
}

/// Whether a site is in the document.
pub open spec fn in_document(uri: Seq<char>) -> spec_fn((Seq<char>, Range)) -> bool {
    |site: (Seq<char>, Range)| site.0 == uri
}

/// The sites in a document.
pub open spec fn sites_in(sites: Seq<(Seq<char>, Range)>, uri: Seq<char>) -> Seq<
    (Seq<char>, Range),
> {
    sites.filter(in_document(uri))
}

/// The replacements that rename the sites in a document, in the sites' order.
pub open spec fn renames_in(
    sites: Seq<(Seq<char>, Range)>,
    uri: Seq<char>,
    new_name: Seq<char>,
) -> Seq<(Range, Seq<char>)> {
    sites_in(sites, uri).map_values(|site: (Seq<char>, Range)| (site.1, new_name))
}

/// The replacements that rename all sites, by document.
pub open spec fn renames(sites: Seq<(Seq<char>, Range)>, new_name: Seq<char>) -> Map<
    Seq<char>,
    Seq<(Range, Seq<char>)>,
> {
    Map::new(
        |uri: Seq<char>| has_site(sites, uri),
        |uri: Seq<char>| renames_in(sites, uri, new_name),
    )
}

/// The place of a document among the changes.
pub open spec fn place_of(changes: Seq<FileEdits>, uri: Seq<char>) -> int {
    choose|i: int| 0 <= i < changes.len() && (#[trigger] changes[i]).uri@ == uri
}

/// Some of the changes are for the document.
pub open spec fn has_change(changes: Seq<FileEdits>, uri: Seq<char>) -> bool {
    exists|i: int| 0 <= i < changes.len() && (#[trigger] changes[i]).uri@ == uri
}

/// How many edits the changes hold in all.
pub open spec fn edit_count(changes: Seq<FileEdits>) -> nat
    decreases changes.len(),
{
    if changes.len() == 0 {
        0
    } else {
        edit_count(changes.drop_last()) + changes.last().edits@.len()
    }
}

impl WorkspaceEdit {
    /// No document occurs twice.
    pub open spec fn well_formed(self) -> bool {
        forall|i: int, j: int|
            0 <= i < j < self.changes@.len() ==> (#[trigger] self.changes@[i]).uri@ != (
            #[trigger] self.changes@[j]).uri@
    }
}

impl View for WorkspaceEdit {
    type V = Map<Seq<char>, Seq<(Range, Seq<char>)>>;

    /// The replacements by document.
    open spec fn view(&self) -> Map<Seq<char>, Seq<(Range, Seq<char>)>> {
        Map::new(
            |uri: Seq<char>| has_change(self.changes@, uri),
            |uri: Seq<char>|
                replacements(self.changes@[place_of(self.changes@, uri)].edits@),
        )
    }
}

/// What the changes are once the first sites are renamed.
spec fn renamed(
    changes: Seq<FileEdits>,
    done: Seq<(Seq<char>, Range)>,
    new_name: Seq<char>,
) -> bool {
    &&& forall|i: int, j: int|
        0 <= i < j < changes.len() ==> (#[trigger] changes[i]).uri@ != (
        #[trigger] changes[j]).uri@
    &&& forall|i: int|
        0 <= i < changes.len() ==> has_site(done, (#[trigger] changes[i]).uri@)
    &&& forall|i: int|
        0 <= i < changes.len() ==> replacements((#[trigger] changes[i]).edits@)
            == renames_in(done, changes[i].uri@, new_name)
    &&& forall|j: int| 0 <= j < done.len() ==> has_change(changes, (#[trigger] done[j]).0)
    &&& edit_count(changes) == done.len()
}

/// The replacements that rename one more site.
proof fn lemma_renames_in_push(
    done: Seq<(Seq<char>, Range)>,
    site: (Seq<char>, Range),
    uri: Seq<char>,
    new_name: Seq<char>,
)
    ensures
        renames_in(done.push(site), uri, new_name) == (if site.0 == uri {
            renames_in(done, uri, new_name).push((site.1, new_name))
        } else {
            renames_in(done, uri, new_name)
        }),
{
    done.lemma_filter_push(site, in_document(uri));
    assert(renames_in(done.push(site), uri, new_name) =~= (if site.0 == uri {
        renames_in(done, uri, new_name).push((site.1, new_name))
    } else {
        renames_in(done, uri, new_name)
    }));
}

/// A document without sites has nothing to rename.
proof fn lemma_renames_in_none(
    done: Seq<(Seq<char>, Range)>,
    uri: Seq<char>,
    new_name: Seq<char>,
)
    requires
        !has_site(done, uri),
    ensures
        renames_in(done, uri, new_name) == Seq::<(Range, Seq<char>)>::empty(),
{
    let pred = in_document(uri);
    assert forall|i: int| 0 <= i < done.len() implies !pred(#[trigger] done[i]) by {}
    done.lemma_all_neg_filter_empty(pred);
    assert(renames_in(done, uri, new_name) =~= Seq::<(Range, Seq<char>)>::empty());
}

/// The number of edits when one of the documents gets other edits.
proof fn lemma_edit_count_update(changes: Seq<FileEdits>, place: int, change: FileEdits)
    requires
        0 <= place < changes.len(),
    ensures
        edit_count(changes.update(place, change)) == edit_count(changes)
            - changes[place].edits@.len() + change.edits@.len(),
    decreases changes.len(),
{
    let updated = changes.update(place, change);
    if place == changes.len() - 1 {
        assert(updated.drop_last() =~= changes.drop_last());
    } else {
        lemma_edit_count_update(changes.drop_last(), place, change);
        assert(updated.drop_last() =~= changes.drop_last().update(place, change));
    }
}

/// The changes after one more site: its document, at `place`, has one more edit.
spec fn grown(
    before: Seq<FileEdits>,
    after: Seq<FileEdits>,
    place: int,
    site: (Seq<char>, Range),
    new_name: Seq<char>,
) -> bool {
    &&& 0 <= place < after.len()
    &&& after[place].uri@ == site.0
    &&& forall|i: int|
        0 <= i < after.len() && i != place ==> i < before.len() && #[trigger] after[i] == before[i]
    &&& before.len() <= after.len()
    &&& if place < before.len() {
        &&& after.len() == before.len()
        &&& before[place].uri@ == site.0
        &&& replacements(after[place].edits@) == replacements(before[place].edits@).push(
            (site.1, new_name),
        )
    } else {
        &&& after.len() == before.len() + 1
        &&& !has_change(before, site.0)
        &&& replacements(after[place].edits@) == seq![(site.1, new_name)]
    }
    &&& edit_count(after) == edit_count(before) + 1
}

/// One more edit in the site's document renames one more site.
proof fn lemma_renamed_step(
    before: Seq<FileEdits>,
    after: Seq<FileEdits>,
    place: int,
    done: Seq<(Seq<char>, Range)>,
    site: (Seq<char>, Range),
    new_name: Seq<char>,
)
    requires
        renamed(before, done, new_name),
        grown(before, after, place, site, new_name),
    ensures
        renamed(after, done.push(site), new_name),
{
    let more = done.push(site);
    assert forall|i: int, j: int| 0 <= i < j < after.len() implies (#[trigger] after[i]).uri@ != (
    #[trigger] after[j]).uri@ by {
        if i != place {
            assert(after[i] == before[i]);
        }
        if j != place {
            assert(after[j] == before[j]);
        }
    }
    assert forall|i: int| 0 <= i < after.len() implies has_site(
        more,
        (#[trigger] after[i]).uri@,
    ) && replacements(after[i].edits@) == renames_in(more, after[i].uri@, new_name) by {
        lemma_renames_in_push(done, site, after[i].uri@, new_name);
        if i == place {
            assert(more[done.len() as int].0 == after[i].uri@);
            if place >= before.len() {
                if has_site(done, site.0) {
                    let j = choose|j: int| 0 <= j < done.len() && (#[trigger] done[j]).0 == site.0;
                    assert(has_change(before, done[j].0));
                }
                lemma_renames_in_none(done, site.0, new_name);
                assert(replacements(after[i].edits@) =~= renames_in(more, site.0, new_name));
            }
        } else {
            assert(after[i] == before[i]);
            let j = choose|j: int|
                0 <= j < done.len() && (#[trigger] done[j]).0 == before[i].uri@;
            assert(more[j] == done[j]);
            if after[i].uri@ == site.0 {
                if place < before.len() {
                    assert(before[i].uri@ != before[place].uri@);
                } else {
                    assert(has_change(before, site.0));
                }
            }
        }
    }
    assert forall|j: int| 0 <= j < more.len() implies has_change(after, (#[trigger] more[j]).0) by {
        if j < done.len() {
            assert(more[j] == done[j]);
            let i = choose|i: int|
                0 <= i < before.len() && (#[trigger] before[i]).uri@ == done[j].0;
            if i != place {
                assert(after[i] == before[i]);
            }
            assert(after[i].uri@ == more[j].0);
        } else {
            assert(after[place].uri@ == more[j].0);
        }
    }
}

/// Once all sites are renamed, the changes are what is asked for.
proof fn lemma_renamed_all(
    edit: WorkspaceEdit,
    all: Seq<(Seq<char>, Range)>,
    new_name: Seq<char>,
)
    requires
        renamed(edit.changes@, all, new_name),
    ensures
        edit@ == renames(all, new_name),
{
    let changes = edit.changes@;
    assert forall|uri: Seq<char>| has_change(changes, uri) == has_site(all, uri) by {
        if has_change(changes, uri) {
            let i = place_of(changes, uri);
            assert(has_site(all, changes[i].uri@));
        }
        if has_site(all, uri) {
            let j = choose|j: int| 0 <= j < all.len() && (#[trigger] all[j]).0 == uri;
            assert(has_change(changes, all[j].0));
        }
    }
    assert forall|uri: Seq<char>| has_change(changes, uri) implies replacements(
        changes[place_of(changes, uri)].edits@,
    ) == renames_in(all, uri, new_name) by {
        let i = place_of(changes, uri);
        assert(changes[i].uri@ == uri);
    }
    assert(edit@ =~= renames(all, new_name));
}

/// The place of a document among the changes, if it is there.
fn find_document(changes: &Vec<FileEdits>, uri: &String) -> (place: Option<usize>)
    ensures
        match place {
            Some(place) => place < changes@.len() && changes@[place as int].uri@ == uri@,
            None => !has_change(changes@, uri@),
        },
{
    let mut i: usize = 0;
    while i < changes.len()
        invariant
            i <= changes@.len(),
            forall|j: int| 0 <= j < i ==> (#[trigger] changes@[j]).uri@ != uri@,
        decreases changes@.len() - i,
    {
        if changes[i].uri == *uri {
            return Some(i);
        }
        i += 1;
    }
    None
}

/// The edits that rename all locations.
pub fn rename_locations(locations: &Vec<Location>, new_name: &String) -> (edit: WorkspaceEdit)
    ensures
        edit.well_formed(),
        edit@ == renames(sites(locations@), new_name@),
        edit_count(edit.changes@) == locations@.len(),
{
    let mut changes: Vec<FileEdits> = Vec::new();
    let ghost all = sites(locations@);
    let mut i: usize = 0;
    while i < locations.len()
        invariant
            i <= locations@.len(),
            all == sites(locations@),
            renamed(changes@, all.take(i as int), new_name@),
        decreases locations@.len() - i,
    {
        let location = &locations[i];
        let edit = TextEdit { range: location.range, new_text: new_name.clone() };
        let ghost before = changes@;
        let ghost done = all.take(i as int);
        let ghost site = all[i as int];
        match find_document(&changes, &location.uri) {
            Some(place) => {
                changes[place].edits.push(edit);
                proof {
                    let changed = changes@[place as int];
                    assert(changes@ =~= before.update(place as int, changed));
                    lemma_edit_count_update(before, place as int, changed);
                    assert(replacements(changed.edits@) =~= replacements(
                        before[place as int].edits@,
                    ).push((site.1, new_name@)));
                    lemma_renamed_step(before, changes@, place as int, done, site, new_name@);
                }
            },
            None => {
                let mut edits: Vec<TextEdit> = Vec::new();
                edits.push(edit);
                let ghost replaced = replacements(edits@);
                changes.push(FileEdits { uri: location.uri.clone(), edits });
                proof {
                    assert(changes@.drop_last() =~= before);
                    assert(replaced =~= seq![(site.1, new_name@)]);
                    lemma_renamed_step(before, changes@, before.len() as int, done, site, new_name@);
                }
            },
        }
        proof {
            assert(all.take(i + 1) =~= done.push(site));
        }
        i += 1;
    }
    let edit = WorkspaceEdit { changes };
    proof {
        assert(all.take(i as int) =~= all);
        lemma_renamed_all(edit, all, new_name@);
    }
    edit
}

/// The step of a rename that has opened the analysis.
pub open spec fn renames_symbol<A, M, E>(
    now: Exchange<A, FoundReferences, E>,
    new_name: Seq<char>,
    step: Step<A, M, FoundReferences, WorkspaceEdit, E>,
) -> bool
    recommends
        now.answer is Some,
{
    match now.answer->0 {
        Ok(locations) => {
            &&& step is Done
            &&& step->Done_0.response is Ok
            &&& if locations@.len() == 0 {
                &&& text_of(step->Done_0.note) == Some("Symbol not found"@)
                &&& step->Done_0.response->Ok_0 is None
            } else {
                &&& step->Done_0.note is None
                &&& step->Done_0.response->Ok_0 is Some
                &&& step->Done_0.response->Ok_0->0.well_formed()
                &&& step->Done_0.response->Ok_0->0@ == renames(sites(locations@), new_name)
                &&& edit_count(step->Done_0.response->Ok_0->0.changes@) == locations@.len()
            }
        },
        Err(reason) => match now.logged {
            Some(Ok(_)) => fails("Can not rename symbol: "@ + reason@, step),
            _ => now.logs("Can not rename symbol: "@ + reason@, Ok(None), step),
        },
    }
}

/// Called when a `textDocument/rename` request was received; `name_valid` tells
/// whether the new name is a name of the KCL language.
pub fn handle_rename<A, N, M, E>(
    position: Position,
    new_name: &String,
    name_valid: bool,
    exchange: Exchange<A, FoundReferences, E>,
    event: Event<A, N, FoundReferences, E>,
) -> (step: Step<A, M, FoundReferences, WorkspaceEdit, E>)
    ensures
        exchange.recorded(event).asks_unknown(step),
        !name_valid ==> fails("Can not rename to: "@ + new_name@ + ", invalid name"@, step),
        name_valid ==> match exchange.recorded(event).stage(true) {
            Stage::Open(db) => match exchange.recorded(event).answer {
                None => step == exchange.recorded(event).analyses::<M, WorkspaceEdit>(
                    Call::References { position, include_declaration: true },
                    db,
                ),
                Some(_) => renames_symbol(exchange.recorded(event), new_name@, step),
            },
            _ => exchange.recorded(event).stops(true, step),
        },
{
    // 1. check the new name validity
    if !name_valid {
        let refusal = join("Can not rename to: ", new_name.as_str(), ", invalid name");
        return Step::Done(Reply { note: None, response: Err(HandlerError::Message(refusal)) });
    }
    // 2. find all the references of the symbol
    let (now, file, db) = match exchange.record(event).enter(true) {
        Way::Stop(step) => return step,
        Way::Through(now, file, db) => (now, file, db),
    };
    match now.answer {
        None => Step::Ask {
            question: Question::Analyse {
                call: Call::References { position, include_declaration: true },
                file,
                db,
            },
            exchange: now,
        },
        Some(Ok(locations)) => if locations.len() == 0 {
            Step::Done(
                Reply { note: Some("Symbol not found".to_owned()), response: Ok(None) },
            )
        } else {
            // 3. rename all the references with the new name
            let edit = rename_locations(&locations, new_name);
            Step::Done(Reply { note: None, response: Ok(Some(edit)) })
        },
        Some(Err(ref reason)) => {
            let failure = join("Can not rename symbol: ", reason.as_str(), "");
            proof {
                reveal_strlit("");
            }
            assert(failure@ =~= "Can not rename symbol: "@ + reason@);
            let message = failure.clone();
            now.log(message, Err(HandlerError::Message(failure)))
        },
    }
}

} // verus!
