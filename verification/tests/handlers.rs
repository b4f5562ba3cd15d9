use kcl_requests::errors::{HandlerError, LspError};
use kcl_requests::exchange::{Call, Event, Exchange, Question, Reply, Step};
use kcl_requests::handlers::{
    handle_code_action, handle_completion, handle_document_symbol, handle_goto_definition,
    handle_hover, handle_inlay_hint, handle_reference, handle_semantic_tokens_full,
    handle_signature_help, FoundReferences,
};
use kcl_requests::protocol::{Location, Position, Range, TextEdit, TriggerContext};
use kcl_requests::rename::{handle_rename, rename_locations, FileEdits, WorkspaceEdit};
use kcl_requests::snapshot::{AnalysisDatabase, CachedEntry, DatabaseTable, VersionTable};
use lsp_server::RequestId;
use ra_ap_vfs::{Vfs, VfsPath};
use std::collections::HashMap;
use std::sync::Arc;

const AT: Position = Position { line: 3, character: 5 };

fn text(s: &str) -> String {
    s.to_string()
}

/// An entry of the cache of entry points.
type Entry = CachedEntry<Vec<String>, Option<u8>, &'static str, u64>;

/// The tables, and whether they and the log can be reached.
struct World {
    vfs: Vfs,
    vfs_busy: bool,
    db: DatabaseTable<&'static str>,
    db_busy: bool,
    retries: HashMap<RequestId, i32>,
    opened_files: VersionTable,
    entry_cache: HashMap<String, Entry>,
    log_fails: bool,
}

/// What a run came to.
struct Outcome<R> {
    reply: Reply<R, &'static str>,
    /// The questions, in short.
    asked: Vec<&'static str>,
    calls: Vec<Call<&'static str>>,
    logged: Vec<String>,
}

fn world() -> World {
    let mut vfs = Vfs::default();
    vfs.set_file_contents(VfsPath::new_real_path(text("/kcl/main.k")), Some(b"a = 1".to_vec()));
    let mut db = DatabaseTable::new();
    db.insert(0, Some(Arc::new(AnalysisDatabase { analysis: "scopes", version: 4 })));
    let mut opened_files = VersionTable::new();
    opened_files.insert(0, 4);
    World {
        vfs,
        vfs_busy: false,
        db,
        db_busy: false,
        retries: HashMap::new(),
        opened_files,
        entry_cache: HashMap::new(),
        log_fails: false,
    }
}

type Located = (Result<String, &'static str>, Result<String, &'static str>);

fn main_k() -> Located {
    (Ok(text("main.k")), Ok(text("/kcl/main.k")))
}

fn run<T, R>(
    world: &World,
    located: Located,
    mut answer: Option<T>,
    handler: impl for<'a> Fn(
        Exchange<&'static str, T, &'static str>,
        Event<'a, &'static str, Entry, T, &'static str>,
    ) -> Step<&'static str, &'static str, T, R, &'static str>,
) -> Outcome<R> {
    let mut asked = Vec::new();
    let mut calls = Vec::new();
    let mut logged = Vec::new();
    let mut step = handler(Exchange::new(located.0, located.1), Event::Start);
    loop {
        let (question, exchange) = match step {
            Step::Done(reply) => return Outcome { reply, asked, calls, logged },
            Step::Ask { question, exchange } => (question, exchange),
        };
        step = match question {
            Question::Check => {
                asked.push("check");
                handler(exchange, Event::Checked { vfs: &world.vfs, db: &world.db })
            }
            Question::Try => {
                asked.push("try");
                let free_vfs = if world.vfs_busy { None } else { Some(&world.vfs) };
                let free_db = if world.db_busy { None } else { Some(&world.db) };
                handler(exchange, Event::Tried { free_vfs, free_db })
            }
            Question::Retries => {
                asked.push("retries");
                handler(exchange, Event::Retries { table: &world.retries })
            }
            Question::Versions => {
                asked.push("versions");
                let opened_files = &world.opened_files;
                handler(exchange, Event::Versions { vfs: &world.vfs, opened_files })
            }
            Question::Cached => {
                asked.push("cached");
                handler(exchange, Event::Cached { cache: &world.entry_cache })
            }
            Question::Analyse { call, file, db } => {
                asked.push("analyse");
                assert_eq!(file, "main.k");
                assert_eq!(*db, AnalysisDatabase { analysis: "scopes", version: 4 });
                calls.push(call);
                match answer.take() {
                    Some(answer) => handler(exchange, Event::Answer(answer)),
                    None => panic!("the analysis is run twice"),
                }
            }
            Question::Log(message) => {
                asked.push("log");
                logged.push(message);
                let sent = if world.log_fails { Err("closed") } else { Ok(()) };
                handler(exchange, Event::Logged(sent))
            }
        };
    }
}

fn retry<R>() -> Reply<R, &'static str> {
    Reply { note: None, response: Err(HandlerError::Lsp(LspError::Retry)) }
}

fn answer<R>(response: Option<R>) -> Reply<R, &'static str> {
    Reply { note: None, response: Ok(response) }
}

fn hover(world: &World, located: Located, answer: Option<u8>) -> Outcome<u8> {
    run(world, located, Some(answer), |exchange, event| handle_hover(AT, exchange, event))
}

#[test]
fn a_hover_is_answered() {
    let outcome = hover(&world(), main_k(), Some(8));
    assert_eq!(outcome.reply, answer(Some(8)));
    assert_eq!(outcome.asked, ["check", "try", "analyse"]);
    assert_eq!(outcome.calls, [Call::Hover { position: AT }]);
    assert!(outcome.logged.is_empty());
}

#[test]
fn a_hover_on_nothing_is_logged() {
    let outcome = hover(&world(), main_k(), None);
    assert_eq!(outcome.reply, answer(None));
    assert_eq!(outcome.asked, ["check", "try", "analyse", "log"]);
    assert_eq!(outcome.logged, ["Hover definition not found"]);
}

#[test]
fn a_log_that_cannot_be_written_fails_the_request() {
    let world = World { log_fails: true, ..world() };
    let outcome = hover(&world, main_k(), None);
    assert_eq!(
        outcome.reply,
        Reply { note: None, response: Err(HandlerError::Outside("closed")) }
    );
}

#[test]
fn a_uri_without_document_ends_the_request() {
    let both = hover(&world(), (Err("no file"), Err("no path")), Some(8));
    assert_eq!(
        both.reply,
        Reply { note: None, response: Err(HandlerError::Outside("no file")) }
    );
    assert!(both.asked.is_empty());
    let path = hover(&world(), (Ok(text("main.k")), Err("no path")), Some(8));
    assert_eq!(
        path.reply,
        Reply { note: None, response: Err(HandlerError::Outside("no path")) }
    );
    assert!(path.asked.is_empty());
}

#[test]
fn a_path_is_shown_as_the_file_system_keeps_it() {
    let exchange: Exchange<u8, u8, u8> =
        Exchange::new(Ok(text("main.k")), Ok(text("/kcl/sub/.././x.k")));
    assert_eq!(exchange.path, Ok(text("/kcl/x.k")));
    assert_eq!(exchange.file, Ok(text("main.k")));
    let failed: Exchange<u8, u8, u8> = Exchange::new(Err(1), Err(2));
    assert_eq!((failed.file, failed.path), (Err(1), Err(2)));
    let located = (Ok(text("main.k")), Ok(text("/kcl/sub/../x.k")));
    assert_eq!(
        hover(&world(), located, Some(8)).reply.note,
        Some(text("Vfs not contains: /kcl/x.k, request failed"))
    );
    let located = (Ok(text("main.k")), Ok(text("/kcl/./main.k")));
    assert_eq!(hover(&world(), located, Some(8)).reply, answer(Some(8)));
}

#[test]
fn a_file_that_is_unknown_is_answered_with_nothing() {
    let located = (Ok(text("main.k")), Ok(text("/kcl/x.k")));
    let outcome = hover(&world(), located, Some(8));
    assert_eq!(
        outcome.reply,
        Reply {
            note: Some(text("Vfs not contains: /kcl/x.k, request failed")),
            response: Ok(None)
        }
    );
    assert_eq!(outcome.asked, ["check"]);
}

#[test]
fn a_file_that_is_not_part_of_a_program_is_answered_with_nothing() {
    let world = World { db: DatabaseTable::new(), ..world() };
    let outcome = hover(&world, main_k(), Some(8));
    assert_eq!(
        outcome.reply,
        Reply {
            note: Some(text("LSP AnalysisDatabase not contains: /kcl/main.k, request failed")),
            response: Ok(None)
        }
    );
    assert_eq!(outcome.asked, ["check"]);
}

#[test]
fn a_compilation_under_way_puts_the_request_off() {
    let mut world = world();
    world.db.insert(0, None);
    let outcome = hover(&world, main_k(), Some(8));
    assert_eq!(outcome.reply, retry());
    assert_eq!(outcome.asked, ["check", "try"]);
}

#[test]
fn a_busy_file_system_puts_the_request_off() {
    let world = World { vfs_busy: true, ..world() };
    assert_eq!(hover(&world, main_k(), Some(8)).reply, retry());
}

#[test]
fn a_busy_analysis_table_puts_the_request_off() {
    let world = World { db_busy: true, ..world() };
    assert_eq!(hover(&world, main_k(), Some(8)).reply, retry());
}

#[test]
fn a_definition_is_answered_or_logged() {
    let definition = |found: Option<u8>| {
        run(&world(), main_k(), Some(found), |exchange, event| {
            handle_goto_definition(AT, exchange, event)
        })
    };
    let found = definition(Some(8));
    assert_eq!(found.reply, answer(Some(8)));
    assert_eq!(found.calls, [Call::Definition { position: AT }]);
    let nothing = definition(None);
    assert_eq!(nothing.reply, answer(None));
    assert_eq!(nothing.logged, ["Definition item not found"]);
}

#[test]
fn a_signature_help_is_answered_as_it_is() {
    let help = |world: &World, context: Option<&str>, found: Option<u8>| {
        run(world, main_k(), Some(found), |exchange, event| {
            let context =
                context.map(|typed| TriggerContext { trigger_character: Some(text(typed)) });
            handle_signature_help(AT, context, exchange, event)
        })
    };
    let found = help(&world(), Some("("), Some(8));
    assert_eq!(found.reply, answer(Some(8)));
    assert_eq!(found.asked, ["try", "analyse"]);
    assert_eq!(found.calls, [Call::SignatureHelp { position: AT, typed: Some(text("(")) }]);
    let nothing = help(&world(), None, None);
    assert_eq!(nothing.reply, answer(None));
    assert!(nothing.logged.is_empty());
    assert_eq!(nothing.calls, [Call::SignatureHelp { position: AT, typed: None }]);
    let failed = World { db: DatabaseTable::new(), ..world() };
    assert_eq!(help(&failed, None, Some(8)).reply, answer(None));
}

#[test]
fn document_symbols_are_answered_from_the_open_version() {
    let symbols = |world: &World, found: Option<u8>| {
        run(world, main_k(), Some(found), |exchange, event| {
            handle_document_symbol(exchange, event)
        })
    };
    let found = symbols(&world(), Some(8));
    assert_eq!(found.reply, answer(Some(8)));
    assert_eq!(found.asked, ["try", "analyse", "versions"]);
    assert_eq!(found.calls, [Call::DocumentSymbols]);
    assert_eq!(symbols(&world(), None).reply, answer(None));
    let mut changed = world();
    changed.opened_files.insert(0, 5);
    assert_eq!(symbols(&changed, Some(8)).reply, retry());
    let closed = World { opened_files: VersionTable::new(), ..world() };
    assert_eq!(
        symbols(&closed, Some(8)).reply,
        Reply {
            note: None,
            response: Err(HandlerError::Lsp(LspError::DocumentVersionNotFound(text(
                "/kcl/main.k"
            ))))
        }
    );
}

#[test]
fn semantic_tokens_are_answered_from_the_open_version() {
    let tokens = |world: &World| {
        run(world, main_k(), Some(Some(8u8)), |exchange, event| {
            handle_semantic_tokens_full(exchange, event)
        })
    };
    let found = tokens(&world());
    assert_eq!(found.reply, answer(Some(8)));
    assert_eq!(found.calls, [Call::SemanticTokens]);
    let mut changed = world();
    changed.opened_files.insert(0, 3);
    assert_eq!(tokens(&changed).reply, retry());
    let failed = World { db: DatabaseTable::new(), ..world() };
    let nothing = tokens(&failed);
    assert_eq!(nothing.reply, answer(None));
    assert_eq!(nothing.asked, ["try"]);
}

#[test]
fn inlay_hints_are_answered_from_the_open_version() {
    let hints = |world: &World| {
        run(world, main_k(), Some(Some(8u8)), |exchange, event| {
            handle_inlay_hint(exchange, event)
        })
    };
    let found = hints(&world());
    assert_eq!(found.reply, answer(Some(8)));
    assert_eq!(found.calls, [Call::InlayHints]);
    let mut changed = world();
    changed.opened_files.insert(0, 5);
    assert_eq!(hints(&changed).reply, retry());
}

#[test]
fn a_file_that_vanished_has_no_version() {
    let empty = Vfs::default();
    let exchange: Exchange<&str, Option<u8>, &str> = Exchange {
        opened: Some(Ok(Some(Arc::new(AnalysisDatabase { analysis: "scopes", version: 4 })))),
        answer: Some(Some(8)),
        ..Exchange::new(Ok(text("main.k")), Ok(text("/kcl/main.k")))
    };
    let opened_files = VersionTable::new();
    let event = Event::Versions { vfs: &empty, opened_files: &opened_files };
    match handle_inlay_hint::<_, Entry, &str, _, _>(exchange, event) {
        Step::Done(reply) => assert_eq!(
            reply,
            Reply {
                note: None,
                response: Err(HandlerError::Lsp(LspError::FileIdNotFound(text("/kcl/main.k"))))
            }
        ),
        Step::Ask { .. } => panic!("nothing is left to ask"),
    }
}

fn complete(world: &World, typed: Option<&str>, id: i32, found: Option<u8>) -> Outcome<u8> {
    let context =
        Some(TriggerContext { trigger_character: typed.map(|typed| typed.to_string()) });
    run(world, main_k(), Some(found), |exchange, event| {
        handle_completion(AT, &context, &RequestId::from(id), exchange, event)
    })
}

fn completion_call(
    trigger: Option<char>,
    metadata: Option<&'static str>,
) -> Call<&'static str> {
    Call::Completion { position: AT, trigger, metadata: metadata.map(Arc::new) }
}

#[test]
fn a_completion_takes_the_metadata_of_its_file() {
    let mut cached = world();
    let entry = |metadata: Option<&'static str>| {
        ((vec![text("main.k")], Some(1), metadata.map(Arc::new)), 9)
    };
    cached.entry_cache.insert(text("other.k"), entry(Some("other")));
    cached.entry_cache.insert(text("/kcl/main.k"), entry(Some("path")));
    assert_eq!(
        complete(&cached, Some("."), 1, Some(8)).calls,
        [completion_call(Some('.'), None)]
    );
    cached.entry_cache.insert(text("main.k"), entry(Some("meta")));
    let found = complete(&cached, Some("."), 1, Some(8));
    assert_eq!(found.calls, [completion_call(Some('.'), Some("meta"))]);
    assert_eq!(found.reply, answer(Some(8)));
    cached.entry_cache.insert(text("main.k"), entry(None));
    assert_eq!(complete(&cached, None, 1, Some(8)).calls, [completion_call(None, None)]);
}

#[test]
fn a_completion_that_is_put_off_does_not_look_up_its_metadata() {
    let mut cached = world();
    cached.entry_cache.insert(text("main.k"), ((Vec::new(), None, Some(Arc::new("meta"))), 9));
    let first = complete(&cached, Some("\n"), 1, Some(8));
    assert_eq!(first.asked, ["check", "try", "retries"]);
    cached.retries.insert(RequestId::from(1), 1);
    let second = complete(&cached, Some("\n"), 1, None);
    assert_eq!(
        second.asked,
        ["check", "try", "retries", "versions", "cached", "analyse", "log"]
    );
    assert_eq!(second.calls, [completion_call(Some('\n'), Some("meta"))]);
}

#[test]
fn a_completion_is_answered_or_logged() {
    let found = complete(&world(), Some(".x"), 1, Some(8));
    assert_eq!(found.reply, answer(Some(8)));
    assert_eq!(found.asked, ["check", "try", "cached", "analyse"]);
    assert_eq!(found.calls, [completion_call(Some('.'), None)]);
    let nothing = complete(&world(), None, 1, None);
    assert_eq!(nothing.reply, answer(None));
    assert_eq!(nothing.calls, [completion_call(None, None)]);
    assert_eq!(nothing.logged, ["Completion item not found"]);
    let empty = complete(&world(), Some(""), 1, Some(8));
    assert_eq!(empty.calls, [completion_call(None, None)]);
}

#[test]
fn a_completion_without_context_has_no_trigger() {
    let outcome = run(&world(), main_k(), Some(Some(8u8)), |exchange, event| {
        handle_completion(AT, &None, &RequestId::from(1), exchange, event)
    });
    assert_eq!(outcome.calls, [completion_call(None, None)]);
}

#[test]
fn a_completion_after_a_line_break_is_put_off_once() {
    let first = complete(&world(), Some("\n"), 1, Some(8));
    assert_eq!(first.reply, retry());
    assert_eq!(first.asked, ["check", "try", "retries"]);
    let mut tried = world();
    tried.retries.insert(RequestId::from(1), 1);
    let second = complete(&tried, Some("\n"), 1, Some(8));
    assert_eq!(second.reply, answer(Some(8)));
    assert_eq!(second.asked, ["check", "try", "retries", "versions", "cached", "analyse"]);
    assert_eq!(second.calls, [completion_call(Some('\n'), None)]);
    assert_eq!(complete(&tried, Some("\n"), 2, Some(8)).reply, retry());
}

#[test]
fn a_number_and_a_text_are_different_identifiers() {
    let mut tried = world();
    tried.retries.insert(RequestId::from(text("1")), 1);
    assert_eq!(complete(&tried, Some("\n"), 1, Some(8)).reply, retry());
}

#[test]
fn a_completion_after_a_line_break_waits_for_the_open_version() {
    let mut tried = world();
    tried.retries.insert(RequestId::from(1), 1);
    tried.opened_files.insert(0, 5);
    let outcome = complete(&tried, Some("\n"), 1, Some(8));
    assert_eq!(outcome.reply, retry());
    assert!(outcome.calls.is_empty());
    tried.opened_files.clear();
    assert_eq!(
        complete(&tried, Some("\n"), 1, Some(8)).reply,
        Reply {
            note: None,
            response: Err(HandlerError::Lsp(LspError::DocumentVersionNotFound(text(
                "/kcl/main.k"
            ))))
        }
    );
}

#[test]
fn a_completion_elsewhere_does_not_wait_for_the_open_version() {
    let mut changed = world();
    changed.opened_files.insert(0, 5);
    assert_eq!(complete(&changed, Some("."), 1, Some(8)).reply, answer(Some(8)));
}

#[test]
fn code_actions_are_the_quick_fixes() {
    assert_eq!(handle_code_action::<u8, u8>(vec![3, 1, 2]), Ok(Some(vec![3, 1, 2])));
    assert_eq!(handle_code_action::<u8, u8>(Vec::new()), Ok(Some(Vec::new())));
}

fn range(line: u32) -> Range {
    Range {
        start: Position { line, character: 0 },
        end: Position { line, character: 3 },
    }
}

fn location(uri: &str, line: u32) -> Location {
    Location { uri: text(uri), range: range(line) }
}

fn refer(world: &World, found: FoundReferences) -> Outcome<Vec<Location>> {
    run(world, main_k(), Some(found), |exchange, event| {
        handle_reference(AT, false, exchange, event)
    })
}

#[test]
fn references_are_answered() {
    let outcome = refer(&world(), Ok(vec![location("file:///b.k", 2)]));
    assert_eq!(outcome.reply, answer(Some(vec![location("file:///b.k", 2)])));
    assert_eq!(
        outcome.calls,
        [Call::References { position: AT, include_declaration: false }]
    );
    assert_eq!(refer(&world(), Ok(Vec::new())).reply, answer(Some(Vec::new())));
}

#[test]
fn references_that_cannot_be_told_are_logged() {
    let outcome = refer(&world(), Err(text("no symbol")));
    assert_eq!(outcome.reply, answer(None));
    assert_eq!(outcome.logged, ["Find references failed: no symbol"]);
    let silent = World { log_fails: true, ..world() };
    assert_eq!(
        refer(&silent, Err(text("no symbol"))).reply,
        Reply { note: None, response: Err(HandlerError::Outside("closed")) }
    );
}

fn rename(
    world: &World,
    located: Located,
    name: &str,
    valid: bool,
    found: FoundReferences,
) -> Outcome<WorkspaceEdit> {
    let name = text(name);
    run(world, located, Some(found), |exchange, event| {
        handle_rename(AT, &name, valid, exchange, event)
    })
}

fn edits(uri: &str, lines: &[u32], name: &str) -> FileEdits {
    FileEdits {
        uri: text(uri),
        edits: lines
            .iter()
            .map(|line| TextEdit { range: range(*line), new_text: text(name) })
            .collect(),
    }
}

#[test]
fn a_rename_edits_every_reference_in_its_document() {
    let found = vec![
        location("file:///a.k", 1),
        location("file:///b.k", 2),
        location("file:///a.k", 3),
        location("file:///a.k", 1),
    ];
    let outcome = rename(&world(), main_k(), "new", true, Ok(found));
    assert_eq!(
        outcome.reply,
        answer(Some(WorkspaceEdit {
            changes: vec![
                edits("file:///a.k", &[1, 3, 1], "new"),
                edits("file:///b.k", &[2], "new")
            ]
        }))
    );
    assert_eq!(
        outcome.calls,
        [Call::References { position: AT, include_declaration: true }]
    );
}

#[test]
fn no_locations_need_no_edits() {
    assert_eq!(
        rename_locations(&Vec::new(), &text("new")),
        WorkspaceEdit { changes: Vec::new() }
    );
}

#[test]
fn a_rename_without_references_is_answered_with_nothing() {
    let outcome = rename(&world(), main_k(), "new", true, Ok(Vec::new()));
    assert_eq!(
        outcome.reply,
        Reply { note: Some(text("Symbol not found")), response: Ok(None) }
    );
}

#[test]
fn an_invalid_name_is_refused_before_anything_else() {
    let outcome = rename(&world(), (Err("no file"), Err("no path")), "9 x", false, Ok(Vec::new()));
    assert_eq!(
        outcome.reply,
        Reply {
            note: None,
            response: Err(HandlerError::Message(text("Can not rename to: 9 x, invalid name")))
        }
    );
    assert!(outcome.asked.is_empty());
}

#[test]
fn a_rename_that_finds_no_references_fails() {
    let outcome = rename(&world(), main_k(), "new", true, Err(text("no symbol")));
    assert_eq!(outcome.logged, ["Can not rename symbol: no symbol"]);
    assert_eq!(
        outcome.reply,
        Reply {
            note: None,
            response: Err(HandlerError::Message(text("Can not rename symbol: no symbol")))
        }
    );
    let silent = World { log_fails: true, ..world() };
    assert_eq!(
        rename(&silent, main_k(), "new", true, Err(text("no symbol"))).reply,
        Reply { note: None, response: Err(HandlerError::Outside("closed")) }
    );
}

#[test]
fn a_rename_in_an_unknown_file_is_answered_with_nothing() {
    let located = (Ok(text("main.k")), Ok(text("/kcl/x.k")));
    let outcome = rename(&world(), located, "new", true, Ok(vec![location("file:///a.k", 1)]));
    assert_eq!(
        outcome.reply,
        Reply {
            note: Some(text("Vfs not contains: /kcl/x.k, request failed")),
            response: Ok(None)
        }
    );
}
