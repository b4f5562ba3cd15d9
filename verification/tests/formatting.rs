use kcl_requests::errors::HandlerError;
use kcl_requests::formatting::{
    handle_formatting, handle_range_formatting, FormatCall, FormatStep, RangeFormat,
};
use kcl_requests::protocol::{Position, Range};
use ra_ap_vfs::{Vfs, VfsPath};

fn text(s: &str) -> String {
    s.to_string()
}

fn files(contents: &[u8]) -> Vfs {
    let mut vfs = Vfs::default();
    vfs.set_file_contents(VfsPath::new_real_path(text("/kcl/first.k")), Some(b"first".to_vec()));
    vfs.set_file_contents(VfsPath::new_real_path(text("/kcl/main.k")), Some(contents.to_vec()));
    vfs
}

fn range() -> Range {
    Range {
        start: Position { line: 0, character: 2 },
        end: Position { line: 1, character: 0 },
    }
}

fn request(contents: &str) -> RangeFormat {
    RangeFormat { file: text("main.k"), text: text(contents), range: range() }
}

#[test]
fn a_whole_document_is_formatted() {
    let vfs = files("a = 'h\u{e9}'".as_bytes());
    let call = handle_formatting::<u8>(Ok(text("main.k")), Ok(text("/kcl/main.k")), &vfs);
    assert_eq!(
        call,
        Ok(FormatCall { file: text("main.k"), source: text("a = 'h\u{e9}'"), range: None })
    );
}

#[test]
fn a_document_is_found_by_any_spelling_of_its_path() {
    let vfs = files(b"a = 1");
    let call = handle_formatting::<u8>(Ok(text("main.k")), Ok(text("/kcl/x/../main.k")), &vfs);
    assert_eq!(call.map(|call| call.source), Ok(text("a = 1")));
}

#[test]
fn formatting_needs_a_document() {
    let vfs = files(b"");
    assert_eq!(
        handle_formatting(Err(1u8), Err(2u8), &vfs),
        Err(HandlerError::Outside(1))
    );
    assert_eq!(
        handle_formatting(Ok(text("main.k")), Err(2u8), &vfs),
        Err(HandlerError::Outside(2))
    );
    assert_eq!(
        handle_formatting::<u8>(Ok(text("x.k")), Ok(text("/kcl/x.k")), &vfs),
        Err(HandlerError::Message(text("Already checked that the file_id exists!")))
    );
}

#[test]
fn formatting_needs_text() {
    let vfs = files(&[b'a', 0xff]);
    match handle_formatting::<u8>(Ok(text("main.k")), Ok(text("/kcl/main.k")), &vfs) {
        Err(HandlerError::NotUtf8(error)) => assert_eq!(error.into_bytes(), vec![b'a', 0xff]),
        _ => panic!("the bytes are no text"),
    }
    match handle_range_formatting::<u8>(
        Ok(text("main.k")),
        Ok(text("/kcl/main.k")),
        &vfs,
        range(),
    ) {
        Err(HandlerError::NotUtf8(_)) => {}
        _ => panic!("the bytes are no text"),
    }
}

#[test]
fn an_empty_document_is_text() {
    let vfs = files(b"");
    let call = handle_formatting::<u8>(Ok(text("main.k")), Ok(text("/kcl/main.k")), &vfs);
    assert_eq!(call, Ok(FormatCall { file: text("main.k"), source: text(""), range: None }));
}

#[test]
fn a_range_is_looked_for_in_the_document() {
    let vfs = files(b"a  = 1\nb=2\n");
    let found = handle_range_formatting::<u8>(
        Ok(text("main.k")),
        Ok(text("/kcl/main.k")),
        &vfs,
        range(),
    );
    assert_eq!(found, Ok(request("a  = 1\nb=2\n")));
    assert_eq!(
        handle_range_formatting::<u8>(Ok(text("x.k")), Ok(text("/kcl/x.k")), &vfs, range()),
        Err(HandlerError::Message(text("Already checked that the file_id exists!")))
    );
    assert_eq!(
        handle_range_formatting(Err(1u8), Ok(text("/kcl/main.k")), &vfs, range()),
        Err(HandlerError::Outside(1))
    );
}

#[test]
fn a_range_selects_its_part_of_the_text() {
    assert_eq!(
        request("a  = 1\nb=2\n").select(2, 7),
        Some(FormatCall { file: text("main.k"), source: text(" = 1\n"), range: Some(range()) })
    );
    assert_eq!(
        request("h\u{e9}llo").select(1, 3),
        Some(FormatCall { file: text("main.k"), source: text("\u{e9}"), range: Some(range()) })
    );
}

#[test]
fn the_whole_range_selects_the_whole_text() {
    for contents in ["", "a = 1\n", "h\u{e9}\u{10348}"] {
        let call = request(contents).select(0, contents.len());
        assert_eq!(call.map(|call| call.source), Some(text(contents)));
    }
}

#[test]
fn a_range_that_is_not_in_the_text_selects_nothing() {
    assert_eq!(request("abc").select(2, 1), None);
    assert_eq!(request("abc").select(0, 4), None);
    assert_eq!(request("abc").select(4, 4), None);
    assert_eq!(request("h\u{e9}llo").select(0, 2), None);
    assert_eq!(request("h\u{e9}llo").select(2, 3), None);
    assert_eq!(request("").select(usize::MAX, usize::MAX), None);
}

#[test]
fn what_a_range_selects_is_formatted() {
    let step: FormatStep<u8, u8> = request("a  = 1\nb=2\n").go_on(2, 7);
    assert_eq!(
        step,
        FormatStep::Format(FormatCall {
            file: text("main.k"),
            source: text(" = 1\n"),
            range: Some(range())
        })
    );
    let empty: FormatStep<u8, u8> = request("abc").go_on(1, 1);
    assert!(matches!(empty, FormatStep::Format(call) if call.source.is_empty()));
}

#[test]
fn a_range_that_selects_nothing_is_answered_with_nothing() {
    for (contents, start, end) in
        [("abc", 2, 1), ("abc", 0, 4), ("h\u{e9}llo", 0, 2), ("", usize::MAX, usize::MAX)]
    {
        let step: FormatStep<u8, u8> = request(contents).go_on(start, end);
        assert_eq!(step, FormatStep::Done(Ok(None)));
    }
}

#[test]
fn the_selection_is_what_slicing_gives() {
    let contents = "a\u{e9}\u{20ac}\u{10348}b";
    for start in 0..contents.len() + 2 {
        for end in 0..contents.len() + 2 {
            let source = request(contents).select(start, end).map(|call| call.source);
            assert_eq!(source.as_deref(), contents.get(start..end));
        }
    }
}
