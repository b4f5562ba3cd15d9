//! The handlers that have a document, or a part of it, formatted.

use crate::errors::HandlerError;
use crate::outside::{
    file_contents, file_id, utf8_error, vfs_contents, vfs_ids, vfs_path, vfs_path_text,
};
use crate::protocol::Range;
use crate::snapshot::in_vfs;
use ra_ap_vfs::Vfs;
use vstd::prelude::*;
use vstd::string::StringSliceAdditionalSpecFns;
use vstd::utf8::{
    encode_utf8, encode_utf8_valid_utf8, is_char_boundary, length_of_first_scalar,
    pop_first_scalar, valid_utf8,
};

verus! {

/// What the formatter is given: the name of the file, the text, and the range that
/// the text fills, if it is not the whole document.
#[derive(Debug, PartialEq, Eq)]
pub struct FormatCall {
    pub file: String,
    pub source: String,
    pub range: Option<Range>,
}

/// A request to format a range of a document whose text was found.
#[derive(Debug, PartialEq, Eq)]
pub struct RangeFormat {
    pub file: String,
    pub text: String,
    pub range: Range,
}

/// How a request to format a range goes on once the range is found in the text.
#[derive(Debug, PartialEq, Eq)]
pub enum FormatStep<R, E> {
    /// The formatter is called, and its answer is the request's.
    Format(FormatCall),
    /// The request is answered.
    Done(Result<Option<R>, HandlerError<E>>),
}

/// The bytes of the document at `path`, which is given as the file system shows it.
pub open spec fn document_bytes(vfs: Vfs, path: Seq<char>) -> Seq<u8>
    recommends
        in_vfs(vfs, path),
{
    vfs_contents(vfs)[vfs_ids(vfs)[path]]
}

/// The text of the document, or why there is none.
pub open spec fn reads_text<E>(
    vfs: Vfs,
    path: Seq<char>,
    text: Result<String, HandlerError<E>>,
) -> bool {
    if !in_vfs(vfs, path) {
        &&& text is Err
        &&& text->Err_0 is Message
        &&& text->Err_0->Message_0@ == "Already checked that the file_id exists!"@
    } else if !valid_utf8(document_bytes(vfs, path)) {
        text == Err::<String, HandlerError<E>>(
            HandlerError::NotUtf8(utf8_error(document_bytes(vfs, path))),
        )
    } else {
        text is Ok && encode_utf8(text->Ok_0@) == document_bytes(vfs, path)
    }
}

/// The name and the text of a request's document, or why there are none.
pub open spec fn reads_document<E>(
    file: Result<String, E>,
    path: Result<String, E>,
    vfs: Vfs,
    document: Result<(String, String), HandlerError<E>>,
) -> bool {
    match (file, path) {
        (Err(error), _) => document == Err::<(String, String), HandlerError<E>>(
            HandlerError::Outside(error),
        ),
        (Ok(_), Err(error)) => document == Err::<(String, String), HandlerError<E>>(
            HandlerError::Outside(error),
        ),
        (Ok(file), Ok(path)) => match document {
            Ok(document) => document.0 == file && reads_text::<E>(
                vfs,
                vfs_path_text(path@),
                Ok(document.1),
            ),
            Err(error) => reads_text::<E>(vfs, vfs_path_text(path@), Err(error)),
        },
    }
}

/// Both ends are ends of characters of the bytes, in their order.
pub open spec fn cuts(bytes: Seq<u8>, start: int, end: int) -> bool {
    start <= end && is_char_boundary(bytes, start) && is_char_boundary(bytes, end)
}

/// After a place between characters, the places between characters stay the same.
proof fn lemma_boundary_after(bytes: Seq<u8>, start: int, end: int)
    requires
        valid_utf8(bytes),
        start <= end,
        is_char_boundary(bytes, start),
    ensures
        0 <= start <= bytes.len(),
        is_char_boundary(bytes, end) == is_char_boundary(
            bytes.subrange(start, bytes.len() as int),
            end - start,
        ),
    decreases bytes.len(),
{
    if start == 0 {
        assert(bytes.subrange(0, bytes.len() as int) =~= bytes);
    } else {
        let rest = pop_first_scalar(bytes);
        let width = length_of_first_scalar(bytes);
        lemma_boundary_after(rest, start - width, end - width);
        assert(rest.subrange(start - width, rest.len() as int) =~= bytes.subrange(
            start,
            bytes.len() as int,
        ));
    }
}

/// The text of a document in the file system.
fn read_text<E>(vfs: &Vfs, path: &String) -> (text: Result<String, HandlerError<E>>)
    ensures
        reads_text(*vfs, path@, text),
{
    match file_id(vfs, path.as_str()) {
        Some(id) => match String::from_utf8(file_contents(vfs, id)) {
            Ok(text) => Ok(text),
            Err(error) => Err(HandlerError::NotUtf8(error)),
        },
        None => Err(
            HandlerError::Message("Already checked that the file_id exists!".to_owned()),
        ),
    }
}

/// The name and the text of a request's document.
fn read_document<E>(file: Result<String, E>, path: Result<String, E>, vfs: &Vfs) -> (document:
    Result<(String, String), HandlerError<E>>)
    ensures
        reads_document(file, path, *vfs, document),
{
    match file {
        Err(error) => Err(HandlerError::Outside(error)),
        Ok(file) => match path {
            Err(error) => Err(HandlerError::Outside(error)),
            Ok(path) => match read_text(vfs, &vfs_path(path.as_str())) {
                Ok(text) => Ok((file, text)),
                Err(error) => Err(error),
            },
        },
    }
}

/// Called when a document is to be formatted: what the formatter is given.
pub fn handle_formatting<E>(file: Result<String, E>, path: Result<String, E>, vfs: &Vfs) -> (call:
    Result<FormatCall, HandlerError<E>>)
    ensures
        match call {
            Ok(call) => reads_document::<E>(file, path, *vfs, Ok((call.file, call.source)))
                && call.range is None,
            Err(error) => reads_document::<E>(file, path, *vfs, Err(error)),
        },
{
    match read_document(file, path, vfs) {
        Ok((file, source)) => Ok(FormatCall { file, source, range: None }),
        Err(error) => Err(error),
    }
}

/// Called when a range of a document is to be formatted: the document's text, in
/// which the range is to be found.
pub fn handle_range_formatting<E>(
    file: Result<String, E>,
    path: Result<String, E>,
    vfs: &Vfs,
    range: Range,
) -> (request: Result<RangeFormat, HandlerError<E>>)
    ensures
        match request {
            Ok(request) => reads_document::<E>(file, path, *vfs, Ok((request.file, request.text)))
                && request.range == range,
            Err(error) => reads_document::<E>(file, path, *vfs, Err(error)),
        },
{
    match read_document(file, path, vfs) {
        Ok((file, text)) => Ok(RangeFormat { file, text, range }),
        Err(error) => Err(error),
    }
}

impl RangeFormat {
    /// What the formatter is given once the range is found to reach from byte
    /// `start` to byte `end` of the text; nothing if these are no places between
    /// characters of the text.
    pub fn select(self, start: usize, end: usize) -> (call: Option<FormatCall>)
        ensures
            call is Some <==> cuts(encode_utf8(self.text@), start as int, end as int),
            call is Some ==> {
                &&& call->0.file == self.file
                &&& encode_utf8(call->0.source@) == encode_utf8(self.text@).subrange(
                    start as int,
                    end as int,
                )
                &&& call->0.range == Some(self.range)
            },
    {
        let text = self.text.as_str();
        if start > end || !text.is_char_boundary(start) || !text.is_char_boundary(end) {
            return None;
        }
        proof {
            encode_utf8_valid_utf8(text@);
            lemma_boundary_after(text.spec_bytes(), start as int, end as int);
        }
        let (_, after) = text.split_at(start);
        let (source, _) = after.split_at(end - start);
        proof {
            lemma_boundary_after(text.spec_bytes(), end as int, end as int);
            assert(source.spec_bytes() =~= text.spec_bytes().subrange(start as int, end as int));
        }
        Some(FormatCall { file: self.file, source: source.to_owned(), range: Some(self.range) })
    }

    /// Goes on once the range is found to reach from byte `start` to byte `end` of the
    /// text: what it selects is formatted; if it selects nothing, the answer is nothing.
    pub fn go_on<R, E>(self, start: usize, end: usize) -> (step: FormatStep<R, E>)
        ensures
            step is Done <==> !cuts(encode_utf8(self.text@), start as int, end as int),
            step is Done ==> step->Done_0 == Ok::<Option<R>, HandlerError<E>>(None),
            step matches FormatStep::Format(call) ==> {
                &&& call.file == self.file
                &&& encode_utf8(call.source@) == encode_utf8(self.text@).subrange(
                    start as int,
                    end as int,
                )
                &&& call.range == Some(self.range)
            },
    {
        match self.select(start, end) {
            Some(call) => FormatStep::Format(call),
            None => FormatStep::Done(Ok(None)),
        }
    }
}

} // verus!
