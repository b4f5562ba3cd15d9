//! What of a document is handed to the formatter.

use crate::errors::HandlerError;
use crate::formatting::{
    handle_formatting, handle_range_formatting, FormatCall, FormatStep, RangeFormat,
};
use crate::outside::{utf8_error, vfs_contents, vfs_ids, vfs_path_text};
use crate::protocol::Range;
use ra_ap_vfs::Vfs;
use vstd::prelude::*;
use vstd::utf8::{encode_utf8, is_char_boundary, valid_utf8};

verus! {

/// A document that the file system has and that is UTF-8 is formatted, all of it and
/// under its own name. In every other case the request fails: with the error of the
/// URI, that of the file name first, with the text that says that the file is not
/// there, or with the error that goes with the bytes.
pub proof fn law_formatting_takes_the_whole_document<E>(
    file: Result<String, E>,
    path: Result<String, E>,
    vfs: &Vfs,
    call: Result<FormatCall, HandlerError<E>>,
)
    requires
        call_ensures(handle_formatting::<E>, (file, path, vfs), call),
    ensures
        ({
            let shown = vfs_path_text(path->Ok_0@);
            let located = file is Ok && path is Ok;
            let found = vfs_ids(*vfs).contains_key(shown);
            let bytes = vfs_contents(*vfs)[vfs_ids(*vfs)[shown]];
            &&& file is Err ==> call == Err::<FormatCall, HandlerError<E>>(
                HandlerError::Outside(file->Err_0),
            )
            &&& file is Ok && path is Err ==> call == Err::<FormatCall, HandlerError<E>>(
                HandlerError::Outside(path->Err_0),
            )
            &&& located && !found ==> {
                &&& call is Err
                &&& call->Err_0 is Message
                &&& call->Err_0->Message_0@ == "Already checked that the file_id exists!"@
            }
            &&& located && found && !valid_utf8(bytes) ==> call == Err::<
                FormatCall,
                HandlerError<E>,
            >(HandlerError::NotUtf8(utf8_error(bytes)))
            &&& located && found && valid_utf8(bytes) ==> {
                &&& call is Ok
                &&& call->Ok_0.file == file->Ok_0
                &&& encode_utf8(call->Ok_0.source@) == bytes
                &&& call->Ok_0.range is None
            }
        }),
{
}

/// A range is looked for in the whole text of the document, which is found, or not, as
/// it is for a request to format all of it; name and range are the request's own.
pub proof fn law_range_formatting_takes_the_whole_document<E>(
    file: Result<String, E>,
    path: Result<String, E>,
    vfs: &Vfs,
    range: Range,
    request: Result<RangeFormat, HandlerError<E>>,
)
    requires
        call_ensures(handle_range_formatting::<E>, (file, path, vfs, range), request),
    ensures
        ({
            let shown = vfs_path_text(path->Ok_0@);
            let located = file is Ok && path is Ok;
            let found = vfs_ids(*vfs).contains_key(shown);
            let bytes = vfs_contents(*vfs)[vfs_ids(*vfs)[shown]];
            &&& file is Err ==> request == Err::<RangeFormat, HandlerError<E>>(
                HandlerError::Outside(file->Err_0),
            )
            &&& file is Ok && path is Err ==> request == Err::<RangeFormat, HandlerError<E>>(
                HandlerError::Outside(path->Err_0),
            )
            &&& located && !found ==> {
                &&& request is Err
                &&& request->Err_0 is Message
                &&& request->Err_0->Message_0@ == "Already checked that the file_id exists!"@
            }
            &&& located && found && !valid_utf8(bytes) ==> request == Err::<
                RangeFormat,
                HandlerError<E>,
            >(HandlerError::NotUtf8(utf8_error(bytes)))
            &&& located && found && valid_utf8(bytes) ==> {
                &&& request is Ok
                &&& request->Ok_0.file == file->Ok_0
                &&& encode_utf8(request->Ok_0.text@) == bytes
                &&& request->Ok_0.range == range
            }
        }),
{
}

/// What lies between two places between characters of the text, in their order, is
/// formatted, under the request's name and range; nothing more and nothing less. With
/// any other places nothing is formatted, and the answer is nothing.
pub proof fn law_ranges_select_between_characters<R, E>(
    request: RangeFormat,
    start: usize,
    end: usize,
    call: Option<FormatCall>,
    step: FormatStep<R, E>,
)
    requires
        call_ensures(RangeFormat::select, (request, start, end), call),
        call_ensures(RangeFormat::go_on::<R, E>, (request, start, end), step),
    ensures
        ({
            let bytes = encode_utf8(request.text@);
            let selects = start <= end && is_char_boundary(bytes, start as int)
                && is_char_boundary(bytes, end as int);
            &&& selects ==> {
                &&& call is Some
                &&& call->0.file == request.file
                &&& encode_utf8(call->0.source@) == bytes.subrange(start as int, end as int)
                &&& call->0.range == Some(request.range)
                &&& step is Format
                &&& step->Format_0.file == request.file
                &&& encode_utf8(step->Format_0.source@) == bytes.subrange(
                    start as int,
                    end as int,
                )
                &&& step->Format_0.range == Some(request.range)
            }
            &&& !selects ==> {
                &&& call is None
                &&& step == FormatStep::<R, E>::Done(Ok(None))
            }
        }),
{
}

} // verus!
