//! The errors that handlers answer with.

use std::string::FromUtf8Error;
use vstd::prelude::*;

verus! {

/// What can be wrong with the server's own tables. Paths are given as the file
/// system shows them.
#[derive(Debug, PartialEq, Eq)]
pub enum LspError {
    /// The request has to be tried again later.
    Retry,
    /// The file system has no such file.
    FileIdNotFound(String),
    /// The file was never compiled, or its compilation failed.
    AnalysisDatabaseNotFound(String),
    /// The file is not open in the editor.
    DocumentVersionNotFound(String),
}

/// Why a handler failed. `E` is the error of the calls that the caller makes
/// for the handler; such an error is passed on as it is.
#[derive(Debug, PartialEq, Eq)]
pub enum HandlerError<E> {
    /// A fault in the server's tables, or the wish to be called again.
    Lsp(LspError),
    /// An error of one of the caller's own calls.
    Outside(E),
    /// The document is not UTF-8.
    NotUtf8(FromUtf8Error),
    /// Anything that is only explained to the user.
    Message(String),
}

} // verus!
