//! The texts that are logged or answered.

use crate::snapshot::PathStatus;
use vstd::prelude::*;

verus! {

/// The log message about a path that the server's tables do not have.
pub open spec fn status_message(status: PathStatus, path: Seq<char>) -> Option<Seq<char>> {
    match status {
        PathStatus::Known => None,
        PathStatus::NotInVfs => Some("Vfs not contains: "@ + path + ", request failed"@),
        PathStatus::NotInDb => Some(
            "LSP AnalysisDatabase not contains: "@ + path + ", request failed"@,
        ),
    }
}

/// The text of an optional message.
pub open spec fn text_of(message: Option<String>) -> Option<Seq<char>> {
    match message {
        Some(message) => Some(message@),
        None => None,
    }
}

/// The three texts, one after the other.
pub(crate) fn join(before: &str, middle: &str, after: &str) -> (text: String)
    ensures
        text@ == before@ + middle@ + after@,
{
    let mut text = before.to_owned();
    text.append(middle);
    text.append(after);
    text
}

impl PathStatus {
    /// The log message about a path with this status; none if the path is known.
    pub fn message(self, path: &String) -> (message: Option<String>)
        ensures
            text_of(message) == status_message(self, path@),
    {
        match self {
            PathStatus::Known => None,
            PathStatus::NotInVfs => Some(
                join("Vfs not contains: ", path.as_str(), ", request failed"),
            ),
            PathStatus::NotInDb => Some(
                join("LSP AnalysisDatabase not contains: ", path.as_str(), ", request failed"),
            ),
        }
    }
}

} // verus!
