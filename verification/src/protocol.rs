//! The parts of the language server protocol that the decisions read.

use vstd::prelude::*;

verus! {

/// A position in a document: a line and a character in it, both from zero.
#[derive(Clone, Copy, Debug, PartialEq, Eq, Structural)]
pub struct Position {
    pub line: u32,
    pub character: u32,
}

/// A range in a document.
#[derive(Clone, Copy, Debug, PartialEq, Eq, Structural)]
pub struct Range {
    pub start: Position,
    pub end: Position,
}

/// A range in the document that `uri` names.
#[derive(Debug, PartialEq, Eq)]
pub struct Location {
    pub uri: String,
    pub range: Range,
}

/// The replacement of a range by a text.
#[derive(Debug, PartialEq, Eq)]
pub struct TextEdit {
    pub range: Range,
    pub new_text: String,
}

/// What the editor says of the circumstances of a completion or of a signature
/// help: the text that was typed, if typing brought it about.
#[derive(Debug, PartialEq, Eq)]
pub struct TriggerContext {
    pub trigger_character: Option<String>,
}

/// The text that brought the request about.
pub open spec fn trigger_text(context: Option<TriggerContext>) -> Option<String> {
    match context {
        Some(context) => context.trigger_character,
        None => None,
    }
}

/// The character that brought the request about: the first of the trigger text.
pub open spec fn trigger_char(context: Option<TriggerContext>) -> Option<char> {
    match trigger_text(context) {
        Some(text) => if text@.len() > 0 {
            Some(text@[0])
        } else {
            None
        },
        None => None,
    }
}

/// The first character of a text.
fn first_char(text: &String) -> (first: Option<char>)
    ensures
        first == (if text@.len() > 0 { Some(text@[0]) } else { None }),
{
    let text = text.as_str();
    if text.is_empty() {
        None
    } else {
        Some(text.get_char(0))
    }
}

impl TriggerContext {
    /// The text that brought the request about.
    pub fn text(context: Option<TriggerContext>) -> (text: Option<String>)
        ensures
            text == trigger_text(context),
    {
        match context {
            Some(context) => context.trigger_character,
            None => None,
        }
    }

    /// The character that brought the request about.
    pub fn character(context: &Option<TriggerContext>) -> (character: Option<char>)
        ensures
            character == trigger_char(*context),
    {
        match context {
            Some(context) => match &context.trigger_character {
                Some(text) => first_char(text),
                None => None,
            },
            None => None,
        }
    }
}

} // verus!
