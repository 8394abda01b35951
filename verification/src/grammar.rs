//! The three command grammars: `Expert - Question`, `action [params]` and
//! `title -- description`.

use crate::text::{chars_of, find_in, lowercase, same, slice, split_once, trim_bounds, trimmed};
use vstd::prelude::*;
use vstd::string::*;

verus! {

/// What an `ask` message asks for.
#[derive(Debug, PartialEq, Eq)]
pub enum Ask {
    /// The message has no dash, or asks an expert nothing.
    Malformed,
    /// The message names nobody the gateway knows; `named` is the name as written.
    UnknownExpert { named: String },
    /// A question for a known expert, whose name is in lowercase.
    Question { expert: String, question: String },
}

/// [`Ask`] as contracts see it: texts and lists as sequences.
pub enum AskView {
    Malformed,
    UnknownExpert { named: Seq<char> },
    Question { expert: Seq<char>, question: Seq<char> },
}

impl View for Ask {
    type V = AskView;

    open spec fn view(&self) -> AskView {
        match self {
            Ask::Malformed => AskView::Malformed,
            Ask::UnknownExpert { named } => AskView::UnknownExpert { named: named@ },
            Ask::Question { expert, question } => AskView::Question {
                expert: expert@,
                question: question@,
            },
        }
    }
}

/// The experts that can be asked, by their lowercase names.
pub open spec fn is_expert(lowered: Seq<char>) -> bool {
    lowered == "benny"@ || lowered == "felix"@ || lowered == "dean"@
}

/// The reading of an `ask` message whose two sides have been trimmed, given
/// the lowercase form of the name: a name that is no expert's is unknown,
/// whatever is asked; an expert must be asked something.
pub open spec fn ask_classified(named: Seq<char>, lowered: Seq<char>, question: Seq<char>) -> AskView {
    if !is_expert(lowered) {
        AskView::UnknownExpert { named }
    } else if question.len() == 0 {
        AskView::Malformed
    } else {
        AskView::Question { expert: lowered, question }
    }
}

/// The reading of an `ask` message: the text is cut at its first dash and
/// both sides are trimmed; the name, whatever its case, must be an expert's,
/// and the question may not be blank.
pub open spec fn ask_of(message: Seq<char>) -> AskView {
    match split_once(message, "-"@) {
        None => AskView::Malformed,
        Some((head, tail)) => ask_classified(trimmed(head), lowercase(trimmed(head)), trimmed(tail)),
    }
}

/// The name that an `ask` message gives before its first dash, trimmed;
/// nothing where there is no dash.
pub open spec fn named_in(message: Seq<char>) -> Seq<char> {
    match split_once(message, "-"@) {
        Some((head, tail)) => trimmed(head),
        None => Seq::empty(),
    }
}

/// Whether `message` has a dash.
pub open spec fn ask_has_dash(message: Seq<char>) -> bool {
    split_once(message, "-"@) is Some
}

/// Whether `message` asks something: it has a dash, and what follows the
/// first is not blank.
pub open spec fn ask_has_question(message: Seq<char>) -> bool {
    match split_once(message, "-"@) {
        None => false,
        Some((head, tail)) => trimmed(tail).len() > 0,
    }
}

/// Whether `lowered` is the lowercase name of an expert.
pub fn known_expert(lowered: &str) -> (r: bool)
    ensures
        r == is_expert(lowered@),
{
    same(lowered, "benny") || same(lowered, "felix") || same(lowered, "dean")
}

/// Reads the trimmed sides of an `ask` message, `lowered` being the name in
/// lowercase.
pub fn classify_ask(named: String, lowered: String, question: String) -> (r: Ask)
    ensures
        r@ == ask_classified(named@, lowered@, question@),
{
    if !known_expert(lowered.as_str()) {
        Ask::UnknownExpert { named }
    } else if question.as_str().unicode_len() == 0 {
        Ask::Malformed
    } else {
        Ask::Question { expert: lowered, question }
    }
}

/// Reads an `ask` message.
pub fn parse_ask(message: &str) -> (r: Ask)
    ensures
        r@ == ask_of(message@),
{
    let chars = chars_of(message);
    let dash = chars_of("-");
    match find_in(&chars, &dash, 0) {
        None => Ask::Malformed,
        Some(at) => {
            let (a, b) = trim_bounds(&chars, 0, at);
            let (c, d) = trim_bounds(&chars, at + dash.len(), chars.len());
            let named = slice(message, a, b);
            let question = slice(message, c, d);
            let lowered = named.as_str().to_lowercase();
            classify_ask(named, lowered, question)
        },
    }
}

/// An action word in lowercase and what follows it.
#[derive(Debug, PartialEq, Eq)]
pub struct Action {
    pub name: String,
    pub params: String,
}

/// [`Action`] as contracts see it: texts and lists as sequences.
pub struct ActionView {
    pub name: Seq<char>,
    pub params: Seq<char>,
}

impl View for Action {
    type V = ActionView;

    open spec fn view(&self) -> ActionView {
        ActionView { name: self.name@, params: self.params@ }
    }
}

/// The action word as written, trimmed: the text up to the first space.
pub open spec fn action_word(text: Seq<char>) -> Seq<char> {
    match split_once(text, " "@) {
        None => trimmed(text),
        Some((head, tail)) => trimmed(head),
    }
}

/// What follows the action word, trimmed; empty where nothing follows.
pub open spec fn action_params(text: Seq<char>) -> Seq<char> {
    match split_once(text, " "@) {
        None => Seq::empty(),
        Some((head, tail)) => trimmed(tail),
    }
}

/// The reading of `action [params]`: the action is matched in lowercase.
pub open spec fn action_of(text: Seq<char>) -> ActionView {
    ActionView { name: lowercase(action_word(text)), params: action_params(text) }
}

/// Cuts `text` at its first space into the action word and its parameters,
/// both trimmed.
pub fn split_action(text: &str) -> (r: (String, String))
    ensures
        r.0@ == action_word(text@),
        r.1@ == action_params(text@),
{
    let chars = chars_of(text);
    let space = chars_of(" ");
    match find_in(&chars, &space, 0) {
        None => {
            let (a, b) = trim_bounds(&chars, 0, chars.len());
            assert(chars@.subrange(0, chars@.len() as int) =~= chars@);
            (slice(text, a, b), String::new())
        },
        Some(at) => {
            let (a, b) = trim_bounds(&chars, 0, at);
            let (c, d) = trim_bounds(&chars, at + space.len(), chars.len());
            (slice(text, a, b), slice(text, c, d))
        },
    }
}

/// Reads `action [params]`.
pub fn parse_action(text: &str) -> (r: Action)
    ensures
        r@ == action_of(text@),
{
    let (word, params) = split_action(text);
    Action { name: word.as_str().to_lowercase(), params }
}

/// The reading of `title -- description`: both sides trimmed, or nothing where
/// the separator is missing.
pub open spec fn issue_of(params: Seq<char>) -> Option<(Seq<char>, Seq<char>)> {
    match split_once(params, " -- "@) {
        None => None,
        Some((head, tail)) => Some((trimmed(head), trimmed(tail))),
    }
}

/// Reads `title -- description`.
pub fn parse_issue(params: &str) -> (r: Option<(String, String)>)
    ensures
        r is Some <==> issue_of(params@) is Some,
        r matches Some(pair) ==> issue_of(params@) == Some((pair.0@, pair.1@)),
{
    let chars = chars_of(params);
    let separator = chars_of(" -- ");
    match find_in(&chars, &separator, 0) {
        None => None,
        Some(at) => {
            let (a, b) = trim_bounds(&chars, 0, at);
            let (c, d) = trim_bounds(&chars, at + separator.len(), chars.len());
            Some((slice(params, a, b), slice(params, c, d)))
        },
    }
}

} // verus!
