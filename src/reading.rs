//! How a reply body becomes an outcome. Each reader takes the text or the
//! document that the server sent and is exact over what serde_json makes of
//! it.

use vstd::prelude::*;
use crate::json::{json_document, json_member, json_str, member, parse_document, string_text};
use crate::protocol::{
    no_state, no_state_message, not_json, not_json_message, opt_view, same_text, Answer,
    Outcome, OutcomeView,
};

verus! {

/// The blocking state that the string member `key` of `doc` names:
/// `"enabled"` is `true`, `"disabled"` is `false`, anything else none.
pub open spec fn blocking_in(doc: serde_json::Value, key: Seq<char>) -> Option<bool> {
    match json_member(doc, key) {
        Some(f) => match json_str(f) {
            Some(t) => if t == "enabled"@ {
                Some(true)
            } else if t == "disabled"@ {
                Some(false)
            } else {
                None
            },
            None => None,
        },
        None => None,
    }
}

pub fn blocking_of(doc: &serde_json::Value, key: &str) -> (r: Option<bool>)
    ensures
        r == blocking_in(*doc, key@),
{
    match member(doc, key) {
        Some(f) => match string_text(&f) {
            Some(t) => {
                if same_text(t.as_str(), "enabled") {
                    Some(true)
                } else if same_text(t.as_str(), "disabled") {
                    Some(false)
                } else {
                    None
                }
            },
            None => None,
        },
        None => None,
    }
}

/// The outcome of a reply that reports a blocking state under `key`.
pub open spec fn state_outcome(body: Seq<char>, key: Seq<char>) -> OutcomeView {
    match json_document(body) {
        None => OutcomeView::ProtocolError(not_json_message()),
        Some(d) => match blocking_in(d, key) {
            Some(b) => OutcomeView::Success(Answer::Blocking(b)),
            None => OutcomeView::ProtocolError(no_state_message()),
        },
    }
}

pub fn read_state(body: &str, key: &str) -> (r: Outcome)
    ensures
        r@ == state_outcome(body@, key@),
{
    match parse_document(body) {
        None => not_json(),
        Some(d) => match blocking_of(&d, key) {
            Some(b) => Outcome::Success(Answer::Blocking(b)),
            None => no_state(),
        },
    }
}

/// The outcome of a reply whose member `key` reports the state: that member,
/// as it stands.
pub open spec fn member_outcome(body: Seq<char>, key: Seq<char>) -> OutcomeView {
    match json_document(body) {
        None => OutcomeView::ProtocolError(not_json_message()),
        Some(d) => match json_member(d, key) {
            Some(v) => OutcomeView::Success(Answer::State(v)),
            None => OutcomeView::ProtocolError(no_state_message()),
        },
    }
}

pub fn read_member(body: &str, key: &str) -> (r: Outcome)
    ensures
        r@ == member_outcome(body@, key@),
{
    match parse_document(body) {
        None => not_json(),
        Some(d) => match member(&d, key) {
            Some(v) => Outcome::Success(Answer::State(v)),
            None => no_state(),
        },
    }
}

/// The outcome of a reply that is handed on as a document.
pub open spec fn document_outcome(body: Seq<char>) -> OutcomeView {
    match json_document(body) {
        None => OutcomeView::ProtocolError(not_json_message()),
        Some(d) => OutcomeView::Success(Answer::Document(d)),
    }
}

pub fn read_document(body: &str) -> (r: Outcome)
    ensures
        r@ == document_outcome(body@),
{
    match parse_document(body) {
        None => not_json(),
        Some(d) => Outcome::Success(Answer::Document(d)),
    }
}

/// The session token of a login reply: the string member `sid` of its
/// member `session`.
pub open spec fn session_token(doc: serde_json::Value) -> Option<Seq<char>> {
    match json_member(doc, "session"@) {
        Some(s) => match json_member(s, "sid"@) {
            Some(t) => json_str(t),
            None => None,
        },
        None => None,
    }
}

pub fn token_of(doc: &serde_json::Value) -> (r: Option<String>)
    ensures
        opt_view(r) == session_token(*doc),
{
    match member(doc, "session") {
        Some(s) => match member(&s, "sid") {
            Some(t) => string_text(&t),
            None => None,
        },
        None => None,
    }
}

} // verus!
