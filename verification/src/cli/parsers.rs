//! Reading identifiers from the command line.
//!
//! An identifier is read from its text by the UUID parser. What a command
//! does with what was read stands in functions that take it as an argument:
//! `Some` with the identifier, or `None` where the text holds none.

use crate::error::TensileError;
use crate::models::ident::{parsed_uuid, uuid_error_text, uuid_from_text};
use crate::models::Database;
use crate::text::labelled;
use vstd::prelude::*;

verus! {

/// `outcome` is the parse error with the text `message`.
pub open spec fn is_parse_error<T>(outcome: Result<T, TensileError>, message: Seq<char>) -> bool {
    outcome matches Err(TensileError::Parse(m)) && m@ == message
}

/// Reads an identifier from its text. A text that holds none is a parse
/// error, told in the parser's own words.
pub fn parse_uuid(s: &str) -> (outcome: Result<u128, TensileError>)
    ensures
        outcome is Ok <==> parsed_uuid(s@) is Some,
        outcome matches Ok(id) ==> parsed_uuid(s@) == Some(id),
        outcome matches Err(e) ==> e is Parse,
{
    match uuid_from_text(s) {
        Ok(id) => Ok(id),
        Err(error) => Err(TensileError::Parse(uuid_error_text(&error))),
    }
}

/// Reads an identifier from its text, where the text holds one.
pub fn read_id(text: &str) -> (parsed: Option<u128>)
    ensures
        parsed == parsed_uuid(text@),
{
    uuid_from_text(text).ok()
}

/// What was read from `text` as a result: the identifier, or a parse error
/// that says `complaint` and then the text.
pub open spec fn reads_id(
    parsed: Option<u128>,
    text: Seq<char>,
    complaint: Seq<char>,
    outcome: Result<u128, TensileError>,
) -> bool {
    match parsed {
        Some(id) => outcome == Ok::<u128, TensileError>(id),
        None => is_parse_error(outcome, complaint + text),
    }
}

/// Turns what was read from `text` into a result.
pub fn id_or_complaint(parsed: Option<u128>, text: &str, complaint: &str) -> (outcome: Result<
    u128,
    TensileError,
>)
    ensures
        reads_id(parsed, text@, complaint@, outcome),
{
    match parsed {
        Some(id) => Ok(id),
        None => Err(TensileError::Parse(labelled(complaint, text))),
    }
}

/// The complaint about `text`, where no identifier was read from it: what
/// `complaint` says, and then the text.
pub open spec fn id_complaint(parsed: Option<u128>, text: Seq<char>, complaint: Seq<char>) -> Option<Seq<char>> {
    if parsed is None {
        Some(complaint + text)
    } else {
        None
    }
}

/// `error` is the parse error with the text `message`, where there is a
/// message, and no error where there is none.
pub open spec fn is_complaint(error: Option<TensileError>, message: Option<Seq<char>>) -> bool {
    match message {
        Some(m) => error matches Some(TensileError::Parse(t)) && t@ == m,
        None => error is None,
    }
}

/// The parse error about `text`, where no identifier was read from it.
pub fn complaint_about(parsed: Option<u128>, text: &str, complaint: &str) -> (error: Option<
    TensileError,
>)
    ensures
        is_complaint(error, id_complaint(parsed, text@, complaint@)),
{
    match parsed {
        Some(_) => None,
        None => Some(TensileError::Parse(labelled(complaint, text))),
    }
}

/// Reads the identifier of a vision from `text`.
pub fn parse_vision_id(text: &str, complaint: &str) -> (outcome: Result<u128, TensileError>)
    ensures
        reads_id(parsed_uuid(text@), text@, complaint@, outcome),
{
    id_or_complaint(read_id(text), text, complaint)
}

/// The identifier of the vision that was named: the one that was read, where
/// one was read and the snapshot holds a vision with it.
pub open spec fn lookup(db: &Database, parsed: Option<u128>) -> Option<u128> {
    match parsed {
        Some(id) => if db.has_vision(id) {
            Some(id)
        } else {
            None
        },
        None => None,
    }
}

/// `error` tells why `text` names no vision: a parse error where no
/// identifier was read from it, a not-found error where the snapshot holds
/// no vision with the identifier.
pub open spec fn is_lookup_error(
    db: &Database,
    parsed: Option<u128>,
    text: Seq<char>,
    error: TensileError,
) -> bool {
    match parsed {
        None => error matches TensileError::Parse(m) && m@ == "Invalid UUID: "@ + text,
        Some(id) => !db.has_vision(id) && (error matches TensileError::NotFound(m) && m@
            == "Vision not found: "@ + text),
    }
}

/// What looking up a vision comes to: its identifier and the place of the
/// first vision that has it, or the error that tells why there is none.
pub open spec fn locates(
    db: &Database,
    parsed: Option<u128>,
    text: Seq<char>,
    outcome: Result<(u128, usize), TensileError>,
) -> bool {
    match outcome {
        Ok((id, place)) => lookup(db, parsed) == Some(id) && place == db.place_of(id)
            && db.is_first_with_id(id, place as int),
        Err(error) => lookup(db, parsed) is None && is_lookup_error(db, parsed, text, error),
    }
}

/// Looks up the vision whose identifier was read from `text`.
pub fn locate_parsed(db: &Database, parsed: Option<u128>, text: &str) -> (outcome: Result<
    (u128, usize),
    TensileError,
>)
    ensures
        locates(db, parsed, text@, outcome),
{
    let id = match id_or_complaint(parsed, text, "Invalid UUID: ") {
        Ok(id) => id,
        Err(error) => {
            return Err(error);
        },
    };
    match db.find_vision(id) {
        Some(place) => Ok((id, place)),
        None => Err(TensileError::NotFound(labelled("Vision not found: ", text))),
    }
}

/// Looks up the vision that `text` names.
pub fn locate_vision(db: &Database, text: &str) -> (outcome: Result<(u128, usize), TensileError>)
    ensures
        locates(db, parsed_uuid(text@), text@, outcome),
{
    locate_parsed(db, read_id(text), text)
}

/// What is read of the filter of a listing: the identifier that its text
/// holds, and nothing where there is no text or the text holds none.
pub open spec fn parsed_filter(text: Option<String>) -> Option<u128> {
    match text {
        None => None,
        Some(t) => parsed_uuid(t@),
    }
}

/// Whether the filter of a listing could be read: none is given, or an
/// identifier was read from the text given.
pub open spec fn is_readable_filter(text: Option<String>, parsed: Option<u128>) -> bool {
    text is Some ==> parsed is Some
}

/// The vision to which a listing is narrowed, if any.
pub open spec fn filter_of(text: Option<String>, parsed: Option<u128>) -> Option<u128> {
    if text is Some {
        parsed
    } else {
        None
    }
}

/// `error` tells that the filter cannot be read.
pub open spec fn is_filter_error(text: Option<String>, error: TensileError) -> bool {
    text matches Some(t) && (error matches TensileError::Parse(m) && m@ == "Invalid UUID: "@ + t@)
}

/// What reading the filter comes to: the vision to which the listing is
/// narrowed, if any, or a parse error where the text given holds no
/// identifier.
pub open spec fn reads_filter(
    text: Option<String>,
    parsed: Option<u128>,
    outcome: Result<Option<u128>, TensileError>,
) -> bool {
    match outcome {
        Ok(only) => is_readable_filter(text, parsed) && only == filter_of(text, parsed),
        Err(error) => !is_readable_filter(text, parsed) && is_filter_error(text, error),
    }
}

/// Reads the identifier that the text of a filter holds, if there is a text
/// and it holds one.
pub fn read_filter(text: &Option<String>) -> (parsed: Option<u128>)
    ensures
        parsed == parsed_filter(*text),
{
    match text {
        None => None,
        Some(t) => read_id(t.as_str()),
    }
}

/// Turns what was read of a filter into a result.
pub fn filter_or_complaint(text: &Option<String>, parsed: Option<u128>) -> (outcome: Result<
    Option<u128>,
    TensileError,
>)
    ensures
        reads_filter(*text, parsed, outcome),
{
    match text {
        None => Ok(None),
        Some(t) => match id_or_complaint(parsed, t.as_str(), "Invalid UUID: ") {
            Ok(id) => Ok(Some(id)),
            Err(error) => Err(error),
        },
    }
}

/// Reads the vision to which a listing is narrowed, if any.
pub fn parse_filter(text: &Option<String>) -> (outcome: Result<Option<u128>, TensileError>)
    ensures
        reads_filter(*text, parsed_filter(*text), outcome),
{
    filter_or_complaint(text, read_filter(text))
}

} // verus!
