//! Recognising the words a user types as crafts and statuses.
//!
//! A word is first brought to lower case and then looked up in a closed
//! list; a word that is not in the list is an error, never a default.

use vstd::prelude::*;
use crate::error::ValidationError;
use crate::project::{Craft, Status};

verus! {

/// The lower-case form of a text, as `str::to_lowercase` computes it.
pub uninterp spec fn lowercase_of(text: Seq<char>) -> Seq<char>;

/// Calls `str::to_lowercase`. Its result follows the Unicode case mapping,
/// which is not written out here: the contract only gives it a name.
#[verifier::external_body]
pub(crate) fn lowercased(text: &str) -> (lower: String)
    ensures
        lower@ == lowercase_of(text@),
{
    text.to_lowercase()
}

/// The craft that a lower-case word stands for, if any.
pub open spec fn craft_named(word: Seq<char>) -> Option<Craft> {
    if word == "crochet"@ {
        Some(Craft::Crochet)
    } else if word == "knitting"@ {
        Some(Craft::Knitting)
    } else if word == "both"@ {
        Some(Craft::Both)
    } else {
        None
    }
}

/// The status that a lower-case word stands for, if any.
pub open spec fn status_named(word: Seq<char>) -> Option<Status> {
    if word == "not-started"@ {
        Some(Status::NotStarted)
    } else if word == "in-progress"@ {
        Some(Status::InProgress)
    } else if word == "finished"@ {
        Some(Status::Finished)
    } else {
        None
    }
}

/// What looking up a craft word yields, given its lower-case form.
pub open spec fn craft_lookup(word: Seq<char>) -> Result<Craft, ValidationError> {
    match craft_named(word) {
        Some(craft) => Ok(craft),
        None => Err(ValidationError::UnknownCraft),
    }
}

/// What looking up a status word yields, given its lower-case form.
pub open spec fn status_lookup(word: Seq<char>) -> Result<Status, ValidationError> {
    match status_named(word) {
        Some(status) => Ok(status),
        None => Err(ValidationError::UnknownStatus),
    }
}

/// Looks up a word that is already in lower case among the crafts.
pub fn craft_from_lowercase(word: &str) -> (found: Result<Craft, ValidationError>)
    ensures
        found == craft_lookup(word@),
{
    let word = word.to_owned();
    if word == "crochet".to_owned() {
        Ok(Craft::Crochet)
    } else if word == "knitting".to_owned() {
        Ok(Craft::Knitting)
    } else if word == "both".to_owned() {
        Ok(Craft::Both)
    } else {
        Err(ValidationError::UnknownCraft)
    }
}

/// Looks up a word that is already in lower case among the statuses.
pub fn status_from_lowercase(word: &str) -> (found: Result<Status, ValidationError>)
    ensures
        found == status_lookup(word@),
{
    let word = word.to_owned();
    if word == "not-started".to_owned() {
        Ok(Status::NotStarted)
    } else if word == "in-progress".to_owned() {
        Ok(Status::InProgress)
    } else if word == "finished".to_owned() {
        Ok(Status::Finished)
    } else {
        Err(ValidationError::UnknownStatus)
    }
}

/// Reads a craft as the user typed it, in any mix of upper and lower
/// case. Succeeds exactly when the lower-case form is `crochet`,
/// `knitting` or `both`.
pub fn craft_from_string(craft: &str) -> (found: Result<Craft, ValidationError>)
    ensures
        found == craft_lookup(lowercase_of(craft@)),
{
    let lower = lowercased(craft);
    craft_from_lowercase(lower.as_str())
}

/// Reads a status as the user typed it, in any mix of upper and lower
/// case. Succeeds exactly when the lower-case form is `not-started`,
/// `in-progress` or `finished`.
pub fn status_from_string(status: &str) -> (found: Result<Status, ValidationError>)
    ensures
        found == status_lookup(lowercase_of(status@)),
{
    let lower = lowercased(status);
    status_from_lowercase(lower.as_str())
}

} // verus!
