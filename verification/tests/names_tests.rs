use cardi::names::{
    craft_from_lowercase, craft_from_string, status_from_lowercase, status_from_string,
};
use cardi::project::{Craft, Status};
use cardi::ValidationError;

#[test]
fn craft_words_are_read_in_any_case() {
    assert_eq!(craft_from_string("CROCHET"), Ok(Craft::Crochet));
    assert_eq!(craft_from_string("crochet"), Ok(Craft::Crochet));
    assert_eq!(craft_from_string("Crochet"), Ok(Craft::Crochet));
    assert_eq!(craft_from_string("cRoChEt"), Ok(Craft::Crochet));
}

#[test]
fn every_craft_has_its_word() {
    assert_eq!(craft_from_string("crochet"), Ok(Craft::Crochet));
    assert_eq!(craft_from_string("knitting"), Ok(Craft::Knitting));
    assert_eq!(craft_from_string("Knitting"), Ok(Craft::Knitting));
    assert_eq!(craft_from_string("both"), Ok(Craft::Both));
    assert_eq!(craft_from_string("BOTH"), Ok(Craft::Both));
}

#[test]
fn other_craft_words_are_rejected() {
    for word in ["", "weaving", "crochet ", " crochet", "knit", "crochets", "both!", "finished"] {
        assert_eq!(craft_from_string(word), Err(ValidationError::UnknownCraft));
    }
}

#[test]
fn craft_words_are_lowered_beyond_ascii() {
    // U+212A KELVIN SIGN has the lower-case form `k`.
    assert_eq!(craft_from_string("\u{212A}nitting"), Ok(Craft::Knitting));
    assert_eq!(craft_from_lowercase("\u{212A}nitting"), Err(ValidationError::UnknownCraft));
}

#[test]
fn craft_lookup_of_lowercase_words_is_exact() {
    assert_eq!(craft_from_lowercase("crochet"), Ok(Craft::Crochet));
    assert_eq!(craft_from_lowercase("knitting"), Ok(Craft::Knitting));
    assert_eq!(craft_from_lowercase("both"), Ok(Craft::Both));
    assert_eq!(craft_from_lowercase("Crochet"), Err(ValidationError::UnknownCraft));
    assert_eq!(craft_from_lowercase("BOTH"), Err(ValidationError::UnknownCraft));
    assert_eq!(craft_from_lowercase(""), Err(ValidationError::UnknownCraft));
}

#[test]
fn status_words_are_read_in_any_case() {
    assert_eq!(status_from_string("NOT-STARTED"), Ok(Status::NotStarted));
    assert_eq!(status_from_string("not-started"), Ok(Status::NotStarted));
    assert_eq!(status_from_string("Not-Started"), Ok(Status::NotStarted));
    assert_eq!(status_from_string("In-Progress"), Ok(Status::InProgress));
    assert_eq!(status_from_string("in-progress"), Ok(Status::InProgress));
    assert_eq!(status_from_string("FINISHED"), Ok(Status::Finished));
    assert_eq!(status_from_string("finished"), Ok(Status::Finished));
}

#[test]
fn other_status_words_are_rejected() {
    for word in ["", "done", "notstarted", "not started", "in_progress", "finished.", "both"] {
        assert_eq!(status_from_string(word), Err(ValidationError::UnknownStatus));
    }
}

#[test]
fn status_lookup_of_lowercase_words_is_exact() {
    assert_eq!(status_from_lowercase("not-started"), Ok(Status::NotStarted));
    assert_eq!(status_from_lowercase("in-progress"), Ok(Status::InProgress));
    assert_eq!(status_from_lowercase("finished"), Ok(Status::Finished));
    assert_eq!(status_from_lowercase("Finished"), Err(ValidationError::UnknownStatus));
    assert_eq!(status_from_lowercase("IN-PROGRESS"), Err(ValidationError::UnknownStatus));
}
