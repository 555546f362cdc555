use cardi::project::{create_project, increment_row, Craft, Project, Status};
use cardi::{Timestamp, ValidationError};

fn epoch() -> Timestamp {
    Timestamp { seconds: 1_700_000_000, nanoseconds: 250 }
}

#[test]
fn new_project_has_defaults() {
    let p = Project::new("Sweater".to_string(), Craft::Knitting);
    assert_eq!(p.name, "Sweater");
    assert_eq!(p.craft, Craft::Knitting);
    assert_eq!(p.progress, 0);
    assert_eq!(p.status, Status::NotStarted);
    assert_eq!(p.current_row, 1);
    assert_eq!(p.notes, "");
}

#[test]
fn new_project_is_stamped_by_the_clock() {
    let p = Project::new("Shawl".to_string(), Craft::Crochet);
    // Any clock this runs on reads later than 2020-01-01.
    assert!(p.started.seconds > 1_577_836_800);
    assert!(p.started.nanoseconds < 2_000_000_000);
}

#[test]
fn started_at_keeps_the_given_instant() {
    let p = Project::started_at("Hat".to_string(), Craft::Both, epoch());
    let expected = Project {
        name: "Hat".to_string(),
        craft: Craft::Both,
        current_row: 1,
        notes: String::new(),
        progress: 0,
        status: Status::NotStarted,
        started: epoch(),
    };
    assert_eq!(p, expected);
}

#[test]
fn defaults_hold_for_every_craft() {
    for craft in [Craft::Crochet, Craft::Knitting, Craft::Both] {
        let p = Project::started_at("x".to_string(), craft, epoch());
        assert_eq!(p.craft, craft);
        assert_eq!(p.current_row, 1);
        assert_eq!(p.progress, 0);
        assert_eq!(p.status, Status::NotStarted);
        assert_eq!(p.notes, "");
    }
}

#[test]
fn create_project_reads_the_craft() {
    let p = create_project("Sweater", "KNITTING").unwrap();
    assert_eq!(p.name, "Sweater");
    assert_eq!(p.craft, Craft::Knitting);
    assert_eq!(p.current_row, 1);
    assert_eq!(p.progress, 0);
    assert_eq!(p.status, Status::NotStarted);
    assert_eq!(p.notes, "");
}

#[test]
fn create_project_rejects_unknown_craft() {
    assert_eq!(create_project("Sweater", "weaving"), Err(ValidationError::UnknownCraft));
    assert_eq!(create_project("Sweater", ""), Err(ValidationError::UnknownCraft));
}

#[test]
fn increment_row_adds_one() {
    let mut p = Project::started_at("Sweater".to_string(), Craft::Knitting, epoch());
    let before = p.clone();
    assert_eq!(increment_row(&mut p), Ok(()));
    assert_eq!(p.current_row, 2);
    let expected = Project { current_row: 2, ..before };
    assert_eq!(p, expected);
}

#[test]
fn increment_row_three_times_reaches_row_four() {
    let mut p = Project::new("Sweater".to_string(), Craft::Knitting);
    assert_eq!(increment_row(&mut p), Ok(()));
    assert_eq!(increment_row(&mut p), Ok(()));
    assert_eq!(increment_row(&mut p), Ok(()));
    assert_eq!(p.current_row, 4);
}

#[test]
fn increment_row_reaches_the_largest_row() {
    let mut p = Project::started_at("Blanket".to_string(), Craft::Crochet, epoch());
    p.current_row = i32::MAX - 1;
    assert_eq!(increment_row(&mut p), Ok(()));
    assert_eq!(p.current_row, i32::MAX);
}

#[test]
fn increment_row_fails_at_the_largest_row() {
    let mut p = Project::started_at("Blanket".to_string(), Craft::Crochet, epoch());
    p.current_row = i32::MAX;
    p.notes = "endless".to_string();
    let before = p.clone();
    assert_eq!(increment_row(&mut p), Err(ValidationError::RowLimitReached));
    assert_eq!(p, before);
}

#[test]
fn increment_row_works_from_a_negative_row() {
    let mut p = Project::started_at("Sock".to_string(), Craft::Knitting, epoch());
    p.current_row = -3;
    assert_eq!(increment_row(&mut p), Ok(()));
    assert_eq!(p.current_row, -2);
    p.current_row = i32::MIN;
    assert_eq!(increment_row(&mut p), Ok(()));
    assert_eq!(p.current_row, i32::MIN + 1);
}

#[test]
fn error_messages_are_exact() {
    assert_eq!(ValidationError::UnknownCraft.message(), "craft can be crochet, knitting or both");
    assert_eq!(
        ValidationError::UnknownStatus.message(),
        "status can be not-started, in-progress or finished"
    );
    assert_eq!(
        ValidationError::InvalidProgressRange.message(),
        "progress can be between 0 and 100"
    );
    assert_eq!(
        ValidationError::RowLimitReached.message(),
        "current row cannot be incremented any further"
    );
}
