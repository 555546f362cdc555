//! The project record: what it holds, how one is made, and how its row
//! counter advances.

use vstd::prelude::*;
use crate::clock::{current_instant, Timestamp};
use crate::error::ValidationError;
use crate::names::{craft_from_string, craft_lookup, lowercase_of};

verus! {

/// The discipline a project is worked in.
#[derive(Debug, Clone, Copy, PartialEq, Eq, Structural)]
pub enum Craft {
    Crochet,
    Knitting,
    Both,
}

/// The stage of its life a project is in.
#[derive(Debug, Clone, Copy, PartialEq, Eq, Structural)]
pub enum Status {
    NotStarted,
    InProgress,
    Finished,
}

/// One craft project.
#[derive(Debug, Clone, PartialEq, Eq)]
pub struct Project {
    /// Identifies the project; also the key under which it is stored.
    pub name: String,
    pub craft: Craft,
    /// The row or round being worked.
    pub current_row: i32,
    pub notes: String,
    /// Percentage done, from 0 to 100.
    pub progress: i32,
    pub status: Status,
    /// When the project was created; never changed afterwards.
    pub started: Timestamp,
}

/// A project as a mathematical value.
pub struct ProjectView {
    pub name: Seq<char>,
    pub craft: Craft,
    pub current_row: int,
    pub notes: Seq<char>,
    pub progress: int,
    pub status: Status,
    pub started: Timestamp,
}

impl ProjectView {
    /// The record invariant: a name that is not empty and a progress that
    /// is a percentage.
    pub open spec fn valid(self) -> bool {
        &&& self.name.len() > 0
        &&& 0 <= self.progress <= 100
    }

    /// The project that construction yields: row one, nothing done, not
    /// started, no notes.
    pub open spec fn fresh(name: Seq<char>, craft: Craft, started: Timestamp) -> ProjectView {
        ProjectView {
            name,
            craft,
            current_row: 1,
            notes: Seq::empty(),
            progress: 0,
            status: Status::NotStarted,
            started,
        }
    }

    /// This project one row further on, all else as it was.
    pub open spec fn with_next_row(self) -> ProjectView {
        ProjectView { current_row: self.current_row + 1, ..self }
    }
}

impl View for Project {
    type V = ProjectView;

    open spec fn view(&self) -> ProjectView {
        ProjectView {
            name: self.name@,
            craft: self.craft,
            current_row: self.current_row as int,
            notes: self.notes@,
            progress: self.progress as int,
            status: self.status,
            started: self.started,
        }
    }
}

impl Project {
    /// Whether this record satisfies the record invariant.
    pub open spec fn valid(&self) -> bool {
        self@.valid()
    }

    /// A new project that records `started` as its time of creation.
    pub fn started_at(name: String, craft: Craft, started: Timestamp) -> (project: Project)
        ensures
            project@ == ProjectView::fresh(name@, craft, started),
            name@.len() > 0 ==> project.valid(),
    {
        Project {
            name,
            craft,
            current_row: 1,
            notes: String::new(),
            progress: 0,
            status: Status::NotStarted,
            started,
        }
    }

    /// A new project, created now. Every field but `started` is fixed by
    /// the arguments; `started` is whatever the clock read.
    pub fn new(name: String, craft: Craft) -> (project: Project)
        ensures
            project@ == ProjectView::fresh(name@, craft, project.started),
            name@.len() > 0 ==> project.valid(),
    {
        Project::started_at(name, craft, current_instant())
    }
}

/// Creates a project from a name and a craft as the user typed them.
///
/// Fails with `UnknownCraft`, and creates nothing, exactly when the craft
/// is not recognised.
pub fn create_project(name: &str, craft: &str) -> (made: Result<Project, ValidationError>)
    ensures
        made is Ok <==> craft_lookup(lowercase_of(craft@)) is Ok,
        made matches Ok(project) ==> {
            &&& project@ == ProjectView::fresh(
                name@,
                craft_lookup(lowercase_of(craft@))->Ok_0,
                project.started,
            )
            &&& name@.len() > 0 ==> project.valid()
        },
        made matches Err(e) ==> e == ValidationError::UnknownCraft,
{
    match craft_from_string(craft) {
        Ok(craft) => Ok(Project::new(name.to_owned(), craft)),
        Err(e) => Err(e),
    }
}

/// Advances the row counter by one and leaves every other field alone.
///
/// The counter does not wrap: at `i32::MAX` the call fails with
/// `RowLimitReached` and the project is left exactly as it was.
pub fn increment_row(project: &mut Project) -> (done: Result<(), ValidationError>)
    ensures
        done is Ok <==> old(project).current_row < i32::MAX,
        done is Ok ==> final(project)@ == old(project)@.with_next_row(),
        done is Ok && old(project).valid() ==> final(project).valid(),
        done is Err ==> done == Err::<(), ValidationError>(ValidationError::RowLimitReached)
            && *final(project) == *old(project),
{
    if project.current_row == i32::MAX {
        return Err(ValidationError::RowLimitReached);
    }
    project.current_row = project.current_row + 1;
    Ok(())
}

} // verus!
