//! Editing a project: a partial update in which every field is optional.
//!
//! A field that is supplied overwrites the project's; a field that is not
//! is left alone. An edit is validated as a whole before anything is
//! written, so a rejected edit changes nothing.

use vstd::prelude::*;
use crate::error::ValidationError;
use crate::names::{
    craft_from_string, craft_lookup, lowercase_of, status_from_string, status_lookup,
};
use crate::project::{Craft, Project, ProjectView, Status};

verus! {

/// The new values for a project, each present only if the caller supplied
/// it.
#[derive(Debug, Clone, PartialEq, Eq)]
pub struct ProjectEdit {
    /// The name the project is to carry from now on. The caller moves the
    /// stored record to the new key.
    pub new_name: Option<String>,
    pub craft: Option<Craft>,
    pub notes: Option<String>,
    pub status: Option<Status>,
    /// Accepted only from 0 to 100.
    pub progress: Option<i32>,
    /// Any row is accepted, also a smaller or a negative one.
    pub current_row: Option<i32>,
}

/// An edit as a mathematical value.
pub struct EditView {
    pub new_name: Option<Seq<char>>,
    pub craft: Option<Craft>,
    pub notes: Option<Seq<char>>,
    pub status: Option<Status>,
    pub progress: Option<int>,
    pub current_row: Option<int>,
}

/// The characters of a text that may be absent.
pub open spec fn text_of(text: Option<String>) -> Option<Seq<char>> {
    match text {
        Some(t) => Some(t@),
        None => None,
    }
}

/// The value of a number that may be absent.
pub open spec fn number_of(number: Option<i32>) -> Option<int> {
    match number {
        Some(n) => Some(n as int),
        None => None,
    }
}

impl EditView {
    /// The edit that supplies nothing.
    pub open spec fn nothing() -> EditView {
        EditView {
            new_name: None,
            craft: None,
            notes: None,
            status: None,
            progress: None,
            current_row: None,
        }
    }

    /// Whether the edit passes validation: its progress, if supplied, is a
    /// percentage.
    pub open spec fn accepted(self) -> bool {
        self.progress matches Some(p) ==> 0 <= p <= 100
    }

    /// Whether the edit leaves the project with a name: the new name, if
    /// supplied, is not empty.
    pub open spec fn well_named(self) -> bool {
        self.new_name matches Some(n) ==> n.len() > 0
    }

    /// The project after this edit: each supplied field takes the new
    /// value, every other field and the time of creation stay.
    pub open spec fn applied_to(self, project: ProjectView) -> ProjectView {
        ProjectView {
            name: self.new_name.unwrap_or(project.name),
            craft: self.craft.unwrap_or(project.craft),
            current_row: self.current_row.unwrap_or(project.current_row),
            notes: self.notes.unwrap_or(project.notes),
            progress: self.progress.unwrap_or(project.progress),
            status: self.status.unwrap_or(project.status),
            started: project.started,
        }
    }
}

impl View for ProjectEdit {
    type V = EditView;

    open spec fn view(&self) -> EditView {
        EditView {
            new_name: text_of(self.new_name),
            craft: self.craft,
            notes: text_of(self.notes),
            status: self.status,
            progress: number_of(self.progress),
            current_row: number_of(self.current_row),
        }
    }
}

impl ProjectEdit {
    /// An edit that supplies nothing; set the fields to be changed on it.
    pub fn empty() -> (edit: ProjectEdit)
        ensures
            edit@ == EditView::nothing(),
    {
        ProjectEdit {
            new_name: None,
            craft: None,
            notes: None,
            status: None,
            progress: None,
            current_row: None,
        }
    }
}

impl Project {
    /// Applies an edit to this project.
    ///
    /// Fails with `InvalidProgressRange` exactly when the edit supplies a
    /// progress below 0 or above 100, and then leaves the project as it
    /// was. Otherwise every supplied field is overwritten.
    pub fn apply_edit(&mut self, edit: ProjectEdit) -> (done: Result<(), ValidationError>)
        ensures
            done is Ok <==> edit@.accepted(),
            done is Ok ==> final(self)@ == edit@.applied_to(old(self)@),
            done is Ok && old(self).valid() && edit@.well_named() ==> final(self).valid(),
            done is Err ==> done == Err::<(), ValidationError>(
                ValidationError::InvalidProgressRange,
            ) && *final(self) == *old(self),
    {
        if let Some(p) = edit.progress {
            if p < 0 || p > 100 {
                return Err(ValidationError::InvalidProgressRange);
            }
        }
        if let Some(n) = edit.new_name {
            if n != self.name {
                self.name = n;
            }
        }
        if let Some(c) = edit.craft {
            if c != self.craft {
                self.craft = c;
            }
        }
        if let Some(n) = edit.notes {
            if n != self.notes {
                self.notes = n;
            }
        }
        if let Some(s) = edit.status {
            if s != self.status {
                self.status = s;
            }
        }
        if let Some(r) = edit.current_row {
            if r != self.current_row {
                self.current_row = r;
            }
        }
        if let Some(p) = edit.progress {
            if p != self.progress {
                self.progress = p;
            }
        }
        Ok(())
    }
}

/// What validating an edit typed by the user yields, given each field as
/// supplied: the first of an unknown craft, an unknown status and a
/// progress out of range is reported; without any, the edit with each
/// word replaced by what it names.
pub open spec fn requested_edit(
    new_name: Option<Seq<char>>,
    craft: Option<Seq<char>>,
    notes: Option<Seq<char>>,
    status: Option<Seq<char>>,
    progress: Option<int>,
    current_row: Option<int>,
) -> Result<EditView, ValidationError> {
    if craft is Some && craft_lookup(lowercase_of(craft->Some_0)) is Err {
        Err(ValidationError::UnknownCraft)
    } else if status is Some && status_lookup(lowercase_of(status->Some_0)) is Err {
        Err(ValidationError::UnknownStatus)
    } else if progress is Some && !(0 <= progress->Some_0 <= 100) {
        Err(ValidationError::InvalidProgressRange)
    } else {
        Ok(
            EditView {
                new_name,
                craft: match craft {
                    Some(word) => Some(craft_lookup(lowercase_of(word))->Ok_0),
                    None => None,
                },
                notes,
                status: match status {
                    Some(word) => Some(status_lookup(lowercase_of(word))->Ok_0),
                    None => None,
                },
                progress,
                current_row,
            },
        )
    }
}

/// Validates an edit as the user typed it and resolves its craft and
/// status words.
pub fn parse_edit(
    new_name: Option<String>,
    craft: Option<String>,
    notes: Option<String>,
    status: Option<String>,
    progress: Option<i32>,
    current_row: Option<i32>,
) -> (parsed: Result<ProjectEdit, ValidationError>)
    ensures
        match requested_edit(
            text_of(new_name),
            text_of(craft),
            text_of(notes),
            text_of(status),
            number_of(progress),
            number_of(current_row),
        ) {
            Ok(edit) => parsed is Ok && parsed->Ok_0@ == edit && edit.accepted(),
            Err(e) => parsed == Err::<ProjectEdit, ValidationError>(e),
        },
{
    let craft = match craft {
        Some(word) => match craft_from_string(word.as_str()) {
            Ok(c) => Some(c),
            Err(e) => { return Err(e); },
        },
        None => None,
    };
    let status = match status {
        Some(word) => match status_from_string(word.as_str()) {
            Ok(s) => Some(s),
            Err(e) => { return Err(e); },
        },
        None => None,
    };
    if let Some(p) = progress {
        if p < 0 || p > 100 {
            return Err(ValidationError::InvalidProgressRange);
        }
    }
    Ok(ProjectEdit { new_name, craft, notes, status, progress, current_row })
}

/// Edits a project from the fields as the user typed them.
///
/// The edit is validated first: an unknown craft, an unknown status or a
/// progress out of range fails with that error, in this order, and leaves
/// the project as it was. Otherwise every supplied field is overwritten.
pub fn edit_project(
    project: &mut Project,
    new_name: Option<String>,
    craft: Option<String>,
    notes: Option<String>,
    status: Option<String>,
    progress: Option<i32>,
    current_row: Option<i32>,
) -> (done: Result<(), ValidationError>)
    ensures
        match requested_edit(
            text_of(new_name),
            text_of(craft),
            text_of(notes),
            text_of(status),
            number_of(progress),
            number_of(current_row),
        ) {
            Ok(edit) => {
                &&& done is Ok
                &&& final(project)@ == edit.applied_to(old(project)@)
                &&& old(project).valid() && edit.well_named() ==> final(project).valid()
            },
            Err(e) => done == Err::<(), ValidationError>(e) && *final(project) == *old(project),
        },
{
    match parse_edit(new_name, craft, notes, status, progress, current_row) {
        Ok(edit) => project.apply_edit(edit),
        Err(e) => Err(e),
    }
}

} // verus!
