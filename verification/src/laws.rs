//! What holds of every project and every edit, proved over the same
//! mathematical values that the contracts of the operations speak of.

use vstd::prelude::*;
use crate::edit::EditView;
use crate::error::ValidationError;
use crate::names::{craft_lookup, lowercase_of, status_lookup};
use crate::project::{Craft, ProjectView, Status};
use crate::clock::Timestamp;

verus! {

/// A project that has just been constructed is on row one, has no
/// progress and no notes, is not started, carries the name, craft and
/// time it was given, and is valid whenever its name is not empty.
pub proof fn fresh_project_has_defaults(name: Seq<char>, craft: Craft, started: Timestamp)
    ensures
        ProjectView::fresh(name, craft, started).progress == 0,
        ProjectView::fresh(name, craft, started).status == Status::NotStarted,
        ProjectView::fresh(name, craft, started).current_row == 1,
        ProjectView::fresh(name, craft, started).notes.len() == 0,
        ProjectView::fresh(name, craft, started).name == name,
        ProjectView::fresh(name, craft, started).craft == craft,
        ProjectView::fresh(name, craft, started).started == started,
        name.len() > 0 ==> ProjectView::fresh(name, craft, started).valid(),
{
}

/// After an accepted edit the progress is the one supplied, or the old
/// one if none was supplied.
pub proof fn edit_sets_progress(project: ProjectView, edit: EditView)
    requires
        edit.accepted(),
    ensures
        edit.progress matches Some(p) ==> edit.applied_to(project).progress == p,
        edit.progress is None ==> edit.applied_to(project).progress == project.progress,
{
}

/// An edit writes the fields it supplies and no others, and never the
/// time of creation.
pub proof fn edit_touches_only_supplied_fields(project: ProjectView, edit: EditView)
    ensures
        edit.new_name is None ==> edit.applied_to(project).name == project.name,
        edit.craft is None ==> edit.applied_to(project).craft == project.craft,
        edit.notes is None ==> edit.applied_to(project).notes == project.notes,
        edit.status is None ==> edit.applied_to(project).status == project.status,
        edit.progress is None ==> edit.applied_to(project).progress == project.progress,
        edit.current_row is None ==> edit.applied_to(project).current_row == project.current_row,
        edit.new_name matches Some(n) ==> edit.applied_to(project).name == n,
        edit.craft matches Some(c) ==> edit.applied_to(project).craft == c,
        edit.notes matches Some(n) ==> edit.applied_to(project).notes == n,
        edit.status matches Some(s) ==> edit.applied_to(project).status == s,
        edit.current_row matches Some(r) ==> edit.applied_to(project).current_row == r,
        edit.applied_to(project).started == project.started,
{
}

/// An edit that supplies nothing changes nothing.
pub proof fn empty_edit_is_identity(project: ProjectView)
    ensures
        EditView::nothing().accepted(),
        EditView::nothing().applied_to(project) == project,
{
}

/// An edit that supplies only notes replaces the notes and leaves every
/// other field as it was.
pub proof fn notes_edit_changes_only_notes(project: ProjectView, notes: Seq<char>)
    ensures
        (EditView { notes: Some(notes), ..EditView::nothing() }).accepted(),
        (EditView { notes: Some(notes), ..EditView::nothing() }).applied_to(project) == (ProjectView {
            notes,
            ..project
        }),
{
}

/// Applying the same edit a second time changes nothing more.
pub proof fn edit_is_idempotent(project: ProjectView, edit: EditView)
    ensures
        edit.applied_to(edit.applied_to(project)) == edit.applied_to(project),
{
}

/// An accepted edit that does not blank the name keeps a valid project
/// valid.
pub proof fn accepted_edit_keeps_project_valid(project: ProjectView, edit: EditView)
    requires
        project.valid(),
        edit.accepted(),
        edit.well_named(),
    ensures
        edit.applied_to(project).valid(),
{
}

/// Moving on a row adds exactly one to the row counter and is the
/// identity on every other field, so it keeps a valid project valid.
pub proof fn next_row_changes_only_the_row(project: ProjectView)
    ensures
        project.with_next_row().current_row == project.current_row + 1,
        project.with_next_row() == (ProjectView {
            current_row: project.with_next_row().current_row,
            ..project
        }),
        project.valid() ==> project.with_next_row().valid(),
{
}

/// Reading a craft word looks only at its lower-case form: two
/// spellings with the same lower-case form are read alike.
pub proof fn craft_lookup_ignores_case(a: Seq<char>, b: Seq<char>)
    requires
        lowercase_of(a) == lowercase_of(b),
    ensures
        craft_lookup(lowercase_of(a)) == craft_lookup(lowercase_of(b)),
{
}

/// Reading a status word looks only at its lower-case form: two
/// spellings with the same lower-case form are read alike.
pub proof fn status_lookup_ignores_case(a: Seq<char>, b: Seq<char>)
    requires
        lowercase_of(a) == lowercase_of(b),
    ensures
        status_lookup(lowercase_of(a)) == status_lookup(lowercase_of(b)),
{
}

/// The lower-case words `crochet`, `knitting` and `both` each name their
/// craft; every other word is an unknown craft.
pub proof fn craft_words_are_closed(word: Seq<char>)
    ensures
        craft_lookup("crochet"@) == Ok::<Craft, ValidationError>(Craft::Crochet),
        craft_lookup("knitting"@) == Ok::<Craft, ValidationError>(Craft::Knitting),
        craft_lookup("both"@) == Ok::<Craft, ValidationError>(Craft::Both),
        word != "crochet"@ && word != "knitting"@ && word != "both"@ <==> craft_lookup(word)
            == Err::<Craft, ValidationError>(ValidationError::UnknownCraft),
        craft_lookup(word) is Err ==> craft_lookup(word) == Err::<Craft, ValidationError>(
            ValidationError::UnknownCraft,
        ),
{
    reveal_strlit("crochet");
    reveal_strlit("knitting");
    reveal_strlit("both");
    assert("crochet"@.len() == 7 && "knitting"@.len() == 8 && "both"@.len() == 4);
}

/// The lower-case words `not-started`, `in-progress` and `finished` each
/// name their status; every other word is an unknown status.
pub proof fn status_words_are_closed(word: Seq<char>)
    ensures
        status_lookup("not-started"@) == Ok::<Status, ValidationError>(Status::NotStarted),
        status_lookup("in-progress"@) == Ok::<Status, ValidationError>(Status::InProgress),
        status_lookup("finished"@) == Ok::<Status, ValidationError>(Status::Finished),
        word != "not-started"@ && word != "in-progress"@ && word != "finished"@ <==> status_lookup(
            word,
        ) == Err::<Status, ValidationError>(ValidationError::UnknownStatus),
        status_lookup(word) is Err ==> status_lookup(word) == Err::<Status, ValidationError>(
            ValidationError::UnknownStatus,
        ),
{
    reveal_strlit("not-started");
    reveal_strlit("in-progress");
    reveal_strlit("finished");
    assert("not-started"@[0] == 'n' && "in-progress"@[0] == 'i' && "finished"@[0] == 'f');
}

} // verus!
