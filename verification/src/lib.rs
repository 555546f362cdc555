//! Record model for fiber-craft projects: the project entity, its
//! construction defaults, and the rules by which it may be edited.
//!
//! Storage and argument handling are left to the caller; everything here
//! works on values in memory.

pub mod clock;
pub mod error;
pub mod project;
pub mod names;
pub mod edit;
pub mod laws;

pub use clock::Timestamp;
pub use edit::{edit_project, parse_edit, EditView, ProjectEdit};
pub use error::ValidationError;
pub use names::{
    craft_from_lowercase, craft_from_string, status_from_lowercase, status_from_string,
};
pub use project::{create_project, increment_row, Craft, Project, ProjectView, Status};
