//! What can be done with the trash: putting files into it, listing it,
//! restoring from it and emptying it.

pub mod empty;
pub mod list;
pub mod put;
pub mod restore;
