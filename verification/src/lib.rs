//! A desktop-trash engine: mount topology, trash records and the choice of
//! the trash directory that a file has to go to.

pub mod date;
pub mod dir;
pub mod errors;
pub mod info;
pub mod mounts;
pub mod ops;
pub mod path;
pub mod text;
pub mod utils;

pub use crate::dir::TrashDir;
pub use crate::errors::Error;
pub use crate::info::TrashInfo;
pub use crate::mounts::Mounts;
