//! Paths made absolute.

use vstd::prelude::*;

use crate::path::{absolute, is_absolute, join, joined};

verus! {

/// The absolute form of a path: the path itself if it begins at the root,
/// else the path seen from the current directory. Without a current
/// directory a path that does not begin at the root has no absolute form.
pub open spec fn absolute_form(path: Seq<char>, current_dir: Option<Seq<char>>) -> Option<
    Seq<char>,
> {
    if absolute(path) {
        Some(path)
    } else {
        match current_dir {
            Some(dir) => Some(joined(dir, path)),
            None => None,
        }
    }
}

/// The views of an optional text.
pub open spec fn text_view(text: Option<&str>) -> Option<Seq<char>> {
    match text {
        Some(t) => Some(t@),
        None => None,
    }
}

/// The views of an optional string.
pub open spec fn string_view(text: Option<String>) -> Option<Seq<char>> {
    match text {
        Some(t) => Some(t@),
        None => None,
    }
}

/// Makes a path absolute. `current_dir` is the current directory in its
/// canonical form, or `None` where it could not be found out; it is looked
/// at only for a path that does not begin at the root.
pub fn into_absolute(path: &str, current_dir: Option<&str>) -> (r: Option<String>)
    ensures
        string_view(r) == absolute_form(path@, text_view(current_dir)),
{
    if is_absolute(path) {
        Some(path.to_owned())
    } else {
        match current_dir {
            Some(dir) => Some(join(dir, path)),
            None => None,
        }
    }
}

} // verus!
