//! Paths as text, and what a path is made of: its components.
//!
//! A path is cut at every `/`. A `/` at the very start is the root and a
//! component of its own. Empty pieces and pieces that are a single `.` are
//! no components, but for a `.` that begins a path without a root. So
//! `/a/b`, `/a//b/` and `/a/./b/.` have the same three components.

use vstd::prelude::*;

use crate::text::{chars_of, same_chars, views};

verus! {

/// The components after the piece `open` came to its end, at a separator
/// or at the end of the path.
pub open spec fn closed(done: Seq<Seq<char>>, open: Seq<char>, at_separator: bool) -> Seq<
    Seq<char>,
> {
    if open.len() == 0 {
        if at_separator && done.len() == 0 {
            done.push(seq!['/'])
        } else {
            done
        }
    } else if open == seq!['.'] && done.len() > 0 {
        done
    } else {
        done.push(open)
    }
}

/// The components that have come to their end in `path`, and the piece
/// after the last separator.
pub open spec fn scanned(path: Seq<char>) -> (Seq<Seq<char>>, Seq<char>)
    decreases path.len(),
{
    if path.len() == 0 {
        (Seq::empty(), Seq::empty())
    } else {
        let (done, open) = scanned(path.drop_last());
        if path.last() == '/' {
            (closed(done, open, true), Seq::empty())
        } else {
            (done, open.push(path.last()))
        }
    }
}

/// The components of a path, the root among them as `/`.
pub open spec fn components_of(path: Seq<char>) -> Seq<Seq<char>> {
    let (done, open) = scanned(path);
    closed(done, open, false)
}

/// A path that begins at the root.
pub open spec fn absolute(path: Seq<char>) -> bool {
    path.len() > 0 && path[0] == '/'
}

/// The path `child` seen from `base`: `child` itself if it is absolute or
/// `base` is empty, else `base`, a separator unless `base` ends in one,
/// and `child`.
pub open spec fn joined(base: Seq<char>, child: Seq<char>) -> Seq<char> {
    if absolute(child) || base.len() == 0 {
        child
    } else if base.last() == '/' {
        base + child
    } else {
        base + seq!['/'] + child
    }
}

/// The path `base` leads to `path`: every component of `base` is the
/// component of `path` at the same place.
pub open spec fn leads_to(base: Seq<char>, path: Seq<char>) -> bool {
    components_of(base).is_prefix_of(components_of(path))
}

/// A component that names a file or a directory: not the root, not `.`
/// and not `..`.
pub open spec fn is_name(component: Seq<char>) -> bool {
    component != seq!['/'] && component != seq!['.'] && component != seq!['.', '.']
}

/// The name that a path ends in, if it ends in one.
pub open spec fn name_of(path: Seq<char>) -> Option<Seq<char>> {
    let parts = components_of(path);
    if parts.len() > 0 && is_name(parts.last()) {
        Some(parts.last())
    } else {
        None
    }
}

/// The components with `component` after them, where `..` takes away the
/// name before it and stays where it is at the root.
pub open spec fn stepped(before: Seq<Seq<char>>, component: Seq<char>) -> Seq<Seq<char>> {
    if component == seq!['.', '.'] && before.len() > 0 && is_name(before.last()) {
        before.drop_last()
    } else if component == seq!['.', '.'] && before.len() > 0 && before.last() == seq!['/'] {
        before
    } else {
        before.push(component)
    }
}

/// The components of a path with every `..` resolved against the name
/// before it, without a look at the file system.
pub open spec fn resolved(parts: Seq<Seq<char>>) -> Seq<Seq<char>>
    decreases parts.len(),
{
    if parts.len() == 0 {
        parts
    } else {
        stepped(resolved(parts.drop_last()), parts.last())
    }
}

/// The directory that a path names, as resolved components.
pub open spec fn place_of(path: Seq<char>) -> Seq<Seq<char>> {
    resolved(components_of(path))
}

/// The path names a directory or the directory above it: resolved, its
/// components are those of the directory, or those of the directory
/// without the last, where the last is not the root.
pub open spec fn names_dir_or_parent(path: Seq<char>, dir: Seq<char>) -> bool {
    let place = place_of(path);
    let home = place_of(dir);
    place == home || (home.len() > 0 && home.last() != seq!['/'] && place == home.drop_last())
}

fn close(done: &mut Vec<Vec<char>>, open: Vec<char>, at_separator: bool)
    ensures
        views(final(done)@) == closed(views(old(done)@), open@, at_separator),
{
    let ghost before = views(done@);
    if open.len() == 0 {
        if at_separator && done.len() == 0 {
            let mut root: Vec<char> = Vec::new();
            root.push('/');
            assert(root@ == seq!['/']);
            done.push(root);
            assert(views(done@) == before.push(seq!['/']));
        }
    } else if open.len() == 1 && open[0] == '.' && done.len() > 0 {
        assert(open@ == seq!['.']);
    } else {
        assert(open@ == seq!['.'] ==> open.len() == 1 && open@[0] == '.');
        done.push(open);
        assert(views(done@) == before.push(open@));
    }
}

/// The components of a path.
pub fn components(path: &str) -> (parts: Vec<Vec<char>>)
    ensures
        views(parts@) == components_of(path@),
{
    let chars = chars_of(path);
    let mut done: Vec<Vec<char>> = Vec::new();
    let mut open: Vec<char> = Vec::new();
    let mut i: usize = 0;
    assert(views(done@) == Seq::<Seq<char>>::empty());
    while i < chars.len()
        invariant
            i <= chars.len(),
            chars@ == path@,
            (views(done@), open@) == scanned(path@.take(i as int)),
        decreases chars.len() - i,
    {
        let c = chars[i];
        proof {
            assert(path@.take(i + 1).drop_last() == path@.take(i as int));
        }
        if c == '/' {
            close(&mut done, open, true);
            open = Vec::new();
        } else {
            open.push(c);
        }
        i += 1;
    }
    assert(path@.take(i as int) == path@);
    close(&mut done, open, false);
    done
}

/// Whether a path begins at the root.
pub fn is_absolute(path: &str) -> (r: bool)
    ensures
        r == absolute(path@),
{
    let chars = chars_of(path);
    chars.len() > 0 && chars[0] == '/'
}

/// The path `child` seen from `base`.
pub fn join(base: &str, child: &str) -> (path: String)
    ensures
        path@ == joined(base@, child@),
{
    let start = chars_of(base);
    if is_absolute(child) || start.len() == 0 {
        return child.to_owned();
    }
    let mut path = base.to_owned();
    if start[start.len() - 1] != '/' {
        proof {
            reveal_strlit("/");
        }
        path.append("/");
        assert("/"@ == seq!['/']);
    }
    path.append(child);
    path
}

/// Whether the components `start` are the first components of `whole`.
pub fn has_prefix(whole: &Vec<Vec<char>>, start: &Vec<Vec<char>>) -> (r: bool)
    ensures
        r == views(start@).is_prefix_of(views(whole@)),
{
    let ghost w = views(whole@);
    let ghost s = views(start@);
    assert(s.len() == start.len() && w.len() == whole.len());
    if start.len() > whole.len() {
        return false;
    }
    let mut k: usize = 0;
    while k < start.len()
        invariant
            start.len() <= whole.len(),
            k <= start.len(),
            w == views(whole@),
            s == views(start@),
            forall|j: int| 0 <= j < k ==> s[j] == w[j],
        decreases start.len() - k,
    {
        if !same_chars(&start[k], &whole[k]) {
            assert(s[k as int] != w.subrange(0, s.len() as int)[k as int]);
            return false;
        }
        k += 1;
    }
    assert(s =~= w.subrange(0, s.len() as int));
    true
}

/// Whether `base` leads to `path`, component by component.
pub fn starts_with(path: &str, base: &str) -> (r: bool)
    ensures
        r == leads_to(base@, path@),
{
    let whole = components(path);
    let start = components(base);
    has_prefix(&whole, &start)
}

/// Whether two paths are the same, component by component.
pub fn same_path(a: &str, b: &str) -> (r: bool)
    ensures
        r == (components_of(a@) == components_of(b@)),
{
    let left = components(a);
    let right = components(b);
    same_parts(&left, &right)
}

fn is_root(component: &Vec<char>) -> (r: bool)
    ensures
        r == (component@ == seq!['/']),
{
    let r = component.len() == 1 && component[0] == '/';
    assert(r == (component@ =~= seq!['/']));
    r
}

fn is_parent_mark(component: &Vec<char>) -> (r: bool)
    ensures
        r == (component@ == seq!['.', '.']),
{
    let r = component.len() == 2 && component[0] == '.' && component[1] == '.';
    assert(r == (component@ =~= seq!['.', '.']));
    r
}

fn is_here_mark(component: &Vec<char>) -> (r: bool)
    ensures
        r == (component@ == seq!['.']),
{
    let r = component.len() == 1 && component[0] == '.';
    assert(r == (component@ =~= seq!['.']));
    r
}

/// The resolved components of a path.
pub fn place(path: &str) -> (place: Vec<Vec<char>>)
    ensures
        views(place@) == place_of(path@),
{
    let parts = components(path);
    let ghost all = views(parts@);
    let mut done: Vec<Vec<char>> = Vec::new();
    assert(views(done@) =~= resolved(all.take(0)));
    for part in it: parts
        invariant
            it.seq() == parts@,
            all == views(parts@),
            views(done@) == resolved(all.take(it.index() as int)),
    {
        let ghost n = it.index() as int;
        let ghost before = views(done@);
        assert(part@ == all[n]);
        assert(all.take(n + 1).drop_last() =~= all.take(n));
        assert(all.take(n + 1).last() == all[n]);
        let up = is_parent_mark(&part);
        let m = done.len();
        assert(before.len() == m);
        if m > 0 {
            assert(before.last() == done@[m - 1]@);
        }
        if up && m > 0 && !is_root(&done[m - 1]) && !is_here_mark(&done[m - 1]) && !is_parent_mark(
            &done[m - 1],
        ) {
            done.pop();
            assert(views(done@) =~= before.drop_last());
        } else if up && m > 0 && is_root(&done[m - 1]) {
        } else {
            done.push(part);
            assert(views(done@) =~= before.push(part@));
        }
    }
    assert(all.take(all.len() as int) =~= all);
    done
}

/// Whether a path names a directory or the directory above it.
pub fn is_dir_or_parent(path: &str, dir: &str) -> (r: bool)
    ensures
        r == names_dir_or_parent(path@, dir@),
{
    let named = place(path);
    let mut home = place(dir);
    let ghost h = views(home@);
    assert(h.len() == home@.len());
    if same_parts(&named, &home) {
        return true;
    }
    match home.pop() {
        Some(last) => {
            assert(last@ == h.last());
            assert(views(home@) =~= h.drop_last());
            !is_root(&last) && same_parts(&named, &home)
        },
        None => false,
    }
}

/// Whether two lists of components are the same.
pub fn same_parts(left: &Vec<Vec<char>>, right: &Vec<Vec<char>>) -> (r: bool)
    ensures
        r == (views(left@) == views(right@)),
{
    let ghost l = views(left@);
    let ghost r = views(right@);
    assert(l.len() == left.len() && r.len() == right.len());
    if left.len() != right.len() {
        return false;
    }
    let mut k: usize = 0;
    while k < left.len()
        invariant
            left.len() == right.len(),
            k <= left.len(),
            l == views(left@),
            r == views(right@),
            forall|j: int| 0 <= j < k ==> l[j] == r[j],
        decreases left.len() - k,
    {
        if !same_chars(&left[k], &right[k]) {
            assert(l[k as int] != r[k as int]);
            return false;
        }
        k += 1;
    }
    assert(l =~= r);
    true
}

} // verus!
