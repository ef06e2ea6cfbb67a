//! Paths as the runner composes and compares them.
use vstd::prelude::*;
use vstd::string::*;

use crate::text::chars_of;

verus! {

/// The character that separates the components of a path.
pub const SEPARATOR: char = '/';

/// A path is absolute where it starts at the root.
pub open spec fn is_absolute(path: Seq<char>) -> bool {
    path.len() > 0 && path[0] == SEPARATOR
}

/// `rel` resolved against `base`: an absolute `rel` stands for itself;
/// any other is put behind `base`, with a separator between the two unless
/// `base` is empty or ends in one.
pub open spec fn joined(base: Seq<char>, rel: Seq<char>) -> Seq<char> {
    if is_absolute(rel) {
        rel
    } else if base.len() == 0 || base.last() == SEPARATOR {
        base + rel
    } else {
        base.push(SEPARATOR) + rel
    }
}

/// Resolves `rel` against `base`.
pub fn join(base: &str, rel: &str) -> (path: String)
    ensures
        path@ == joined(base@, rel@),
{
    if !rel.is_empty() && rel.get_char(0) == SEPARATOR {
        return String::from_str(rel);
    }
    let mut path = String::from_str(base);
    let len = base.unicode_len();
    if len > 0 && base.get_char(len - 1) != SEPARATOR {
        proof {
            reveal_strlit("/");
        }
        path.append("/");
        assert(path@ =~= base@.push(SEPARATOR));
    }
    path.append(rel);
    path
}

/// Whether `path` names `root` or something below it, component by
/// component: `root` is a prefix of `path`, and what follows the prefix in
/// `path` starts a new component.
pub open spec fn path_under(path: Seq<char>, root: Seq<char>) -> bool {
    &&& root.is_prefix_of(path)
    &&& (path.len() == root.len() || (root.len() > 0 && root.last() == SEPARATOR)
        || path[root.len() as int] == SEPARATOR)
}

/// Whether `path` lies under one of `roots`.
pub open spec fn under_any(path: Seq<char>, roots: Seq<Seq<char>>) -> bool {
    exists|i: int| 0 <= i < roots.len() && path_under(path, #[trigger] roots[i])
}

fn chars_under(path: &Vec<char>, root: &Vec<char>) -> (under: bool)
    ensures
        under == path_under(path@, root@),
{
    if root.len() > path.len() {
        return false;
    }
    let mut i: usize = 0;
    while i < root.len()
        invariant
            i <= root.len() <= path.len(),
            path@.subrange(0, i as int) == root@.subrange(0, i as int),
        decreases root.len() - i,
    {
        if path[i] != root[i] {
            assert(!root@.is_prefix_of(path@)) by {
                if root@.is_prefix_of(path@) {
                    assert(path@.subrange(0, root@.len() as int)[i as int] == root@[i as int]);
                }
            }
            return false;
        }
        assert(path@.subrange(0, i + 1) =~= path@.subrange(0, i as int).push(path@[i as int]));
        assert(root@.subrange(0, i + 1) =~= root@.subrange(0, i as int).push(root@[i as int]));
        i = i + 1;
    }
    assert(root@.subrange(0, root@.len() as int) =~= root@);
    assert(root@.is_prefix_of(path@));
    path.len() == root.len() || (root.len() > 0 && root[root.len() - 1] == SEPARATOR)
        || path[root.len()] == SEPARATOR
}

/// Decides whether `path` names `root` or something below it.
pub fn is_under(path: &str, root: &str) -> (under: bool)
    ensures
        under == path_under(path@, root@),
{
    let path_chars = chars_of(path);
    let root_chars = chars_of(root);
    chars_under(&path_chars, &root_chars)
}

/// Decides whether `path` lies under one of `roots`.
pub fn is_under_any(path: &str, roots: &Vec<String>) -> (under: bool)
    ensures
        under == under_any(path@, roots.deep_view()),
{
    let path_chars = chars_of(path);
    let mut i: usize = 0;
    while i < roots.len()
        invariant
            i <= roots.len(),
            path_chars@ == path@,
            forall|j: int| 0 <= j < i ==> !path_under(path@, #[trigger] roots.deep_view()[j]),
        decreases roots.len() - i,
    {
        let root_chars = chars_of(roots[i].as_str());
        if chars_under(&path_chars, &root_chars) {
            assert(roots.deep_view()[i as int] == roots[i as int]@);
            return true;
        }
        assert(roots.deep_view()[i as int] == roots[i as int]@);
        i = i + 1;
    }
    false
}

} // verus!
