//! Paths as text: their components and the test whether one lies under
//! another, by whole components.
use vstd::prelude::*;
use crate::text::CharClass;
use crate::text::fields;
use crate::text::split_fields;
use crate::text::to_chars;
use crate::text::views;

verus! {

/// Whether `path` begins at the root directory.
pub open spec fn is_rooted(path: Seq<char>) -> bool {
    path.len() > 0 && path[0] == '/'
}

/// Whether the name at index `i` is a component: every name is, but for `.`,
/// which counts only where it begins a path that has no root.
pub open spec fn is_component(names: Seq<Seq<char>>, rooted: bool, i: int) -> bool {
    names[i] != "."@ || (i == 0 && !rooted)
}

/// The components among the first `n` names.
pub open spec fn named_components(names: Seq<Seq<char>>, rooted: bool, n: int) -> Seq<Seq<char>>
    decreases n,
{
    if n <= 0 {
        Seq::empty()
    } else if is_component(names, rooted, n - 1) {
        named_components(names, rooted, n - 1).push(names[n - 1])
    } else {
        named_components(names, rooted, n - 1)
    }
}

/// The components of `path`, as `std::path::Path::components` tells them on
/// Unix: `/` for the root, if the path begins there, then the names between
/// the separators. Separators that repeat or end the path count once, and
/// a name `.` is left out unless it begins a path without a root.
pub open spec fn components(path: Seq<char>) -> Seq<Seq<char>> {
    let names = fields(path, CharClass::Only('/'));
    let root: Seq<Seq<char>> = if is_rooted(path) {
        seq!["/"@]
    } else {
        Seq::empty()
    };
    root + named_components(names, is_rooted(path), names.len() as int)
}

/// Whether `path` is `base` or lies below it: the components of `base` begin
/// those of `path`.
pub open spec fn lies_under(path: Seq<char>, base: Seq<char>) -> bool {
    components(base).is_prefix_of(components(path))
}

/// The components of `path`.
pub fn path_components(path: &str) -> (out: Vec<String>)
    ensures
        views(out@) == components(path@),
{
    let chars = to_chars(path);
    let rooted = chars.len() > 0 && chars[0] == '/';
    let names = split_fields(&chars, CharClass::Only('/'));
    let dot = ".".to_owned();
    let mut out: Vec<String> = Vec::new();
    if rooted {
        out.push("/".to_owned());
    }
    let ghost root = views(out@);
    let mut i: usize = 0;
    while i < names.len()
        invariant
            i <= names.len(),
            dot@ == "."@,
            views(out@) == root + named_components(views(names@), rooted, i as int),
        decreases names.len() - i,
    {
        assert(views(names@)[i as int] == names@[i as int]@);
        if names[i] != dot || (i == 0 && !rooted) {
            assert(views(out@.push(names@[i as int])) == views(out@).push(names@[i as int]@));
            out.push(names[i].clone());
        }
        i += 1;
    }
    out
}

/// Whether `path` is `base` or lies below it.
pub fn path_starts_with(path: &str, base: &str) -> (b: bool)
    ensures
        b == lies_under(path@, base@),
{
    let whole = path_components(path);
    let prefix = path_components(base);
    if prefix.len() > whole.len() {
        return false;
    }
    let mut i: usize = 0;
    while i < prefix.len()
        invariant
            i <= prefix.len() <= whole.len(),
            views(whole@) == components(path@),
            views(prefix@) == components(base@),
            forall|k: int| 0 <= k < i ==> views(prefix@)[k] == views(whole@)[k],
        decreases prefix.len() - i,
    {
        assert(views(prefix@)[i as int] == prefix@[i as int]@);
        assert(views(whole@)[i as int] == whole@[i as int]@);
        if prefix[i] != whole[i] {
            assert(views(whole@).subrange(0, views(prefix@).len() as int)[i as int] == views(
                whole@,
            )[i as int]);
            return false;
        }
        i += 1;
    }
    assert(views(prefix@) == views(whole@).subrange(0, views(prefix@).len() as int));
    true
}

} // verus!
