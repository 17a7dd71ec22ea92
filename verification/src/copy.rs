//! Copying a tree of files so that symbolic links stay symbolic links.
//!
//! The caller describes what lies at the source as an `Entry`, without
//! following any link, and gets the file operations that copy it.
use vstd::prelude::*;

verus! {

/// What lies at a path.
#[derive(Debug)]
pub enum Entry {
    /// A regular file.
    File { name: String },
    /// A symbolic link and the path that it points to.
    Symlink { name: String, target: String },
    /// A directory and what it holds.
    Directory { name: String, children: Vec<Entry> },
}

impl Entry {
    /// The name of the entry in its directory.
    pub open spec fn name(self) -> Seq<char> {
        match self {
            Entry::File { name } => name@,
            Entry::Symlink { name, .. } => name@,
            Entry::Directory { name, .. } => name@,
        }
    }

    /// The name of the entry in its directory.
    pub fn file_name(&self) -> (name: &str)
        ensures
            name@ == self.name(),
    {
        match self {
            Entry::File { name } => name.as_str(),
            Entry::Symlink { name, .. } => name.as_str(),
            Entry::Directory { name, .. } => name.as_str(),
        }
    }
}

/// One operation on the file system.
#[derive(Clone, Debug, PartialEq, Eq)]
pub enum FileOp {
    /// Make the directory at `path`, and those above it that are missing.
    CreateDir { path: String },
    /// Copy the bytes of the file at `from` to `to`.
    CopyFile { from: String, to: String },
    /// Make a symbolic link at `link` that points to `target`.
    Symlink { target: String, link: String },
}

/// A `FileOp` over sequences of characters.
pub enum Op {
    CreateDir { path: Seq<char> },
    CopyFile { from: Seq<char>, to: Seq<char> },
    Symlink { target: Seq<char>, link: Seq<char> },
}

impl View for FileOp {
    type V = Op;

    open spec fn view(&self) -> Op {
        match self {
            FileOp::CreateDir { path } => Op::CreateDir { path: path@ },
            FileOp::CopyFile { from, to } => Op::CopyFile { from: from@, to: to@ },
            FileOp::Symlink { target, link } => Op::Symlink { target: target@, link: link@ },
        }
    }
}

/// The views of a sequence of operations.
pub open spec fn ops(v: Seq<FileOp>) -> Seq<Op> {
    Seq::new(v.len(), |i: int| v[i]@)
}

/// The path of `name` in the directory `dir`.
pub open spec fn child_path(dir: Seq<char>, name: Seq<char>) -> Seq<char> {
    dir + "/"@ + name
}

/// The operations that copy `entry`, which lies at `from`, to `to`: a file is
/// copied, a link is made anew with the same target, and a directory is made
/// and then filled with the copies of what it holds, in order.
pub open spec fn plan(entry: Entry, from: Seq<char>, to: Seq<char>) -> Seq<Op>
    decreases entry, 0int,
{
    match entry {
        Entry::File { .. } => seq![Op::CopyFile { from, to }],
        Entry::Symlink { target, .. } => seq![Op::Symlink { target: target@, link: to }],
        Entry::Directory { children, .. } => seq![Op::CreateDir { path: to }] + plan_children(
            children@,
            from,
            to,
            children@.len() as int,
        ),
    }
}

/// The operations that copy the first `n` of `children`, which lie in the
/// directory `from`, into the directory `to`.
pub open spec fn plan_children(children: Seq<Entry>, from: Seq<char>, to: Seq<char>, n: int) -> Seq<
    Op,
>
    decreases children, n,
{
    if n <= 0 || n > children.len() {
        Seq::empty()
    } else {
        plan_children(children, from, to, n - 1) + plan(
            children[n - 1],
            child_path(from, children[n - 1].name()),
            child_path(to, children[n - 1].name()),
        )
    }
}

fn join(dir: &str, name: &str) -> (out: String)
    ensures
        out@ == child_path(dir@, name@),
{
    let mut out = dir.to_owned();
    out.append("/");
    out.append(name);
    out
}

fn plan_into(entry: &Entry, from: &str, to: &str, out: &mut Vec<FileOp>)
    ensures
        ops(final(out)@) == ops(old(out)@) + plan(*entry, from@, to@),
    decreases entry,
{
    match entry {
        Entry::File { .. } => {
            let op = FileOp::CopyFile { from: from.to_owned(), to: to.to_owned() };
            assert(ops(out@.push(op)) == ops(out@) + seq![op@]);
            out.push(op);
        },
        Entry::Symlink { target, .. } => {
            let op = FileOp::Symlink { target: target.clone(), link: to.to_owned() };
            assert(ops(out@.push(op)) == ops(out@) + seq![op@]);
            out.push(op);
        },
        Entry::Directory { children, .. } => {
            let op = FileOp::CreateDir { path: to.to_owned() };
            assert(ops(out@.push(op)) == ops(out@) + seq![op@]);
            out.push(op);
            let mut i: usize = 0;
            while i < children.len()
                invariant
                    i <= children.len(),
                    *entry matches Entry::Directory { children: held, .. } && held == children,
                    ops(out@) == ops(old(out)@) + seq![Op::CreateDir { path: to@ }] + plan_children(
                        children@,
                        from@,
                        to@,
                        i as int,
                    ),
                decreases children.len() - i,
            {
                let child = &children[i];
                let name = child.file_name();
                let ghost before = ops(out@);
                plan_into(child, join(from, name).as_str(), join(to, name).as_str(), out);
                assert(ops(out@) == ops(old(out)@) + seq![Op::CreateDir { path: to@ }] + (
                plan_children(children@, from@, to@, i as int) + plan(
                    children@[i as int],
                    child_path(from@, name@),
                    child_path(to@, name@),
                )));
                i += 1;
            }
        },
    }
}

/// The operations that copy `entry`, which lies at `from`, to `to`, in the
/// order in which they are to be carried out.
pub fn plan_copy(entry: &Entry, from: &str, to: &str) -> (out: Vec<FileOp>)
    ensures
        ops(out@) == plan(*entry, from@, to@),
{
    let mut out: Vec<FileOp> = Vec::new();
    assert(ops(out@) == Seq::<Op>::empty());
    plan_into(entry, from, to, &mut out);
    out
}

/// The operation that makes a symbolic link at `link` to `target`.
pub fn create_symlink(target: &str, link: &str) -> (op: FileOp)
    ensures
        op@ == (Op::Symlink { target: target@, link: link@ }),
{
    FileOp::Symlink { target: target.to_owned(), link: link.to_owned() }
}

/// The entry that `route` leads to from `entry`: each step of the route is
/// the index of a child of the directory reached so far.
pub open spec fn reached(entry: Entry, route: Seq<int>) -> Option<Entry>
    decreases route.len(),
{
    if route.len() == 0 {
        Some(entry)
    } else {
        match entry {
            Entry::Directory { children, .. } => if 0 <= route[0] < children@.len() {
                reached(children@[route[0]], route.drop_first())
            } else {
                None
            },
            _ => None,
        }
    }
}

/// The path of what `route` leads to from `entry`, where `entry` lies at
/// `base`.
pub open spec fn path_along(entry: Entry, base: Seq<char>, route: Seq<int>) -> Seq<char>
    decreases route.len(),
{
    if route.len() == 0 {
        base
    } else {
        match entry {
            Entry::Directory { children, .. } => if 0 <= route[0] < children@.len() {
                path_along(
                    children@[route[0]],
                    child_path(base, children@[route[0]].name()),
                    route.drop_first(),
                )
            } else {
                base
            },
            _ => base,
        }
    }
}

/// Whether `op` is the operation that copies what `route` leads to from
/// `entry`: the copy of a file, the making of a directory, or a link with
/// the target of the link that lies there.
pub open spec fn copies(op: Op, entry: Entry, from: Seq<char>, to: Seq<char>, route: Seq<int>) -> bool {
    match reached(entry, route) {
        Some(Entry::File { .. }) => op == (Op::CopyFile {
            from: path_along(entry, from, route),
            to: path_along(entry, to, route),
        }),
        Some(Entry::Symlink { target, .. }) => op == (Op::Symlink {
            target: target@,
            link: path_along(entry, to, route),
        }),
        Some(Entry::Directory { .. }) => op == (Op::CreateDir {
            path: path_along(entry, to, route),
        }),
        None => false,
    }
}

proof fn lemma_plan_children_holds(children: Seq<Entry>, from: Seq<char>, to: Seq<char>, n: int, k: int, op: Op)
    requires
        0 <= k < n <= children.len(),
        plan(
            children[k],
            child_path(from, children[k].name()),
            child_path(to, children[k].name()),
        ).contains(op),
    ensures
        plan_children(children, from, to, n).contains(op),
    decreases n,
{
    let earlier = plan_children(children, from, to, n - 1);
    let last = plan(
        children[n - 1],
        child_path(from, children[n - 1].name()),
        child_path(to, children[n - 1].name()),
    );
    if k < n - 1 {
        lemma_plan_children_holds(children, from, to, n - 1, k, op);
        let i = choose|i: int| 0 <= i < earlier.len() && earlier[i] == op;
        assert((earlier + last)[i] == op);
    } else {
        let i = choose|i: int| 0 <= i < last.len() && last[i] == op;
        assert((earlier + last)[earlier.len() + i] == op);
    }
}

/// Every entry of the tree is copied as what it is, at every depth: the plan
/// holds the operation that copies what a route leads to. For a symbolic
/// link, that is a link with the same target.
pub proof fn lemma_plan_copies_every_entry(entry: Entry, from: Seq<char>, to: Seq<char>, route: Seq<int>)
    requires
        reached(entry, route) is Some,
    ensures
        exists|op: Op| #[trigger] plan(entry, from, to).contains(op) && copies(op, entry, from, to, route),
    decreases route.len(),
{
    if route.len() == 0 {
        let op = plan(entry, from, to)[0];
        assert(plan(entry, from, to).contains(op));
        assert(copies(op, entry, from, to, route));
    } else {
        match entry {
            Entry::Directory { children, .. } => {
                let k = route[0];
                let child = children@[k];
                let child_from = child_path(from, child.name());
                let child_to = child_path(to, child.name());
                lemma_plan_copies_every_entry(child, child_from, child_to, route.drop_first());
                let op = choose|op: Op| #[trigger]
                    plan(child, child_from, child_to).contains(op) && copies(
                        op,
                        child,
                        child_from,
                        child_to,
                        route.drop_first(),
                    );
                lemma_plan_children_holds(children@, from, to, children@.len() as int, k, op);
                let below = plan_children(children@, from, to, children@.len() as int);
                let i = choose|i: int| 0 <= i < below.len() && below[i] == op;
                assert(plan(entry, from, to)[i + 1] == op);
                assert(plan(entry, from, to).contains(op));
                assert(copies(op, entry, from, to, route));
            },
            _ => {},
        }
    }
}

proof fn lemma_plan_children_mirror(children: Seq<Entry>, from: Seq<char>, to: Seq<char>, n: int, i: int) -> (found: (
    int,
    Seq<int>,
))
    requires
        0 <= n <= children.len(),
        0 <= i < plan_children(children, from, to, n).len(),
    ensures
        0 <= found.0 < n,
        copies(
            plan_children(children, from, to, n)[i],
            children[found.0],
            child_path(from, children[found.0].name()),
            child_path(to, children[found.0].name()),
            found.1,
        ),
    decreases children, n,
{
    let earlier = plan_children(children, from, to, n - 1);
    if i < earlier.len() {
        lemma_plan_children_mirror(children, from, to, n - 1, i)
    } else {
        let child = children[n - 1];
        let route = lemma_plan_mirrors(
            child,
            child_path(from, child.name()),
            child_path(to, child.name()),
            i - earlier.len(),
        );
        (n - 1, route)
    }
}

proof fn lemma_plan_mirrors(entry: Entry, from: Seq<char>, to: Seq<char>, i: int) -> (route: Seq<int>)
    requires
        0 <= i < plan(entry, from, to).len(),
    ensures
        copies(plan(entry, from, to)[i], entry, from, to, route),
    decreases entry, 0int,
{
    match entry {
        Entry::Directory { children, .. } => {
            if i == 0 {
                Seq::empty()
            } else {
                let (k, inner) = lemma_plan_children_mirror(
                    children@,
                    from,
                    to,
                    children@.len() as int,
                    i - 1,
                );
                let route = seq![k] + inner;
                assert(route.drop_first() == inner);
                route
            }
        },
        _ => Seq::empty(),
    }
}

/// Nothing is copied as something else: each operation of the plan copies
/// an entry of the tree as what it is. A file is copied only where a file
/// lies, so a symbolic link is never replaced by what it points to.
pub proof fn lemma_plan_mirrors_tree(entry: Entry, from: Seq<char>, to: Seq<char>, i: int)
    requires
        0 <= i < plan(entry, from, to).len(),
    ensures
        exists|route: Seq<int>| #[trigger] copies(plan(entry, from, to)[i], entry, from, to, route),
{
    let route = lemma_plan_mirrors(entry, from, to, i);
}

} // verus!
