use vstd::prelude::*;
use crate::config::LinkGroupModel;
use crate::home_dir::{expanded, join_path};
use crate::linking::{LinkSpec, group_applies, resolved};
use crate::session::{
    ActionModel,
    EventModel,
    Outcome,
    Phase,
    SessionModel,
    action_of,
    next,
    path_parent,
    start,
};

verus! {

/// An entry of the model filesystem.
pub enum Entry {
    File,
    Directory,
    Symlink(Seq<char>),
}

/// A filesystem as the laws see it: the entries by path, and what each
/// resolvable source path canonicalizes to.
pub struct FsModel {
    pub entries: Map<Seq<char>, Entry>,
    pub canonical: Map<Seq<char>, Seq<char>>,
}

/// What a filesystem on which every mutation succeeds answers to an action,
/// and what it looks like afterwards.
pub open spec fn respond(fs: FsModel, a: ActionModel) -> (EventModel, FsModel) {
    match a {
        ActionModel::Canonicalize { source } => (
            EventModel::Canonicalized(
                if fs.canonical.contains_key(source) {
                    Some(fs.canonical[source])
                } else {
                    None
                },
            ),
            fs,
        ),
        ActionModel::Inspect { destination, parent } => (
            EventModel::Inspected {
                exists: fs.entries.contains_key(destination),
                link_target: if fs.entries.contains_key(destination) && fs.entries[destination] is Symlink {
                    Some(fs.entries[destination]->Symlink_0)
                } else {
                    None
                },
                parent_exists: match parent {
                    Some(p) => fs.entries.contains_key(p),
                    None => true,
                },
            },
            fs,
        ),
        ActionModel::CreateParent { parent } => (
            EventModel::ParentCreated(true),
            FsModel { entries: fs.entries.insert(parent, Entry::Directory), ..fs },
        ),
        ActionModel::Remove { destination } => (
            EventModel::Removed(true),
            FsModel { entries: fs.entries.remove(destination), ..fs },
        ),
        ActionModel::Link { source, destination } => (
            EventModel::Linked(true),
            FsModel { entries: fs.entries.insert(destination, Entry::Symlink(source)), ..fs },
        ),
        ActionModel::Finish => (EventModel::Linked(true), fs),
    }
}

/// Drives a session against the model filesystem for at most `fuel` steps.
pub open spec fn run(s: SessionModel, fs: FsModel, fuel: nat) -> (SessionModel, FsModel)
    decreases fuel,
{
    if fuel == 0 || s.phase == Phase::Finished {
        (s, fs)
    } else {
        let (e, fs2) = respond(fs, action_of(s));
        run(next(s, e), fs2, (fuel - 1) as nat)
    }
}

/// Applies one link to the model filesystem from scratch.
pub open spec fn apply(item: LinkSpec, fs: FsModel) -> (SessionModel, FsModel) {
    run(start(item), fs, 5)
}

/// Applying an unforced link twice, where nothing stood at its destination,
/// links it the first time and finds it already linked the second time,
/// without touching the filesystem again; the link points at the
/// canonicalized source.
pub proof fn lemma_apply_twice(item: LinkSpec, fs: FsModel)
    requires
        !item.force,
        fs.canonical.contains_key(item.from),
        !fs.entries.contains_key(item.to),
    ensures
        apply(item, fs).0.outcome == Some(Outcome::Linked),
        apply(item, fs).1.entries[item.to] == Entry::Symlink(fs.canonical[item.from]),
        apply(item, apply(item, fs).1).0.outcome == Some(Outcome::AlreadyLinked),
        apply(item, apply(item, fs).1).1 == apply(item, fs).1,
{
    reveal_with_fuel(run, 6);
    let fs1 = apply(item, fs).1;
    assert(fs1.canonical == fs.canonical);
    assert(fs1.entries.contains_key(item.to));
}

/// An unforced link never replaces an entry that is not a symbolic link: it
/// reports that the entry exists and leaves the filesystem as it was.
pub proof fn lemma_no_clobber(item: LinkSpec, fs: FsModel)
    requires
        !item.force,
        fs.canonical.contains_key(item.from),
        fs.entries.contains_key(item.to),
        !(fs.entries[item.to] is Symlink),
    ensures
        apply(item, fs).0.outcome == Some(Outcome::AlreadyExists),
        apply(item, fs).1 == fs,
{
    reveal_with_fuel(run, 6);
}

/// A forced link replaces whatever else stands at its destination: afterwards
/// the destination is a symbolic link to the canonicalized source.
pub proof fn lemma_force_overwrite(item: LinkSpec, fs: FsModel)
    requires
        item.force,
        fs.canonical.contains_key(item.from),
        fs.entries.contains_key(item.to),
        fs.entries[item.to] != Entry::Symlink(fs.canonical[item.from]),
    ensures
        apply(item, fs).0.outcome == Some(Outcome::Linked),
        apply(item, fs).1.entries[item.to] == Entry::Symlink(fs.canonical[item.from]),
{
    reveal_with_fuel(run, 6);
}

/// Where the destination's parent directory is missing, applying a link
/// first creates that directory (the filesystem creates its missing
/// ancestors along with it) and then the link.
pub proof fn lemma_creates_parent(item: LinkSpec, fs: FsModel)
    requires
        fs.canonical.contains_key(item.from),
        !fs.entries.contains_key(item.to),
        path_parent(item.to) is Some,
        path_parent(item.to)->Some_0 != item.to,
        !fs.entries.contains_key(path_parent(item.to)->Some_0),
    ensures
        apply(item, fs).0.outcome == Some(Outcome::Linked),
        apply(item, fs).1.entries[path_parent(item.to)->Some_0] == Entry::Directory,
        apply(item, fs).1.entries[item.to] == Entry::Symlink(fs.canonical[item.from]),
{
    reveal_with_fuel(run, 6);
}

/// Resolving a concatenation of groups resolves each part in turn.
pub proof fn lemma_resolved_concat(
    a: Seq<LinkGroupModel>,
    b: Seq<LinkGroupModel>,
    os: Seq<char>,
    home: Seq<char>,
)
    ensures
        resolved(a + b, os, home) == resolved(a, os, home) + resolved(b, os, home),
    decreases b.len(),
{
    if b.len() == 0 {
        assert(a + b =~= a);
        assert(resolved(a, os, home) + resolved(b, os, home) =~= resolved(a, os, home));
    } else {
        lemma_resolved_concat(a, b.drop_last(), os, home);
        assert((a + b).drop_last() =~= a + b.drop_last());
        assert((a + b).last() == b.last());
        let tail = if group_applies(b.last(), os) {
            crate::linking::group_links(b.last(), home)
        } else {
            seq![]
        };
        assert(resolved(a, os, home) + resolved(b.drop_last(), os, home) + tail =~= resolved(
            a,
            os,
            home,
        ) + (resolved(b.drop_last(), os, home) + tail));
    }
}

/// A group whose `os` list does not name the platform contributes no link:
/// resolving with it gives what resolving without it gives.
pub proof fn lemma_excluded_group(
    before: Seq<LinkGroupModel>,
    g: LinkGroupModel,
    after: Seq<LinkGroupModel>,
    os: Seq<char>,
    home: Seq<char>,
)
    requires
        !group_applies(g, os),
    ensures
        resolved(before + seq![g] + after, os, home) == resolved(before + after, os, home),
{
    lemma_resolved_concat(before + seq![g], after, os, home);
    lemma_resolved_concat(before, seq![g], os, home);
    lemma_resolved_concat(before, after, os, home);
    assert(seq![g].drop_last() =~= Seq::<LinkGroupModel>::empty());
    assert(resolved(Seq::<LinkGroupModel>::empty(), os, home) =~= Seq::<LinkSpec>::empty());
    assert(resolved(seq![g], os, home) =~= Seq::<LinkSpec>::empty());
    assert(resolved(before, os, home) + resolved(seq![g], os, home) =~= resolved(before, os, home));
}

/// `~` alone and `~/` stand for the home directory; `~/rest`, with or without
/// a trailing slash, for `rest` inside it.
pub proof fn lemma_tilde_expansion(rest: Seq<char>, home: Seq<char>)
    requires
        rest.len() > 0,
        rest[0] != '/',
        rest.last() != '/',
    ensures
        expanded(seq!['~'], home) == home,
        expanded(seq!['~', '/'], home) == home,
        expanded(seq!['~', '/'] + rest, home) == join_path(home, rest),
        expanded(seq!['~', '/'] + rest + seq!['/'], home) == join_path(home, rest),
{
    reveal_with_fuel(crate::home_dir::trim_leading_slashes, 2);
    reveal_with_fuel(crate::home_dir::trim_trailing_slashes, 2);
    assert(seq!['~'].drop_first() =~= Seq::<char>::empty());
    assert(seq!['~', '/'].drop_first() =~= seq!['/']);
    assert(seq!['/'].drop_first() =~= Seq::<char>::empty());
    let p = seq!['~', '/'] + rest;
    assert(p.drop_first() =~= seq!['/'] + rest);
    assert((seq!['/'] + rest).drop_first() =~= rest);
    let q = seq!['~', '/'] + rest + seq!['/'];
    assert(q.drop_first() =~= seq!['/'] + (rest + seq!['/']));
    assert((seq!['/'] + (rest + seq!['/'])).drop_first() =~= rest + seq!['/']);
    assert((rest + seq!['/']).drop_last() =~= rest);
}

} // verus!
