use vstd::prelude::*;
use vstd::string::*;
use crate::session::{LinkSession, SessionModel, start};
use crate::config::{Config, Link, LinkGroup, LinkGroupModel, LinkModel, strings_view};
use crate::home_dir::{
    HomeDirError,
    expand_tilde_with,
    expanded,
    is_home_relative,
    join,
    join_path,
    lookup_home_dir,
};

verus! {

/// std::io::Error, carried through the library as an opaque value: the
/// failures of filesystem steps are reported, never inspected.
#[verifier::external_type_specification]
#[verifier::external_body]
pub struct ExIoError(std::io::Error);

/// One resolved link: `to` should become a symbolic link to `from`.
pub struct LinkToCreate {
    from: String,
    to: String,
    force: bool,
}

/// What a `LinkToCreate` stands for in contracts.
pub struct LinkSpec {
    pub from: Seq<char>,
    pub to: Seq<char>,
    pub force: bool,
}

impl View for LinkToCreate {
    type V = LinkSpec;

    closed spec fn view(&self) -> LinkSpec {
        LinkSpec { from: self.from@, to: self.to@, force: self.force }
    }
}

impl LinkToCreate {
    /// The link that makes `to` point at `from`.
    pub fn new(from: String, to: String, force: bool) -> (r: LinkToCreate)
        ensures
            r@ == (LinkSpec { from: from@, to: to@, force }),
    {
        LinkToCreate { from, to, force }
    }

    pub fn from(&self) -> (r: &String)
        ensures
            r@ == self@.from,
    {
        &self.from
    }

    pub fn to(&self) -> (r: &String)
        ensures
            r@ == self@.to,
    {
        &self.to
    }

    pub fn force(&self) -> (r: bool)
        ensures
            r == self@.force,
    {
        self.force
    }
}

/// Errors that stop the resolution of the whole configuration.
pub enum LinkPreparationError {
    IoError(std::io::Error),
    HomeDirError(HomeDirError),
}

/// The link that `item` of a group with (expanded) directory `dir` asks for.
pub open spec fn link_spec_of(dir: Seq<char>, item: LinkModel, home: Seq<char>) -> LinkSpec {
    LinkSpec { from: expanded(item.path, home), to: join_path(dir, item.name), force: item.force }
}

/// The links of one group, in item order.
pub open spec fn group_links(g: LinkGroupModel, home: Seq<char>) -> Seq<LinkSpec> {
    g.items.map_values(|item: LinkModel| link_spec_of(expanded(g.destination, home), item, home))
}

/// A group applies only where its `os` list names the platform; a group
/// without a list applies nowhere.
pub open spec fn group_applies(g: LinkGroupModel, os: Seq<char>) -> bool {
    match g.os {
        Some(l) => l.contains(os),
        None => false,
    }
}

/// Resolving the group needs the home directory.
pub open spec fn group_needs_home(g: LinkGroupModel) -> bool {
    is_home_relative(g.destination) || exists|j: int|
        0 <= j < g.items.len() && is_home_relative(#[trigger] g.items[j].path)
}

/// Resolving the groups needs the home directory.
pub open spec fn needs_home(groups: Seq<LinkGroupModel>, os: Seq<char>) -> bool {
    exists|i: int|
        0 <= i < groups.len() && group_applies(groups[i], os) && group_needs_home(
            #[trigger] groups[i],
        )
}

/// The links of all the groups that apply on `os`, in configuration order.
pub open spec fn resolved(groups: Seq<LinkGroupModel>, os: Seq<char>, home: Seq<char>) -> Seq<
    LinkSpec,
>
    decreases groups.len(),
{
    if groups.len() == 0 {
        seq![]
    } else {
        resolved(groups.drop_last(), os, home) + if group_applies(groups.last(), os) {
            group_links(groups.last(), home)
        } else {
            seq![]
        }
    }
}

pub open spec fn home_or_empty(home: Option<String>) -> Seq<char> {
    match home {
        Some(h) => h@,
        None => seq![],
    }
}

pub open spec fn specs_view(v: Seq<LinkToCreate>) -> Seq<LinkSpec> {
    v.map_values(|l: LinkToCreate| l@)
}

/// The link that `item` asks for inside the directory `destination`.
pub fn link_to_create(destination: &String, item: Link) -> (r: LinkToCreate)
    ensures
        r@ == (LinkSpec { from: item.path@, to: join_path(destination@, item.name@), force: item.force }),
{
    let to = join(destination.as_str(), item.name.as_str());
    LinkToCreate { from: item.path, to, force: item.force }
}

/// Resolves one group against `home`, expanding `~` in its directory and in
/// each item's path.
pub fn links_of_group(group: LinkGroup, home: &Option<String>) -> (r: Result<
    Vec<LinkToCreate>,
    LinkPreparationError,
>)
    ensures
        home is Some || !group_needs_home(group@) ==> r is Ok && specs_view(r->Ok_0@)
            == group_links(group@, home_or_empty(*home)),
        home is None && group_needs_home(group@) ==> r is Err && r->Err_0 is HomeDirError,
{
    let ghost g = group@;
    let ghost h = home_or_empty(*home);
    let LinkGroup { preset: _, os: _, destination, items } = group;
    let destination = match expand_tilde_with(destination.as_str(), home) {
        Ok(d) => d,
        Err(e) => return Err(LinkPreparationError::HomeDirError(e)),
    };
    assert(home is Some || !is_home_relative(g.destination));
    assert(destination@ == expanded(g.destination, h));
    let mut result: Vec<LinkToCreate> = Vec::new();
    let n = items.len();
    let mut rest = items;
    let mut k: usize = 0;
    while k < n
        invariant
            k <= n,
            n == g.items.len(),
            rest@.len() == n - k,
            forall|j: int| 0 <= j < n - k ==> (#[trigger] rest@[j])@ == g.items[k + j],
            specs_view(result@) == group_links(g, h).subrange(0, k as int),
            destination@ == expanded(g.destination, h),
            home_or_empty(*home) == h,
            g == group@,
            home is None ==> forall|j: int| 0 <= j < k ==> !is_home_relative(#[trigger] g.items[j].path),
        decreases n - k,
    {
        let mut item = rest.remove(0);
        assert(item@ == g.items[k as int]);
        let path = match expand_tilde_with(item.path.as_str(), home) {
            Ok(p) => p,
            Err(e) => {
                assert(home is None);
                assert(is_home_relative(g.items[k as int].path));
                assert(group_needs_home(g));
                return Err(LinkPreparationError::HomeDirError(e));
            },
        };
        assert(path@ == expanded(g.items[k as int].path, h));
        item.path = path;
        let link = link_to_create(&destination, item);
        assert(link@ == group_links(g, h)[k as int]);
        let ghost before = result@;
        result.push(link);
        assert(result@ == before.push(link));
        assert(specs_view(result@) =~= specs_view(before).push(link@));
        assert(specs_view(result@) =~= group_links(g, h).subrange(0, k + 1));
        k = k + 1;
    }
    assert(group_links(g, h).subrange(0, n as int) =~= group_links(g, h));
    Ok(result)
}

/// Whether the `os` list of a group names the platform `os`.
pub fn applies_on(list: &Option<Vec<String>>, os: &String) -> (r: bool)
    ensures
        r == (list is Some && strings_view(list->Some_0@).contains(os@)),
{
    match list {
        None => false,
        Some(l) => {
            let mut i: usize = 0;
            while i < l.len()
                invariant
                    i <= l@.len(),
                    list is Some && list->Some_0@ == l@,
                    forall|j: int| 0 <= j < i ==> (#[trigger] l@[j])@ != os@,
                decreases l@.len() - i,
            {
                if l[i] == *os {
                    assert(strings_view(l@).len() == l@.len());
                    assert(strings_view(l@)[i as int] == os@);
                    assert(strings_view(l@).contains(os@));
                    return true;
                }
                i = i + 1;
            }
            assert(!strings_view(l@).contains(os@)) by {
                if strings_view(l@).contains(os@) {
                    let j = choose|j: int| 0 <= j < l@.len() && strings_view(l@)[j] == os@;
                    assert(l@[j]@ == os@);
                }
            }
            false
        },
    }
}

/// Resolves the groups of `config` that apply on the platform `os`, in
/// configuration order, against the home directory `home`.
pub fn retrieve_links_to_create(config: Config, os: &str, home: &Option<String>) -> (r: Result<
    Vec<LinkToCreate>,
    LinkPreparationError,
>)
    ensures
        home is Some || !needs_home(config@, os@) ==> r is Ok && specs_view(r->Ok_0@) == resolved(
            config@,
            os@,
            home_or_empty(*home),
        ),
        home is None && needs_home(config@, os@) ==> r is Err && r->Err_0 is HomeDirError,
{
    let ghost cfg = config@;
    let ghost h = home_or_empty(*home);
    let current_os = String::from_str(os);
    let Config { links } = config;
    let n = links.len();
    let mut rest = links;
    let mut result: Vec<LinkToCreate> = Vec::new();
    let mut k: usize = 0;
    while k < n
        invariant
            k <= n,
            n == cfg.len(),
            rest@.len() == n - k,
            forall|j: int| 0 <= j < n - k ==> (#[trigger] rest@[j])@ == cfg[k + j],
            specs_view(result@) == resolved(cfg.subrange(0, k as int), os@, h),
            current_os@ == os@,
            home_or_empty(*home) == h,
            cfg == config@,
            home is None ==> forall|j: int|
                0 <= j < k ==> !(group_applies(#[trigger] cfg[j], os@) && group_needs_home(cfg[j])),
        decreases n - k,
    {
        let group = rest.remove(0);
        assert(group@ == cfg[k as int]);
        assert(cfg.subrange(0, k + 1).drop_last() =~= cfg.subrange(0, k as int));
        if applies_on(&group.os, &current_os) {
            assert(group_applies(cfg[k as int], os@));
            let links = match links_of_group(group, home) {
                Ok(v) => v,
                Err(e) => {
                    assert(needs_home(cfg, os@));
                    return Err(e);
                },
            };
            let ghost before = result@;
            let mut links = links;
            result.append(&mut links);
            assert(specs_view(result@) =~= specs_view(before) + group_links(cfg[k as int], h));
        } else {
            assert(!group_applies(cfg[k as int], os@));
        }
        k = k + 1;
    }
    assert(cfg.subrange(0, n as int) =~= cfg);
    Ok(result)
}

/// Where no applying group needs the home directory, the resolved links do
/// not depend on it.
pub proof fn lemma_resolved_without_home(
    groups: Seq<LinkGroupModel>,
    os: Seq<char>,
    h1: Seq<char>,
    h2: Seq<char>,
)
    requires
        !needs_home(groups, os),
    ensures
        resolved(groups, os, h1) == resolved(groups, os, h2),
    decreases groups.len(),
{
    if groups.len() > 0 {
        let init = groups.drop_last();
        assert forall|i: int| 0 <= i < init.len() implies !(group_applies(init[i], os)
            && group_needs_home(#[trigger] init[i])) by {
            assert(init[i] == groups[i]);
        }
        lemma_resolved_without_home(init, os, h1, h2);
        let g = groups.last();
        if group_applies(g, os) {
            assert(groups[groups.len() - 1] == g);
            assert(!group_needs_home(g));
            assert forall|j: int| 0 <= j < g.items.len() implies #[trigger] g.items[j].path
                == expanded(g.items[j].path, h1) && g.items[j].path == expanded(g.items[j].path, h2) by {
                assert(!is_home_relative(g.items[j].path));
            }
            assert(group_links(g, h1) =~= group_links(g, h2));
        }
    }
}

pub open spec fn started(links: Seq<LinkSpec>) -> Seq<SessionModel> {
    links.map_values(|l: LinkSpec| start(l))
}

pub open spec fn sessions_view(v: Seq<LinkSession>) -> Seq<SessionModel> {
    v.map_values(|s: LinkSession| s@)
}

/// Resolves `config` on the platform `os` against the current user's home
/// directory, and opens one session per resolved link, in order. Fails only
/// when a `~` path must be expanded and no home directory is known.
pub fn symlink_by_config(config: Config, os: &str) -> (r: Result<
    Vec<LinkSession>,
    LinkPreparationError,
>)
    ensures
        !needs_home(config@, os@) ==> r is Ok && sessions_view(r->Ok_0@) == started(
            resolved(config@, os@, seq![]),
        ),
        r is Ok ==> exists|h: Seq<char>|
            sessions_view(r->Ok_0@) == started(#[trigger] resolved(config@, os@, h)),
        r is Ok ==> forall|i: int| 0 <= i < r->Ok_0@.len() ==> (#[trigger] r->Ok_0@[i]).wf(),
        r is Err ==> needs_home(config@, os@) && r->Err_0 is HomeDirError,
{
    let ghost cfg = config@;
    let home = lookup_home_dir();
    let ghost h = home_or_empty(home);
    let links = retrieve_links_to_create(config, os, &home)?;
    let n = links.len();
    let mut rest = links;
    let mut sessions: Vec<LinkSession> = Vec::new();
    let ghost all = specs_view(rest@);
    assert(all == resolved(cfg, os@, h));
    let mut k: usize = 0;
    while k < n
        invariant
            k <= n,
            n == all.len(),
            rest@.len() == n - k,
            forall|j: int| 0 <= j < n - k ==> (#[trigger] rest@[j])@ == all[k + j],
            sessions_view(sessions@) == started(all.subrange(0, k as int)),
            forall|i: int| 0 <= i < sessions@.len() ==> (#[trigger] sessions@[i]).wf(),
        decreases n - k,
    {
        let item = rest.remove(0);
        assert(item@ == all[k as int]);
        let session = LinkSession::new(item);
        assert(session@ == start(all[k as int]));
        let ghost before = sessions@;
        sessions.push(session);
        assert(sessions@ == before.push(session));
        assert(sessions_view(sessions@) =~= sessions_view(before).push(session@));
        assert(started(all.subrange(0, k + 1)) =~= started(all.subrange(0, k as int)).push(
            start(all[k as int]),
        ));
        k = k + 1;
    }
    assert(all.subrange(0, n as int) =~= all);
    proof {
        if !needs_home(cfg, os@) {
            lemma_resolved_without_home(cfg, os@, h, seq![]);
        }
    }
    Ok(sessions)
}

} // verus!
