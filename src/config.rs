use vstd::prelude::*;

verus! {

/// The whole configuration: an ordered list of link groups.
pub struct Config {
    pub links: Vec<LinkGroup>,
}

/// A set of links sharing one destination directory and one platform gate.
pub struct LinkGroup {
    pub preset: Option<Vec<String>>,
    pub os: Option<Vec<String>>,
    pub destination: String,
    pub items: Vec<Link>,
}

/// One configured link: its name inside the destination directory, the path
/// it points at, and whether an existing entry may be replaced.
pub struct Link {
    pub name: String,
    pub path: String,
    pub force: bool,
}

/// What a `Link` stands for in contracts.
pub struct LinkModel {
    pub name: Seq<char>,
    pub path: Seq<char>,
    pub force: bool,
}

/// What a `LinkGroup` stands for in contracts; the preset tag plays no part
/// in resolution and is left out.
pub struct LinkGroupModel {
    pub os: Option<Seq<Seq<char>>>,
    pub destination: Seq<char>,
    pub items: Seq<LinkModel>,
}

impl View for Link {
    type V = LinkModel;

    open spec fn view(&self) -> LinkModel {
        LinkModel { name: self.name@, path: self.path@, force: self.force }
    }
}

pub open spec fn strings_view(v: Seq<String>) -> Seq<Seq<char>> {
    v.map_values(|s: String| s@)
}

impl View for LinkGroup {
    type V = LinkGroupModel;

    open spec fn view(&self) -> LinkGroupModel {
        LinkGroupModel {
            os: match self.os {
                Some(v) => Some(strings_view(v@)),
                None => None,
            },
            destination: self.destination@,
            items: self.items@.map_values(|l: Link| l@),
        }
    }
}

impl View for Config {
    type V = Seq<LinkGroupModel>;

    open spec fn view(&self) -> Seq<LinkGroupModel> {
        self.links@.map_values(|g: LinkGroup| g@)
    }
}

} // verus!
