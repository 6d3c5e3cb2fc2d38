use vstd::prelude::*;
use vstd::string::*;

verus! {

/// Raised when a `~` path must be expanded and no home directory is known.
#[derive(Debug, Clone, Copy, PartialEq, Eq, Structural)]
pub enum HomeDirError {
    NotFound,
}

impl HomeDirError {
    /// The human-readable description of the error.
    pub fn message(&self) -> (r: &'static str)
        ensures
            r@ == home_dir_error_text(),
    {
        "No home dir was found the system"
    }
}

pub open spec fn home_dir_error_text() -> Seq<char> {
    "No home dir was found the system"@
}

/// A path is relative to the home directory when its first component is `~`.
pub open spec fn is_home_relative(p: Seq<char>) -> bool {
    p.len() > 0 && p[0] == '~' && (p.len() == 1 || p[1] == '/')
}

pub open spec fn trim_leading_slashes(s: Seq<char>) -> Seq<char>
    decreases s.len(),
{
    if s.len() > 0 && s[0] == '/' {
        trim_leading_slashes(s.drop_first())
    } else {
        s
    }
}

pub open spec fn trim_trailing_slashes(s: Seq<char>) -> Seq<char>
    decreases s.len(),
{
    if s.len() > 0 && s.last() == '/' {
        trim_trailing_slashes(s.drop_last())
    } else {
        s
    }
}

/// What follows the leading `~` of a home-relative path, without the
/// separators around it.
pub open spec fn home_remainder(p: Seq<char>) -> Seq<char> {
    trim_trailing_slashes(trim_leading_slashes(p.drop_first()))
}

/// Appends `part` to `base` as one more path component; an absolute `part`
/// replaces `base`.
pub open spec fn join_path(base: Seq<char>, part: Seq<char>) -> Seq<char> {
    if part.len() > 0 && part[0] == '/' {
        part
    } else if base.len() == 0 || base.last() == '/' {
        base + part
    } else {
        base + seq!['/'] + part
    }
}

/// `p` with a leading `~` component replaced by `home`; any other path as it is.
pub open spec fn expanded(p: Seq<char>, home: Seq<char>) -> Seq<char> {
    if !is_home_relative(p) {
        p
    } else if home_remainder(p).len() == 0 {
        home
    } else {
        join_path(home, home_remainder(p))
    }
}

/// Relies on directories::BaseDirs::new and BaseDirs::home_dir: the current
/// user's home directory, if the platform knows one. It depends on the
/// environment, so nothing is stated of it.
#[verifier::external_body]
pub(crate) fn lookup_home_dir() -> (r: Option<String>) {
    match directories::BaseDirs::new() {
        Some(dirs) => Some(dirs.home_dir().to_string_lossy().into_owned()),
        None => None,
    }
}

/// Joins `part` onto `base` as `join_path` describes.
pub fn join(base: &str, part: &str) -> (r: String)
    ensures
        r@ == join_path(base@, part@),
{
    let part_len = part.unicode_len();
    let base_len = base.unicode_len();
    if part_len > 0 && part.get_char(0) == '/' {
        return String::from_str(part);
    }
    let mut out = String::from_str(base);
    if !(base_len == 0 || base.get_char(base_len - 1) == '/') {
        proof {
            reveal_strlit("/");
        }
        out.append("/");
    }
    out.append(part);
    out
}

/// Expands a leading `~` of `path` against `home`; fails only when the path
/// needs a home directory and `home` is `None`.
pub fn expand_tilde_with(path: &str, home: &Option<String>) -> (r: Result<String, HomeDirError>)
    ensures
        !is_home_relative(path@) ==> r is Ok && r->Ok_0@ == path@,
        is_home_relative(path@) && home is None ==> r == Err::<String, HomeDirError>(
            HomeDirError::NotFound,
        ),
        is_home_relative(path@) && home is Some ==> r is Ok && r->Ok_0@ == expanded(
            path@,
            home->Some_0@,
        ),
{
    let n = path.unicode_len();
    if !(n > 0 && path.get_char(0) == '~' && (n == 1 || path.get_char(1) == '/')) {
        return Ok(String::from_str(path));
    }
    let h = match home {
        Some(h) => h,
        None => return Err(HomeDirError::NotFound),
    };
    let ghost s = path@;
    let mut i: usize = 1;
    while i < n && path.get_char(i) == '/'
        invariant
            1 <= i <= n,
            n == s.len(),
            s == path@,
            trim_leading_slashes(s.drop_first()) == trim_leading_slashes(s.subrange(i as int, n as int)),
        decreases n - i,
    {
        assert(s.subrange(i as int, n as int).drop_first() =~= s.subrange(i + 1, n as int));
        i = i + 1;
    }
    assert(trim_leading_slashes(s.subrange(i as int, n as int)) == s.subrange(i as int, n as int));
    let mut j: usize = n;
    while j > i && path.get_char(j - 1) == '/'
        invariant
            i <= j <= n,
            n == s.len(),
            s == path@,
            home_remainder(s) == trim_trailing_slashes(s.subrange(i as int, j as int)),
        decreases j - i,
    {
        assert(s.subrange(i as int, j as int).drop_last() =~= s.subrange(i as int, j - 1));
        j = j - 1;
    }
    assert(trim_trailing_slashes(s.subrange(i as int, j as int)) == s.subrange(i as int, j as int));
    if i == j {
        Ok(h.clone())
    } else {
        let rest = path.substring_char(i, j);
        Ok(join(h.as_str(), rest))
    }
}

/// Expands a leading `~` of `path` to the current user's home directory; any
/// other path is returned as it is. The home directory is only looked up when
/// the path needs it.
pub fn expand_tilde(path: &str) -> (r: Result<String, HomeDirError>)
    ensures
        !is_home_relative(path@) ==> r is Ok && r->Ok_0@ == path@,
        is_home_relative(path@) ==> (r is Ok ==> exists|h: Seq<char>| r->Ok_0@ == expanded(path@, h)),
{
    let n = path.unicode_len();
    if n > 0 && path.get_char(0) == '~' && (n == 1 || path.get_char(1) == '/') {
        let home = lookup_home_dir();
        expand_tilde_with(path, &home)
    } else {
        expand_tilde_with(path, &None)
    }
}

} // verus!
