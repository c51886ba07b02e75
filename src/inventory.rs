//! What is installed: the version directories under the version root, the
//! entries of the engine cache, and the version the global pointer names.
use vstd::prelude::*;

use crate::error::SdkError;
use crate::layout::{flutter_version_dir, global_link_path, join, version_dir_of};

verus! {

/// One entry of a directory listing.
pub struct DirEntryInfo {
    pub name: String,
    pub is_dir: bool,
}

/// The names of the directories among `entries`, in listing order.
pub open spec fn dir_names(entries: Seq<DirEntryInfo>) -> Seq<String>
    decreases entries.len(),
{
    if entries.len() == 0 {
        seq![]
    } else {
        let rest = dir_names(entries.drop_last());
        if entries.last().is_dir {
            rest.push(entries.last().name)
        } else {
            rest
        }
    }
}

/// The names of the directories in a listing; other entries are ignored.
pub fn directory_names(entries: &Vec<DirEntryInfo>) -> (r: Vec<String>)
    ensures
        r@ == dir_names(entries@),
{
    let mut out: Vec<String> = Vec::new();
    let mut i: usize = 0;
    while i < entries.len()
        invariant
            i <= entries@.len(),
            out@ == dir_names(entries@.take(i as int)),
        decreases entries@.len() - i,
    {
        assert(entries@.take(i + 1).drop_last() =~= entries@.take(i as int));
        if entries[i].is_dir {
            out.push(entries[i].name.clone());
        }
        i += 1;
    }
    assert(entries@.take(entries@.len() as int) =~= entries@);
    out
}

/// The installed versions: each directory of the version root's listing
/// names one. A missing root lists nothing.
pub fn list_installed_versions(entries: &Vec<DirEntryInfo>) -> (r: Vec<String>)
    ensures
        r@ == dir_names(entries@),
{
    directory_names(entries)
}

/// The end of a path without its trailing separators and trailing `.`
/// components, looking before `j`.
pub open spec fn trailing_end(s: Seq<char>, j: int) -> int
    decreases j,
{
    if j > 0 && s[j - 1] == '/' {
        trailing_end(s, j - 1)
    } else if j > 1 && s[j - 1] == '.' && s[j - 2] == '/' {
        trailing_end(s, j - 2)
    } else {
        j
    }
}

/// Where the component that ends at `j` starts: just after the last
/// separator before `j`, or 0.
pub open spec fn component_start(s: Seq<char>, j: int) -> int
    decreases j,
{
    if j <= 0 {
        0
    } else if s[j - 1] == '/' {
        j
    } else {
        component_start(s, j - 1)
    }
}

/// The final component of a path, trailing separators and `.` components
/// ignored; none when it is empty, `.` or `..`.
pub open spec fn final_component(s: Seq<char>) -> Option<Seq<char>> {
    let e = trailing_end(s, s.len() as int);
    let c = s.subrange(component_start(s, e), e);
    if c.len() == 0 || c == "."@ || c == ".."@ {
        None
    } else {
        Some(c)
    }
}

/// The version a global pointer's target names: its final component.
pub fn version_of_link_target(target: &str) -> (r: Option<String>)
    ensures
        r matches Some(v) ==> final_component(target@) == Some(v@),
        r is None ==> final_component(target@) is None,
{
    let n = target.unicode_len();
    let mut e: usize = n;
    loop
        invariant
            n == target@.len(),
            e <= n,
            trailing_end(target@, e as int) == trailing_end(target@, n as int),
        ensures
            e <= n,
            e == trailing_end(target@, n as int),
        decreases e,
    {
        if e > 0 && target.get_char(e - 1) == '/' {
            e -= 1;
        } else if e > 1 && target.get_char(e - 1) == '.' && target.get_char(e - 2) == '/' {
            e -= 2;
        } else {
            break;
        }
    }
    let mut b: usize = e;
    while b > 0 && target.get_char(b - 1) != '/'
        invariant
            n == target@.len(),
            b <= e <= n,
            e == trailing_end(target@, n as int),
            component_start(target@, b as int) == component_start(target@, e as int),
        decreases b,
    {
        b -= 1;
    }
    proof {
        reveal_strlit("..");
        reveal_strlit(".");
    }
    let c = target.substring_char(b, e);
    if e - b == 0 || crate::text::str_eq(c, ".") || crate::text::str_eq(c, "..") {
        None
    } else {
        Some(c.to_owned())
    }
}

/// The version the global pointer of this tool names, if it is set.
pub fn get_global_version(primary_target: Option<String>) -> (r: Option<String>)
    ensures
        primary_target matches Some(t) ==> (match final_component(t@) {
            Some(v) => r matches Some(x) && x@ == v,
            None => r is None,
        }),
        primary_target is None ==> r is None,
{
    match primary_target {
        Some(t) => version_of_link_target(t.as_str()),
        None => None,
    }
}

/// The active version: the one this tool's pointer names, else the one
/// the older tool's pointer names.
pub fn get_global_flutter_version(primary_target: Option<String>, legacy_target: Option<String>) -> (r:
    Option<String>)
    ensures
        ({
            let p = match primary_target {
                Some(t) => final_component(t@),
                None => None,
            };
            let l = match legacy_target {
                Some(t) => final_component(t@),
                None => None,
            };
            match (p, l) {
                (Some(v), _) => r matches Some(x) && x@ == v,
                (None, Some(v)) => r matches Some(x) && x@ == v,
                (None, None) => r is None,
            }
        }),
{
    match get_global_version(primary_target) {
        Some(v) => Some(v),
        None => get_global_version(legacy_target),
    }
}

/// The global pointer to write: the link and the version directory it
/// points at.
pub struct GlobalLink {
    pub link_path: String,
    pub target: String,
}

/// Decides the global pointer for a version; a version that is not
/// installed is refused.
pub fn set_global_version(root: &str, version: &str, installed: bool) -> (r: Result<GlobalLink, SdkError>)
    ensures
        installed ==> (r matches Ok(l) && l.link_path@ == join(root@, "default"@) && l.target@
            == version_dir_of(root@, version@)),
        !installed ==> (r matches Err(SdkError::NotInstalled(v)) && v@ == version@),
{
    if !installed {
        return Err(SdkError::NotInstalled(version.to_owned()));
    }
    Ok(GlobalLink { link_path: global_link_path(root), target: flutter_version_dir(root, version) })
}

/// The pointer the global version is set by pointing at an installed
/// version's directory names that version again.
pub proof fn lemma_global_round_trip(root: Seq<char>, version: Seq<char>)
    requires
        version.len() > 0,
        !version.contains('/'),
        version != "."@,
        version != ".."@,
    ensures
        final_component(version_dir_of(root, version)) == Some(version),
{
    let t = version_dir_of(root, version);
    let n = t.len() as int;
    let start = n - version.len();
    assert(t.subrange(start, n) =~= version);
    assert(t[n - 1] == version[version.len() - 1]);
    assert(t[start - 1] == '/');
    if t[n - 1] == '.' && t[n - 2] == '/' {
        if version.len() == 1 {
            reveal_strlit(".");
            assert(version =~= "."@);
        } else {
            assert(t[n - 2] == version[version.len() - 2]);
        }
    }
    assert(trailing_end(t, n) == n);
    assert forall|j: int| start < j <= n implies component_start(t, j) == component_start(t, start) by {
        lemma_component_start_in_version(t, version, start, j);
    }
    assert(t[start - 1] == '/');
    assert(component_start(t, start) == start);
}

proof fn lemma_component_start_in_version(t: Seq<char>, version: Seq<char>, start: int, j: int)
    requires
        start == t.len() - version.len(),
        start >= 1,
        t.subrange(start, t.len() as int) == version,
        !version.contains('/'),
        start <= j <= t.len(),
    ensures
        component_start(t, j) == component_start(t, start),
    decreases j - start,
{
    if j > start {
        assert(t[j - 1] == version[j - 1 - start]);
        assert(t[j - 1] != '/');
        lemma_component_start_in_version(t, version, start, j - 1);
    }
}

} // verus!
