//! Version tokens: an optional fork alias before the first `/`, the bare
//! version after it, channel names and the per-version worktree name.
use vstd::prelude::*;

use crate::text::{concat, str_eq};

verus! {

/// Index of the first `/` at or after `i`, or the length when there is none.
pub open spec fn slash_from(s: Seq<char>, i: int) -> int
    decreases s.len() - i,
{
    if i >= s.len() {
        s.len() as int
    } else if s[i] == '/' {
        i
    } else {
        slash_from(s, i + 1)
    }
}

/// Index of the first `/` of a token, or its length when it holds none.
pub open spec fn first_slash(s: Seq<char>) -> int {
    slash_from(s, 0)
}

/// The fork alias of a token: what stands before its first `/`, if any.
pub open spec fn token_alias(s: Seq<char>) -> Option<Seq<char>> {
    let k = first_slash(s);
    if k < s.len() {
        Some(s.subrange(0, k))
    } else {
        None
    }
}

/// The bare version of a token: what follows its first `/`, or the whole
/// token when it holds none.
pub open spec fn bare_version(s: Seq<char>) -> Seq<char> {
    let k = first_slash(s);
    if k < s.len() {
        s.subrange(k + 1, s.len() as int)
    } else {
        s
    }
}

proof fn lemma_slash_from(s: Seq<char>, i: int)
    requires
        0 <= i <= s.len(),
    ensures
        i <= slash_from(s, i) <= s.len(),
        slash_from(s, i) < s.len() ==> s[slash_from(s, i)] == '/',
        forall|j: int| i <= j < slash_from(s, i) ==> s[j] != '/',
    decreases s.len() - i,
{
    if i < s.len() && s[i] != '/' {
        lemma_slash_from(s, i + 1);
    }
}

/// A token splits at its first `/`: with one, the alias holds no `/` and the
/// token is the alias, a `/` and the bare version; without one, there is no
/// alias and the bare version is the token itself.
pub proof fn lemma_token_split(s: Seq<char>)
    ensures
        s.contains('/') ==> ({
            let a = token_alias(s);
            &&& a is Some
            &&& !a->0.contains('/')
            &&& s == a->0 + seq!['/'] + bare_version(s)
        }),
        !s.contains('/') ==> token_alias(s) is None && bare_version(s) == s,
{
    lemma_slash_from(s, 0);
    let k = first_slash(s);
    if s.contains('/') {
        let w = choose|w: int| 0 <= w < s.len() && s[w] == '/';
        assert(k < s.len()) by {
            if k >= s.len() {
                assert(s[w] != '/');
            }
        }
        let a = s.subrange(0, k);
        assert(!a.contains('/')) by {
            if a.contains('/') {
                let x = choose|x: int| 0 <= x < a.len() && a[x] == '/';
                assert(s[x] == '/');
            }
        }
        assert(s =~= a + seq!['/'] + bare_version(s));
    } else {
        if k < s.len() {
            assert(s[k] == '/');
        }
    }
}

/// Splits a token at its first `/` into the fork alias and the bare version.
pub fn parse_fork_syntax(version: &str) -> (r: (Option<String>, String))
    ensures
        r.0 matches Some(a) ==> token_alias(version@) == Some(a@),
        r.0 is None ==> token_alias(version@) is None,
        r.1@ == bare_version(version@),
{
    let n = version.unicode_len();
    let mut i: usize = 0;
    while i < n && version.get_char(i) != '/'
        invariant
            n == version@.len(),
            i <= n,
            slash_from(version@, i as int) == first_slash(version@),
        decreases n - i,
    {
        i += 1;
    }
    proof {
        lemma_slash_from(version@, i as int);
    }
    if i < n {
        let alias = version.substring_char(0, i).to_owned();
        let rest = version.substring_char(i + 1, n).to_owned();
        (Some(alias), rest)
    } else {
        (None, version.to_owned())
    }
}

/// The bare version of a token, without its fork alias.
pub fn strip_fork_alias(version: &str) -> (r: String)
    ensures
        r@ == bare_version(version@),
{
    parse_fork_syntax(version).1
}

/// The names of the rolling release tracks.
pub open spec fn is_channel_name(s: Seq<char>) -> bool {
    s == "stable"@ || s == "beta"@ || s == "master"@ || s == "dev"@
}

/// Whether a version names a channel rather than a pinned release.
pub fn is_channel(version: &str) -> (r: bool)
    ensures
        r == is_channel_name(version@),
{
    proof {
        reveal_strlit("stable");
        reveal_strlit("beta");
        reveal_strlit("master");
        reveal_strlit("dev");
    }
    str_eq(version, "stable") || str_eq(version, "beta") || str_eq(version, "master") || str_eq(
        version,
        "dev",
    )
}

/// The prefix of every worktree name.
pub open spec fn worktree_prefix() -> Seq<char> {
    "fvm-"@
}

/// The worktree name of a token: the prefix followed by its bare version.
pub open spec fn worktree_name_of(token: Seq<char>) -> Seq<char> {
    worktree_prefix() + bare_version(token)
}

/// The name under which the shared repository registers a version's worktree.
pub fn worktree_name(version: &str) -> (r: String)
    ensures
        r@ == worktree_name_of(version@),
{
    let bare = strip_fork_alias(version);
    concat("fvm-", bare.as_str())
}

/// Worktree names depend on the bare version alone, and two tokens whose
/// bare versions differ never share one.
pub proof fn lemma_worktree_name(a: Seq<char>, b: Seq<char>)
    ensures
        worktree_name_of(a) == worktree_name_of(b) <==> bare_version(a) == bare_version(b),
        worktree_name_of(a).subrange(0, worktree_prefix().len() as int) == worktree_prefix(),
{
    let p = worktree_prefix();
    if worktree_name_of(a) == worktree_name_of(b) {
        assert(bare_version(a) =~= worktree_name_of(a).subrange(p.len() as int, worktree_name_of(a).len() as int));
        assert(bare_version(b) =~= worktree_name_of(b).subrange(p.len() as int, worktree_name_of(b).len() as int));
    }
    assert(worktree_name_of(a).subrange(0, p.len() as int) =~= p);
}

} // verus!
