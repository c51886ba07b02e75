//! The on-disk layout under the tool's root directory: the shared source
//! repository, the engine cache, the installed versions and the marker
//! files inside each of them.
use vstd::prelude::*;

use crate::text::concat;
use crate::version::{parse_fork_syntax, token_alias};

verus! {

/// `a` and `b` joined by one path separator.
pub open spec fn join(a: Seq<char>, b: Seq<char>) -> Seq<char> {
    a + seq!['/'] + b
}

/// Joins two path pieces with one separator.
pub fn join_path(a: &str, b: &str) -> (r: String)
    ensures
        r@ == join(a@, b@),
{
    let with_sep = concat(a, "/");
    proof {
        reveal_strlit("/");
    }
    concat(with_sep.as_str(), b)
}

pub open spec fn root_dir_of(home: Seq<char>) -> Seq<char> {
    join(home, ".fvm-rs"@)
}

pub open spec fn shared_dir_of(root: Seq<char>) -> Seq<char> {
    join(root, "shared"@)
}

pub open spec fn shared_flutter_dir_of(root: Seq<char>) -> Seq<char> {
    join(shared_dir_of(root), "flutter"@)
}

/// The shared bare repository of a fork's origin.
pub open spec fn fork_repo_dir_of(root: Seq<char>, alias: Seq<char>) -> Seq<char> {
    join(join(shared_dir_of(root), "forks"@), alias)
}

/// The shared bare repository a token's sources come from: one for the
/// default origin, and one per fork alias.
pub open spec fn repo_dir_of(root: Seq<char>, token: Seq<char>) -> Seq<char> {
    match token_alias(token) {
        Some(a) => fork_repo_dir_of(root, a),
        None => shared_flutter_dir_of(root),
    }
}

pub open spec fn shared_engine_dir_of(root: Seq<char>) -> Seq<char> {
    join(shared_dir_of(root), "engine"@)
}

pub open spec fn flutter_dir_of(root: Seq<char>) -> Seq<char> {
    join(root, "flutter"@)
}

pub open spec fn version_dir_of(root: Seq<char>, version: Seq<char>) -> Seq<char> {
    join(flutter_dir_of(root), version)
}

pub open spec fn engine_hash_dir_of(root: Seq<char>, hash: Seq<char>) -> Seq<char> {
    join(shared_engine_dir_of(root), hash)
}

pub open spec fn staging_dir_of(root: Seq<char>) -> Seq<char> {
    join(shared_dir_of(root), "staging"@)
}

pub open spec fn engine_staging_dir_of(root: Seq<char>, hash: Seq<char>) -> Seq<char> {
    join(staging_dir_of(root), hash)
}

pub open spec fn cache_dir_of(version_dir: Seq<char>) -> Seq<char> {
    join(join(version_dir, "bin"@), "cache"@)
}

/// Each origin has its own shared repository: tokens with different fork
/// aliases, or a plain token and a fork-qualified one, never share one.
pub proof fn lemma_repo_per_origin(root: Seq<char>, a: Seq<char>, b: Seq<char>)
    ensures
        token_alias(a) != token_alias(b) ==> repo_dir_of(root, a) != repo_dir_of(root, b),
        token_alias(a) == token_alias(b) ==> repo_dir_of(root, a) == repo_dir_of(root, b),
{
    reveal_strlit("forks");
    reveal_strlit("flutter");
    let p = shared_dir_of(root);
    let k: int = p.len() as int + 2;
    assert("forks"@[1] == 'o' && "forks"@.len() == 5);
    assert("flutter"@[1] == 'l' && "flutter"@.len() == 7);
    if token_alias(a) != token_alias(b) {
        match (token_alias(a), token_alias(b)) {
            (Some(x), Some(y)) => {
                let q = join(p, "forks"@);
                if repo_dir_of(root, a) == repo_dir_of(root, b) {
                    assert(x =~= join(q, x).subrange(q.len() as int + 1, join(q, x).len() as int));
                    assert(y =~= join(q, y).subrange(q.len() as int + 1, join(q, y).len() as int));
                }
            },
            (Some(x), None) => {
                assert(repo_dir_of(root, a)[k] == 'o');
                assert(repo_dir_of(root, b)[k] == 'l');
            },
            (None, Some(y)) => {
                assert(repo_dir_of(root, a)[k] == 'l');
                assert(repo_dir_of(root, b)[k] == 'o');
            },
            (None, None) => {},
        }
    }
}

/// The tool's root directory inside a home directory.
pub fn fvm_rs_root_dir(home: &str) -> (r: String)
    ensures
        r@ == root_dir_of(home@),
{
    join_path(home, ".fvm-rs")
}

/// The directory that holds every resource shared between versions.
pub fn shared_dir(root: &str) -> (r: String)
    ensures
        r@ == shared_dir_of(root@),
{
    join_path(root, "shared")
}

/// The shared bare source repository.
pub fn shared_flutter_dir(root: &str) -> (r: String)
    ensures
        r@ == shared_flutter_dir_of(root@),
{
    let s = shared_dir(root);
    join_path(s.as_str(), "flutter")
}

/// The shared bare repository of a fork alias.
pub fn fork_repo_dir(root: &str, alias: &str) -> (r: String)
    ensures
        r@ == fork_repo_dir_of(root@, alias@),
{
    let s = shared_dir(root);
    let f = join_path(s.as_str(), "forks");
    join_path(f.as_str(), alias)
}

/// The shared bare repository a token's sources come from: the default
/// origin's for a plain token, the fork's own for a fork-qualified one.
pub fn shared_repo_dir(root: &str, version: &str) -> (r: String)
    ensures
        r@ == repo_dir_of(root@, version@),
{
    let (alias, _bare) = parse_fork_syntax(version);
    match alias {
        Some(a) => fork_repo_dir(root, a.as_str()),
        None => shared_flutter_dir(root),
    }
}

/// The engine cache: one directory per engine hash.
pub fn shared_engine_dir(root: &str) -> (r: String)
    ensures
        r@ == shared_engine_dir_of(root@),
{
    let s = shared_dir(root);
    join_path(s.as_str(), "engine")
}

/// The directory under which each installed version has its own directory.
pub fn flutter_dir(root: &str) -> (r: String)
    ensures
        r@ == flutter_dir_of(root@),
{
    join_path(root, "flutter")
}

/// The directory of one installed version, named by its token.
pub fn flutter_version_dir(root: &str, version: &str) -> (r: String)
    ensures
        r@ == version_dir_of(root@, version@),
{
    let f = flutter_dir(root);
    join_path(f.as_str(), version)
}

/// The engine cache entry of one engine hash.
pub fn shared_engine_hash_dir(root: &str, hash: &str) -> (r: String)
    ensures
        r@ == engine_hash_dir_of(root@, hash@),
{
    let e = shared_engine_dir(root);
    join_path(e.as_str(), hash)
}

/// Where engines are extracted before they move into the cache; outside
/// the cache, so that collection never sees a partial entry.
pub fn staging_dir(root: &str) -> (r: String)
    ensures
        r@ == staging_dir_of(root@),
{
    let s = shared_dir(root);
    join_path(s.as_str(), "staging")
}

/// Where the engine of a hash is extracted before it moves into the cache.
pub fn engine_staging_dir(root: &str, hash: &str) -> (r: String)
    ensures
        r@ == engine_staging_dir_of(root@, hash@),
{
    let st = staging_dir(root);
    join_path(st.as_str(), hash)
}

/// The directory inside an installed version that holds its engine markers
/// and its link into the engine cache.
pub fn cache_dir(version_dir: &str) -> (r: String)
    ensures
        r@ == cache_dir_of(version_dir@),
{
    let b = join_path(version_dir, "bin");
    join_path(b.as_str(), "cache")
}

/// The marker file whose content is the engine hash a version depends on.
pub fn engine_stamp_path(version_dir: &str) -> (r: String)
    ensures
        r@ == join(cache_dir_of(version_dir@), "engine.stamp"@),
{
    let c = cache_dir(version_dir);
    join_path(c.as_str(), "engine.stamp")
}

/// The executable whose presence marks a version as installed.
pub fn flutter_bin_path(version_dir: &str, windows: bool) -> (r: String)
    ensures
        r@ == join(join(version_dir@, "bin"@), if windows { "flutter.bat"@ } else { "flutter"@ }),
{
    let b = join_path(version_dir, "bin");
    if windows {
        join_path(b.as_str(), "flutter.bat")
    } else {
        join_path(b.as_str(), "flutter")
    }
}

/// The global pointer this tool writes.
pub fn global_link_path(root: &str) -> (r: String)
    ensures
        r@ == join(root@, "default"@),
{
    join_path(root, "default")
}

/// The global pointer of the older tool, read for compatibility.
pub fn legacy_global_link_path(home: &str) -> (r: String)
    ensures
        r@ == join(join(home@, ".fvm"@), "default"@),
{
    let d = join_path(home, ".fvm");
    join_path(d.as_str(), "default")
}

/// The global configuration file.
pub fn global_config_path(root: &str) -> (r: String)
    ensures
        r@ == join(root@, ".fvmrc"@),
{
    join_path(root, ".fvmrc")
}

} // verus!
