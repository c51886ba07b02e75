//! The plans of installing and removing one version: which origin its
//! sources come from, how its engine hash is read, what the source checkout
//! is handed, how the engine is linked in, and what removal touches.
use vstd::prelude::*;

use crate::config::{fork_url_of, FlutterFork, GlobalConfig};
use crate::error::SdkError;
use crate::layout::{
    cache_dir, cache_dir_of, engine_hash_dir_of, flutter_version_dir, join, join_path,
    repo_dir_of, shared_engine_hash_dir, shared_repo_dir, version_dir_of,
};
use crate::text::{concat, trim_text, trimmed};
use crate::version::{bare_version, parse_fork_syntax, strip_fork_alias, token_alias, worktree_name, worktree_name_of};

verus! {

/// The origin of a token's sources: the registered fork's URL for a
/// fork-qualified token, else the default origin.
pub open spec fn repo_url_of(token: Seq<char>, forks: Seq<FlutterFork>, default_url: Seq<char>) -> Option<Seq<char>> {
    match token_alias(token) {
        Some(a) => fork_url_of(forks, a),
        None => Some(default_url),
    }
}

/// Resolves the origin of a token's sources; a fork alias that is not
/// registered is refused.
pub fn get_flutter_repo_url(version: &str, config: &GlobalConfig, default_url: &str) -> (r: Result<String, SdkError>)
    ensures
        repo_url_of(version@, config.forks@, default_url@) matches Some(u) ==> (r matches Ok(s) && s@ == u),
        repo_url_of(version@, config.forks@, default_url@) is None ==> (r matches Err(SdkError::ForkNotFound(a))
            && token_alias(version@) == Some(a@)),
{
    let (alias, _bare) = parse_fork_syntax(version);
    match alias {
        Some(a) => match config.get_fork_url(a.as_str()) {
            Some(u) => Ok(u),
            None => Err(SdkError::ForkNotFound(a)),
        },
        None => Ok(default_url.to_owned()),
    }
}

/// The engine hash published for a version: the fetched text without
/// surrounding white space.
pub fn parse_engine_hash(text: &str) -> (r: String)
    ensures
        r@ == trimmed(text@),
{
    trim_text(text)
}

/// The engine hash an installed version depends on, from the content of
/// its marker file; a missing or unreadable marker gives none.
pub fn engine_hash_from_marker(content: Option<String>) -> (r: Option<String>)
    ensures
        content matches Some(c) ==> (r matches Some(h) && h@ == trimmed(c@)),
        content is None ==> r is None,
{
    match content {
        Some(c) => Some(trim_text(c.as_str())),
        None => None,
    }
}

/// What the source checkout of one version is handed: the shared bare
/// repository and its origin, the worktree's name and directory, the
/// channel branch the worktree starts on, the tag it is reset to, and the
/// upstream settings of the branch (`origin` and the branch itself).
pub struct SourceCheckout {
    pub repo_dir: String,
    pub repo_url: String,
    pub worktree_name: String,
    pub version_dir: String,
    pub branch_ref: String,
    pub tag_ref: String,
    pub remote_key: String,
    pub merge_key: String,
}

/// Whether `s` is the checkout of `token` on `channel` from `url` under `root`.
pub open spec fn is_checkout(s: SourceCheckout, root: Seq<char>, token: Seq<char>, channel: Seq<char>, url: Seq<char>) -> bool {
    &&& s.repo_dir@ == repo_dir_of(root, token)
    &&& s.repo_url@ == url
    &&& s.worktree_name@ == worktree_name_of(token)
    &&& s.version_dir@ == version_dir_of(root, token)
    &&& s.branch_ref@ == "refs/heads/"@ + channel
    &&& s.tag_ref@ == "refs/tags/"@ + bare_version(token)
    &&& s.remote_key@ == "branch."@ + channel + ".remote"@
    &&& s.merge_key@ == "branch."@ + channel + ".merge"@
}

/// Plans the checkout of a token's bare version on its channel.
pub fn source_checkout(root: &str, version: &str, channel: &str, repo_url: &str) -> (r: SourceCheckout)
    ensures
        is_checkout(r, root@, version@, channel@, repo_url@),
{
    let bare = strip_fork_alias(version);
    let k = concat("branch.", channel);
    SourceCheckout {
        repo_dir: shared_repo_dir(root, version),
        repo_url: repo_url.to_owned(),
        worktree_name: worktree_name(version),
        version_dir: flutter_version_dir(root, version),
        branch_ref: concat("refs/heads/", channel),
        tag_ref: concat("refs/tags/", bare.as_str()),
        remote_key: concat(k.as_str(), ".remote"),
        merge_key: concat(k.as_str(), ".merge"),
    }
}

/// What linking an installed version to its engine writes: the cache
/// directory, two stamps holding the engine hash, an empty realm file, and
/// a link from the version's engine path to the cache entry.
pub struct LinkPlan {
    pub cache_dir: String,
    pub engine_stamp: String,
    pub dart_sdk_stamp: String,
    pub realm_file: String,
    pub stamp_content: String,
    pub realm_content: String,
    pub link_path: String,
    pub link_target: String,
}

/// Whether `p` links the version directory `vdir` to the cache entry of
/// `hash` under `root`.
pub open spec fn is_link_plan(p: LinkPlan, root: Seq<char>, hash: Seq<char>, vdir: Seq<char>) -> bool {
    let c = cache_dir_of(vdir);
    &&& p.cache_dir@ == c
    &&& p.engine_stamp@ == join(c, "engine.stamp"@)
    &&& p.dart_sdk_stamp@ == join(c, "engine-dart-sdk.stamp"@)
    &&& p.realm_file@ == join(c, "engine.realm"@)
    &&& p.stamp_content@ == hash
    &&& p.realm_content@ == Seq::<char>::empty()
    &&& p.link_path@ == join(c, "dart-sdk"@)
    &&& p.link_target@ == engine_hash_dir_of(root, hash)
}

/// Plans the link of a version directory to the engine cache entry of a hash.
pub fn link_engine_to_flutter(root: &str, hash: &str, version_dir: &str) -> (r: LinkPlan)
    ensures
        is_link_plan(r, root@, hash@, version_dir@),
{
    let c = cache_dir(version_dir);
    LinkPlan {
        engine_stamp: join_path(c.as_str(), "engine.stamp"),
        dart_sdk_stamp: join_path(c.as_str(), "engine-dart-sdk.stamp"),
        realm_file: join_path(c.as_str(), "engine.realm"),
        stamp_content: hash.to_owned(),
        realm_content: String::new(),
        link_path: join_path(c.as_str(), "dart-sdk"),
        link_target: shared_engine_hash_dir(root, hash),
        cache_dir: c,
    }
}

/// Versions that resolve to the same engine hash link to one and the same
/// cache entry, each from its own link path.
pub proof fn lemma_engine_entry_shared(
    root: Seq<char>,
    hash: Seq<char>,
    dir_a: Seq<char>,
    dir_b: Seq<char>,
    first: LinkPlan,
    second: LinkPlan,
)
    requires
        is_link_plan(first, root, hash, dir_a),
        is_link_plan(second, root, hash, dir_b),
    ensures
        first.link_target@ == second.link_target@,
        first.link_target@ == engine_hash_dir_of(root, hash),
        dir_a != dir_b ==> first.link_path@ != second.link_path@,
{
    if dir_a != dir_b && first.link_path@ == second.link_path@ {
        let tail = join(join(seq!['/'] + "bin"@, "cache"@), "dart-sdk"@);
        assert(first.link_path@ =~= dir_a + tail);
        assert(second.link_path@ =~= dir_b + tail);
        assert(dir_a.len() == dir_b.len());
        assert(dir_a =~= (dir_a + tail).subrange(0, dir_a.len() as int));
        assert(dir_b =~= (dir_b + tail).subrange(0, dir_b.len() as int));
    }
}

/// What removing a version touches: its directory, its marker (read before
/// the directory goes, to learn the engine hash), the shared repository and
/// the name of the worktree registration to prune.
pub struct UninstallPlan {
    pub version_dir: String,
    pub engine_stamp: String,
    pub repo_dir: String,
    pub worktree_name: String,
}

/// Plans the removal of a version.
pub fn uninstall(root: &str, version: &str) -> (r: UninstallPlan)
    ensures
        r.version_dir@ == version_dir_of(root@, version@),
        r.engine_stamp@ == join(cache_dir_of(version_dir_of(root@, version@)), "engine.stamp"@),
        r.repo_dir@ == repo_dir_of(root@, version@),
        r.worktree_name@ == worktree_name_of(version@),
{
    let vdir = flutter_version_dir(root, version);
    UninstallPlan {
        engine_stamp: crate::layout::engine_stamp_path(vdir.as_str()),
        version_dir: vdir,
        repo_dir: shared_repo_dir(root, version),
        worktree_name: worktree_name(version),
    }
}

} // verus!
