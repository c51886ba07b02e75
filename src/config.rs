//! Project and global configuration as values: the project's pinned
//! version and flavors, the global settings with their fallbacks, and the
//! registered forks. Reading and writing the files happens outside.
use vstd::prelude::*;

use crate::error::SdkError;
use crate::layout::{join, join_path};
use crate::text::str_eq;
use crate::version::is_channel_name;

verus! {

/// The project configuration: the pinned SDK version and, optionally,
/// flavors as (name, version) pairs, a later pair overriding an earlier one
/// of the same name.
pub struct ProjectConfig {
    pub flutter: String,
    pub flavors: Option<Vec<(String, String)>>,
}

/// The older layout of the project configuration.
pub struct LegacyProjectConfig {
    pub flutter_sdk_version: String,
    pub flavors: Option<Vec<(String, String)>>,
}

/// The flavors as a map from name to version; a later pair wins.
pub open spec fn flavor_map(fs: Seq<(String, String)>) -> Map<Seq<char>, Seq<char>>
    decreases fs.len(),
{
    if fs.len() == 0 {
        Map::empty()
    } else {
        flavor_map(fs.drop_last()).insert(fs.last().0@, fs.last().1@)
    }
}

/// The flavors of a configuration as a map; none when it has no flavors.
pub open spec fn flavors_of(f: Option<Vec<(String, String)>>) -> Map<Seq<char>, Seq<char>> {
    match f {
        Some(v) => flavor_map(v@),
        None => Map::empty(),
    }
}

/// Whether two flavor lists hold the same pairs.
pub open spec fn same_flavors(a: Option<Vec<(String, String)>>, b: Option<Vec<(String, String)>>) -> bool {
    match (a, b) {
        (Some(x), Some(y)) => x@ == y@,
        (None, None) => true,
        _ => false,
    }
}

fn copy_flavors(f: &Option<Vec<(String, String)>>) -> (r: Option<Vec<(String, String)>>)
    ensures
        same_flavors(r, *f),
{
    match f {
        Some(v) => {
            let mut out: Vec<(String, String)> = Vec::new();
            let mut i: usize = 0;
            while i < v.len()
                invariant
                    i <= v@.len(),
                    out@ == v@.take(i as int),
                decreases v@.len() - i,
            {
                out.push((v[i].0.clone(), v[i].1.clone()));
                i += 1;
            }
            assert(out@ =~= v@);
            Some(out)
        },
        None => None,
    }
}

impl ProjectConfig {
    /// A configuration that pins `version` and has no flavors.
    pub fn new(version: &str) -> (r: Self)
        ensures
            r.flutter@ == version@,
            r.flavors is None,
    {
        ProjectConfig { flutter: version.to_owned(), flavors: None }
    }

    /// The same configuration in the older layout.
    pub fn to_legacy(&self) -> (r: LegacyProjectConfig)
        ensures
            r.flutter_sdk_version == self.flutter,
            same_flavors(r.flavors, self.flavors),
    {
        LegacyProjectConfig { flutter_sdk_version: self.flutter.clone(), flavors: copy_flavors(&self.flavors) }
    }

    /// A configuration read in the older layout.
    pub fn from_legacy(legacy: LegacyProjectConfig) -> (r: Self)
        ensures
            r.flutter == legacy.flutter_sdk_version,
            r.flavors == legacy.flavors,
    {
        ProjectConfig { flutter: legacy.flutter_sdk_version, flavors: legacy.flavors }
    }
}

/// Refuses a channel name as a flavor name.
pub fn validate_flavor_name(flavor_name: &str) -> (r: Result<(), SdkError>)
    ensures
        r is Ok <==> !is_channel_name(flavor_name@),
        r matches Err(e) ==> (e matches SdkError::InvalidFlavorName(n) && n@ == flavor_name@),
{
    if crate::version::is_channel(flavor_name) {
        Err(SdkError::InvalidFlavorName(flavor_name.to_owned()))
    } else {
        Ok(())
    }
}

/// Applies an update to a project configuration (an empty one when none
/// exists yet): the main version is replaced when one is given, and a
/// flavor is added or replaced when one is given. A flavor named like a
/// channel is refused and nothing changes.
pub fn update_project_config(
    existing: Option<ProjectConfig>,
    main_version: Option<&str>,
    flavor: Option<(&str, &str)>,
) -> (r: Result<ProjectConfig, SdkError>)
    ensures
        ({
            let base_version = match existing {
                Some(c) => c.flutter@,
                None => Seq::<char>::empty(),
            };
            let base_flavors = match existing {
                Some(c) => c.flavors,
                None => None,
            };
            let fname = match flavor {
                Some(p) => p.0@,
                None => Seq::<char>::empty(),
            };
            let fversion = match flavor {
                Some(p) => p.1@,
                None => Seq::<char>::empty(),
            };
            &&& (flavor is Some && is_channel_name(fname)) ==> (r matches Err(
                SdkError::InvalidFlavorName(n),
            ) && n@ == fname)
            &&& !(flavor is Some && is_channel_name(fname)) ==> (r matches Ok(c) && {
                &&& c.flutter@ == (match main_version {
                    Some(v) => v@,
                    None => base_version,
                })
                &&& flavor is None ==> c.flavors == base_flavors
                &&& flavor is Some ==> (c.flavors is Some && flavors_of(c.flavors)
                    == flavors_of(base_flavors).insert(fname, fversion))
            })
        }),
{
    proof {
        reveal_strlit("");
    }
    let mut config = match existing {
        Some(c) => c,
        None => ProjectConfig::new(""),
    };
    if let Some((name, version)) = flavor {
        validate_flavor_name(name)?;
    }
    if let Some(v) = main_version {
        config.flutter = v.to_owned();
    }
    if let Some((name, version)) = flavor {
        let mut flavors = match config.flavors {
            Some(f) => f,
            None => Vec::new(),
        };
        let ghost before = flavors@;
        match find_flavor(&flavors, name) {
            Some(i) => {
                let pair = (name.to_owned(), version.to_owned());
                proof {
                    lemma_flavor_replace(before, name@, i as int, pair);
                }
                flavors.set(i, pair);
            },
            None => {
                proof {
                    lemma_flavor_lookup(before, name@);
                }
                flavors.push((name.to_owned(), version.to_owned()));
                assert(flavors@.drop_last() =~= before);
            },
        }
        assert(flavor_map(flavors@) == flavor_map(before).insert(name@, version@));
        config.flavors = Some(flavors);
    }
    Ok(config)
}

/// Index of the last pair before `j` named `k`, or -1.
pub open spec fn flavor_last_before(fs: Seq<(String, String)>, k: Seq<char>, j: int) -> int
    decreases j,
{
    if j <= 0 {
        -1
    } else if fs[j - 1].0@ == k {
        j - 1
    } else {
        flavor_last_before(fs, k, j - 1)
    }
}

proof fn lemma_flavor_lookup(fs: Seq<(String, String)>, k: Seq<char>)
    ensures
        ({
            let i = flavor_last_before(fs, k, fs.len() as int);
            &&& -1 <= i < fs.len()
            &&& flavor_map(fs).contains_key(k) <==> i >= 0
            &&& i >= 0 ==> flavor_map(fs)[k] == fs[i].1@
        }),
    decreases fs.len(),
{
    if fs.len() > 0 {
        let init = fs.drop_last();
        lemma_flavor_lookup(init, k);
        if fs.last().0@ != k {
            assert(flavor_last_before(fs, k, fs.len() - 1) == flavor_last_before(init, k, init.len() as int)) by {
                lemma_flavor_prefix(fs, init, k, init.len() as int);
            }
        }
    }
}

proof fn lemma_flavor_prefix(fs: Seq<(String, String)>, init: Seq<(String, String)>, k: Seq<char>, j: int)
    requires
        fs.len() > 0,
        init == fs.drop_last(),
        0 <= j <= init.len(),
    ensures
        flavor_last_before(fs, k, j) == flavor_last_before(init, k, j),
        -1 <= flavor_last_before(fs, k, j) < j,
    decreases j,
{
    if j > 0 {
        assert(init[j - 1] == fs[j - 1]);
        lemma_flavor_prefix(fs, init, k, j - 1);
    }
}

/// Replacing the value of the last pair named `k` is inserting into the map.
proof fn lemma_flavor_replace(fs: Seq<(String, String)>, k: Seq<char>, i: int, x: (String, String))
    requires
        0 <= i < fs.len(),
        flavor_last_before(fs, k, fs.len() as int) == i,
        x.0@ == k,
    ensures
        flavor_map(fs.update(i, x)) == flavor_map(fs).insert(k, x.1@),
    decreases fs.len(),
{
    let init = fs.drop_last();
    let n = fs.len() - 1;
    let upd = fs.update(i, x);
    lemma_flavor_prefix(fs, init, k, n);
    if i == n {
        assert(fs[n].0@ == k);
        assert(upd[n] == x);
        assert(upd.drop_last() =~= init);
        assert(flavor_map(upd) =~= flavor_map(fs).insert(k, x.1@));
    } else {
        assert(fs[n].0@ != k);
        assert(upd.drop_last() =~= init.update(i, x));
        lemma_flavor_replace(init, k, i, x);
        assert(flavor_map(upd) =~= flavor_map(fs).insert(k, x.1@));
    }
}

/// The index of the last flavor named `name`.
fn find_flavor(fs: &Vec<(String, String)>, name: &str) -> (r: Option<usize>)
    ensures
        r matches Some(i) ==> flavor_last_before(fs@, name@, fs@.len() as int) == i && i < fs@.len(),
        r is None ==> flavor_last_before(fs@, name@, fs@.len() as int) == -1,
{
    proof {
        lemma_flavor_lookup(fs@, name@);
    }
    let mut j: usize = fs.len();
    while j > 0
        invariant
            j <= fs@.len(),
            flavor_last_before(fs@, name@, j as int) == flavor_last_before(fs@, name@, fs@.len() as int),
        decreases j,
    {
        if str_eq(fs[j - 1].0.as_str(), name) {
            return Some(j - 1);
        }
        j -= 1;
    }
    None
}

/// Resolves a `use` argument: a flavor name of the project gives the
/// version pinned to it (and says so), anything else is a version itself.
pub fn resolve_version_or_flavor(config: &Option<ProjectConfig>, input: &str) -> (r: (String, bool))
    ensures
        ({
            let m = match config {
                Some(c) => flavors_of(c.flavors),
                None => Map::empty(),
            };
            &&& m.contains_key(input@) ==> r.1 && r.0@ == m[input@]
            &&& !m.contains_key(input@) ==> !r.1 && r.0@ == input@
        }),
{
    if let Some(c) = config {
        if let Some(fs) = &c.flavors {
            proof {
                lemma_flavor_lookup(fs@, input@);
            }
            if let Some(i) = find_flavor(fs, input) {
                return (fs[i].1.clone(), true);
            }
        }
    }
    (input.to_owned(), false)
}

/// A fork: an alias for another origin of the SDK sources.
pub struct FlutterFork {
    pub name: String,
    pub url: String,
}

/// Index of the first fork at or after `i` named `a`, or the length.
pub open spec fn fork_index_from(fs: Seq<FlutterFork>, a: Seq<char>, i: int) -> int
    decreases fs.len() - i,
{
    if i >= fs.len() {
        fs.len() as int
    } else if fs[i].name@ == a {
        i
    } else {
        fork_index_from(fs, a, i + 1)
    }
}

/// The URL of the fork named `a`: that of the first such fork.
pub open spec fn fork_url_of(fs: Seq<FlutterFork>, a: Seq<char>) -> Option<Seq<char>> {
    let k = fork_index_from(fs, a, 0);
    if k < fs.len() {
        Some(fs[k].url@)
    } else {
        None
    }
}

proof fn lemma_fork_index(fs: Seq<FlutterFork>, a: Seq<char>, i: int)
    requires
        0 <= i <= fs.len(),
    ensures
        i <= fork_index_from(fs, a, i) <= fs.len(),
        fork_index_from(fs, a, i) < fs.len() ==> fs[fork_index_from(fs, a, i)].name@ == a,
        forall|j: int| i <= j < fork_index_from(fs, a, i) ==> (#[trigger] fs[j]).name@ != a,
    decreases fs.len() - i,
{
    if i < fs.len() && fs[i].name@ != a {
        lemma_fork_index(fs, a, i + 1);
    }
}

/// The global settings. An unset field falls back to the environment and
/// then to a default.
pub struct GlobalConfig {
    pub cache_path: Option<String>,
    pub use_git_cache: Option<bool>,
    pub git_cache_path: Option<String>,
    pub flutter_url: Option<String>,
    pub disable_update_check: Option<bool>,
    pub forks: Vec<FlutterFork>,
}

/// The default origin of the SDK sources.
pub open spec fn default_flutter_url() -> Seq<char> {
    "https://github.com/flutter/flutter.git"@
}

/// A name for what `str::to_lowercase` returns.
pub uninterp spec fn lowercase_of(s: Seq<char>) -> Seq<char>;

/// Relies on `str::to_lowercase`: the result depends on the characters alone.
#[verifier::external_body]
fn to_lowercase(s: &str) -> (r: String)
    ensures
        r@ == lowercase_of(s@),
{
    s.to_lowercase()
}

/// Reads a git-cache switch from the environment, given the value and its
/// lowercase form: on for `true` in any case, or for `1`.
pub fn git_cache_flag(lowered: &str, raw: &str) -> (r: bool)
    ensures
        r == (lowered@ == "true"@ || raw@ == "1"@),
{
    proof {
        reveal_strlit("true");
        reveal_strlit("1");
    }
    str_eq(lowered, "true") || str_eq(raw, "1")
}

fn copy_opt(s: &Option<String>) -> (r: Option<String>)
    ensures
        r == *s,
{
    match s {
        Some(x) => Some(x.clone()),
        None => None,
    }
}

impl GlobalConfig {
    /// A configuration with nothing set.
    pub fn empty() -> (r: Self)
        ensures
            r.cache_path is None,
            r.use_git_cache is None,
            r.git_cache_path is None,
            r.flutter_url is None,
            r.disable_update_check is None,
            r.forks@.len() == 0,
    {
        GlobalConfig {
            cache_path: None,
            use_git_cache: None,
            git_cache_path: None,
            flutter_url: None,
            disable_update_check: None,
            forks: Vec::new(),
        }
    }

    /// Whether update checks run: unless they were disabled explicitly.
    pub fn get_update_check_enabled(&self) -> (r: bool)
        ensures
            r == !(self.disable_update_check == Some(true)),
    {
        match self.disable_update_check {
            Some(d) => !d,
            None => true,
        }
    }

    /// Whether no setting is set.
    pub fn is_empty(&self) -> (r: bool)
        ensures
            r == (self.cache_path is None && self.use_git_cache is None && self.git_cache_path is None
                && self.flutter_url is None && self.disable_update_check is None),
    {
        self.cache_path.is_none() && self.use_git_cache.is_none() && self.git_cache_path.is_none()
            && self.flutter_url.is_none() && self.disable_update_check.is_none()
    }

    /// The default origin of the SDK sources: the setting, else the first
    /// of the two environment values that is set, else the public origin.
    pub fn get_flutter_url(&self, env_fvm_flutter_url: Option<String>, env_flutter_git_url: Option<String>) -> (r: String)
        ensures
            r@ == (match (self.flutter_url, env_fvm_flutter_url, env_flutter_git_url) {
                (Some(u), _, _) => u@,
                (None, Some(u), _) => u@,
                (None, None, Some(u)) => u@,
                (None, None, None) => default_flutter_url(),
            }),
    {
        if let Some(u) = &self.flutter_url {
            return u.clone();
        }
        if let Some(u) = env_fvm_flutter_url {
            return u;
        }
        if let Some(u) = env_flutter_git_url {
            return u;
        }
        "https://github.com/flutter/flutter.git".to_owned()
    }

    /// Where versions are cached: the setting, else the first of the two
    /// environment values that is set, else the tool's root directory.
    pub fn get_cache_path(&self, env_cache_path: Option<String>, env_home: Option<String>, default_root: &str) -> (r: String)
        ensures
            r@ == (match (self.cache_path, env_cache_path, env_home) {
                (Some(p), _, _) => p@,
                (None, Some(p), _) => p@,
                (None, None, Some(p)) => p@,
                (None, None, None) => default_root@,
            }),
    {
        if let Some(p) = &self.cache_path {
            return p.clone();
        }
        if let Some(p) = env_cache_path {
            return p;
        }
        if let Some(p) = env_home {
            return p;
        }
        default_root.to_owned()
    }

    /// Where the shared git cache lives: the setting, else the environment,
    /// else `shared/flutter` under the cache path.
    pub fn get_git_cache_path(
        &self,
        env_git_cache_path: Option<String>,
        env_cache_path: Option<String>,
        env_home: Option<String>,
        default_root: &str,
    ) -> (r: String)
        ensures
            r@ == (match (self.git_cache_path, env_git_cache_path) {
                (Some(p), _) => p@,
                (None, Some(p)) => p@,
                (None, None) => join(
                    join(
                        (match (self.cache_path, env_cache_path, env_home) {
                            (Some(p), _, _) => p@,
                            (None, Some(p), _) => p@,
                            (None, None, Some(p)) => p@,
                            (None, None, None) => default_root@,
                        }),
                        "shared"@,
                    ),
                    "flutter"@,
                ),
            }),
    {
        if let Some(p) = &self.git_cache_path {
            return p.clone();
        }
        if let Some(p) = env_git_cache_path {
            return p;
        }
        let base = self.get_cache_path(env_cache_path, env_home, default_root);
        let shared = join_path(base.as_str(), "shared");
        join_path(shared.as_str(), "flutter")
    }

    /// Whether the shared git cache is used: the setting, else the
    /// environment value (on for `true` in any case or `1`), else on.
    pub fn get_use_git_cache(&self, env_use_git_cache: Option<String>) -> (r: bool)
        ensures
            r == (match (self.use_git_cache, env_use_git_cache) {
                (Some(b), _) => b,
                (None, Some(v)) => lowercase_of(v@) == "true"@ || v@ == "1"@,
                (None, None) => true,
            }),
    {
        if let Some(b) = self.use_git_cache {
            return b;
        }
        match env_use_git_cache {
            Some(v) => {
                let lowered = to_lowercase(v.as_str());
                git_cache_flag(lowered.as_str(), v.as_str())
            },
            None => true,
        }
    }

    /// The URL registered for a fork alias.
    pub fn get_fork_url(&self, alias: &str) -> (r: Option<String>)
        ensures
            r matches Some(u) ==> fork_url_of(self.forks@, alias@) == Some(u@),
            r is None ==> fork_url_of(self.forks@, alias@) is None,
    {
        let mut i: usize = 0;
        while i < self.forks.len()
            invariant
                i <= self.forks@.len(),
                fork_index_from(self.forks@, alias@, i as int) == fork_index_from(self.forks@, alias@, 0),
            decreases self.forks@.len() - i,
        {
            if str_eq(self.forks[i].name.as_str(), alias) {
                return Some(self.forks[i].url.clone());
            }
            i += 1;
        }
        None
    }

    /// Registers a fork; an alias registered already is refused.
    pub fn add_fork(&mut self, name: String, url: String) -> (r: Result<(), SdkError>)
        ensures
            fork_url_of(old(self).forks@, name@) is Some ==> (r matches Err(SdkError::ForkExists(n))
                && n@ == name@ && final(self).forks@ == old(self).forks@),
            fork_url_of(old(self).forks@, name@) is None ==> (r is Ok && final(self).forks@
                == old(self).forks@.push(FlutterFork { name, url })),
    {
        match self.get_fork_url(name.as_str()) {
            Some(_) => Err(SdkError::ForkExists(name)),
            None => {
                self.forks.push(FlutterFork { name, url });
                Ok(())
            },
        }
    }

    /// Removes the first fork registered under an alias; an unknown alias
    /// is refused.
    pub fn remove_fork(&mut self, alias: &str) -> (r: Result<(), SdkError>)
        ensures
            fork_url_of(old(self).forks@, alias@) is None ==> (r matches Err(SdkError::ForkNotFound(n))
                && n@ == alias@ && final(self).forks@ == old(self).forks@),
            fork_url_of(old(self).forks@, alias@) is Some ==> (r is Ok && final(self).forks@
                == old(self).forks@.remove(fork_index_from(old(self).forks@, alias@, 0))),
    {
        let mut i: usize = 0;
        while i < self.forks.len()
            invariant
                i <= self.forks@.len(),
                self.forks@ == old(self).forks@,
                fork_index_from(self.forks@, alias@, i as int) == fork_index_from(self.forks@, alias@, 0),
            decreases self.forks@.len() - i,
        {
            if str_eq(self.forks[i].name.as_str(), alias) {
                self.forks.remove(i);
                return Ok(());
            }
            i += 1;
        }
        Err(SdkError::ForkNotFound(alias.to_owned()))
    }
}

/// The settings a `config` command sets; unset ones stay as they are.
pub struct ConfigArgs {
    pub cache_path: Option<String>,
    pub use_git_cache: Option<bool>,
    pub git_cache_path: Option<String>,
    pub flutter_url: Option<String>,
    pub update_check: Option<bool>,
}

impl ConfigArgs {
    /// Whether any setting was given.
    pub fn has_any_set(&self) -> (r: bool)
        ensures
            r == (self.cache_path is Some || self.use_git_cache is Some || self.git_cache_path is Some
                || self.flutter_url is Some || self.update_check is Some),
    {
        self.cache_path.is_some() || self.use_git_cache.is_some() || self.git_cache_path.is_some()
            || self.flutter_url.is_some() || self.update_check.is_some()
    }

    /// Writes the given settings into `config`; enabling update checks
    /// clears the switch that disables them.
    pub fn apply_to(&self, config: &mut GlobalConfig)
        ensures
            final(config).cache_path == (if self.cache_path is Some { self.cache_path } else { old(config).cache_path }),
            final(config).use_git_cache == (if self.use_git_cache is Some { self.use_git_cache } else { old(config).use_git_cache }),
            final(config).git_cache_path == (if self.git_cache_path is Some { self.git_cache_path } else { old(config).git_cache_path }),
            final(config).flutter_url == (if self.flutter_url is Some { self.flutter_url } else { old(config).flutter_url }),
            final(config).disable_update_check == (match self.update_check {
                Some(b) => Some(!b),
                None => old(config).disable_update_check,
            }),
            final(config).forks == old(config).forks,
    {
        if self.cache_path.is_some() {
            config.cache_path = copy_opt(&self.cache_path);
        }
        if self.use_git_cache.is_some() {
            config.use_git_cache = self.use_git_cache;
        }
        if self.git_cache_path.is_some() {
            config.git_cache_path = copy_opt(&self.git_cache_path);
        }
        if self.flutter_url.is_some() {
            config.flutter_url = copy_opt(&self.flutter_url);
        }
        if let Some(b) = self.update_check {
            config.disable_update_check = Some(!b);
        }
    }
}

/// Refuses `flutter upgrade` when the configured version is a pinned
/// release: only a channel can be upgraded. Other commands, and upgrades
/// with no configured version, pass.
pub fn check_flutter_upgrade(args: &Vec<String>, version: &Option<String>) -> (r: Result<(), SdkError>)
    ensures
        ({
            let upgrading = args@.len() > 0 && args@[0]@ == "upgrade"@;
            &&& (upgrading && version is Some && !is_channel_name(version->0@)) ==> (r matches Err(
                SdkError::UpgradeOfRelease(v),
            ) && v@ == version->0@)
            &&& !(upgrading && version is Some && !is_channel_name(version->0@)) ==> r is Ok
        }),
{
    proof {
        reveal_strlit("upgrade");
    }
    if args.len() == 0 || !str_eq(args[0].as_str(), "upgrade") {
        return Ok(());
    }
    match version {
        Some(v) => {
            if crate::version::is_channel(v.as_str()) {
                Ok(())
            } else {
                Err(SdkError::UpgradeOfRelease(v.clone()))
            }
        },
        None => Ok(()),
    }
}

/// Refuses a fork URL that does not end in `.git`.
pub fn validate_git_url(url: &str) -> (r: Result<(), SdkError>)
    ensures
        r is Ok <==> (url@.len() >= 4 && url@.subrange(url@.len() - 4, url@.len() as int) == ".git"@),
        r matches Err(e) ==> (e matches SdkError::InvalidGitUrl(u) && u@ == url@),
{
    proof {
        reveal_strlit(".git");
    }
    let n = url.unicode_len();
    if n >= 4 && str_eq(url.substring_char(n - 4, n), ".git") {
        Ok(())
    } else {
        Err(SdkError::InvalidGitUrl(url.to_owned()))
    }
}

} // verus!
