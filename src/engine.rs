//! The content-addressed engine cache: where an engine archive comes from,
//! how its entries land in a cache entry, which entries garbage collection
//! may delete, and how the outcome of a collection is reported.
use vstd::prelude::*;

use crate::error::SdkError;
use crate::layout::{join, join_path};
use crate::text::{concat, str_eq};

verus! {

/// The SDK's name for an operating system: `macos` is called `darwin`.
pub open spec fn platform_of(os: Seq<char>) -> Seq<char> {
    if os == "macos"@ {
        "darwin"@
    } else {
        os
    }
}

/// The SDK's name for a machine architecture, when it ships engines for it.
pub open spec fn arch_of(arch: Seq<char>) -> Option<Seq<char>> {
    if arch == "x86_64"@ {
        Some("x64"@)
    } else if arch == "aarch64"@ || arch == "arm64"@ || arch == "armv8"@ {
        Some("arm64"@)
    } else {
        None
    }
}

/// Maps an operating system name into the SDK's vocabulary.
pub fn map_platform(os: &str) -> (r: String)
    ensures
        r@ == platform_of(os@),
{
    proof {
        reveal_strlit("macos");
        reveal_strlit("darwin");
    }
    if str_eq(os, "macos") {
        "darwin".to_owned()
    } else {
        os.to_owned()
    }
}

/// Maps an architecture name into the SDK's vocabulary; any other
/// architecture is unsupported.
pub fn map_arch(arch: &str) -> (r: Result<String, SdkError>)
    ensures
        arch_of(arch@) matches Some(a) ==> (r matches Ok(s) && s@ == a),
        arch_of(arch@) is None ==> (r matches Err(SdkError::UnsupportedPlatform(m)) && m@ == arch@),
{
    proof {
        reveal_strlit("x86_64");
        reveal_strlit("aarch64");
        reveal_strlit("arm64");
        reveal_strlit("armv8");
        reveal_strlit("x64");
    }
    if str_eq(arch, "x86_64") {
        Ok("x64".to_owned())
    } else if str_eq(arch, "aarch64") || str_eq(arch, "arm64") || str_eq(arch, "armv8") {
        Ok("arm64".to_owned())
    } else {
        Err(SdkError::UnsupportedPlatform(arch.to_owned()))
    }
}

pub open spec fn engine_url_of(hash: Seq<char>, platform: Seq<char>, arch: Seq<char>) -> Seq<char> {
    "https://storage.googleapis.com/flutter_infra_release/flutter/"@ + hash + "/dart-sdk-"@
        + platform + "-"@ + arch + ".zip"@
}

/// Where the engine archive of a hash, platform and architecture is served.
pub fn engine_archive_url(hash: &str, platform: &str, arch: &str) -> (r: String)
    ensures
        r@ == engine_url_of(hash@, platform@, arch@),
{
    let a = concat("https://storage.googleapis.com/flutter_infra_release/flutter/", hash);
    let b = concat(a.as_str(), "/dart-sdk-");
    let c = concat(b.as_str(), platform);
    let d = concat(c.as_str(), "-");
    let e = concat(d.as_str(), arch);
    concat(e.as_str(), ".zip")
}

pub open spec fn engine_hash_url_of(bare: Seq<char>) -> Seq<char> {
    "https://raw.githubusercontent.com/flutter/flutter/"@ + bare + "/bin/internal/engine.version"@
}

/// Where the engine hash of a bare version is published.
pub fn engine_hash_url(bare_version: &str) -> (r: String)
    ensures
        r@ == engine_hash_url_of(bare_version@),
{
    let a = concat("https://raw.githubusercontent.com/flutter/flutter/", bare_version);
    concat(a.as_str(), "/bin/internal/engine.version")
}

pub open spec fn releases_url_of(platform: Seq<char>) -> Seq<char> {
    "https://storage.googleapis.com/flutter_infra_release/releases/releases_"@ + platform
        + ".json"@
}

/// Where the release manifest of a platform is served.
pub fn releases_url(platform: &str) -> (r: String)
    ensures
        r@ == releases_url_of(platform@),
{
    let a = concat(
        "https://storage.googleapis.com/flutter_infra_release/releases/releases_",
        platform,
    );
    concat(a.as_str(), ".json")
}

/// The top-level directory of every engine archive.
pub open spec fn archive_prefix() -> Seq<char> {
    "dart-sdk/"@
}

/// Where an archive entry lands relative to the cache entry: its name
/// without the top-level prefix; nothing for an entry outside the prefix or
/// equal to it.
pub open spec fn stripped_entry(name: Seq<char>) -> Option<Seq<char>> {
    let p = archive_prefix();
    if name.len() > p.len() && name.subrange(0, p.len() as int) == p {
        Some(name.subrange(p.len() as int, name.len() as int))
    } else {
        None
    }
}

/// Strips the archive's top-level prefix from an entry name.
pub fn strip_archive_prefix(name: &str) -> (r: Option<String>)
    ensures
        r matches Some(s) ==> stripped_entry(name@) == Some(s@),
        r is None ==> stripped_entry(name@) is None,
{
    proof {
        reveal_strlit("dart-sdk/");
    }
    let n = name.unicode_len();
    let p: usize = 9;
    if n <= p {
        return None;
    }
    let head = name.substring_char(0, p);
    if str_eq(head, "dart-sdk/") {
        Some(name.substring_char(p, n).to_owned())
    } else {
        None
    }
}

/// One entry of an engine archive, as listed by the archive reader.
pub struct ArchiveEntry {
    pub name: String,
    pub is_dir: bool,
    pub unix_mode: Option<u32>,
}

/// One entry to materialize: the archive index to read it from, its target
/// path, whether it is a directory and the permission bits to give it.
pub struct ExtractStep {
    pub index: usize,
    pub target: String,
    pub is_dir: bool,
    pub unix_mode: Option<u32>,
}

/// The indices of the entries that extraction materializes, in archive
/// order: those with something left after the prefix.
pub open spec fn extracted_indices(entries: Seq<ArchiveEntry>) -> Seq<int>
    decreases entries.len(),
{
    if entries.len() == 0 {
        seq![]
    } else {
        let rest = extracted_indices(entries.drop_last());
        if stripped_entry(entries.last().name@) is Some {
            rest.push(entries.len() - 1)
        } else {
            rest
        }
    }
}

/// Whether `step` extracts entry `i` of `entries` into `dir`.
pub open spec fn extracts(dir: Seq<char>, entries: Seq<ArchiveEntry>, i: int, step: ExtractStep) -> bool {
    &&& 0 <= i < entries.len()
    &&& step.index == i
    &&& stripped_entry(entries[i].name@) matches Some(rel) && step.target@ == join(dir, rel)
    &&& step.is_dir == entries[i].is_dir
    &&& step.unix_mode == entries[i].unix_mode
}

/// Plans the extraction of an engine archive into the cache entry `dir`:
/// each entry under the top-level prefix lands at its remaining path inside
/// `dir`; other entries, and the prefix itself, produce nothing.
pub fn plan_extraction(dir: &str, entries: &Vec<ArchiveEntry>) -> (r: Vec<ExtractStep>)
    ensures
        r@.len() == extracted_indices(entries@).len(),
        forall|k: int|
            0 <= k < r@.len() ==> extracts(
                dir@,
                entries@,
                extracted_indices(entries@)[k],
                #[trigger] r@[k],
            ),
{
    let mut steps: Vec<ExtractStep> = Vec::new();
    let mut i: usize = 0;
    while i < entries.len()
        invariant
            i <= entries@.len(),
            steps@.len() == extracted_indices(entries@.take(i as int)).len(),
            forall|k: int|
                0 <= k < steps@.len() ==> extracts(
                    dir@,
                    entries@,
                    extracted_indices(entries@.take(i as int))[k],
                    #[trigger] steps@[k],
                ),
        decreases entries@.len() - i,
    {
        let ghost before = entries@.take(i as int);
        let ghost after = entries@.take(i + 1);
        assert(after.drop_last() =~= before);
        let e = &entries[i];
        match strip_archive_prefix(e.name.as_str()) {
            Some(rel) => {
                let target = join_path(dir, rel.as_str());
                steps.push(ExtractStep { index: i, target, is_dir: e.is_dir, unix_mode: e.unix_mode });
            },
            None => {},
        }
        i += 1;
    }
    assert(entries@.take(entries@.len() as int) =~= entries@);
    steps
}

} // verus!
