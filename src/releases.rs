//! The release catalog: records of the remote release manifest, their
//! de-duplication by content hash, the current release of each channel,
//! the channel of a version, and a catalog object that keeps the fetched
//! manifest for the lifetime of a run.
use vstd::prelude::*;

use crate::error::SdkError;
use crate::text::str_eq;
use crate::version::bare_version;

verus! {

/// One release of the SDK. The release date counts seconds since the Unix
/// epoch, in UTC.
pub struct FlutterRelease {
    pub hash: String,
    pub channel: String,
    pub version: String,
    pub dart_sdk_version: Option<String>,
    pub release_date: i64,
}

impl FlutterRelease {
    /// A copy of this record.
    pub fn copy_release(&self) -> (r: Self)
        ensures
            r == *self,
    {
        let dart = match &self.dart_sdk_version {
            Some(d) => Some(d.clone()),
            None => None,
        };
        FlutterRelease {
            hash: self.hash.clone(),
            channel: self.channel.clone(),
            version: self.version.clone(),
            dart_sdk_version: dart,
            release_date: self.release_date,
        }
    }
}

/// The current release of each channel.
pub struct CurrentReleases {
    pub stable: FlutterRelease,
    pub beta: FlutterRelease,
    pub dev: FlutterRelease,
}

/// The content hashes the manifest gives as the current release of each
/// channel.
pub struct CurrentReleaseHashes {
    pub stable: String,
    pub beta: String,
    pub dev: String,
}

/// The release catalog: the current release per channel and every release,
/// one per content hash, in manifest order.
pub struct FlutterReleases {
    pub current_releases: CurrentReleases,
    pub releases: Vec<FlutterRelease>,
}

/// Index of the first record at or after `i` with hash `h`, or the length.
pub open spec fn hash_index_from(s: Seq<FlutterRelease>, h: Seq<char>, i: int) -> int
    decreases s.len() - i,
{
    if i >= s.len() {
        s.len() as int
    } else if s[i].hash@ == h {
        i
    } else {
        hash_index_from(s, h, i + 1)
    }
}

/// Index of the first record at or after `i` with version `v`, or the length.
pub open spec fn version_index_from(s: Seq<FlutterRelease>, v: Seq<char>, i: int) -> int
    decreases s.len() - i,
{
    if i >= s.len() {
        s.len() as int
    } else if s[i].version@ == v {
        i
    } else {
        version_index_from(s, v, i + 1)
    }
}

/// Whether some record has hash `h`.
pub open spec fn has_hash(s: Seq<FlutterRelease>, h: Seq<char>) -> bool {
    exists|i: int| 0 <= i < s.len() && (#[trigger] s[i]).hash@ == h
}

/// The records in order, each kept only when no earlier record has its hash.
pub open spec fn dedup_by_hash(s: Seq<FlutterRelease>) -> Seq<FlutterRelease>
    decreases s.len(),
{
    if s.len() == 0 {
        seq![]
    } else {
        let d = dedup_by_hash(s.drop_last());
        if has_hash(d, s.last().hash@) {
            d
        } else {
            d.push(s.last())
        }
    }
}

/// The channel of version `v`: that of the first record with that version,
/// or `master` when no record has it.
pub open spec fn channel_in(s: Seq<FlutterRelease>, v: Seq<char>) -> Seq<char> {
    let k = version_index_from(s, v, 0);
    if k < s.len() {
        s[k].channel@
    } else {
        "master"@
    }
}

proof fn lemma_hash_index(s: Seq<FlutterRelease>, h: Seq<char>, i: int)
    requires
        0 <= i <= s.len(),
    ensures
        i <= hash_index_from(s, h, i) <= s.len(),
        hash_index_from(s, h, i) < s.len() ==> s[hash_index_from(s, h, i)].hash@ == h,
        forall|j: int| i <= j < hash_index_from(s, h, i) ==> (#[trigger] s[j]).hash@ != h,
    decreases s.len() - i,
{
    if i < s.len() && s[i].hash@ != h {
        lemma_hash_index(s, h, i + 1);
    }
}

proof fn lemma_version_index(s: Seq<FlutterRelease>, v: Seq<char>, i: int)
    requires
        0 <= i <= s.len(),
    ensures
        i <= version_index_from(s, v, i) <= s.len(),
        version_index_from(s, v, i) < s.len() ==> s[version_index_from(s, v, i)].version@ == v,
        forall|j: int| i <= j < version_index_from(s, v, i) ==> (#[trigger] s[j]).version@ != v,
    decreases s.len() - i,
{
    if i < s.len() && s[i].version@ != v {
        lemma_version_index(s, v, i + 1);
    }
}

/// Whether some record has hash `hash`.
fn contains_hash(s: &Vec<FlutterRelease>, hash: &str) -> (r: bool)
    ensures
        r == has_hash(s@, hash@),
{
    let mut i: usize = 0;
    while i < s.len()
        invariant
            i <= s@.len(),
            forall|j: int| 0 <= j < i ==> (#[trigger] s@[j]).hash@ != hash@,
        decreases s@.len() - i,
    {
        if str_eq(s[i].hash.as_str(), hash) {
            return true;
        }
        i += 1;
    }
    false
}

/// Keeps the first record of each content hash, in manifest order.
pub fn dedup_releases(raw: &Vec<FlutterRelease>) -> (r: Vec<FlutterRelease>)
    ensures
        r@ == dedup_by_hash(raw@),
{
    let mut out: Vec<FlutterRelease> = Vec::new();
    let mut i: usize = 0;
    while i < raw.len()
        invariant
            i <= raw@.len(),
            out@ == dedup_by_hash(raw@.take(i as int)),
        decreases raw@.len() - i,
    {
        assert(raw@.take(i + 1).drop_last() =~= raw@.take(i as int));
        if !contains_hash(&out, raw[i].hash.as_str()) {
            out.push(raw[i].copy_release());
        }
        i += 1;
    }
    assert(raw@.take(raw@.len() as int) =~= raw@);
    out
}

/// The first record with hash `hash`, if any.
fn find_by_hash(s: &Vec<FlutterRelease>, hash: &str) -> (r: Option<FlutterRelease>)
    ensures
        r is Some <==> has_hash(s@, hash@),
        r matches Some(x) ==> x == s@[hash_index_from(s@, hash@, 0)],
{
    let mut i: usize = 0;
    while i < s.len()
        invariant
            i <= s@.len(),
            hash_index_from(s@, hash@, i as int) == hash_index_from(s@, hash@, 0),
            forall|j: int| 0 <= j < i ==> (#[trigger] s@[j]).hash@ != hash@,
        decreases s@.len() - i,
    {
        if str_eq(s[i].hash.as_str(), hash) {
            return Some(s[i].copy_release());
        }
        i += 1;
    }
    None
}

/// Builds the catalog from a parsed manifest: records are de-duplicated by
/// hash, and each channel's current release is looked up among them. A
/// manifest whose current release of a channel is not listed is refused,
/// naming the first such channel of stable, beta, dev.
pub fn list_available_versions(current: &CurrentReleaseHashes, raw: &Vec<FlutterRelease>) -> (r:
    Result<FlutterReleases, SdkError>)
    ensures
        ({
            let d = dedup_by_hash(raw@);
            &&& r is Ok <==> (has_hash(d, current.stable@) && has_hash(d, current.beta@) && has_hash(
                d,
                current.dev@,
            ))
            &&& r matches Ok(x) ==> {
                &&& x.releases@ == d
                &&& x.current_releases.stable == d[hash_index_from(d, current.stable@, 0)]
                &&& x.current_releases.beta == d[hash_index_from(d, current.beta@, 0)]
                &&& x.current_releases.dev == d[hash_index_from(d, current.dev@, 0)]
            }
            &&& !has_hash(d, current.stable@) ==> (r matches Err(SdkError::MissingCurrentRelease(c))
                && c@ == "stable"@)
            &&& has_hash(d, current.stable@) && !has_hash(d, current.beta@) ==> (r matches Err(
                SdkError::MissingCurrentRelease(c),
            ) && c@ == "beta"@)
            &&& has_hash(d, current.stable@) && has_hash(d, current.beta@) && !has_hash(
                d,
                current.dev@,
            ) ==> (r matches Err(SdkError::MissingCurrentRelease(c)) && c@ == "dev"@)
        }),
{
    let versions = dedup_releases(raw);
    let stable = match find_by_hash(&versions, current.stable.as_str()) {
        Some(x) => x,
        None => {
            return Err(SdkError::MissingCurrentRelease("stable".to_owned()));
        },
    };
    let beta = match find_by_hash(&versions, current.beta.as_str()) {
        Some(x) => x,
        None => {
            return Err(SdkError::MissingCurrentRelease("beta".to_owned()));
        },
    };
    let dev = match find_by_hash(&versions, current.dev.as_str()) {
        Some(x) => x,
        None => {
            return Err(SdkError::MissingCurrentRelease("dev".to_owned()));
        },
    };
    Ok(FlutterReleases { current_releases: CurrentReleases { stable, beta, dev }, releases: versions })
}

/// The channel of a bare version among `releases`: that of the first
/// record with that version, or `master` for a version no record has.
pub fn channel_of(releases: &Vec<FlutterRelease>, version: &str) -> (r: String)
    ensures
        r@ == channel_in(releases@, version@),
{
    let mut i: usize = 0;
    while i < releases.len()
        invariant
            i <= releases@.len(),
            version_index_from(releases@, version@, i as int) == version_index_from(
                releases@,
                version@,
                0,
            ),
        decreases releases@.len() - i,
    {
        if str_eq(releases[i].version.as_str(), version) {
            return releases[i].channel.clone();
        }
        i += 1;
    }
    proof {
        reveal_strlit("master");
    }
    "master".to_owned()
}

/// The channel of a version token: its fork alias is dropped and its bare
/// version looked up in the catalog.
pub fn get_channel_for_version(releases: &FlutterReleases, version: &str) -> (r: String)
    ensures
        r@ == channel_in(releases.releases@, bare_version(version@)),
{
    let bare = crate::version::strip_fork_alias(version);
    channel_of(&releases.releases, bare.as_str())
}

/// A version no record has is on `master`; otherwise the version is on the
/// channel of its first record.
pub proof fn lemma_channel_total(s: Seq<FlutterRelease>, v: Seq<char>)
    ensures
        (forall|i: int| 0 <= i < s.len() ==> (#[trigger] s[i]).version@ != v) ==> channel_in(s, v)
            == "master"@,
        forall|i: int|
            0 <= i < s.len() && (#[trigger] s[i]).version@ == v && (forall|j: int|
                0 <= j < i ==> s[j].version@ != v) ==> channel_in(s, v) == s[i].channel@,
{
    lemma_version_index(s, v, 0);
    let k = version_index_from(s, v, 0);
    assert forall|i: int|
        0 <= i < s.len() && (#[trigger] s[i]).version@ == v && (forall|j: int|
            0 <= j < i ==> s[j].version@ != v) implies channel_in(s, v) == s[i].channel@ by {
        if k < i {
            assert(s[k].version@ == v);
        }
        if i < k {
            assert(s[i].version@ != v);
        }
    }
    if k < s.len() {
        assert(s[k].version@ == v);
    }
}

/// The catalog of one run: fetched at most once, then kept.
pub struct ReleaseCatalog {
    pub cached: Option<FlutterReleases>,
}

impl ReleaseCatalog {
    /// A catalog that has fetched nothing yet.
    pub fn new() -> (r: Self)
        ensures
            r.cached is None,
    {
        ReleaseCatalog { cached: None }
    }

    /// Whether the manifest has been fetched in this run.
    pub fn is_loaded(&self) -> (r: bool)
        ensures
            r == self.cached is Some,
    {
        self.cached.is_some()
    }

    /// Keeps a fetched catalog; one kept earlier in the run stays.
    pub fn store(&mut self, fetched: FlutterReleases)
        ensures
            old(self).cached is Some ==> final(self).cached == old(self).cached,
            old(self).cached is None ==> final(self).cached == Some(fetched),
    {
        if self.cached.is_none() {
            self.cached = Some(fetched);
        }
    }

    /// The channel of a version token, or nothing while no catalog is kept.
    pub fn channel_for(&self, version: &str) -> (r: Option<String>)
        ensures
            self.cached is None ==> r is None,
            self.cached matches Some(c) ==> (r matches Some(ch) && ch@ == channel_in(
                c.releases@,
                bare_version(version@),
            )),
    {
        match &self.cached {
            Some(c) => Some(get_channel_for_version(c, version)),
            None => None,
        }
    }
}

} // verus!
