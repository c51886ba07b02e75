//! Garbage collection of the engine cache. An entry is referenced when the
//! marker of some installed version names its hash; a missing or unreadable
//! marker references nothing. An entry whose hash is still being populated
//! is kept too. Other entries are deleted one by one and each failure is
//! reported, not fatal.
use vstd::prelude::*;

use crate::text::str_eq;

verus! {

/// Whether the marker of some installed version names `h`.
pub open spec fn referenced(markers: Seq<Option<String>>, h: Seq<char>) -> bool {
    exists|i: int| 0 <= i < markers.len() && (#[trigger] markers[i] matches Some(m) && m@ == h)
}

/// The cache entries that no marker names and that are not being
/// populated, in the order of `cached`, each hash once.
pub open spec fn unused_of(cached: Seq<String>, markers: Seq<Option<String>>, in_flight: Seq<String>) -> Seq<String>
    decreases cached.len(),
{
    if cached.len() == 0 {
        seq![]
    } else {
        let rest = unused_of(cached.drop_last(), markers, in_flight);
        if referenced(markers, cached.last()@) || holds(in_flight, cached.last()@) || holds(
            rest,
            cached.last()@,
        ) {
            rest
        } else {
            rest.push(cached.last())
        }
    }
}

/// Whether some element of `s` has the characters `h`.
pub open spec fn holds(s: Seq<String>, h: Seq<char>) -> bool {
    exists|i: int| 0 <= i < s.len() && (#[trigger] s[i])@ == h
}

/// Whether an installed version's marker names `hash`.
pub fn is_referenced(markers: &Vec<Option<String>>, hash: &str) -> (r: bool)
    ensures
        r == referenced(markers@, hash@),
{
    let mut i: usize = 0;
    while i < markers.len()
        invariant
            i <= markers@.len(),
            forall|j: int|
                0 <= j < i ==> !(#[trigger] markers@[j] matches Some(m) && m@ == hash@),
        decreases markers@.len() - i,
    {
        match &markers[i] {
            Some(m) => {
                if str_eq(m.as_str(), hash) {
                    return true;
                }
            },
            None => {},
        }
        i += 1;
    }
    false
}

/// Whether `s` holds the characters `h`.
pub fn contains_str(s: &Vec<String>, h: &str) -> (r: bool)
    ensures
        r == holds(s@, h@),
{
    let mut i: usize = 0;
    while i < s.len()
        invariant
            i <= s@.len(),
            forall|j: int| 0 <= j < i ==> (#[trigger] s@[j])@ != h@,
        decreases s@.len() - i,
    {
        if str_eq(s[i].as_str(), h) {
            return true;
        }
        i += 1;
    }
    false
}

/// The cache entries that garbage collection deletes: those whose hash no
/// installed version's marker names and that are not being populated.
pub fn cleanup_candidates(cached: &Vec<String>, markers: &Vec<Option<String>>, in_flight: &Vec<String>) -> (r:
    Vec<String>)
    ensures
        r@ == unused_of(cached@, markers@, in_flight@),
{
    let mut out: Vec<String> = Vec::new();
    let mut i: usize = 0;
    while i < cached.len()
        invariant
            i <= cached@.len(),
            out@ == unused_of(cached@.take(i as int), markers@, in_flight@),
        decreases cached@.len() - i,
    {
        assert(cached@.take(i + 1).drop_last() =~= cached@.take(i as int));
        if !is_referenced(markers, cached[i].as_str()) && !contains_str(in_flight, cached[i].as_str())
            && !contains_str(&out, cached[i].as_str()) {
            out.push(cached[i].clone());
        }
        i += 1;
    }
    assert(cached@.take(cached@.len() as int) =~= cached@);
    out
}

/// Collection never deletes a referenced entry nor one being populated, and
/// deletes every other cached entry.
pub proof fn lemma_gc_safety(cached: Seq<String>, markers: Seq<Option<String>>, in_flight: Seq<String>, h: Seq<char>)
    ensures
        holds(unused_of(cached, markers, in_flight), h) <==> (holds(cached, h) && !referenced(markers, h)
            && !holds(in_flight, h)),
    decreases cached.len(),
{
    if cached.len() > 0 {
        let init = cached.drop_last();
        lemma_gc_safety(init, markers, in_flight, h);
        let rest = unused_of(init, markers, in_flight);
        let u = unused_of(cached, markers, in_flight);
        if holds(cached, h) && !referenced(markers, h) && !holds(in_flight, h) {
            let i = choose|i: int| 0 <= i < cached.len() && (#[trigger] cached[i])@ == h;
            if i < cached.len() - 1 {
                assert(init[i] == cached[i]);
                let k = choose|k: int| 0 <= k < rest.len() && (#[trigger] rest[k])@ == h;
                assert(u[k] == rest[k]);
            } else if holds(rest, h) {
                let k = choose|k: int| 0 <= k < rest.len() && (#[trigger] rest[k])@ == h;
                assert(u[k] == rest[k]);
            } else {
                assert(u[u.len() - 1] == cached.last());
            }
        }
        if holds(u, h) {
            let k = choose|k: int| 0 <= k < u.len() && (#[trigger] u[k])@ == h;
            if k < rest.len() {
                assert(rest[k] == u[k]);
                let i = choose|i: int| 0 <= i < init.len() && (#[trigger] init[i])@ == h;
                assert(cached[i] == init[i]);
            } else {
                assert(u[k] == cached.last());
                assert(cached[cached.len() - 1] == cached.last());
            }
        }
    }
}

/// Collection lists each hash at most once.
pub proof fn lemma_unused_distinct(cached: Seq<String>, markers: Seq<Option<String>>, in_flight: Seq<String>)
    ensures
        forall|j: int, k: int|
            0 <= j < unused_of(cached, markers, in_flight).len() && 0 <= k < unused_of(
                cached,
                markers,
                in_flight,
            ).len() && j != k ==> (#[trigger] unused_of(cached, markers, in_flight)[j])@ != (
            #[trigger] unused_of(cached, markers, in_flight)[k])@,
    decreases cached.len(),
{
    if cached.len() > 0 {
        let init = cached.drop_last();
        lemma_unused_distinct(init, markers, in_flight);
        let rest = unused_of(init, markers, in_flight);
        let u = unused_of(cached, markers, in_flight);
        if u.len() > rest.len() {
            assert forall|j: int, k: int| 0 <= j < u.len() && 0 <= k < u.len() && j != k implies (
            #[trigger] u[j])@ != (#[trigger] u[k])@ by {
                if j < rest.len() && k < rest.len() {
                    assert(u[j] == rest[j] && u[k] == rest[k]);
                } else if j < rest.len() {
                    assert(u[j] == rest[j]);
                    assert(u[k] == cached.last());
                } else {
                    assert(u[k] == rest[k]);
                    assert(u[j] == cached.last());
                }
            }
        }
    }
}

/// What a collection removed, and what it failed to remove with the
/// message of each failure.
pub struct EngineCleanupResult {
    pub removed_engines: Vec<String>,
    pub failed_removals: Vec<(String, String)>,
}

/// The entries whose deletion succeeded (no error), in order.
pub open spec fn removed_of(c: Seq<String>, o: Seq<Option<String>>) -> Seq<String>
    decreases c.len(),
{
    if c.len() == 0 || o.len() != c.len() {
        seq![]
    } else {
        let rest = removed_of(c.drop_last(), o.drop_last());
        if o.last() is None {
            rest.push(c.last())
        } else {
            rest
        }
    }
}

/// The entries whose deletion failed, each with its error, in order.
pub open spec fn failed_of(c: Seq<String>, o: Seq<Option<String>>) -> Seq<(String, String)>
    decreases c.len(),
{
    if c.len() == 0 || o.len() != c.len() {
        seq![]
    } else {
        let rest = failed_of(c.drop_last(), o.drop_last());
        match o.last() {
            Some(m) => rest.push((c.last(), m)),
            None => rest,
        }
    }
}

impl EngineCleanupResult {
    /// A report of a collection that found nothing to delete.
    pub fn empty() -> (r: Self)
        ensures
            r.removed_engines@.len() == 0,
            r.failed_removals@.len() == 0,
    {
        EngineCleanupResult { removed_engines: Vec::new(), failed_removals: Vec::new() }
    }
}

/// Reports a collection: `outcomes[i]` is the error of deleting
/// `candidates[i]`, or nothing when it was deleted.
pub fn cleanup_report(candidates: &Vec<String>, outcomes: &Vec<Option<String>>) -> (r: EngineCleanupResult)
    requires
        candidates@.len() == outcomes@.len(),
    ensures
        r.removed_engines@ == removed_of(candidates@, outcomes@),
        r.failed_removals@ == failed_of(candidates@, outcomes@),
{
    let mut report = EngineCleanupResult::empty();
    let mut i: usize = 0;
    while i < candidates.len()
        invariant
            i <= candidates@.len(),
            candidates@.len() == outcomes@.len(),
            report.removed_engines@ == removed_of(candidates@.take(i as int), outcomes@.take(i as int)),
            report.failed_removals@ == failed_of(candidates@.take(i as int), outcomes@.take(i as int)),
        decreases candidates@.len() - i,
    {
        assert(candidates@.take(i + 1).drop_last() =~= candidates@.take(i as int));
        assert(outcomes@.take(i + 1).drop_last() =~= outcomes@.take(i as int));
        match &outcomes[i] {
            Some(m) => {
                report.failed_removals.push((candidates[i].clone(), m.clone()));
            },
            None => {
                report.removed_engines.push(candidates[i].clone());
            },
        }
        i += 1;
    }
    assert(candidates@.take(candidates@.len() as int) =~= candidates@);
    assert(outcomes@.take(outcomes@.len() as int) =~= outcomes@);
    report
}

/// A report lists an entry as removed exactly when one of its deletions
/// succeeded, and as failed with a message exactly when one of its
/// deletions failed with it. So when the candidates are distinct, an entry
/// whose deletion failed is listed as failed and not as removed, and every
/// other candidate is listed as removed.
pub proof fn lemma_report(c: Seq<String>, o: Seq<Option<String>>, h: Seq<char>, msg: Seq<char>)
    requires
        c.len() == o.len(),
    ensures
        holds(removed_of(c, o), h) <==> exists|j: int|
            0 <= j < c.len() && (#[trigger] c[j])@ == h && o[j] is None,
        (exists|k: int|
            0 <= k < failed_of(c, o).len() && (#[trigger] failed_of(c, o)[k]).0@ == h
                && failed_of(c, o)[k].1@ == msg) <==> exists|j: int|
            0 <= j < c.len() && (#[trigger] c[j])@ == h && (o[j] matches Some(m) && m@ == msg),
    decreases c.len(),
{
    if c.len() > 0 {
        let ci = c.drop_last();
        let oi = o.drop_last();
        lemma_report(ci, oi, h, msg);
        let r = removed_of(c, o);
        let ri = removed_of(ci, oi);
        let f = failed_of(c, o);
        let fi = failed_of(ci, oi);
        let n = c.len() - 1;
        if holds(r, h) {
            let k = choose|k: int| 0 <= k < r.len() && (#[trigger] r[k])@ == h;
            if k < ri.len() {
                assert(r[k] == ri[k]);
                let j = choose|j: int| 0 <= j < ci.len() && (#[trigger] ci[j])@ == h && oi[j] is None;
                assert(c[j] == ci[j]);
            } else {
                assert(c[n] == c.last());
            }
        }
        if exists|j: int| 0 <= j < c.len() && (#[trigger] c[j])@ == h && o[j] is None {
            let j = choose|j: int| 0 <= j < c.len() && (#[trigger] c[j])@ == h && o[j] is None;
            if j < n {
                assert(ci[j] == c[j]);
                let k = choose|k: int| 0 <= k < ri.len() && (#[trigger] ri[k])@ == h;
                assert(r[k] == ri[k]);
            } else {
                assert(r[r.len() - 1] == c.last());
            }
        }
        if exists|k: int| 0 <= k < f.len() && (#[trigger] f[k]).0@ == h && f[k].1@ == msg {
            let k = choose|k: int| 0 <= k < f.len() && (#[trigger] f[k]).0@ == h && f[k].1@ == msg;
            if k < fi.len() {
                assert(f[k] == fi[k]);
                let j = choose|j: int|
                    0 <= j < ci.len() && (#[trigger] ci[j])@ == h && (oi[j] matches Some(m) && m@ == msg);
                assert(c[j] == ci[j]);
            } else {
                assert(c[n] == c.last());
            }
        }
        if exists|j: int| 0 <= j < c.len() && (#[trigger] c[j])@ == h && (o[j] matches Some(m) && m@ == msg) {
            let j = choose|j: int|
                0 <= j < c.len() && (#[trigger] c[j])@ == h && (o[j] matches Some(m) && m@ == msg);
            if j < n {
                assert(ci[j] == c[j]);
                let k = choose|k: int| 0 <= k < fi.len() && (#[trigger] fi[k]).0@ == h && fi[k].1@ == msg;
                assert(f[k] == fi[k]);
            } else {
                assert(f[f.len() - 1] == (c.last(), o.last()->0));
            }
        }
    }
}

/// With distinct candidates, an entry whose deletion failed is reported as
/// failed, with its message, and not as removed; an entry whose deletion
/// succeeded is reported as removed.
pub proof fn lemma_failure_reported_not_removed(c: Seq<String>, o: Seq<Option<String>>, i: int)
    requires
        c.len() == o.len(),
        0 <= i < c.len(),
        forall|j: int, k: int| 0 <= j < c.len() && 0 <= k < c.len() && j != k ==> c[j]@ != c[k]@,
    ensures
        o[i] matches Some(m) ==> {
            &&& !holds(removed_of(c, o), c[i]@)
            &&& exists|k: int|
                0 <= k < failed_of(c, o).len() && (#[trigger] failed_of(c, o)[k]).0@ == c[i]@
                    && failed_of(c, o)[k].1@ == m@
        },
        o[i] is None ==> holds(removed_of(c, o), c[i]@),
{
    match o[i] {
        Some(m) => {
            lemma_report(c, o, c[i]@, m@);
            assert(c[i]@ == c[i]@ && (o[i] matches Some(x) && x@ == m@));
        },
        None => {
            lemma_report(c, o, c[i]@, Seq::empty());
        },
    }
}

/// Reporting a collection: when the deletion of a candidate fails, it is
/// listed as failed with its message and not as removed; when it succeeds,
/// it is listed as removed. This holds of every collection, since a
/// collection lists each hash once.
pub proof fn lemma_gc_report(
    cached: Seq<String>,
    markers: Seq<Option<String>>,
    in_flight: Seq<String>,
    o: Seq<Option<String>>,
    i: int,
)
    requires
        o.len() == unused_of(cached, markers, in_flight).len(),
        0 <= i < o.len(),
    ensures
        ({
            let c = unused_of(cached, markers, in_flight);
            &&& o[i] matches Some(m) ==> {
                &&& !holds(removed_of(c, o), c[i]@)
                &&& exists|k: int|
                    0 <= k < failed_of(c, o).len() && (#[trigger] failed_of(c, o)[k]).0@ == c[i]@
                        && failed_of(c, o)[k].1@ == m@
            }
            &&& o[i] is None ==> holds(removed_of(c, o), c[i]@)
        }),
{
    let c = unused_of(cached, markers, in_flight);
    lemma_unused_distinct(cached, markers, in_flight);
    assert forall|j: int, k: int| 0 <= j < c.len() && 0 <= k < c.len() && j != k implies c[j]@ != c[k]@ by {
        assert(c[j]@ != c[k]@);
    }
    lemma_failure_reported_not_removed(c, o, i);
}

} // verus!
