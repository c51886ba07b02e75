//! The shared bare repository of one origin: cloned on first use, fetched
//! on reuse, and wiped and cloned again once when it fails to open.
use vstd::prelude::*;

use crate::error::SdkError;

verus! {

/// Where the preparation of a shared repository stands.
#[derive(PartialEq, Eq, Structural, Clone, Copy, Debug)]
pub enum RepoPhase {
    Probe,
    Open,
    Fetch,
    Remove,
    Clone,
    Ready,
    Failed,
}

/// The outcome of the last request.
pub enum RepoEvent {
    /// Whether something exists at the repository path.
    Exists(bool),
    /// Whether the repository opened as a bare repository.
    Opened(bool),
    /// The outcome of a fetch, a removal or a clone.
    Completed(Result<(), String>),
}

/// What preparing the repository asks for next.
pub enum RepoAction {
    CheckExists(String),
    OpenBare(String),
    /// Fetch all heads and tags from the origin.
    Fetch(String),
    /// Delete the corrupted repository directory.
    RemoveCorrupt(String),
    /// Clone the origin bare into the path.
    CloneBare(String, String),
    Ready,
    Fail(SdkError),
}

/// The preparation of the shared repository at `path` for origin `url`.
pub struct RepoSync {
    pub path: String,
    pub url: String,
    pub phase: RepoPhase,
}

/// The phase after event `e` in phase `p`.
pub open spec fn repo_step(p: RepoPhase, e: RepoEvent) -> RepoPhase {
    match (p, e) {
        (RepoPhase::Probe, RepoEvent::Exists(true)) => RepoPhase::Open,
        (RepoPhase::Probe, RepoEvent::Exists(false)) => RepoPhase::Clone,
        (RepoPhase::Open, RepoEvent::Opened(true)) => RepoPhase::Fetch,
        (RepoPhase::Open, RepoEvent::Opened(false)) => RepoPhase::Remove,
        (RepoPhase::Fetch, RepoEvent::Completed(Ok(_))) => RepoPhase::Ready,
        (RepoPhase::Remove, RepoEvent::Completed(Ok(_))) => RepoPhase::Clone,
        (RepoPhase::Clone, RepoEvent::Completed(Ok(_))) => RepoPhase::Ready,
        (RepoPhase::Ready, _) => RepoPhase::Ready,
        _ => RepoPhase::Failed,
    }
}

/// The stage a phase reports its failures under.
pub open spec fn repo_stage(p: RepoPhase) -> Seq<char> {
    match p {
        RepoPhase::Fetch => "fetch"@,
        RepoPhase::Remove => "cleanup"@,
        RepoPhase::Clone => "clone"@,
        _ => "repository"@,
    }
}

/// How many clones running `es` from phase `p` asks for.
pub open spec fn clones(p: RepoPhase, es: Seq<RepoEvent>) -> nat
    decreases es.len(),
{
    if es.len() == 0 {
        0
    } else {
        let q = repo_step(p, es[0]);
        (if q == RepoPhase::Clone { 1nat } else { 0nat }) + clones(q, es.drop_first())
    }
}

/// However the outcomes fall, preparing a repository asks for at most one
/// clone: a corrupted repository is recovered once, and a failure after
/// that ends the preparation.
pub proof fn lemma_recovered_once(p: RepoPhase, es: Seq<RepoEvent>)
    requires
        p == RepoPhase::Probe || p == RepoPhase::Open || p == RepoPhase::Remove,
    ensures
        clones(p, es) <= 1,
    decreases es.len(),
{
    if es.len() > 0 {
        let q = repo_step(p, es[0]);
        if q == RepoPhase::Open || q == RepoPhase::Remove {
            lemma_recovered_once(q, es.drop_first());
        } else {
            lemma_no_clone_after(q, es.drop_first());
        }
    }
}

proof fn lemma_no_clone_after(p: RepoPhase, es: Seq<RepoEvent>)
    requires
        p != RepoPhase::Probe && p != RepoPhase::Open && p != RepoPhase::Remove,
    ensures
        clones(p, es) == 0,
    decreases es.len(),
{
    if es.len() > 0 {
        lemma_no_clone_after(repo_step(p, es[0]), es.drop_first());
    }
}

impl RepoSync {
    /// Starts preparing the repository: the first request asks whether it exists.
    pub fn start(path: &str, url: &str) -> (r: (Self, RepoAction))
        ensures
            r.0.path@ == path@,
            r.0.url@ == url@,
            r.0.phase == RepoPhase::Probe,
            r.1 matches RepoAction::CheckExists(p) && p@ == path@,
    {
        (
            RepoSync { path: path.to_owned(), url: url.to_owned(), phase: RepoPhase::Probe },
            RepoAction::CheckExists(path.to_owned()),
        )
    }

    /// Takes the outcome of the last request and returns the next one.
    pub fn next(&mut self, event: RepoEvent) -> (r: RepoAction)
        ensures
            final(self).path == old(self).path,
            final(self).url == old(self).url,
            final(self).phase == repo_step(old(self).phase, event),
            final(self).phase == RepoPhase::Open ==> (r matches RepoAction::OpenBare(p) && p@ == old(self).path@),
            final(self).phase == RepoPhase::Fetch ==> (r matches RepoAction::Fetch(u) && u@ == old(self).url@),
            final(self).phase == RepoPhase::Remove ==> (r matches RepoAction::RemoveCorrupt(p) && p@ == old(self).path@),
            final(self).phase == RepoPhase::Clone ==> (r matches RepoAction::CloneBare(u, p) && u@ == old(self).url@
                && p@ == old(self).path@),
            final(self).phase == RepoPhase::Ready ==> r is Ready,
            final(self).phase == RepoPhase::Failed ==> (r matches RepoAction::Fail(SdkError::StageFailed(st, m))
                && st@ == repo_stage(old(self).phase) && (event matches RepoEvent::Completed(Err(x)) ==> m@ == x@)),
    {
        let p = self.phase;
        let next = match (p, &event) {
            (RepoPhase::Probe, RepoEvent::Exists(true)) => RepoPhase::Open,
            (RepoPhase::Probe, RepoEvent::Exists(false)) => RepoPhase::Clone,
            (RepoPhase::Open, RepoEvent::Opened(true)) => RepoPhase::Fetch,
            (RepoPhase::Open, RepoEvent::Opened(false)) => RepoPhase::Remove,
            (RepoPhase::Fetch, RepoEvent::Completed(Ok(_))) => RepoPhase::Ready,
            (RepoPhase::Remove, RepoEvent::Completed(Ok(_))) => RepoPhase::Clone,
            (RepoPhase::Clone, RepoEvent::Completed(Ok(_))) => RepoPhase::Ready,
            (RepoPhase::Ready, _) => RepoPhase::Ready,
            _ => RepoPhase::Failed,
        };
        self.phase = next;
        match next {
            RepoPhase::Open => RepoAction::OpenBare(self.path.clone()),
            RepoPhase::Fetch => RepoAction::Fetch(self.url.clone()),
            RepoPhase::Remove => RepoAction::RemoveCorrupt(self.path.clone()),
            RepoPhase::Clone => RepoAction::CloneBare(self.url.clone(), self.path.clone()),
            RepoPhase::Ready => RepoAction::Ready,
            _ => {
                let stage = match p {
                    RepoPhase::Fetch => "fetch",
                    RepoPhase::Remove => "cleanup",
                    RepoPhase::Clone => "clone",
                    _ => "repository",
                };
                let message = match event {
                    RepoEvent::Completed(Err(m)) => m,
                    _ => "unexpected event".to_owned(),
                };
                RepoAction::Fail(SdkError::StageFailed(stage.to_owned(), message))
            },
        }
    }
}

} // verus!
