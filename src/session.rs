//! The install session of one version token. The session decides; the
//! caller performs each requested action (a presence check, a download, a
//! catalog lookup, the concurrent engine fill and source checkout, the
//! link) and reports its outcome as the next event.
use vstd::prelude::*;

use crate::config::GlobalConfig;
use crate::engine::{
    arch_of, engine_archive_url, engine_hash_url, engine_hash_url_of, engine_url_of, map_arch, map_platform,
    platform_of,
};
use crate::error::SdkError;
use crate::install::{
    get_flutter_repo_url, is_checkout, is_link_plan, link_engine_to_flutter, parse_engine_hash,
    repo_url_of, source_checkout, LinkPlan, SourceCheckout,
};
use crate::layout::{engine_hash_dir_of, engine_staging_dir, engine_staging_dir_of, flutter_bin_path, flutter_version_dir, join, shared_engine_hash_dir, version_dir_of};
use crate::text::trimmed;
use crate::version::{bare_version, strip_fork_alias};

verus! {

/// Where an install session stands.
#[derive(PartialEq, Eq, Structural, Clone, Copy, Debug)]
pub enum InstallPhase {
    CheckPresence,
    FetchHash,
    ResolveChannel,
    Acquire,
    Link,
    Done,
    Failed,
}

/// The outcome of the action the session asked for last.
pub enum InstallEvent {
    /// Whether the version's executable exists.
    Presence(bool),
    /// The text served as the version's engine hash.
    HashFetched(String),
    /// The channel of the version.
    ChannelResolved(String),
    /// The outcomes of the engine fill and of the source checkout.
    Acquired(Result<(), String>, Result<(), String>),
    /// The outcome of linking.
    Linked(Result<(), String>),
    /// The requested download or lookup failed.
    StepFailed(String),
}

/// The engine cache entry the engine fill must make sure of, and where a
/// missing one is extracted before it is moved into place.
pub struct EngineFill {
    pub hash: String,
    pub dir: String,
    pub staging: String,
}

/// The download that fills a missing engine cache entry: the archive's
/// URL, the staging directory it is extracted into, and the entry it then
/// becomes.
pub struct EngineDownload {
    pub url: String,
    pub staging: String,
    pub dir: String,
}

impl EngineFill {
    /// Decides the engine fill from whether the entry exists: an existing
    /// entry is used as it is, with no download and no check; a missing one
    /// is downloaded for the platform and architecture, and an architecture
    /// the SDK ships no engine for is refused.
    pub fn plan(&self, present: bool, os: &str, arch: &str) -> (r: Result<Option<EngineDownload>, SdkError>)
        ensures
            present ==> r matches Ok(None),
            !present && arch_of(arch@) is None ==> (r matches Err(SdkError::UnsupportedPlatform(m)) && m@
                == arch@),
            !present && arch_of(arch@) is Some ==> (r matches Ok(Some(d)) && d.url@ == engine_url_of(
                self.hash@,
                platform_of(os@),
                arch_of(arch@)->0,
            ) && d.staging@ == self.staging@ && d.dir@ == self.dir@),
    {
        if present {
            return Ok(None);
        }
        let a = map_arch(arch)?;
        let platform = map_platform(os);
        Ok(
            Some(
                EngineDownload {
                    url: engine_archive_url(self.hash.as_str(), platform.as_str(), a.as_str()),
                    staging: self.staging.clone(),
                    dir: self.dir.clone(),
                },
            ),
        )
    }
}

/// What the session asks the caller to do next.
pub enum InstallAction {
    /// Check whether this executable exists.
    CheckPresence(String),
    /// Download the engine hash from this URL.
    FetchEngineHash(String),
    /// Find the channel of this bare version in the release catalog.
    ResolveChannel(String),
    /// Fill the engine cache entry and check out the sources, concurrently.
    Acquire(EngineFill, SourceCheckout),
    /// Write the markers and the link.
    Link(LinkPlan),
    /// The session is over; whether it installed anything.
    Finish(bool),
    /// The session failed.
    Fail(SdkError),
}

/// Whether an action touches the network, git or the file system beyond
/// the presence check.
pub open spec fn is_work(a: InstallAction) -> bool {
    match a {
        InstallAction::FetchEngineHash(_) => true,
        InstallAction::ResolveChannel(_) => true,
        InstallAction::Acquire(_, _) => true,
        InstallAction::Link(_) => true,
        _ => false,
    }
}

/// The install session of one token.
pub struct InstallSession {
    pub token: String,
    pub root: String,
    /// The origin of the sources, or the fork alias that is not registered.
    pub origin: Result<String, String>,
    pub windows: bool,
    pub phase: InstallPhase,
    pub engine_hash: String,
}

/// The stage a phase reports its failures under.
pub open spec fn stage_name(p: InstallPhase) -> Seq<char> {
    match p {
        InstallPhase::FetchHash => "engine-hash"@,
        InstallPhase::ResolveChannel => "channel"@,
        InstallPhase::Acquire => "acquire"@,
        InstallPhase::Link => "link"@,
        _ => "session"@,
    }
}

/// Whether `e` is the outcome that phase `p` waits for; a finished or
/// failed session waits for nothing.
pub open spec fn awaited(p: InstallPhase, e: InstallEvent) -> bool {
    match (p, e) {
        (InstallPhase::CheckPresence, InstallEvent::Presence(_)) => true,
        (InstallPhase::FetchHash, InstallEvent::HashFetched(_)) => true,
        (InstallPhase::ResolveChannel, InstallEvent::ChannelResolved(_)) => true,
        (InstallPhase::Acquire, InstallEvent::Acquired(_, _)) => true,
        (InstallPhase::Link, InstallEvent::Linked(_)) => true,
        _ => false,
    }
}

/// The phase after `e` in phase `p`; `ok` says whether the origin resolved.
pub open spec fn step_phase(p: InstallPhase, e: InstallEvent, ok: bool) -> InstallPhase {
    match (p, e) {
        (InstallPhase::CheckPresence, InstallEvent::Presence(true)) => InstallPhase::Done,
        (InstallPhase::CheckPresence, InstallEvent::Presence(false)) => if ok {
            InstallPhase::FetchHash
        } else {
            InstallPhase::Failed
        },
        (InstallPhase::FetchHash, InstallEvent::HashFetched(_)) => InstallPhase::ResolveChannel,
        (InstallPhase::ResolveChannel, InstallEvent::ChannelResolved(_)) => if ok {
            InstallPhase::Acquire
        } else {
            InstallPhase::Failed
        },
        (InstallPhase::Acquire, InstallEvent::Acquired(Ok(_), Ok(_))) => InstallPhase::Link,
        (InstallPhase::Link, InstallEvent::Linked(Ok(_))) => InstallPhase::Done,
        (InstallPhase::Done, _) => InstallPhase::Done,
        _ => InstallPhase::Failed,
    }
}

/// Whether the action after `e` in phase `p` is work.
pub open spec fn step_works(p: InstallPhase, e: InstallEvent, ok: bool) -> bool {
    match (p, e) {
        (InstallPhase::CheckPresence, InstallEvent::Presence(false)) => ok,
        (InstallPhase::FetchHash, InstallEvent::HashFetched(_)) => true,
        (InstallPhase::ResolveChannel, InstallEvent::ChannelResolved(_)) => ok,
        (InstallPhase::Acquire, InstallEvent::Acquired(Ok(_), Ok(_))) => true,
        _ => false,
    }
}

/// Whether some step of running `es` from phase `p` asks for work.
pub open spec fn run_works(p: InstallPhase, es: Seq<InstallEvent>, ok: bool) -> bool
    decreases es.len(),
{
    if es.len() == 0 {
        false
    } else {
        step_works(p, es[0], ok) || run_works(step_phase(p, es[0], ok), es.drop_first(), ok)
    }
}

/// Once the presence check finds a version installed, the session asks
/// for no work, whatever is reported afterwards; when it finds the version
/// missing, it asks for work at once.
pub proof fn lemma_installed_needs_no_work(es: Seq<InstallEvent>, ok: bool)
    ensures
        step_phase(InstallPhase::CheckPresence, InstallEvent::Presence(true), ok) == InstallPhase::Done,
        !step_works(InstallPhase::CheckPresence, InstallEvent::Presence(true), ok),
        !run_works(InstallPhase::Done, es, ok),
        ok ==> step_works(InstallPhase::CheckPresence, InstallEvent::Presence(false), ok),
    decreases es.len(),
{
    if es.len() > 0 {
        lemma_installed_needs_no_work(es.drop_first(), ok);
    }
}

impl InstallSession {
    /// Whether the origin of the sources resolved.
    pub open spec fn origin_ok(&self) -> bool {
        self.origin is Ok
    }

    /// Starts the session of a token: the first request is the presence
    /// check of the version's executable.
    pub fn start(token: &str, root: &str, config: &GlobalConfig, default_url: &str, windows: bool) -> (r: (
        Self,
        InstallAction,
    ))
        ensures
            r.0.token@ == token@,
            r.0.root@ == root@,
            r.0.windows == windows,
            r.0.phase == InstallPhase::CheckPresence,
            repo_url_of(token@, config.forks@, default_url@) matches Some(u) ==> (r.0.origin matches Ok(
                o,
            ) && o@ == u),
            repo_url_of(token@, config.forks@, default_url@) is None ==> r.0.origin is Err,
            r.1 matches InstallAction::CheckPresence(p) && p@ == join(
                join(version_dir_of(root@, token@), "bin"@),
                if windows {
                    "flutter.bat"@
                } else {
                    "flutter"@
                },
            ),
    {
        let origin = match get_flutter_repo_url(token, config, default_url) {
            Ok(u) => Ok(u),
            Err(SdkError::ForkNotFound(a)) => Err(a),
            Err(_) => Err(token.to_owned()),
        };
        let vdir = flutter_version_dir(root, token);
        let bin = flutter_bin_path(vdir.as_str(), windows);
        (
            InstallSession {
                token: token.to_owned(),
                root: root.to_owned(),
                origin,
                windows,
                phase: InstallPhase::CheckPresence,
                engine_hash: String::new(),
            },
            InstallAction::CheckPresence(bin),
        )
    }

    /// Takes the outcome of the last request and returns the next one.
    pub fn next(&mut self, event: InstallEvent) -> (r: InstallAction)
        ensures
            final(self).token == old(self).token,
            final(self).root == old(self).root,
            final(self).origin == old(self).origin,
            final(self).windows == old(self).windows,
            final(self).phase == step_phase(old(self).phase, event, old(self).origin_ok()),
            is_work(r) == step_works(old(self).phase, event, old(self).origin_ok()),
            !awaited(old(self).phase, event) ==> r is Fail,
            old(self).phase == InstallPhase::CheckPresence && event == InstallEvent::Presence(true) ==> r
                == InstallAction::Finish(false),
            old(self).phase == InstallPhase::CheckPresence && event == InstallEvent::Presence(false)
                ==> match old(self).origin {
                Ok(_) => (r matches InstallAction::FetchEngineHash(u) && u@ == engine_hash_url_of(
                    bare_version(old(self).token@),
                )),
                Err(a) => (r matches InstallAction::Fail(SdkError::ForkNotFound(x)) && x@ == a@),
            },
            old(self).phase == InstallPhase::FetchHash ==> (event matches InstallEvent::HashFetched(t)
                ==> (final(self).engine_hash@ == trimmed(t@) && (r matches InstallAction::ResolveChannel(
                v) && v@ == bare_version(old(self).token@)))),
            old(self).phase == InstallPhase::ResolveChannel && old(self).origin is Ok ==> (
            event matches InstallEvent::ChannelResolved(ch) ==> (r matches InstallAction::Acquire(f, s)
                && f.hash@ == old(self).engine_hash@ && f.dir@ == engine_hash_dir_of(
                old(self).root@,
                old(self).engine_hash@,
            ) && f.staging@ == engine_staging_dir_of(old(self).root@, old(self).engine_hash@)
                && is_checkout(s, old(self).root@, old(self).token@, ch@, old(self).origin->Ok_0@))),
            old(self).phase == InstallPhase::ResolveChannel && old(self).origin is Err ==> (
            event matches InstallEvent::ChannelResolved(_) ==> (r matches InstallAction::Fail(
                SdkError::ForkNotFound(x),
            ) && x@ == old(self).origin->Err_0@)),
            old(self).phase == InstallPhase::Acquire ==> (event matches InstallEvent::Acquired(e, s) ==> (
            match (e, s) {
                (Ok(_), Ok(_)) => (r matches InstallAction::Link(p) && is_link_plan(
                    p,
                    old(self).root@,
                    old(self).engine_hash@,
                    version_dir_of(old(self).root@, old(self).token@),
                )),
                (Err(m), _) => (r matches InstallAction::Fail(SdkError::StageFailed(st, x)) && st@
                    == "engine"@ && x@ == m@),
                (Ok(_), Err(m)) => (r matches InstallAction::Fail(SdkError::StageFailed(st, x)) && st@
                    == "checkout"@ && x@ == m@),
            })),
            old(self).phase == InstallPhase::Link ==> (event matches InstallEvent::Linked(l) ==> (
            match l {
                Ok(_) => r == InstallAction::Finish(true),
                Err(m) => (r matches InstallAction::Fail(SdkError::StageFailed(st, x)) && st@ == "link"@
                    && x@ == m@),
            })),
            event matches InstallEvent::StepFailed(m) ==> (r matches InstallAction::Fail(
                SdkError::StageFailed(st, x),
            ) && st@ == stage_name(old(self).phase) && x@ == m@),
            !(old(self).phase == InstallPhase::FetchHash) ==> final(self).engine_hash == old(
                self,
            ).engine_hash,
    {
        let phase = self.phase;
        match event {
            InstallEvent::Presence(present) => {
                if phase == InstallPhase::CheckPresence {
                    if present {
                        self.phase = InstallPhase::Done;
                        return InstallAction::Finish(false);
                    }
                    match &self.origin {
                        Ok(_) => {
                            self.phase = InstallPhase::FetchHash;
                            let bare = strip_fork_alias(self.token.as_str());
                            return InstallAction::FetchEngineHash(engine_hash_url(bare.as_str()));
                        },
                        Err(a) => {
                            self.phase = InstallPhase::Failed;
                            return InstallAction::Fail(SdkError::ForkNotFound(a.clone()));
                        },
                    }
                }
            },
            InstallEvent::HashFetched(text) => {
                if phase == InstallPhase::FetchHash {
                    self.engine_hash = parse_engine_hash(text.as_str());
                    self.phase = InstallPhase::ResolveChannel;
                    return InstallAction::ResolveChannel(strip_fork_alias(self.token.as_str()));
                }
            },
            InstallEvent::ChannelResolved(channel) => {
                if phase == InstallPhase::ResolveChannel {
                    match &self.origin {
                        Ok(url) => {
                            self.phase = InstallPhase::Acquire;
                            let fill = EngineFill {
                                hash: self.engine_hash.clone(),
                                dir: shared_engine_hash_dir(self.root.as_str(), self.engine_hash.as_str()),
                                staging: engine_staging_dir(self.root.as_str(), self.engine_hash.as_str()),
                            };
                            let checkout = source_checkout(
                                self.root.as_str(),
                                self.token.as_str(),
                                channel.as_str(),
                                url.as_str(),
                            );
                            return InstallAction::Acquire(fill, checkout);
                        },
                        Err(a) => {
                            self.phase = InstallPhase::Failed;
                            return InstallAction::Fail(SdkError::ForkNotFound(a.clone()));
                        },
                    }
                }
            },
            InstallEvent::Acquired(engine, checkout) => {
                if phase == InstallPhase::Acquire {
                    match (engine, checkout) {
                        (Ok(_), Ok(_)) => {
                            self.phase = InstallPhase::Link;
                            let vdir = flutter_version_dir(self.root.as_str(), self.token.as_str());
                            return InstallAction::Link(
                                link_engine_to_flutter(self.root.as_str(), self.engine_hash.as_str(), vdir.as_str()),
                            );
                        },
                        (Err(m), _) => {
                            self.phase = InstallPhase::Failed;
                            return InstallAction::Fail(SdkError::StageFailed("engine".to_owned(), m));
                        },
                        (Ok(_), Err(m)) => {
                            self.phase = InstallPhase::Failed;
                            return InstallAction::Fail(SdkError::StageFailed("checkout".to_owned(), m));
                        },
                    }
                }
            },
            InstallEvent::Linked(outcome) => {
                if phase == InstallPhase::Link {
                    match outcome {
                        Ok(_) => {
                            self.phase = InstallPhase::Done;
                            return InstallAction::Finish(true);
                        },
                        Err(m) => {
                            self.phase = InstallPhase::Failed;
                            return InstallAction::Fail(SdkError::StageFailed("link".to_owned(), m));
                        },
                    }
                }
            },
            InstallEvent::StepFailed(m) => {
                let stage = match phase {
                    InstallPhase::FetchHash => "engine-hash",
                    InstallPhase::ResolveChannel => "channel",
                    InstallPhase::Acquire => "acquire",
                    InstallPhase::Link => "link",
                    _ => "session",
                };
                if phase != InstallPhase::Done {
                    self.phase = InstallPhase::Failed;
                }
                return InstallAction::Fail(SdkError::StageFailed(stage.to_owned(), m));
            },
        }
        if phase != InstallPhase::Done {
            self.phase = InstallPhase::Failed;
        }
        InstallAction::Fail(SdkError::StageFailed("session".to_owned(), "unexpected event".to_owned()))
    }
}

} // verus!
