use fvm_rs::config::GlobalConfig;
use fvm_rs::error::SdkError;
use fvm_rs::install::{
    engine_hash_from_marker, get_flutter_repo_url, link_engine_to_flutter, parse_engine_hash, source_checkout,
    uninstall,
};
use fvm_rs::inventory::{
    directory_names, set_global_version, get_global_flutter_version, get_global_version, list_installed_versions,
    version_of_link_target, DirEntryInfo,
};
use fvm_rs::repo::{RepoAction, RepoEvent, RepoPhase, RepoSync};
use fvm_rs::session::{InstallAction, InstallEvent, InstallPhase, InstallSession};

const ROOT: &str = "/h/.fvm-rs";
const ORIGIN: &str = "https://github.com/flutter/flutter.git";

fn s(x: &str) -> String {
    x.to_string()
}

fn config_with_fork() -> GlobalConfig {
    let mut g = GlobalConfig::empty();
    g.add_fork(s("acme"), s("https://acme/flutter.git")).unwrap();
    g
}

#[test]
fn repo_url_default_and_fork() {
    let g = config_with_fork();
    assert_eq!(get_flutter_repo_url("3.24.0", &g, ORIGIN), Ok(s(ORIGIN)));
    assert_eq!(get_flutter_repo_url("acme/stable", &g, ORIGIN), Ok(s("https://acme/flutter.git")));
    assert_eq!(get_flutter_repo_url("nobody/stable", &g, ORIGIN), Err(SdkError::ForkNotFound(s("nobody"))));
}

#[test]
fn engine_hash_text_is_trimmed() {
    assert_eq!(parse_engine_hash("  deadbeef\n"), "deadbeef");
    assert_eq!(parse_engine_hash("\t\n"), "");
    assert_eq!(engine_hash_from_marker(Some(s("abc\n"))), Some(s("abc")));
    assert_eq!(engine_hash_from_marker(None), None);
}

#[test]
fn checkout_plan_targets_tag_on_channel_branch() {
    let c = source_checkout(ROOT, "acme/3.24.0", "stable", "https://acme/flutter.git");
    assert_eq!(c.repo_dir, "/h/.fvm-rs/shared/forks/acme");
    assert_eq!(c.repo_url, "https://acme/flutter.git");
    assert_eq!(c.worktree_name, "fvm-3.24.0");
    assert_eq!(c.version_dir, "/h/.fvm-rs/flutter/acme/3.24.0");
    assert_eq!(c.branch_ref, "refs/heads/stable");
    assert_eq!(c.tag_ref, "refs/tags/3.24.0");
    assert_eq!(c.remote_key, "branch.stable.remote");
    assert_eq!(c.merge_key, "branch.stable.merge");
}

#[test]
fn link_plan_writes_markers_and_link() {
    let p = link_engine_to_flutter(ROOT, "deadbeef", "/h/.fvm-rs/flutter/9.9.9");
    assert_eq!(p.cache_dir, "/h/.fvm-rs/flutter/9.9.9/bin/cache");
    assert_eq!(p.engine_stamp, "/h/.fvm-rs/flutter/9.9.9/bin/cache/engine.stamp");
    assert_eq!(p.dart_sdk_stamp, "/h/.fvm-rs/flutter/9.9.9/bin/cache/engine-dart-sdk.stamp");
    assert_eq!(p.realm_file, "/h/.fvm-rs/flutter/9.9.9/bin/cache/engine.realm");
    assert_eq!(p.stamp_content, "deadbeef");
    assert_eq!(p.realm_content, "");
    assert_eq!(p.link_path, "/h/.fvm-rs/flutter/9.9.9/bin/cache/dart-sdk");
    assert_eq!(p.link_target, "/h/.fvm-rs/shared/engine/deadbeef");
}

#[test]
fn two_versions_with_one_hash_share_one_entry() {
    let a = link_engine_to_flutter(ROOT, "H", "/h/.fvm-rs/flutter/A");
    let b = link_engine_to_flutter(ROOT, "H", "/h/.fvm-rs/flutter/B");
    assert_eq!(a.link_target, b.link_target);
    assert_ne!(a.link_path, b.link_path);
}

#[test]
fn uninstall_then_reinstall_reuses_worktree_name() {
    let u = uninstall(ROOT, "3.24.0");
    assert_eq!(u.version_dir, "/h/.fvm-rs/flutter/3.24.0");
    assert_eq!(u.engine_stamp, "/h/.fvm-rs/flutter/3.24.0/bin/cache/engine.stamp");
    assert_eq!(u.repo_dir, "/h/.fvm-rs/shared/flutter");
    let c = source_checkout(ROOT, "3.24.0", "stable", ORIGIN);
    assert_eq!(u.worktree_name, c.worktree_name);
}

#[test]
fn installed_version_needs_no_work_on_second_call() {
    let g = GlobalConfig::empty();
    let (mut session, first) = InstallSession::start("3.24.0", ROOT, &g, ORIGIN, false);
    assert!(matches!(first, InstallAction::CheckPresence(ref p) if p == "/h/.fvm-rs/flutter/3.24.0/bin/flutter"));
    let next = session.next(InstallEvent::Presence(true));
    assert!(matches!(next, InstallAction::Finish(false)));
    assert_eq!(session.phase, InstallPhase::Done);
}

#[test]
fn end_to_end_install_of_tagged_version() {
    let g = GlobalConfig::empty();
    let (mut session, _) = InstallSession::start("9.9.9", ROOT, &g, ORIGIN, false);
    match session.next(InstallEvent::Presence(false)) {
        InstallAction::FetchEngineHash(url) => assert_eq!(
            url,
            "https://raw.githubusercontent.com/flutter/flutter/9.9.9/bin/internal/engine.version"
        ),
        _ => panic!("expected a hash download"),
    }
    match session.next(InstallEvent::HashFetched(s("deadbeef\n"))) {
        InstallAction::ResolveChannel(v) => assert_eq!(v, "9.9.9"),
        _ => panic!("expected a channel lookup"),
    }
    assert_eq!(session.engine_hash, "deadbeef");
    match session.next(InstallEvent::ChannelResolved(s("stable"))) {
        InstallAction::Acquire(fill, checkout) => {
            assert_eq!(fill.hash, "deadbeef");
            assert_eq!(fill.dir, "/h/.fvm-rs/shared/engine/deadbeef");
            assert_eq!(fill.staging, "/h/.fvm-rs/shared/staging/deadbeef");
            assert_eq!(checkout.tag_ref, "refs/tags/9.9.9");
            assert_eq!(checkout.branch_ref, "refs/heads/stable");
            assert_eq!(checkout.version_dir, "/h/.fvm-rs/flutter/9.9.9");
        }
        _ => panic!("expected acquisition"),
    }
    match session.next(InstallEvent::Acquired(Ok(()), Ok(()))) {
        InstallAction::Link(plan) => {
            assert_eq!(plan.link_target, "/h/.fvm-rs/shared/engine/deadbeef");
            assert_eq!(plan.stamp_content, "deadbeef");
        }
        _ => panic!("expected linking"),
    }
    assert!(matches!(session.next(InstallEvent::Linked(Ok(()))), InstallAction::Finish(true)));
    assert_eq!(session.phase, InstallPhase::Done);
}

#[test]
fn unknown_fork_fails_after_presence_check() {
    let g = GlobalConfig::empty();
    let (mut session, _) = InstallSession::start("nobody/stable", ROOT, &g, ORIGIN, false);
    let next = session.next(InstallEvent::Presence(false));
    assert!(matches!(next, InstallAction::Fail(SdkError::ForkNotFound(ref a)) if a == "nobody"));
    assert_eq!(session.phase, InstallPhase::Failed);
}

#[test]
fn failed_engine_fill_fails_install() {
    let g = GlobalConfig::empty();
    let (mut session, _) = InstallSession::start("1.0.0", ROOT, &g, ORIGIN, true);
    session.next(InstallEvent::Presence(false));
    session.next(InstallEvent::HashFetched(s("h")));
    session.next(InstallEvent::ChannelResolved(s("master")));
    let r = session.next(InstallEvent::Acquired(Err(s("404")), Ok(())));
    assert!(matches!(r, InstallAction::Fail(SdkError::StageFailed(ref st, ref m)) if st == "engine" && m == "404"));
    assert_eq!(session.phase, InstallPhase::Failed);
}

#[test]
fn failed_checkout_fails_install() {
    let g = GlobalConfig::empty();
    let (mut session, _) = InstallSession::start("1.0.0", ROOT, &g, ORIGIN, false);
    session.next(InstallEvent::Presence(false));
    session.next(InstallEvent::HashFetched(s("h")));
    session.next(InstallEvent::ChannelResolved(s("master")));
    let r = session.next(InstallEvent::Acquired(Ok(()), Err(s("no tag"))));
    assert!(matches!(r, InstallAction::Fail(SdkError::StageFailed(ref st, ref m)) if st == "checkout" && m == "no tag"));
}

#[test]
fn failed_download_names_its_stage() {
    let g = GlobalConfig::empty();
    let (mut session, _) = InstallSession::start("1.0.0", ROOT, &g, ORIGIN, false);
    session.next(InstallEvent::Presence(false));
    let r = session.next(InstallEvent::StepFailed(s("offline")));
    assert!(matches!(r, InstallAction::Fail(SdkError::StageFailed(ref st, ref m)) if st == "engine-hash" && m == "offline"));
}

#[test]
fn fresh_repository_is_cloned() {
    let (mut sync, first) = RepoSync::start("/r", "u");
    assert!(matches!(first, RepoAction::CheckExists(ref p) if p == "/r"));
    assert!(matches!(sync.next(RepoEvent::Exists(false)), RepoAction::CloneBare(ref u, ref p) if u == "u" && p == "/r"));
    assert!(matches!(sync.next(RepoEvent::Completed(Ok(()))), RepoAction::Ready));
    assert_eq!(sync.phase, RepoPhase::Ready);
}

#[test]
fn existing_repository_is_fetched() {
    let (mut sync, _) = RepoSync::start("/r", "u");
    assert!(matches!(sync.next(RepoEvent::Exists(true)), RepoAction::OpenBare(_)));
    assert!(matches!(sync.next(RepoEvent::Opened(true)), RepoAction::Fetch(ref u) if u == "u"));
    let r = sync.next(RepoEvent::Completed(Err(s("unreachable"))));
    assert!(matches!(r, RepoAction::Fail(SdkError::StageFailed(ref st, ref m)) if st == "fetch" && m == "unreachable"));
}

#[test]
fn corrupted_repository_is_recloned_once() {
    let (mut sync, _) = RepoSync::start("/r", "u");
    sync.next(RepoEvent::Exists(true));
    assert!(matches!(sync.next(RepoEvent::Opened(false)), RepoAction::RemoveCorrupt(ref p) if p == "/r"));
    assert!(matches!(sync.next(RepoEvent::Completed(Ok(()))), RepoAction::CloneBare(_, _)));
    let r = sync.next(RepoEvent::Completed(Err(s("denied"))));
    assert!(matches!(r, RepoAction::Fail(SdkError::StageFailed(ref st, _)) if st == "clone"));
    assert_eq!(sync.phase, RepoPhase::Failed);
}

#[test]
fn only_directories_are_versions() {
    let entries = vec![
        DirEntryInfo { name: s("3.24.0"), is_dir: true },
        DirEntryInfo { name: s(".DS_Store"), is_dir: false },
        DirEntryInfo { name: s("stable"), is_dir: true },
    ];
    assert_eq!(list_installed_versions(&entries), vec![s("3.24.0"), s("stable")]);
    assert_eq!(directory_names(&vec![]), Vec::<String>::new());
}

#[test]
fn global_pointer_names_final_component() {
    assert_eq!(version_of_link_target("/h/.fvm-rs/flutter/3.24.0"), Some(s("3.24.0")));
    assert_eq!(version_of_link_target("/h/.fvm-rs/flutter/stable/"), Some(s("stable")));
    assert_eq!(version_of_link_target("3.24.0"), Some(s("3.24.0")));
    assert_eq!(version_of_link_target("/"), None);
    assert_eq!(version_of_link_target("/a/.."), None);
    assert_eq!(get_global_version(None), None);
}

#[test]
fn primary_pointer_wins_over_legacy() {
    assert_eq!(get_global_flutter_version(Some(s("/x/flutter/a")), Some(s("/y/versions/b"))), Some(s("a")));
    assert_eq!(get_global_flutter_version(None, Some(s("/y/versions/b"))), Some(s("b")));
    assert_eq!(get_global_flutter_version(None, None), None);
}

#[test]
fn global_pointer_needs_installed_version() {
    let link = set_global_version(ROOT, "3.24.0", true).ok().unwrap();
    assert_eq!(link.link_path, "/h/.fvm-rs/default");
    assert_eq!(link.target, "/h/.fvm-rs/flutter/3.24.0");
    assert_eq!(version_of_link_target(&link.target), Some(s("3.24.0")));
    assert!(matches!(set_global_version(ROOT, "9.9.9", false), Err(SdkError::NotInstalled(ref v)) if v == "9.9.9"));
}

#[test]
fn engine_fill_skips_present_entry_and_checks_arch() {
    let g = GlobalConfig::empty();
    let (mut session, _) = InstallSession::start("9.9.9", ROOT, &g, ORIGIN, false);
    session.next(InstallEvent::Presence(false));
    session.next(InstallEvent::HashFetched(s("deadbeef")));
    let fill = match session.next(InstallEvent::ChannelResolved(s("stable"))) {
        InstallAction::Acquire(fill, _) => fill,
        _ => panic!("expected acquisition"),
    };
    assert!(matches!(fill.plan(true, "linux", "riscv64"), Ok(None)));
    assert!(matches!(fill.plan(false, "linux", "riscv64"), Err(SdkError::UnsupportedPlatform(ref a)) if a == "riscv64"));
    match fill.plan(false, "macos", "aarch64") {
        Ok(Some(d)) => {
            assert_eq!(
                d.url,
                "https://storage.googleapis.com/flutter_infra_release/flutter/deadbeef/dart-sdk-darwin-arm64.zip"
            );
            assert_eq!(d.staging, "/h/.fvm-rs/shared/staging/deadbeef");
            assert_eq!(d.dir, "/h/.fvm-rs/shared/engine/deadbeef");
        }
        _ => panic!("expected a download"),
    }
}

#[test]
fn out_of_order_event_never_claims_success() {
    let g = GlobalConfig::empty();
    let (mut session, _) = InstallSession::start("1.0.0", ROOT, &g, ORIGIN, false);
    assert!(matches!(session.next(InstallEvent::Linked(Ok(()))), InstallAction::Fail(_)));
    let (mut done, _) = InstallSession::start("1.0.0", ROOT, &g, ORIGIN, false);
    done.next(InstallEvent::Presence(true));
    assert!(matches!(done.next(InstallEvent::Linked(Ok(()))), InstallAction::Fail(_)));
    assert_eq!(done.phase, InstallPhase::Done);
}

#[test]
fn each_origin_has_its_own_repository() {
    let default = source_checkout(ROOT, "3.24.0", "stable", ORIGIN);
    let fork = source_checkout(ROOT, "acme/3.24.0", "stable", "https://acme/flutter.git");
    let other = source_checkout(ROOT, "globex/3.24.0", "stable", "https://globex/flutter.git");
    assert_eq!(default.repo_dir, "/h/.fvm-rs/shared/flutter");
    assert_eq!(fork.repo_dir, "/h/.fvm-rs/shared/forks/acme");
    assert_eq!(other.repo_dir, "/h/.fvm-rs/shared/forks/globex");
    assert_eq!(uninstall(ROOT, "acme/3.24.0").repo_dir, fork.repo_dir);
}

#[test]
fn global_pointer_skips_trailing_dot_components() {
    assert_eq!(version_of_link_target("/x/flutter/3.24.0/."), Some(s("3.24.0")));
    assert_eq!(version_of_link_target("/x/flutter/stable/./"), Some(s("stable")));
    assert_eq!(version_of_link_target("."), None);
    assert_eq!(version_of_link_target("./"), None);
    assert_eq!(version_of_link_target("/x/.hidden"), Some(s(".hidden")));
}

#[test]
fn engine_hash_trims_unicode_white_space() {
    assert_eq!(parse_engine_hash("\u{3000}\u{A0}abc def\u{2028}"), "abc def");
    assert_eq!(parse_engine_hash(""), "");
    assert_eq!(parse_engine_hash("x"), "x");
}
