use fvm_rs::commands::{RmArgs, RmTarget};
use fvm_rs::config::{
    check_flutter_upgrade, git_cache_flag, resolve_version_or_flavor, update_project_config, validate_flavor_name, validate_git_url,
    ConfigArgs, FlutterFork, GlobalConfig, ProjectConfig,
};
use fvm_rs::error::SdkError;
use fvm_rs::releases::{
    channel_of, dedup_releases, get_channel_for_version, list_available_versions, CurrentReleaseHashes,
    FlutterRelease, ReleaseCatalog,
};

fn s(x: &str) -> String {
    x.to_string()
}

fn rel(hash: &str, channel: &str, version: &str) -> FlutterRelease {
    FlutterRelease {
        hash: s(hash),
        channel: s(channel),
        version: s(version),
        dart_sdk_version: None,
        release_date: 0,
    }
}

fn sample() -> Vec<FlutterRelease> {
    vec![
        rel("h1", "stable", "3.24.0"),
        rel("h2", "beta", "3.25.0-0.1.pre"),
        rel("h1", "stable", "3.24.0-dup"),
        rel("h3", "dev", "3.26.0-dev"),
    ]
}

#[test]
fn dedup_keeps_first_of_each_hash() {
    let d = dedup_releases(&sample());
    let versions: Vec<&str> = d.iter().map(|r| r.version.as_str()).collect();
    assert_eq!(versions, vec!["3.24.0", "3.25.0-0.1.pre", "3.26.0-dev"]);
}

#[test]
fn catalog_finds_current_releases() {
    let current = CurrentReleaseHashes { stable: s("h1"), beta: s("h2"), dev: s("h3") };
    let c = list_available_versions(&current, &sample()).ok().unwrap();
    assert_eq!(c.current_releases.stable.version, "3.24.0");
    assert_eq!(c.current_releases.beta.version, "3.25.0-0.1.pre");
    assert_eq!(c.current_releases.dev.version, "3.26.0-dev");
    assert_eq!(c.releases.len(), 3);
}

#[test]
fn catalog_refuses_unlisted_current_release() {
    let current = CurrentReleaseHashes { stable: s("h1"), beta: s("zz"), dev: s("h3") };
    let r = list_available_versions(&current, &sample());
    assert!(matches!(r, Err(SdkError::MissingCurrentRelease(ref c)) if c == "beta"));
}

#[test]
fn channel_of_known_and_unknown_versions() {
    let rs = sample();
    assert_eq!(channel_of(&rs, "3.25.0-0.1.pre"), "beta");
    assert_eq!(channel_of(&rs, "3.24.0"), "stable");
    assert_eq!(channel_of(&rs, "9.9.9-custom"), "master");
    assert_eq!(channel_of(&vec![], "3.24.0"), "master");
}

#[test]
fn channel_for_fork_token_uses_bare_version() {
    let current = CurrentReleaseHashes { stable: s("h1"), beta: s("h2"), dev: s("h3") };
    let c = list_available_versions(&current, &sample()).ok().unwrap();
    assert_eq!(get_channel_for_version(&c, "acme/3.25.0-0.1.pre"), "beta");
}

#[test]
fn release_catalog_fetches_once() {
    let mut cat = ReleaseCatalog::new();
    assert!(!cat.is_loaded());
    assert_eq!(cat.channel_for("3.24.0"), None);
    let current = CurrentReleaseHashes { stable: s("h1"), beta: s("h2"), dev: s("h3") };
    cat.store(list_available_versions(&current, &sample()).ok().unwrap());
    assert!(cat.is_loaded());
    assert_eq!(cat.channel_for("3.24.0"), Some(s("stable")));
    let other = vec![rel("h1", "beta", "3.24.0"), rel("h2", "beta", "b"), rel("h3", "dev", "d")];
    cat.store(list_available_versions(&current, &other).ok().unwrap());
    assert_eq!(cat.channel_for("3.24.0"), Some(s("stable")));
}

#[test]
fn flavor_names_may_not_be_channels() {
    assert_eq!(validate_flavor_name("production"), Ok(()));
    assert_eq!(validate_flavor_name("stable"), Err(SdkError::InvalidFlavorName(s("stable"))));
}

#[test]
fn project_config_round_trips_legacy_layout() {
    let c = ProjectConfig::new("3.24.0");
    assert_eq!(c.flutter, "3.24.0");
    assert!(c.flavors.is_none());
    let legacy = c.to_legacy();
    assert_eq!(legacy.flutter_sdk_version, "3.24.0");
    let back = ProjectConfig::from_legacy(legacy);
    assert_eq!(back.flutter, "3.24.0");
}

#[test]
fn update_sets_version_and_flavor() {
    let c = update_project_config(None, Some("3.24.0"), Some(("prod", "3.22.0"))).ok().unwrap();
    assert_eq!(c.flutter, "3.24.0");
    let (v, is_flavor) = resolve_version_or_flavor(&Some(c), "prod");
    assert_eq!(v, "3.22.0");
    assert!(is_flavor);
}

#[test]
fn later_flavor_update_wins() {
    let c = update_project_config(None, None, Some(("prod", "1.0.0"))).ok().unwrap();
    assert_eq!(c.flutter, "");
    let c = update_project_config(Some(c), None, Some(("prod", "2.0.0"))).ok().unwrap();
    assert_eq!(c.flavors.as_ref().map(|f| f.len()), Some(1));
    let c = update_project_config(Some(c), None, Some(("dev-env", "3.0.0"))).ok().unwrap();
    assert_eq!(c.flavors.as_ref().map(|f| f.len()), Some(2));
    let (v, is_flavor) = resolve_version_or_flavor(&Some(c), "prod");
    assert_eq!(v, "2.0.0");
    assert!(is_flavor);
}

#[test]
fn update_refuses_channel_flavor() {
    let r = update_project_config(None, Some("3.24.0"), Some(("beta", "3.22.0")));
    assert!(matches!(r, Err(SdkError::InvalidFlavorName(ref n)) if n == "beta"));
}

#[test]
fn unknown_flavor_is_a_version() {
    let (v, is_flavor) = resolve_version_or_flavor(&None, "3.24.0");
    assert_eq!(v, "3.24.0");
    assert!(!is_flavor);
}

#[test]
fn global_config_defaults() {
    let g = GlobalConfig::empty();
    assert!(g.is_empty());
    assert!(g.get_update_check_enabled());
    assert_eq!(g.get_flutter_url(None, None), "https://github.com/flutter/flutter.git");
    assert_eq!(g.get_flutter_url(None, Some(s("b"))), "b");
    assert_eq!(g.get_flutter_url(Some(s("a")), Some(s("b"))), "a");
    assert_eq!(g.get_cache_path(None, None, "/r"), "/r");
    assert_eq!(g.get_git_cache_path(None, Some(s("/c")), None, "/r"), "/c/shared/flutter");
    assert!(g.get_use_git_cache(None));
    assert!(g.get_use_git_cache(Some(s("TRUE"))));
    assert!(g.get_use_git_cache(Some(s("1"))));
    assert!(!g.get_use_git_cache(Some(s("no"))));
}

#[test]
fn git_cache_flag_reads_lowered_value() {
    assert!(git_cache_flag("true", "True"));
    assert!(git_cache_flag("1", "1"));
    assert!(!git_cache_flag("false", "False"));
}

#[test]
fn config_args_apply_inverts_update_check() {
    let mut g = GlobalConfig::empty();
    let args = ConfigArgs {
        cache_path: Some(s("/cache")),
        use_git_cache: None,
        git_cache_path: None,
        flutter_url: None,
        update_check: Some(false),
    };
    assert!(args.has_any_set());
    args.apply_to(&mut g);
    assert_eq!(g.cache_path, Some(s("/cache")));
    assert_eq!(g.disable_update_check, Some(true));
    assert!(!g.get_update_check_enabled());
    assert!(!g.is_empty());
}

#[test]
fn no_config_args_set() {
    let args = ConfigArgs { cache_path: None, use_git_cache: None, git_cache_path: None, flutter_url: None, update_check: None };
    assert!(!args.has_any_set());
}

#[test]
fn forks_add_lookup_remove() {
    let mut g = GlobalConfig::empty();
    assert_eq!(g.add_fork(s("acme"), s("https://x/acme.git")), Ok(()));
    assert_eq!(g.add_fork(s("acme"), s("https://y/acme.git")), Err(SdkError::ForkExists(s("acme"))));
    assert_eq!(g.get_fork_url("acme"), Some(s("https://x/acme.git")));
    assert_eq!(g.remove_fork("acme"), Ok(()));
    assert_eq!(g.get_fork_url("acme"), None);
    assert_eq!(g.remove_fork("acme"), Err(SdkError::ForkNotFound(s("acme"))));
    let f = FlutterFork { name: s("n"), url: s("u") };
    assert_eq!(f.name, "n");
}

#[test]
fn git_urls_must_end_in_git() {
    assert_eq!(validate_git_url("https://x/flutter.git"), Ok(()));
    assert_eq!(validate_git_url("https://x/flutter"), Err(SdkError::InvalidGitUrl(s("https://x/flutter"))));
    assert_eq!(validate_git_url("git"), Err(SdkError::InvalidGitUrl(s("git"))));
}

#[test]
fn rm_arguments() {
    let one = RmArgs { version: Some(s("3.24.0")), all: false, skip_engine_cleanup: false };
    assert!(matches!(one.target(), Ok(RmTarget::One(ref v)) if v == "3.24.0"));
    let all = RmArgs { version: None, all: true, skip_engine_cleanup: true };
    assert!(matches!(all.target(), Ok(RmTarget::All)));
    let neither = RmArgs { version: None, all: false, skip_engine_cleanup: false };
    assert!(matches!(neither.target(), Err(SdkError::InvalidArguments(_))));
    let both = RmArgs { version: Some(s("x")), all: true, skip_engine_cleanup: false };
    assert!(matches!(both.target(), Err(SdkError::InvalidArguments(_))));
}

#[test]
fn upgrade_only_of_channels() {
    let upgrade = vec![s("upgrade")];
    assert_eq!(check_flutter_upgrade(&upgrade, &Some(s("stable"))), Ok(()));
    assert_eq!(check_flutter_upgrade(&upgrade, &Some(s("3.24.0"))), Err(SdkError::UpgradeOfRelease(s("3.24.0"))));
    assert_eq!(check_flutter_upgrade(&upgrade, &None), Ok(()));
    assert_eq!(check_flutter_upgrade(&vec![s("doctor")], &Some(s("3.24.0"))), Ok(()));
    assert_eq!(check_flutter_upgrade(&vec![], &Some(s("3.24.0"))), Ok(()));
}
