use fvm_rs::engine::{
    engine_archive_url, engine_hash_url, map_arch, map_platform, plan_extraction, releases_url,
    strip_archive_prefix, ArchiveEntry,
};
use fvm_rs::error::SdkError;
use fvm_rs::gc::{cleanup_candidates, cleanup_report, contains_str, is_referenced, EngineCleanupResult};

fn s(x: &str) -> String {
    x.to_string()
}

#[test]
fn platform_names_follow_the_sdk() {
    assert_eq!(map_platform("macos"), "darwin");
    assert_eq!(map_platform("linux"), "linux");
    assert_eq!(map_platform("windows"), "windows");
}

#[test]
fn architectures_map_to_closed_set() {
    assert_eq!(map_arch("x86_64"), Ok(s("x64")));
    assert_eq!(map_arch("aarch64"), Ok(s("arm64")));
    assert_eq!(map_arch("arm64"), Ok(s("arm64")));
    assert_eq!(map_arch("armv8"), Ok(s("arm64")));
}

#[test]
fn unknown_architecture_is_unsupported() {
    assert_eq!(map_arch("riscv64"), Err(SdkError::UnsupportedPlatform(s("riscv64"))));
}

#[test]
fn remote_urls() {
    assert_eq!(
        engine_archive_url("deadbeef", "linux", "x64"),
        "https://storage.googleapis.com/flutter_infra_release/flutter/deadbeef/dart-sdk-linux-x64.zip"
    );
    assert_eq!(
        engine_hash_url("3.24.0"),
        "https://raw.githubusercontent.com/flutter/flutter/3.24.0/bin/internal/engine.version"
    );
    assert_eq!(
        releases_url("linux"),
        "https://storage.googleapis.com/flutter_infra_release/releases/releases_linux.json"
    );
}

#[test]
fn archive_prefix_is_stripped_exactly() {
    assert_eq!(strip_archive_prefix("dart-sdk/bin/tool"), Some(s("bin/tool")));
    assert_eq!(strip_archive_prefix("dart-sdk/"), None);
    assert_eq!(strip_archive_prefix("dart-sdk"), None);
    assert_eq!(strip_archive_prefix("other/bin/tool"), None);
    assert_eq!(strip_archive_prefix("dart-sdkx/bin"), None);
}

#[test]
fn extraction_plan_places_entries_under_cache_entry() {
    let entries = vec![
        ArchiveEntry { name: s("dart-sdk/"), is_dir: true, unix_mode: Some(0o755) },
        ArchiveEntry { name: s("dart-sdk/bin/"), is_dir: true, unix_mode: Some(0o755) },
        ArchiveEntry { name: s("dart-sdk/bin/tool"), is_dir: false, unix_mode: Some(0o755) },
        ArchiveEntry { name: s("README"), is_dir: false, unix_mode: None },
    ];
    let steps = plan_extraction("/c/deadbeef", &entries);
    assert_eq!(steps.len(), 2);
    assert_eq!(steps[0].index, 1);
    assert_eq!(steps[0].target, "/c/deadbeef/bin/");
    assert!(steps[0].is_dir);
    assert_eq!(steps[1].index, 2);
    assert_eq!(steps[1].target, "/c/deadbeef/bin/tool");
    assert!(!steps[1].is_dir);
    assert_eq!(steps[1].unix_mode, Some(0o755));
}

#[test]
fn markers_reference_hashes() {
    let markers = vec![Some(s("h1")), None, Some(s("h2"))];
    assert!(is_referenced(&markers, "h1"));
    assert!(is_referenced(&markers, "h2"));
    assert!(!is_referenced(&markers, "h3"));
}

#[test]
fn gc_keeps_shared_entry_until_last_version_goes() {
    let cached = vec![s("H")];
    // A and B both installed with H.
    let both = vec![Some(s("H")), Some(s("H"))];
    assert!(cleanup_candidates(&cached, &both, &vec![]).is_empty());
    // A removed: B still references H.
    let only_b = vec![Some(s("H"))];
    assert!(cleanup_candidates(&cached, &only_b, &vec![]).is_empty());
    // B removed too: H goes.
    let none: Vec<Option<String>> = vec![];
    assert_eq!(cleanup_candidates(&cached, &none, &vec![]), vec![s("H")]);
}

#[test]
fn gc_treats_missing_marker_as_unreferenced() {
    let cached = vec![s("a"), s("b"), s("c")];
    let markers = vec![None, Some(s("b"))];
    assert_eq!(cleanup_candidates(&cached, &markers, &vec![]), vec![s("a"), s("c")]);
}

#[test]
fn gc_report_separates_failures() {
    let candidates = vec![s("locked"), s("free1"), s("free2")];
    let outcomes = vec![Some(s("permission denied")), None, None];
    let report = cleanup_report(&candidates, &outcomes);
    assert_eq!(report.removed_engines, vec![s("free1"), s("free2")]);
    assert_eq!(report.failed_removals, vec![(s("locked"), s("permission denied"))]);
    assert!(!report.removed_engines.contains(&s("locked")));
}

#[test]
fn empty_report_is_empty() {
    let r = EngineCleanupResult::empty();
    assert!(r.removed_engines.is_empty());
    assert!(r.failed_removals.is_empty());
}

#[test]
fn gc_report_of_clean_run() {
    let candidates = vec![s("a"), s("b")];
    let outcomes: Vec<Option<String>> = vec![None, None];
    let report = cleanup_report(&candidates, &outcomes);
    assert_eq!(report.removed_engines, vec![s("a"), s("b")]);
    assert!(report.failed_removals.is_empty());
}

#[test]
fn gc_keeps_entries_being_populated() {
    let cached = vec![s("a"), s("b")];
    let markers: Vec<Option<String>> = vec![];
    assert_eq!(cleanup_candidates(&cached, &markers, &vec![s("b")]), vec![s("a")]);
    assert!(contains_str(&vec![s("x"), s("y")], "y"));
    assert!(!contains_str(&vec![], "y"));
}

#[test]
fn gc_lists_each_hash_once() {
    let cached = vec![s("a"), s("a"), s("b")];
    let markers = vec![Some(s("b"))];
    assert_eq!(cleanup_candidates(&cached, &markers, &vec![]), vec![s("a")]);
}
