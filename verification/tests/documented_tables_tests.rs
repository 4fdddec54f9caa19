use build_cleaner::cache::{Cache, CacheType};
use build_cleaner::cache_scanner::CacheScanner;
use build_cleaner::dto::ScanParams;
use build_cleaner::project::{Project, ProjectType};
use build_cleaner::scanner::{classify_artifact_pattern, matches_glob, ArtifactPattern};
use build_cleaner::summary::{directory_ending, plural_s};
use build_cleaner::web::{
    found_cache_events, found_project_events, scan_request_answer, scans_caches, scans_projects,
};

#[test]
fn package_cache_locations_follow_the_documented_table() {
    assert!(CacheType::Yarn.paths().contains(&(".cache/yarn", false)));
    assert!(CacheType::Yarn.paths().contains(&(".yarn/berry/cache", false)));
    assert!(CacheType::Pnpm.paths().contains(&(".local/share/pnpm/store", false)));
    assert!(CacheType::CocoaPods.paths().contains(&("Library/Caches/CocoaPods", true)));
    let targets = CacheScanner::for_home("/home/me".to_string()).scan_targets(false);
    assert!(targets.contains(&(CacheType::Pnpm, "/home/me/.local/share/pnpm/store".to_string())));
    assert!(!targets.iter().any(|(t, _)| *t == CacheType::CocoaPods));
}

#[test]
fn documented_cleanup_commands() {
    assert_eq!(CacheType::CargoRegistry.cleanup_command().map(|(c, _)| c), Some("cargo cache -a"));
    assert_eq!(
        CacheType::GradleCache.cleanup_command().map(|(c, _)| c),
        Some("./gradlew cleanBuildCache")
    );
    assert_eq!(CacheType::Npm.cleanup_command().map(|(c, _)| c), Some("npm cache clean --force"));
    assert_eq!(CacheType::CargoGit.cleanup_command(), None);
}

#[test]
fn xcode_caches_need_xcode_closed() {
    assert_eq!(CacheType::XcodeDerivedData.requires_app_closed(), Some("Close Xcode first"));
    assert_eq!(CacheType::XcodeDeviceSupport.requires_app_closed(), Some("Close Xcode first"));
    assert_eq!(CacheType::XcodeArchives.requires_app_closed(), Some("Close Xcode first"));
    assert_eq!(CacheType::JetBrainsCache.requires_app_closed(), Some("Close all JetBrains IDEs first"));
    assert!(CacheType::VSCodeCache.requires_app_closed().is_some());
    assert_eq!(CacheType::Npm.requires_app_closed(), None);
}

#[test]
fn every_cmake_build_directory_is_an_artifact() {
    assert!(ProjectType::Cpp.artifact_patterns().contains(&"cmake-build-*"));
    let glob = classify_artifact_pattern("cmake-build-*").unwrap();
    match &glob {
        ArtifactPattern::Prefixed(p) => assert_eq!(p, "cmake-build-"),
        _ => panic!("expected a prefix pattern"),
    }
    assert!(matches_glob(&glob, "cmake-build-debug"));
    assert!(matches_glob(&glob, "cmake-build-relwithdebinfo"));
    assert!(!matches_glob(&glob, "build"));
    let egg = classify_artifact_pattern("*.egg-info").unwrap();
    assert!(matches_glob(&egg, "pkg.egg-info"));
    assert!(!matches_glob(&egg, "pkg.egg"));
    assert!(!matches_glob(&ArtifactPattern::Plain("build".to_string()), "build"));
}

#[test]
fn summary_word_endings() {
    assert_eq!(plural_s(1), "");
    assert_eq!(plural_s(0), "s");
    assert_eq!(plural_s(3), "s");
    assert_eq!(directory_ending(1), "y");
    assert_eq!(directory_ending(2), "ies");
}

#[test]
fn scan_requests_and_plans() {
    let refused = scan_request_answer(true, "/w".to_string());
    assert!(!refused.success);
    assert_eq!(refused.error, Some("Scan already in progress".to_string()));
    let started = scan_request_answer(false, "/w".to_string());
    assert!(started.success);
    let d = started.data.unwrap();
    assert!(d.scanning && !d.has_results);
    assert_eq!(d.scan_path, Some("/w".to_string()));

    let mut params = ScanParams::default();
    assert!(scans_projects(&params) && !scans_caches(&params));
    params.cache_only = true;
    assert!(!scans_projects(&params) && scans_caches(&params));
    params.cache_only = false;
    params.user_caches = true;
    assert!(scans_projects(&params) && scans_caches(&params));
}

#[test]
fn progress_events_carry_running_totals() {
    let mut a = Project::new("a".to_string(), ProjectType::Rust, "/w/a".to_string());
    a.total_size = 5;
    let mut b = Project::new("b".to_string(), ProjectType::Node, "/w/b".to_string());
    b.total_size = 7;
    let events = found_project_events(&vec![a, b]);
    assert_eq!(events.len(), 2);
    assert_eq!((events[0].projects_found, events[0].total_size), (1, 5));
    assert_eq!((events[1].projects_found, events[1].total_size), (2, 12));
    assert_eq!(events[1].current_path, "/w/b");
    assert_eq!(events[1].message, Some("Found Node.js project: b (7 B)".to_string()));

    let caches = vec![
        Cache::new(CacheType::Npm, "/h/.npm".to_string(), 3),
        Cache::new(CacheType::Pip, "/h/.cache/pip".to_string(), 4),
    ];
    let ev = found_cache_events(2, 12, &caches);
    assert_eq!(ev.len(), 2);
    assert_eq!((ev[0].projects_found, ev[0].caches_found, ev[0].total_size), (2, 1, 15));
    assert_eq!((ev[1].caches_found, ev[1].total_size), (2, 19));
    assert_eq!(ev[1].message, Some("Found cache: pip cache (4 B)".to_string()));
}

#[test]
fn zero_minimum_and_empty_categories_report_the_same() {
    let found = vec![
        Cache::new(CacheType::Npm, "/h/.npm".to_string(), 0),
        Cache::new(CacheType::Pip, "/h/.cache/pip".to_string(), 9),
        Cache::new(CacheType::Yarn, "/h/.cache/yarn".to_string(), 9),
    ];
    let none = CacheScanner::for_home("/h".to_string()).with_min_size(None);
    let zero = CacheScanner::for_home("/h".to_string()).with_min_size(Some(0));
    let a: Vec<String> = none.collect_found(found.clone()).into_iter().map(|c| c.path).collect();
    let b: Vec<String> = zero.collect_found(found).into_iter().map(|c| c.path).collect();
    assert_eq!(a, b);
    assert_eq!(a, vec!["/h/.cache/pip", "/h/.cache/yarn", "/h/.npm"]);
    let all = CacheScanner::for_home("/h".to_string());
    let empty = CacheScanner::for_home("/h".to_string()).with_categories(vec![]);
    assert_eq!(all.scan_targets(true), empty.scan_targets(true));
}
