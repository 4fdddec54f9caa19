use build_cleaner::cache::{CacheCategory, CacheType};
use build_cleaner::cache_scanner::CacheScanner;
use build_cleaner::project::{
    cleanup_priority_terms, sort_by_cleanup_priority, PriorityTerms, Project, ProjectType,
};
use std::time::SystemTime;

fn now_secs() -> i64 {
    SystemTime::now()
        .duration_since(SystemTime::UNIX_EPOCH)
        .unwrap()
        .as_secs() as i64
}


/// The floating-point cleanup scores of the terms, by bit pattern.
fn float_scores(terms: &[PriorityTerms]) -> Vec<u64> {
    terms
        .iter()
        .map(|t| {
            let size_score = if t.max_size > 0 { t.size as f64 / t.max_size as f64 } else { 0.0 };
            let age_score =
                if t.max_age_days > 0 { t.age_days as f64 / t.max_age_days as f64 } else { 0.0 };
            (size_score + age_score).to_bits()
        })
        .collect()
}

/// Ranks the projects by cleanup priority against the system clock.
fn rank(projects: &mut Vec<Project>) {
    let scores = float_scores(&cleanup_priority_terms(projects));
    sort_by_cleanup_priority(projects, &scores);
}

fn make_project(name: &str, size: u64, age_days: i64) -> Project {
    let mut p = Project::new(name.to_string(), ProjectType::Rust, name.to_string());
    p.total_size = size;
    p.last_modified = Some(now_secs() - age_days * 86_400);
    p
}

#[test]
fn test_sort_by_cleanup_priority_ranks_large_and_old_first() {
    let mut projects = vec![
        make_project("small_new", 10, 1),
        make_project("large_old", 1_000_000, 400),
        make_project("large_new", 1_000_000, 1),
        make_project("small_old", 10, 400),
    ];

    rank(&mut projects);

    assert_eq!(projects[0].name, "large_old");
    assert_eq!(projects.last().unwrap().name, "small_new");
}

#[test]
fn test_sort_by_cleanup_priority_handles_missing_last_modified() {
    let mut projects = vec![
        make_project("known", 100, 30),
        Project::new("unknown".to_string(), ProjectType::Node, "unknown".to_string()),
    ];

    // Should not panic even though one project has no last_modified.
    rank(&mut projects);
    assert_eq!(projects.len(), 2);
}

#[test]
fn test_sort_by_cleanup_priority_noop_on_short_lists() {
    let mut single = vec![make_project("only", 5, 5)];
    rank(&mut single);
    assert_eq!(single.len(), 1);

    let mut empty: Vec<Project> = Vec::new();
    rank(&mut empty);
    assert!(empty.is_empty());
}

#[test]
fn test_age_display_variants() {
    let mut p = Project::new("p".to_string(), ProjectType::Go, "p".to_string());
    assert_eq!(p.age_display(), "unknown");

    p.last_modified = Some(now_secs());
    assert_eq!(p.age_display(), "today");

    p.last_modified = Some(now_secs() - 86_400 * 5);
    assert_eq!(p.age_display(), "5 days ago");
}

#[test]
fn test_cache_scanner_creation() {
    let scanner = CacheScanner::new();
    assert!(scanner.is_some());
}

#[test]
fn test_cache_type_paths_are_relative() {
    // All non-macOS paths should not start with '/'
    for ct in CacheType::all() {
        for (path, _macos_only) in ct.paths() {
            assert!(
                !path.starts_with('/'),
                "cache path should be relative to home: {} for {:?}",
                path,
                ct
            );
        }
    }
}

#[test]
fn test_all_cache_types_have_at_least_one_path() {
    for ct in CacheType::all() {
        assert!(!ct.paths().is_empty(), "cache type {:?} has no paths", ct);
    }
}

#[test]
fn test_cache_type_category_is_consistent() {
    // Spot-check a few well-known mappings
    assert_eq!(CacheType::HuggingFace.category(), CacheCategory::AiMl);
    assert_eq!(CacheType::Npm.category(), CacheCategory::PackageManager);
    assert_eq!(CacheType::XcodeDerivedData.category(), CacheCategory::Development);
    assert_eq!(CacheType::JetBrainsCache.category(), CacheCategory::Ide);
    assert_eq!(CacheType::Docker.category(), CacheCategory::Container);
}
