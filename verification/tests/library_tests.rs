use build_cleaner::cache::{Cache, CacheCategory, CacheType};
use build_cleaner::cache_scanner::CacheScanner;
use build_cleaner::cleaner::{
    asks_confirmation, build_config, cache_choice, listing, picked_positions,
    project_choice_at, project_deletion_result, proceeds_to_delete, selection_totals,
    DeletionTally, Listing,
};
use build_cleaner::cli::{size_parts, size_unit_multiplier, Args, CacheFilter, ProjectFilter};
use build_cleaner::dto::{default_path, ApiResponse, CacheDto, ProjectDto};
use build_cleaner::project::{
    age_text_at, cleanup_priority_terms_at, sort_by_cleanup_priority, Artifact, Config, PriorityTerms, Project, ProjectType,
};
use build_cleaner::scanner::{
    classify_artifact_pattern, detect_project, is_dotnet_project_file, is_python_cache_dir,
    pycache_walk_enters, refuses_root, ArtifactPattern, Scanner,
};
use build_cleaner::sorting::sort_desc_by_keys;
use build_cleaner::state::{ScanProgress, ScanResults};
use build_cleaner::summary::{category_stats, ecosystem_stats, largest_items, total_artifacts};
use build_cleaner::text::{str_contains, u64_to_text};
use build_cleaner::web::{
    category_from_name, found_cache_progress, project_type_from_lang, scan_config,
    status_of, RemovalCount,
};
use build_cleaner::dto::ScanParams;

const DAY: i64 = 86_400;

/// The floating-point cleanup scores of the terms, by bit pattern.
fn float_scores(terms: &[PriorityTerms]) -> Vec<u64> {
    terms
        .iter()
        .map(|t| {
            let size_score = if t.max_size > 0 { t.size as f64 / t.max_size as f64 } else { 0.0 };
            let age_score =
                if t.max_age_days > 0 { t.age_days as f64 / t.max_age_days as f64 } else { 0.0 };
            (size_score + age_score).to_bits()
        })
        .collect()
}

fn rank_at(projects: &mut Vec<Project>, now: i64) {
    let scores = float_scores(&cleanup_priority_terms_at(projects, now));
    sort_by_cleanup_priority(projects, &scores);
}

fn project(name: &str, t: ProjectType, size: u64, last_modified: Option<i64>) -> Project {
    let mut p = Project::new(name.to_string(), t, format!("/work/{}", name));
    p.total_size = size;
    p.last_modified = last_modified;
    p
}

fn args() -> Args {
    Args {
        directory: ".".to_string(),
        dry_run: false,
        yes: false,
        interactive: false,
        extra_patterns: vec!["keep".to_string()],
        exclude: vec!["old".to_string()],
        lang: vec![ProjectFilter::Rust, ProjectFilter::DotNet],
        min_age: Some(7),
        min_size: None,
        verbose: false,
        user_caches: true,
        cache_only: false,
        cache_category: vec![CacheFilter::AiMl],
        script: None,
        serve: false,
        port: 8080,
        no_open: false,
    }
}

#[test]
fn decimal_rendering() {
    assert_eq!(u64_to_text(0), "0");
    assert_eq!(u64_to_text(7), "7");
    assert_eq!(u64_to_text(214), "214");
    assert_eq!(u64_to_text(u64::MAX), "18446744073709551615");
}

#[test]
fn substring_search() {
    assert!(str_contains("archived_thing", "archived"));
    assert!(str_contains("abc", ""));
    assert!(!str_contains("abc", "abcd"));
    assert!(!str_contains("my_crate", "archived"));
}

#[test]
fn age_texts() {
    let now = 1_700_000_000;
    assert_eq!(age_text_at(None, now), "unknown");
    assert_eq!(age_text_at(Some(now), now), "today");
    assert_eq!(age_text_at(Some(now + 10 * DAY), now), "today");
    assert_eq!(age_text_at(Some(now - DAY), now), "1 day ago");
    assert_eq!(age_text_at(Some(now - 214 * DAY - 5), now), "214 days ago");
}

#[test]
fn age_days_counts_whole_days() {
    let mut p = project("p", ProjectType::Go, 0, None);
    assert_eq!(p.age_days(1000), None);
    p.last_modified = Some(0);
    assert_eq!(p.age_days(DAY * 3 - 1), Some(2));
    assert_eq!(p.age_days(-5), Some(0));
}

#[test]
fn add_artifact_accumulates_size() {
    let mut p = project("p", ProjectType::Node, 0, None);
    p.add_artifact(Artifact::new("/work/p/node_modules".to_string(), 10));
    p.add_artifact(Artifact::new("/work/p/dist".to_string(), 5));
    assert_eq!(p.total_size, 15);
    assert_eq!(p.artifacts.len(), 2);
    assert_eq!(p.artifacts[1].name, "dist");
}

#[test]
fn artifact_names_come_from_the_path() {
    assert_eq!(Artifact::new("/a/b/target".to_string(), 1).name, "target");
    assert_eq!(Artifact::new("/".to_string(), 1).name, "unknown");
    assert_eq!(Artifact::new("/a/..".to_string(), 1).name, "unknown");
}

#[test]
fn sizes_are_shown_by_bytesize() {
    let p = project("p", ProjectType::Rust, 37, None);
    assert_eq!(p.size_display(), "37 B");
    let c = Cache::new(CacheType::Npm, "/h/.npm".to_string(), 999);
    assert_eq!(c.size_display(), "999 B");
    let big = project("big", ProjectType::Rust, 1_500_000, None);
    assert_ne!(big.size_display(), "1500000");
}

#[test]
fn priority_sort_at_fixed_time() {
    let now = 1_700_000_000;
    let mut ps = vec![
        project("small_new", ProjectType::Rust, 10, Some(now - DAY)),
        project("large_old", ProjectType::Rust, 1_000_000, Some(now - 400 * DAY)),
        project("large_new", ProjectType::Rust, 1_000_000, Some(now - DAY)),
        project("small_old", ProjectType::Rust, 10, Some(now - 400 * DAY)),
    ];
    rank_at(&mut ps, now);
    let names: Vec<&str> = ps.iter().map(|p| p.name.as_str()).collect();
    assert_eq!(names, vec!["large_old", "large_new", "small_old", "small_new"]);
}

#[test]
fn priority_sort_keeps_order_of_ties() {
    let now = 1_700_000_000;
    let mut ps = vec![
        project("a", ProjectType::Rust, 0, None),
        project("b", ProjectType::Rust, 0, None),
        project("c", ProjectType::Rust, 0, None),
    ];
    rank_at(&mut ps, now);
    let names: Vec<&str> = ps.iter().map(|p| p.name.as_str()).collect();
    assert_eq!(names, vec!["a", "b", "c"]);
}

#[test]
fn stable_descending_sort() {
    let mut items = vec!["w", "x", "y", "z"];
    sort_desc_by_keys(&mut items, vec![1, 3, 1, 3]);
    assert_eq!(items, vec!["x", "z", "w", "y"]);
}

#[test]
fn config_defaults() {
    let c = Config::default();
    assert_eq!(c.root_dir, ".");
    assert!(!c.dry_run && !c.auto_confirm && !c.interactive && !c.verbose);
    assert!(c.project_filters.is_empty());
    assert_eq!(c.min_age_days, None);
    assert_eq!(c.min_size_bytes, None);
}

#[test]
fn walk_skips_vcs_artifacts_and_excluded_names() {
    let mut config = Config::default();
    config.exclude_patterns = vec!["archived".to_string()];
    let s = Scanner::new(config);
    assert!(!s.should_enter(".git"));
    assert!(!s.should_enter("node_modules"));
    assert!(!s.should_enter("Pods"));
    assert!(!s.should_enter("archived_thing"));
    assert!(s.should_enter(".venv"));
    assert!(s.should_enter("my_crate"));
    assert!(s.should_enter(".config"));
}

#[test]
fn system_roots_are_refused() {
    assert!(refuses_root("/usr/local/src"));
    assert!(refuses_root("/private/tmp"));
    assert!(!refuses_root("/home/me/projects"));
}

#[test]
fn artifact_patterns_are_classified() {
    match classify_artifact_pattern("ios/Pods") {
        Some(ArtifactPattern::Nested(p)) => assert_eq!(p, "ios/Pods"),
        _ => panic!("expected a nested pattern"),
    }
    match classify_artifact_pattern("*.egg-info") {
        Some(ArtifactPattern::Glob(s)) => assert_eq!(s, ".egg-info"),
        _ => panic!("expected a glob pattern"),
    }
    match classify_artifact_pattern("target") {
        Some(ArtifactPattern::Plain(p)) => assert_eq!(p, "target"),
        _ => panic!("expected a plain pattern"),
    }
    assert!(classify_artifact_pattern("a*b").is_none());
}

#[test]
fn dotnet_and_python_names() {
    assert!(is_dotnet_project_file("MyApp.csproj"));
    assert!(is_dotnet_project_file("All.sln"));
    assert!(!is_dotnet_project_file("csproj.txt"));
    assert!(is_python_cache_dir("__pycache__"));
    assert!(is_python_cache_dir(".pytest_cache"));
    assert!(!is_python_cache_dir("cache"));
    assert!(!pycache_walk_enters(".venv"));
    assert!(pycache_walk_enters("src"));
}

#[test]
fn detection_needs_marker_and_artifacts() {
    let mut with_artifacts = project("app", ProjectType::Python, 0, None);
    with_artifacts.add_artifact(Artifact::new("/work/app/venv".to_string(), 3));
    let empty = project("app", ProjectType::Node, 0, None);
    let candidates = vec![Some(empty), None, Some(with_artifacts)];
    assert_eq!(detect_project(&candidates), Some(2));
    let none_found = vec![None, Some(project("x", ProjectType::Rust, 0, None))];
    assert_eq!(detect_project(&none_found), None);
}

#[test]
fn filters_by_type_size_and_age() {
    let now = 1_700_000_000;
    let mut config = Config::default();
    config.project_filters = vec![ProjectType::Rust];
    config.min_size_bytes = Some(100);
    config.min_age_days = Some(30);
    let s = Scanner::new(config);
    assert!(s.passes_filters_at(&project("a", ProjectType::Rust, 100, Some(now - 30 * DAY)), now));
    assert!(!s.passes_filters_at(&project("b", ProjectType::Node, 100, Some(now - 30 * DAY)), now));
    assert!(!s.passes_filters_at(&project("c", ProjectType::Rust, 99, Some(now - 30 * DAY)), now));
    assert!(!s.passes_filters_at(&project("d", ProjectType::Rust, 100, Some(now - 29 * DAY)), now));
    assert!(s.passes_filters_at(&project("e", ProjectType::Rust, 100, None), now));
}

#[test]
fn finished_scan_is_filtered_and_largest_first() {
    let now = 1_700_000_000;
    let mut config = Config::default();
    config.min_size_bytes = Some(10);
    let s = Scanner::new(config);
    let found = vec![
        project("small", ProjectType::Rust, 10, None),
        project("tiny", ProjectType::Rust, 5, None),
        project("large", ProjectType::Node, 1000, None),
        project("small2", ProjectType::Go, 10, None),
    ];
    let r = s.finish_scan_at(found, now);
    let names: Vec<&str> = r.iter().map(|p| p.name.as_str()).collect();
    assert_eq!(names, vec!["large", "small", "small2"]);
}

#[test]
fn cache_scan_targets_follow_filters() {
    let s = CacheScanner::for_home("/home/me".to_string()).with_categories(vec![CacheCategory::AiMl]);
    let targets = s.scan_targets(false);
    assert!(targets.iter().all(|(t, _)| t.category() == CacheCategory::AiMl));
    assert_eq!(targets.len(), 4);
    assert_eq!(targets[0].0, CacheType::HuggingFace);
    assert_eq!(targets[0].1, "/home/me/.cache/huggingface");
}

#[test]
fn empty_category_filter_scans_everything() {
    let all = CacheScanner::for_home("/h".to_string());
    let empty = CacheScanner::for_home("/h".to_string()).with_categories(vec![]);
    assert_eq!(all.scan_targets(true).len(), empty.scan_targets(true).len());
    // macOS-only locations are skipped elsewhere
    assert!(all.scan_targets(false).len() < all.scan_targets(true).len());
}

#[test]
fn collected_caches_meet_minimum_and_are_largest_first() {
    let s = CacheScanner::for_home("/h".to_string()).with_min_size(Some(10));
    let found = vec![
        Cache::new(CacheType::Npm, "/h/.npm".to_string(), 10),
        Cache::new(CacheType::Pip, "/h/.cache/pip".to_string(), 9),
        Cache::new(CacheType::Docker, "/h/.docker".to_string(), 50),
    ];
    let r = s.collect_found(found);
    let sizes: Vec<u64> = r.iter().map(|c| c.size).collect();
    assert_eq!(sizes, vec![50, 10]);
    let none = CacheScanner::for_home("/h".to_string()).with_min_size(Some(u64::MAX));
    assert!(none
        .collect_found(vec![Cache::new(CacheType::Npm, "/h/.npm".to_string(), 10)])
        .is_empty());
}

#[test]
fn size_text_parts() {
    assert_eq!(size_parts("100"), Some(("100".to_string(), 1)));
    assert_eq!(size_parts("1KiB"), Some(("1".to_string(), 1024)));
    assert_eq!(size_parts(" 100mb "), Some(("100".to_string(), 1_000_000)));
    assert_eq!(size_parts("1.5 GB"), Some(("1.5 ".to_string(), 1_000_000_000)));
    assert_eq!(size_parts("invalid"), None);
    assert_eq!(size_unit_multiplier("TIB"), Some(1_099_511_627_776));
    assert_eq!(size_unit_multiplier("XB"), None);
}

#[test]
fn config_from_arguments() {
    let a = args();
    let c = build_config(&a, "/root/dir".to_string(), Some(5));
    assert_eq!(c.root_dir, "/root/dir");
    assert_eq!(c.project_filters, vec![ProjectType::Rust, ProjectType::DotNet]);
    assert_eq!(c.min_age_days, Some(7));
    assert_eq!(c.min_size_bytes, Some(5));
    assert_eq!(c.include_patterns, vec!["keep".to_string()]);
    assert_eq!(c.exclude_patterns, vec!["old".to_string()]);
}

#[test]
fn listing_and_deletion_gates() {
    assert_eq!(listing(true, true, true), Listing::Verbose);
    assert_eq!(listing(false, true, false), Listing::ProjectsOnly);
    assert_eq!(listing(false, false, true), Listing::CachesOnly);
    assert_eq!(listing(false, true, true), Listing::Both);
    assert!(!proceeds_to_delete(true, 3, true, true));
    assert!(!proceeds_to_delete(false, 0, true, true));
    assert!(proceeds_to_delete(false, 2, true, false));
    assert!(!proceeds_to_delete(false, 2, false, false));
    assert!(proceeds_to_delete(false, 2, false, true));
    assert!(asks_confirmation(false, 2, false));
    assert!(!asks_confirmation(false, 2, true));
}

#[test]
fn deletion_counts() {
    let mut p = project("multi", ProjectType::Node, 0, None);
    for name in &["node_modules", "dist", ".next"] {
        p.add_artifact(Artifact::new(format!("/work/multi/{}", name), 4));
    }
    assert_eq!(project_deletion_result(&p, &vec![true, true, true]), (12, 0));
    assert_eq!(project_deletion_result(&p, &vec![true, false, true]), (8, 1));
    let empty = project("empty", ProjectType::Rust, 0, None);
    assert_eq!(project_deletion_result(&empty, &vec![]), (0, 0));

    let mut t = DeletionTally::new();
    t.record_project(12, 0);
    t.record_project(8, 1);
    t.record_cache_removed(42);
    t.record_failure();
    assert_eq!(t.deleted_count, 2);
    assert_eq!(t.failed_count, 2);
    assert_eq!(t.total_freed, 62);
}

#[test]
fn selection_totals_and_positions() {
    let ps = vec![project("a", ProjectType::Rust, 5, None), project("b", ProjectType::Go, 7, None)];
    let cs = vec![Cache::new(CacheType::Npm, "/h/.npm".to_string(), 30)];
    assert_eq!(selection_totals(&ps, &cs), (3, 42));
    assert_eq!(picked_positions(&vec![1, 5, 0], 2), vec![1, 0]);
}

#[test]
fn choice_lines() {
    let now = 1_700_000_000;
    let p = project("api", ProjectType::Rust, 37, Some(now - 3 * DAY));
    assert_eq!(
        project_choice_at(&p, now),
        "\u{1F980} api (Rust) - 37 B \u{2022} last touched 3 days ago"
    );
    let c = Cache::new(CacheType::Docker, "/h/.docker".to_string(), 5);
    assert_eq!(cache_choice(&c), "\u{1F40B} Docker - 5 B [!]");
    let n = Cache::new(CacheType::Npm, "/h/.npm".to_string(), 5);
    assert_eq!(cache_choice(&n), "\u{1F4E6} npm cache - 5 B");
}

#[test]
fn breakdowns_by_ecosystem_and_category() {
    let ps = vec![
        project("a", ProjectType::Rust, 5, None),
        project("b", ProjectType::Node, 20, None),
        project("c", ProjectType::Rust, 10, None),
    ];
    let e = ecosystem_stats(&ps);
    assert_eq!(e.len(), 2);
    assert_eq!((e[0].project_type, e[0].count, e[0].size), (ProjectType::Node, 1, 20));
    assert_eq!((e[1].project_type, e[1].count, e[1].size), (ProjectType::Rust, 2, 15));
    let cs = vec![
        Cache::new(CacheType::Npm, "/h/.npm".to_string(), 3),
        Cache::new(CacheType::Ollama, "/h/.ollama/models".to_string(), 9),
        Cache::new(CacheType::GoBuild, "/h/.cache/go-build".to_string(), 4),
    ];
    let k = category_stats(&cs);
    assert_eq!(k.len(), 2);
    assert_eq!((k[0].category, k[0].count, k[0].size), (CacheCategory::AiMl, 1, 9));
    assert_eq!((k[1].category, k[1].count, k[1].size), (CacheCategory::PackageManager, 2, 7));
}

#[test]
fn largest_items_are_ranked() {
    let mut ps = Vec::new();
    for i in 0..12u64 {
        ps.push(project(&format!("p{}", i), ProjectType::Rust, i * 10, None));
    }
    let cs = vec![Cache::new(CacheType::PyTorch, "/h/.cache/torch".to_string(), 75)];
    let items = largest_items(&ps, &cs);
    assert_eq!(items.len(), 10);
    assert_eq!(items[0].name, "p11");
    assert_eq!(items[0].rank, 1);
    assert_eq!(items[4].name, "PyTorch hub");
    assert_eq!(items[4].item_type, "cache");
    assert_eq!(items[9].rank, 10);
    assert_eq!(total_artifacts(&ps), 0);
}

#[test]
fn dto_records() {
    let mut p = project("app", ProjectType::DotNet, 0, Some(12));
    p.add_artifact(Artifact::new("/work/app/bin".to_string(), 3));
    let d = ProjectDto::from_project(&p, 4);
    assert_eq!(d.id, 4);
    assert_eq!(d.project_type, "DotNet");
    assert_eq!(d.type_label, ".NET");
    assert_eq!(d.artifacts[0].name, "bin");
    assert_eq!(d.size_display, "3 B");
    let c = Cache::new(CacheType::Npm, "/h/.npm".to_string(), 1);
    let cd = CacheDto::from_cache(&c, 0);
    assert_eq!(cd.category, "PackageManager");
    assert_eq!(cd.cleanup_command, Some("npm cache clean --force".to_string()));
    assert_eq!(cd.requires_app_closed, None);
    assert_eq!(default_path(), ".");
    let ok: ApiResponse<u8> = ApiResponse::success(3);
    assert!(ok.success && ok.data == Some(3) && ok.error.is_none());
    let err: ApiResponse<u8> = ApiResponse::error("no".to_string());
    assert!(!err.success && err.data.is_none());
}

#[test]
fn web_request_values() {
    assert_eq!(project_type_from_lang("Java-Maven"), Some(ProjectType::JavaMaven));
    assert_eq!(project_type_from_lang("DOTNET"), Some(ProjectType::DotNet));
    assert_eq!(project_type_from_lang("cobol"), None);
    assert_eq!(category_from_name("AI-ML"), Some(CacheCategory::AiMl));
    assert_eq!(category_from_name("package"), Some(CacheCategory::PackageManager));
    assert_eq!(category_from_name("x"), None);
    let mut params = ScanParams::default();
    params.lang = vec!["rust".to_string(), "nope".to_string(), "GO".to_string()];
    params.min_age = Some(3);
    let c = scan_config("/r".to_string(), &params, None);
    assert!(c.dry_run);
    assert_eq!(c.project_filters, vec![ProjectType::Rust, ProjectType::Go]);
    assert_eq!(c.min_age_days, Some(3));
}

#[test]
fn progress_and_status_records() {
    let p = ScanProgress::found_project("/w/a", "a", "Rust", 12, 2, 30);
    assert_eq!(p.message, Some("Found Rust project: a (12 B)".to_string()));
    let done = ScanProgress::complete(1, 2, 3);
    assert!(done.complete);
    assert_eq!(done.message, Some("Scan complete!".to_string()));
    let c = Cache::new(CacheType::Yarn, "/h/.cache/yarn".to_string(), 8);
    let f = found_cache_progress(1, 1, 9, &c);
    assert_eq!(f.message, Some("Found cache: Yarn cache (8 B)".to_string()));
    let results = ScanResults::new(vec![], vec![], "/w".to_string());
    let s = status_of(false, Some(&results));
    assert!(s.has_results);
    assert_eq!(s.scan_path, Some("/w".to_string()));
    let none = status_of(true, None);
    assert!(none.scanning && !none.has_results);
    let mut count = RemovalCount::new();
    count.record(5);
    count.record(7);
    assert_eq!((count.deleted_count, count.freed_bytes), (2, 12));
    assert_eq!(count.freed_display(), "12 B");
}

#[test]
fn display_texts() {
    assert_eq!(ProjectType::Rust.display_text(), "\u{1F980} Rust");
    assert_eq!(CacheCategory::Ide.display_text(), "\u{1F4BB} IDE");
    assert_eq!(CacheType::Pip.display_text(), "\u{1F40D} pip cache");
}
