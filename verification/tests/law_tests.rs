use build_cleaner::cache::{Cache, CacheType};
use build_cleaner::project::{
    cleanup_priority_terms_at, sort_by_cleanup_priority, Artifact, Config, PriorityTerms, Project,
    ProjectType,
};
use build_cleaner::scanner::Scanner;
use build_cleaner::summary::{category_stats, ecosystem_stats, total_cache_size, total_project_size};

const DAY: i64 = 86_400;

/// The floating-point cleanup scores of the terms, by bit pattern.
fn float_scores(terms: &[PriorityTerms]) -> Vec<u64> {
    terms
        .iter()
        .map(|t| {
            let size_score = if t.max_size > 0 { t.size as f64 / t.max_size as f64 } else { 0.0 };
            let age_score =
                if t.max_age_days > 0 { t.age_days as f64 / t.max_age_days as f64 } else { 0.0 };
            (size_score + age_score).to_bits()
        })
        .collect()
}


fn project(name: &str, t: ProjectType, size: u64, last_modified: Option<i64>) -> Project {
    let mut p = Project::new(name.to_string(), t, format!("/work/{}", name));
    p.total_size = size;
    p.last_modified = last_modified;
    p
}

#[test]
fn marker_files_are_never_artifact_patterns() {
    for a in ProjectType::all() {
        for b in ProjectType::all() {
            for art in a.artifact_patterns() {
                assert!(!b.config_patterns().contains(art), "{} of {:?} marks {:?}", art, a, b);
            }
        }
    }
}

#[test]
fn excluded_and_vcs_directories_are_not_entered() {
    let mut config = Config::default();
    config.exclude_patterns = vec!["archive".to_string()];
    let scanner = Scanner::new(config);
    assert!(!scanner.should_enter(".git"));
    assert!(!scanner.should_enter(".svn"));
    assert!(!scanner.should_enter("old-archive-2020"));
    assert!(scanner.should_enter("projects"));
}

#[test]
fn priority_scores_are_compared_as_floating_point_sums() {
    let now = 1_000 * DAY;
    let mut ps = vec![
        project("first", ProjectType::Rust, 3, Some(now)),
        project("second", ProjectType::Rust, 1, Some(now - 2 * DAY)),
        project("third", ProjectType::Node, 10, Some(now - 10 * DAY)),
    ];
    let terms = cleanup_priority_terms_at(&ps, now);
    assert_eq!((terms[1].size, terms[1].max_size, terms[1].age_days, terms[1].max_age_days), (1, 10, 2, 10));
    let scores = float_scores(&terms);
    sort_by_cleanup_priority(&mut ps, &scores);
    let names: Vec<&str> = ps.iter().map(|p| p.name.as_str()).collect();
    // 0.1 + 0.2 exceeds 0.3 in floating point
    assert_eq!(names, vec!["third", "second", "first"]);
}

#[test]
fn breakdowns_add_up_to_totals() {
    let ps = vec![
        project("a", ProjectType::Rust, 5, None),
        project("b", ProjectType::Node, 20, None),
        project("c", ProjectType::Rust, 10, None),
        project("d", ProjectType::Go, 7, None),
    ];
    let e = ecosystem_stats(&ps);
    assert_eq!(e.iter().map(|s| s.size).sum::<u64>(), total_project_size(&ps));
    assert_eq!(e.iter().map(|s| s.count).sum::<usize>(), ps.len());
    assert_eq!(total_project_size(&ps), 42);

    let cs = vec![
        Cache::new(CacheType::Npm, "/h/.npm".to_string(), 3),
        Cache::new(CacheType::Ollama, "/h/.ollama/models".to_string(), 9),
        Cache::new(CacheType::Docker, "/h/.docker".to_string(), 11),
        Cache::new(CacheType::GoBuild, "/h/.cache/go-build".to_string(), 4),
    ];
    let k = category_stats(&cs);
    assert_eq!(k.iter().map(|s| s.size).sum::<u64>(), total_cache_size(&cs));
    assert_eq!(k.iter().map(|s| s.count).sum::<usize>(), cs.len());
    assert_eq!(total_cache_size(&cs), 27);
}

#[test]
fn artifacts_are_looked_up_by_path() {
    let mut p = Project::new("py".to_string(), ProjectType::Python, "/w/py".to_string());
    p.add_artifact(Artifact::new("/w/py/__pycache__".to_string(), 4));
    assert!(p.has_artifact_at("/w/py/__pycache__"));
    assert!(!p.has_artifact_at("/w/py/pkg/__pycache__"));
}
