use build_cleaner::cache::{Cache, CacheCategory};
use build_cleaner::cache_scanner::CacheScanner;
use std::path::Path;
use walkdir::WalkDir;

/// Bytes of the regular files below `path`.
fn dir_size(path: &Path) -> u64 {
    WalkDir::new(path)
        .follow_links(false)
        .into_iter()
        .filter_map(|e| e.ok())
        .filter(|e| e.file_type().is_file())
        .filter_map(|e| e.metadata().ok())
        .map(|m| m.len())
        .sum()
}

/// A full cache scan of the real home directory: the library names the
/// locations and orders the result, this helper measures what exists.
/// Locations that exist only on macOS are left out.
fn scan(scanner: &CacheScanner) -> Vec<Cache> {
    let found: Vec<Cache> = scanner
        .scan_targets(false)
        .into_iter()
        .filter_map(|(cache_type, path)| {
            let p = Path::new(&path);
            if p.exists() {
                let size = dir_size(p);
                Some(Cache::new(cache_type, path.clone(), size))
            } else {
                None
            }
        })
        .collect();
    scanner.collect_found(found)
}

#[test]
fn test_category_filter_ai_ml() {
    let scanner = CacheScanner::new()
        .unwrap()
        .with_categories(vec![CacheCategory::AiMl]);
    // Just verify it doesn't panic and returns a vec
    let result = scan(&scanner);
    assert!(result.iter().all(|c| c.cache_type.category() == CacheCategory::AiMl));
}

#[test]
fn test_category_filter_package_manager() {
    let scanner = CacheScanner::new()
        .unwrap()
        .with_categories(vec![CacheCategory::PackageManager]);
    let result = scan(&scanner);
    assert!(result.iter().all(|c| c.cache_type.category() == CacheCategory::PackageManager));
}

#[test]
fn test_empty_categories_returns_all() {
    // with_categories on an empty vec leaves categories as None → scan all
    let scanner_all = CacheScanner::new().unwrap();
    let scanner_empty = CacheScanner::new().unwrap().with_categories(vec![]);
    // Both should produce the same result since empty list means no filter
    let all = scan(&scanner_all);
    let empty_filtered = scan(&scanner_empty);
    assert_eq!(all.len(), empty_filtered.len());
}

#[test]
fn test_min_size_filter_excludes_small_caches() {
    // With an absurdly large minimum, nothing should pass
    let scanner = CacheScanner::new().unwrap().with_min_size(Some(u64::MAX));
    let result = scan(&scanner);
    assert!(result.is_empty(), "no cache should exceed u64::MAX bytes");
}

#[test]
fn test_min_size_none_includes_all_existing() {
    let scanner_no_filter = CacheScanner::new().unwrap().with_min_size(None);
    let scanner_zero = CacheScanner::new().unwrap().with_min_size(Some(0));
    // Both should return the same caches (0-byte minimum = same as no filter)
    let no_filter = scan(&scanner_no_filter);
    let zero_min = scan(&scanner_zero);
    assert_eq!(no_filter.len(), zero_min.len());
}

#[test]
fn cache_scanner_test_results_sorted_largest_first() {
    let scanner = CacheScanner::new().unwrap();
    let result = scan(&scanner);
    for window in result.windows(2) {
        assert!(
            window[0].size >= window[1].size,
            "results should be sorted largest first: {} >= {}",
            window[0].size,
            window[1].size
        );
    }
}
