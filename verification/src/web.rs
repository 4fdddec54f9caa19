//! The decisions behind the web dashboard's requests: reading scan
//! parameters, picking the selected items, counting a cleanup, and the
//! progress and status records. Serving HTTP and removing files is done by
//! the caller.
use vstd::prelude::*;
use crate::cache::{cache_type_label, Cache, CacheCategory};
use crate::cleaner::{cache_sizes, project_sizes};
use crate::dto::{ApiResponse, ScanParams, StatusDto};
use crate::project::{project_type_label, Config, Project, ProjectType};
use crate::state::{found_project_text, ScanProgress, ScanResults};
use crate::sys::{byte_size_display, byte_size_text, lowercase_of, to_lowercase};
use crate::text::str_equal;

verus! {

/// The project type a lower-cased `lang` value names.
pub open spec fn lang_type(l: Seq<char>) -> Option<ProjectType> {
    if l == "node"@ {
        Some(ProjectType::Node)
    } else if l == "rust"@ {
        Some(ProjectType::Rust)
    } else if l == "python"@ {
        Some(ProjectType::Python)
    } else if l == "flutter"@ {
        Some(ProjectType::Flutter)
    } else if l == "java-maven"@ || l == "javamaven"@ {
        Some(ProjectType::JavaMaven)
    } else if l == "java-gradle"@ || l == "javagradle"@ {
        Some(ProjectType::JavaGradle)
    } else if l == "cpp"@ {
        Some(ProjectType::Cpp)
    } else if l == "dot-net"@ || l == "dotnet"@ {
        Some(ProjectType::DotNet)
    } else if l == "go"@ {
        Some(ProjectType::Go)
    } else {
        None
    }
}

/// The cache category a lower-cased `cache_category` value names.
pub open spec fn category_named(l: Seq<char>) -> Option<CacheCategory> {
    if l == "ai-ml"@ || l == "aiml"@ {
        Some(CacheCategory::AiMl)
    } else if l == "package"@ {
        Some(CacheCategory::PackageManager)
    } else if l == "dev"@ {
        Some(CacheCategory::Development)
    } else if l == "ide"@ {
        Some(CacheCategory::Ide)
    } else if l == "container"@ {
        Some(CacheCategory::Container)
    } else {
        None
    }
}

/// The project type of an already lower-cased `lang` value.
pub fn lang_type_of_lowercase(l: &str) -> (r: Option<ProjectType>)
    ensures
        r == lang_type(l@),
{
    if str_equal(l, "node") {
        Some(ProjectType::Node)
    } else if str_equal(l, "rust") {
        Some(ProjectType::Rust)
    } else if str_equal(l, "python") {
        Some(ProjectType::Python)
    } else if str_equal(l, "flutter") {
        Some(ProjectType::Flutter)
    } else if str_equal(l, "java-maven") || str_equal(l, "javamaven") {
        Some(ProjectType::JavaMaven)
    } else if str_equal(l, "java-gradle") || str_equal(l, "javagradle") {
        Some(ProjectType::JavaGradle)
    } else if str_equal(l, "cpp") {
        Some(ProjectType::Cpp)
    } else if str_equal(l, "dot-net") || str_equal(l, "dotnet") {
        Some(ProjectType::DotNet)
    } else if str_equal(l, "go") {
        Some(ProjectType::Go)
    } else {
        None
    }
}

/// The project type a `lang` request value names (compared in lower case).
pub fn project_type_from_lang(s: &str) -> (r: Option<ProjectType>)
    ensures
        r == lang_type(lowercase_of(s@)),
{
    let l = to_lowercase(s);
    lang_type_of_lowercase(l.as_str())
}

/// The cache category of an already lower-cased `cache_category` value.
pub fn category_of_lowercase(l: &str) -> (r: Option<CacheCategory>)
    ensures
        r == category_named(l@),
{
    if str_equal(l, "ai-ml") || str_equal(l, "aiml") {
        Some(CacheCategory::AiMl)
    } else if str_equal(l, "package") {
        Some(CacheCategory::PackageManager)
    } else if str_equal(l, "dev") {
        Some(CacheCategory::Development)
    } else if str_equal(l, "ide") {
        Some(CacheCategory::Ide)
    } else if str_equal(l, "container") {
        Some(CacheCategory::Container)
    } else {
        None
    }
}

/// The cache category a `cache_category` request value names (compared in lower case).
pub fn category_from_name(s: &str) -> (r: Option<CacheCategory>)
    ensures
        r == category_named(lowercase_of(s@)),
{
    let l = to_lowercase(s);
    category_of_lowercase(l.as_str())
}

/// The recognised values of a list, mapped, in order; others are dropped.
pub open spec fn recognised<T>(names: Seq<String>, f: spec_fn(Seq<char>) -> Option<T>) -> Seq<T>
    decreases names.len(),
{
    if names.len() == 0 {
        Seq::empty()
    } else {
        let before = recognised(names.drop_last(), f);
        match f(names.last()@) {
            Some(t) => before.push(t),
            None => before,
        }
    }
}

/// The project types named by the `lang` values of a request; unknown values are ignored.
pub fn project_types_from_langs(langs: &Vec<String>) -> (r: Vec<ProjectType>)
    ensures
        r@ == recognised(langs@, |l: Seq<char>| lang_type(lowercase_of(l))),
{
    let mut out: Vec<ProjectType> = Vec::new();
    let mut i: usize = 0;
    while i < langs.len()
        invariant
            0 <= i <= langs@.len(),
            out@ == recognised(langs@.take(i as int), |l: Seq<char>| lang_type(lowercase_of(l))),
        decreases langs@.len() - i,
    {
        assert(langs@.take(i + 1).drop_last() =~= langs@.take(i as int));
        if let Some(t) = project_type_from_lang(langs[i].as_str()) {
            out.push(t);
        }
        i = i + 1;
    }
    assert(langs@.take(i as int) =~= langs@);
    out
}

/// The cache categories named by the `cache_category` values of a request;
/// unknown values are ignored.
pub fn categories_from_names(names: &Vec<String>) -> (r: Vec<CacheCategory>)
    ensures
        r@ == recognised(names@, |l: Seq<char>| category_named(lowercase_of(l))),
{
    let mut out: Vec<CacheCategory> = Vec::new();
    let mut i: usize = 0;
    while i < names.len()
        invariant
            0 <= i <= names@.len(),
            out@ == recognised(names@.take(i as int), |l: Seq<char>| category_named(lowercase_of(l))),
        decreases names@.len() - i,
    {
        assert(names@.take(i + 1).drop_last() =~= names@.take(i as int));
        if let Some(c) = category_from_name(names[i].as_str()) {
            out.push(c);
        }
        i = i + 1;
    }
    assert(names@.take(i as int) =~= names@);
    out
}

/// The scan configuration of a dashboard request: the resolved root, the
/// request's type filters and minimum age, the minimum size read from it, and
/// dry-run with no prompts.
pub fn scan_config(root_dir: String, params: &ScanParams, min_size_bytes: Option<u64>) -> (r: Config)
    ensures
        r.root_dir@ == root_dir@,
        r.dry_run,
        !r.auto_confirm,
        !r.interactive,
        r.include_patterns@.len() == 0,
        r.exclude_patterns@.len() == 0,
        r.project_filters@ == recognised(params.lang@, |l: Seq<char>| lang_type(lowercase_of(l))),
        r.min_age_days == params.min_age,
        r.min_size_bytes == min_size_bytes,
        !r.verbose,
{
    Config {
        root_dir,
        dry_run: true,
        auto_confirm: false,
        interactive: false,
        include_patterns: Vec::new(),
        exclude_patterns: Vec::new(),
        project_filters: project_types_from_langs(&params.lang),
        min_age_days: params.min_age,
        min_size_bytes,
        verbose: false,
    }
}

/// Items removed and bytes freed by a dashboard cleanup.
pub struct RemovalCount {
    pub deleted_count: usize,
    pub freed_bytes: u64,
}

impl RemovalCount {
    pub fn new() -> (r: Self)
        ensures
            r.deleted_count == 0,
            r.freed_bytes == 0,
    {
        RemovalCount { deleted_count: 0, freed_bytes: 0 }
    }

    /// One directory of `size` bytes removed.
    pub fn record(&mut self, size: u64)
        requires
            old(self).deleted_count < usize::MAX,
            old(self).freed_bytes + size <= u64::MAX,
        ensures
            final(self).deleted_count == old(self).deleted_count + 1,
            final(self).freed_bytes == old(self).freed_bytes + size,
    {
        self.deleted_count = self.deleted_count + 1;
        self.freed_bytes = self.freed_bytes + size;
    }

    /// The freed bytes in human-readable form.
    pub fn freed_display(&self) -> (r: String)
        ensures
            r@ == byte_size_text(self.freed_bytes),
    {
        byte_size_display(self.freed_bytes)
    }
}

/// The status record of the dashboard.
pub fn status_of(scanning: bool, results: Option<&ScanResults>) -> (r: StatusDto)
    ensures
        r.scanning == scanning,
        r.has_results == results.is_some(),
        match results {
            Some(res) => r.last_scan == Some(res.scan_time) && (r.scan_path matches Some(p) && p@
                == res.scan_path@),
            None => r.last_scan.is_none() && r.scan_path.is_none(),
        },
{
    match results {
        Some(res) => StatusDto {
            scanning,
            has_results: true,
            last_scan: Some(res.scan_time),
            scan_path: Some(res.scan_path.clone()),
        },
        None => StatusDto { scanning, has_results: false, last_scan: None, scan_path: None },
    }
}

/// The status answered when a scan of `path` has been started.
pub fn scan_started_status(path: String) -> (r: StatusDto)
    ensures
        r.scanning,
        !r.has_results,
        r.last_scan.is_none(),
        r.scan_path == Some(path),
{
    StatusDto { scanning: true, has_results: false, last_scan: None, scan_path: Some(path) }
}

/// The progress event sent when a scan of `root` starts.
pub fn starting_progress(root: &str) -> (r: ScanProgress)
    ensures
        r.current_path@ == root@,
        r.projects_found == 0,
        r.caches_found == 0,
        r.total_size == 0,
        !r.complete,
        r.message matches Some(m) && m@ == "Starting scan of "@ + root@,
{
    let mut m = String::from_str("Starting scan of ");
    m.append(root);
    ScanProgress {
        current_path: String::from_str(root),
        projects_found: 0,
        caches_found: 0,
        total_size: 0,
        complete: false,
        message: Some(m),
    }
}

/// The progress event sent when the project scan of `root` starts.
pub fn project_scan_progress(root: &str) -> (r: ScanProgress)
    ensures
        r.current_path@ == root@,
        r.projects_found == 0,
        r.caches_found == 0,
        r.total_size == 0,
        !r.complete,
        r.message matches Some(m) && m@ == "Scanning for project build artifacts..."@,
{
    ScanProgress {
        current_path: String::from_str(root),
        projects_found: 0,
        caches_found: 0,
        total_size: 0,
        complete: false,
        message: Some(String::from_str("Scanning for project build artifacts...")),
    }
}

/// The progress event sent when the cache scan starts.
pub fn cache_scan_progress(projects_found: usize, total_size: u64) -> (r: ScanProgress)
    ensures
        r.current_path@ == Seq::<char>::empty(),
        r.projects_found == projects_found,
        r.caches_found == 0,
        r.total_size == total_size,
        !r.complete,
        r.message matches Some(m) && m@ == "Scanning user caches..."@,
{
    ScanProgress {
        current_path: String::new(),
        projects_found,
        caches_found: 0,
        total_size,
        complete: false,
        message: Some(String::from_str("Scanning user caches...")),
    }
}

/// The progress event sent for the `found`-th cache found.
pub fn found_cache_progress(projects_found: usize, found: usize, total_size: u64, cache: &Cache) -> (r: ScanProgress)
    ensures
        r.current_path@ == Seq::<char>::empty(),
        r.projects_found == projects_found,
        r.caches_found == found,
        r.total_size == total_size,
        !r.complete,
        r.message matches Some(m) && m@ == "Found cache: "@ + cache_type_label(cache.cache_type) + " ("@
            + byte_size_text(cache.size) + ")"@,
{
    let mut m = String::from_str("Found cache: ");
    m.append(cache.cache_type.label());
    m.append(" (");
    let sz = byte_size_display(cache.size);
    m.append(sz.as_str());
    m.append(")");
    ScanProgress {
        current_path: String::new(),
        projects_found,
        caches_found: found,
        total_size,
        complete: false,
        message: Some(m),
    }
}

/// The final progress event of a scan that failed with `message`.
pub fn failed_progress(message: String) -> (r: ScanProgress)
    ensures
        r.current_path@ == Seq::<char>::empty(),
        r.projects_found == 0,
        r.caches_found == 0,
        r.total_size == 0,
        r.complete,
        r.message == Some(message),
{
    ScanProgress {
        current_path: String::new(),
        projects_found: 0,
        caches_found: 0,
        total_size: 0,
        complete: true,
        message: Some(message),
    }
}

/// Whether a dashboard scan looks for projects: unless it is cache-only.
pub fn scans_projects(params: &ScanParams) -> (r: bool)
    ensures
        r == !params.cache_only,
{
    !params.cache_only
}

/// Whether a dashboard scan looks at user caches: when asked to, or when it is
/// cache-only.
pub fn scans_caches(params: &ScanParams) -> (r: bool)
    ensures
        r == (params.user_caches || params.cache_only),
{
    params.user_caches || params.cache_only
}

/// The answer to a scan request for `path`: refused while a scan runs,
/// otherwise the status of the scan that starts.
pub fn scan_request_answer(is_scanning: bool, path: String) -> (r: ApiResponse<StatusDto>)
    ensures
        is_scanning ==> !r.success && r.data.is_none() && (r.error matches Some(m) && m@
            == "Scan already in progress"@),
        !is_scanning ==> r.success && r.error.is_none() && (r.data matches Some(d) && d.scanning
            && !d.has_results && d.last_scan.is_none() && d.scan_path == Some(path)),
{
    if is_scanning {
        ApiResponse::error(String::from_str("Scan already in progress"))
    } else {
        ApiResponse::success(scan_started_status(path))
    }
}

/// `e` is the progress event for the `count`-th project found, `p`, with
/// `total` bytes found so far.
pub open spec fn is_project_found_event(e: ScanProgress, p: Project, count: int, total: int) -> bool {
    &&& e.current_path@ == p.path@
    &&& e.projects_found == count
    &&& e.caches_found == 0
    &&& e.total_size == total
    &&& !e.complete
    &&& e.message matches Some(m) && m@ == found_project_text(project_type_label(p.project_type), p.name@, p.total_size)
}

/// The progress events of a project scan that found `projects`, one per
/// project in order, each with the count and the running total so far.
pub fn found_project_events(projects: &Vec<Project>) -> (r: Vec<ScanProgress>)
    requires
        project_sizes(projects@) <= u64::MAX,
        projects@.len() < usize::MAX,
    ensures
        r@.len() == projects@.len(),
        forall|i: int|
            0 <= i < r@.len() ==> is_project_found_event(
                #[trigger] r@[i],
                projects@[i],
                i + 1,
                project_sizes(projects@.take(i + 1)) as int,
            ),
{
    let mut out: Vec<ScanProgress> = Vec::new();
    let mut total: u64 = 0;
    let mut i: usize = 0;
    while i < projects.len()
        invariant
            0 <= i <= projects@.len(),
            projects@.len() < usize::MAX,
            project_sizes(projects@) <= u64::MAX,
            total == project_sizes(projects@.take(i as int)),
            out@.len() == i,
            forall|t: int|
                0 <= t < i ==> is_project_found_event(
                    #[trigger] out@[t],
                    projects@[t],
                    t + 1,
                    project_sizes(projects@.take(t + 1)) as int,
                ),
        decreases projects@.len() - i,
    {
        assert(projects@.take(i + 1).drop_last() =~= projects@.take(i as int));
        proof {
            crate::cleaner::lemma_project_sizes_take(projects@, i + 1);
        }
        let p = &projects[i];
        total = total + p.total_size;
        let e = ScanProgress::found_project(
            p.path.as_str(),
            p.name.as_str(),
            p.project_type.label(),
            p.total_size,
            i + 1,
            total,
        );
        out.push(e);
        i = i + 1;
    }
    out
}

/// `e` is the progress event for the `count`-th cache found, `c`, after
/// `projects_found` projects, with `total` bytes found so far.
pub open spec fn is_cache_found_event(e: ScanProgress, c: Cache, projects_found: int, count: int, total: int) -> bool {
    &&& e.current_path@ == Seq::<char>::empty()
    &&& e.projects_found == projects_found
    &&& e.caches_found == count
    &&& e.total_size == total
    &&& !e.complete
    &&& e.message matches Some(m) && m@ == "Found cache: "@ + cache_type_label(c.cache_type) + " ("@
        + byte_size_text(c.size) + ")"@
}

/// The progress events of a cache scan that found `caches` after a project
/// scan that found `projects_found` projects of `project_size` bytes: one per
/// cache in order, with the count and the running total of both scans.
pub fn found_cache_events(projects_found: usize, project_size: u64, caches: &Vec<Cache>) -> (r: Vec<ScanProgress>)
    requires
        project_size + cache_sizes(caches@) <= u64::MAX,
        caches@.len() < usize::MAX,
    ensures
        r@.len() == caches@.len(),
        forall|i: int|
            0 <= i < r@.len() ==> is_cache_found_event(
                #[trigger] r@[i],
                caches@[i],
                projects_found as int,
                i + 1,
                project_size + cache_sizes(caches@.take(i + 1)),
            ),
{
    let mut out: Vec<ScanProgress> = Vec::new();
    let mut total: u64 = project_size;
    let mut i: usize = 0;
    while i < caches.len()
        invariant
            0 <= i <= caches@.len(),
            caches@.len() < usize::MAX,
            project_size + cache_sizes(caches@) <= u64::MAX,
            total == project_size + cache_sizes(caches@.take(i as int)),
            out@.len() == i,
            forall|t: int|
                0 <= t < i ==> is_cache_found_event(
                    #[trigger] out@[t],
                    caches@[t],
                    projects_found as int,
                    t + 1,
                    project_size + cache_sizes(caches@.take(t + 1)),
                ),
        decreases caches@.len() - i,
    {
        assert(caches@.take(i + 1).drop_last() =~= caches@.take(i as int));
        proof {
            crate::cleaner::lemma_cache_sizes_take(caches@, i + 1);
        }
        let c = &caches[i];
        total = total + c.size;
        let e = found_cache_progress(projects_found, i + 1, total, c);
        out.push(e);
        i = i + 1;
    }
    out
}

} // verus!
