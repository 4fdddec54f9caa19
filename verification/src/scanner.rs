//! The rules of the project scan: which directories are entered, which files
//! mark a project, which artifacts belong to it, which projects are kept and
//! how they are ordered. The directory walk itself is done by the caller.
use vstd::prelude::*;
use crate::project::{Config, Project, ProjectType};
use crate::sorting::{is_stable_desc_sort, sort_desc_by_keys, stable_desc_arrangement};
use crate::text::{
    chars_of, has_prefix, has_substring, has_suffix, str_contains, str_equal, str_ends_with,
    str_starts_with,
};

verus! {

/// Directories to always skip during scanning
pub open spec fn skip_dirs() -> Seq<Seq<char>> {
    seq![".git"@, ".hg"@, ".svn"@, ".DS_Store"@, "$RECYCLE.BIN"@, "System Volume Information"@]
}

/// System directories to never scan into
pub open spec fn system_dirs() -> Seq<Seq<char>> {
    seq!["/System"@, "/Library"@, "/Applications"@, "/usr"@, "/bin"@, "/sbin"@, "/var"@, "/private"@]
}

/// Known artifact directories the walk does not descend into; they are found
/// from their project instead.
pub open spec fn walk_stop_dirs() -> Seq<Seq<char>> {
    seq![
        "node_modules"@,
        "target"@,
        "__pycache__"@,
        "build"@,
        "dist"@,
        "bin"@,
        "obj"@,
        "vendor"@,
        ".dart_tool"@,
        ".gradle"@,
        "Pods"@,
    ]
}

/// File-name endings that mark a .NET project.
pub open spec fn dotnet_project_suffixes() -> Seq<Seq<char>> {
    seq![".csproj"@, ".sln"@, ".fsproj"@, ".vbproj"@]
}

/// Directories the `__pycache__` search does not descend into.
pub open spec fn pycache_walk_stop_dirs() -> Seq<Seq<char>> {
    seq!["venv"@, ".venv"@, "node_modules"@, ".git"@]
}

/// The views of a list of string slices.
pub open spec fn views(s: Seq<&str>) -> Seq<Seq<char>> {
    s.map_values(|x: &str| x@)
}

/// The views of a list of strings.
pub open spec fn string_views(s: Seq<String>) -> Seq<Seq<char>> {
    s.map_values(|x: String| x@)
}

fn skip_dir_names() -> (r: &'static [&'static str])
    ensures
        views(r@) == skip_dirs(),
{
    &[".git", ".hg", ".svn", ".DS_Store", "$RECYCLE.BIN", "System Volume Information"]
}

fn system_dir_names() -> (r: &'static [&'static str])
    ensures
        views(r@) == system_dirs(),
{
    &["/System", "/Library", "/Applications", "/usr", "/bin", "/sbin", "/var", "/private"]
}

fn walk_stop_dir_names() -> (r: &'static [&'static str])
    ensures
        views(r@) == walk_stop_dirs(),
{
    &[
        "node_modules",
        "target",
        "__pycache__",
        "build",
        "dist",
        "bin",
        "obj",
        "vendor",
        ".dart_tool",
        ".gradle",
        "Pods",
    ]
}

fn dotnet_suffix_names() -> (r: &'static [&'static str])
    ensures
        views(r@) == dotnet_project_suffixes(),
{
    &[".csproj", ".sln", ".fsproj", ".vbproj"]
}

fn pycache_walk_stop_names() -> (r: &'static [&'static str])
    ensures
        views(r@) == pycache_walk_stop_dirs(),
{
    &["venv", ".venv", "node_modules", ".git"]
}

/// Whether `name` equals one of `list`.
fn is_one_of(name: &str, list: &[&str]) -> (r: bool)
    ensures
        r == views(list@).contains(name@),
{
    let mut i: usize = 0;
    while i < list.len()
        invariant
            0 <= i <= list@.len(),
            forall|t: int| 0 <= t < i ==> list@[t]@ != name@,
        decreases list@.len() - i,
    {
        if str_equal(name, list[i]) {
            assert(views(list@)[i as int] == name@);
            return true;
        }
        i = i + 1;
    }
    assert(!views(list@).contains(name@)) by {
        if views(list@).contains(name@) {
            let t = choose|t: int| 0 <= t < views(list@).len() && views(list@)[t] == name@;
            assert(list@[t]@ == name@);
        }
    }
    false
}

/// Whether the walk enters a directory called `name`, given the user's exclude patterns.
pub open spec fn enters_dir(name: Seq<char>, exclude_patterns: Seq<Seq<char>>) -> bool {
    &&& !skip_dirs().contains(name)
    &&& forall|i: int| 0 <= i < exclude_patterns.len() ==> !has_substring(name, #[trigger] exclude_patterns[i])
    &&& !walk_stop_dirs().contains(name)
}

/// The walk never enters a version-control or system-metadata directory, nor
/// one whose name contains one of the user's exclude patterns.
pub proof fn skipped_and_excluded_dirs_are_never_entered(name: Seq<char>, exclude_patterns: Seq<Seq<char>>)
    ensures
        skip_dirs().contains(name) ==> !enters_dir(name, exclude_patterns),
        (exists|i: int| 0 <= i < exclude_patterns.len() && has_substring(name, #[trigger] exclude_patterns[i]))
            ==> !enters_dir(name, exclude_patterns),
{
}

/// Whether the scan refuses `root` as a system directory.
pub open spec fn is_system_root(root: Seq<char>) -> bool {
    exists|i: int| 0 <= i < system_dirs().len() && has_prefix(root, #[trigger] system_dirs()[i])
}

/// Whether `name` is the name of a .NET project or solution file.
pub open spec fn is_dotnet_project_file_name(name: Seq<char>) -> bool {
    exists|i: int|
        0 <= i < dotnet_project_suffixes().len() && has_suffix(name, #[trigger] dotnet_project_suffixes()[i])
}

/// How an artifact pattern is looked for below a project directory.
#[derive(Debug, Clone, PartialEq, Eq)]
pub enum ArtifactPattern {
    /// A relative path with a `/` (such as `ios/Pods`), joined to the project path.
    Nested(String),
    /// A `*`-pattern: directory entries whose name ends with the given suffix.
    Glob(String),
    /// A `*`-suffixed pattern (such as `cmake-build-*`): directory entries
    /// whose name starts with the given prefix.
    Prefixed(String),
    /// A plain directory name, joined to the project path.
    Plain(String),
}

/// The classification of a pattern: nested if it holds `/`, else, if it holds
/// `*`, a glob matching names that end with what follows a leading `*`, or one
/// matching names that start with what precedes a trailing `*` (none if the
/// `*` is neither leading nor trailing), else plain.
pub open spec fn pattern_kind(p: Seq<char>) -> Option<(int, Seq<char>)> {
    if p.contains('/') {
        Some((0, p))
    } else if p.contains('*') {
        if p.len() > 0 && p[0] == '*' {
            Some((1, p.subrange(1, p.len() as int)))
        } else if p.len() > 0 && p[p.len() - 1] == '*' {
            Some((3, p.subrange(0, p.len() - 1)))
        } else {
            None
        }
    } else {
        Some((2, p))
    }
}

pub open spec fn pattern_view(a: ArtifactPattern) -> (int, Seq<char>) {
    match a {
        ArtifactPattern::Nested(s) => (0, s@),
        ArtifactPattern::Glob(s) => (1, s@),
        ArtifactPattern::Prefixed(s) => (3, s@),
        ArtifactPattern::Plain(s) => (2, s@),
    }
}

/// Whether `c` occurs in `s`.
fn has_char(s: &str, c: char) -> (r: bool)
    ensures
        r == s@.contains(c),
{
    let cs = chars_of(s);
    let mut i: usize = 0;
    while i < cs.len()
        invariant
            cs@ == s@,
            0 <= i <= cs@.len(),
            forall|t: int| 0 <= t < i ==> cs@[t] != c,
        decreases cs@.len() - i,
    {
        if cs[i] == c {
            return true;
        }
        i = i + 1;
    }
    false
}

/// Classifies an artifact pattern of a project type (see `pattern_kind`).
pub fn classify_artifact_pattern(pattern: &str) -> (r: Option<ArtifactPattern>)
    ensures
        match r {
            Some(a) => pattern_kind(pattern@) == Some(pattern_view(a)),
            None => pattern_kind(pattern@).is_none(),
        },
{
    if has_char(pattern, '/') {
        Some(ArtifactPattern::Nested(String::from_str(pattern)))
    } else if has_char(pattern, '*') {
        let n = pattern.unicode_len();
        if n > 0 && pattern.get_char(0) == '*' {
            Some(ArtifactPattern::Glob(String::from_str(pattern.substring_char(1, n))))
        } else if n > 0 && pattern.get_char(n - 1) == '*' {
            Some(ArtifactPattern::Prefixed(String::from_str(pattern.substring_char(0, n - 1))))
        } else {
            None
        }
    } else {
        Some(ArtifactPattern::Plain(String::from_str(pattern)))
    }
}

/// Whether a directory entry called `name` is matched by a glob (`Glob`: the
/// name ends with its suffix; `Prefixed`: the name starts with its prefix).
/// Other patterns name one path and match no entry by name.
pub open spec fn glob_matches(a: ArtifactPattern, name: Seq<char>) -> bool {
    match a {
        ArtifactPattern::Glob(s) => has_suffix(name, s@),
        ArtifactPattern::Prefixed(s) => has_prefix(name, s@),
        _ => false,
    }
}

/// Whether the directory entry `name` is matched by the glob `a` (see `glob_matches`).
pub fn matches_glob(a: &ArtifactPattern, name: &str) -> (r: bool)
    ensures
        r == glob_matches(*a, name@),
{
    match a {
        ArtifactPattern::Glob(s) => str_ends_with(name, s.as_str()),
        ArtifactPattern::Prefixed(s) => str_starts_with(name, s.as_str()),
        _ => false,
    }
}

/// Whether a directory entry named `name` marks a .NET project.
pub fn is_dotnet_project_file(name: &str) -> (r: bool)
    ensures
        r == is_dotnet_project_file_name(name@),
{
    let suffixes = dotnet_suffix_names();
    let mut i: usize = 0;
    while i < suffixes.len()
        invariant
            views(suffixes@) == dotnet_project_suffixes(),
            0 <= i <= suffixes@.len(),
            forall|t: int| 0 <= t < i ==> !has_suffix(name@, #[trigger] dotnet_project_suffixes()[t]),
        decreases suffixes@.len() - i,
    {
        if str_ends_with(name, suffixes[i]) {
            assert(dotnet_project_suffixes()[i as int] == suffixes@[i as int]@);
            return true;
        }
        i = i + 1;
    }
    false
}

/// Whether the `__pycache__` search enters a directory called `name`.
pub fn pycache_walk_enters(name: &str) -> (r: bool)
    ensures
        r == !pycache_walk_stop_dirs().contains(name@),
{
    !is_one_of(name, pycache_walk_stop_names())
}

/// Whether a directory called `name` is a Python cache collected by the
/// `__pycache__` search.
pub fn is_python_cache_dir(name: &str) -> (r: bool)
    ensures
        r == (name@ == "__pycache__"@ || name@ == ".pytest_cache"@),
{
    str_equal(name, "__pycache__") || str_equal(name, ".pytest_cache")
}

/// Whether the scan refuses to start at `root` (a system directory).
pub fn refuses_root(root: &str) -> (r: bool)
    ensures
        r == is_system_root(root@),
{
    let dirs = system_dir_names();
    let mut i: usize = 0;
    while i < dirs.len()
        invariant
            views(dirs@) == system_dirs(),
            0 <= i <= dirs@.len(),
            forall|t: int| 0 <= t < i ==> !has_prefix(root@, #[trigger] system_dirs()[t]),
        decreases dirs@.len() - i,
    {
        if str_starts_with(root, dirs[i]) {
            assert(system_dirs()[i as int] == dirs@[i as int]@);
            return true;
        }
        i = i + 1;
    }
    false
}

/// Truncating division by the number of seconds in a day (as Rust's `/` on i64).
pub open spec fn trunc_days(secs: int) -> int {
    if secs >= 0 {
        secs / 86_400
    } else {
        -((-secs) / 86_400)
    }
}

/// Whether `project` passes the type, size and age filters of `config` at time `now`.
pub open spec fn passes_filters_spec(config: Config, project: Project, now: i64) -> bool {
    &&& (config.project_filters@.len() == 0 || config.project_filters@.contains(project.project_type))
    &&& match config.min_size_bytes {
        Some(min) => project.total_size >= min,
        None => true,
    }
    &&& match config.min_age_days {
        Some(min_days) => match project.last_modified {
            Some(lm) => trunc_days(now - lm) >= (min_days as i64) as int,
            None => true,
        },
        None => true,
    }
}

/// Scanner for finding projects and their build artifacts
pub struct Scanner {
    config: Config,
}

impl Scanner {
    /// The configuration the scanner runs with.
    pub closed spec fn spec_config(&self) -> Config {
        self.config
    }

    /// Create a new scanner with the given configuration
    pub fn new(config: Config) -> (r: Self)
        ensures
            r.spec_config() == config,
    {
        Scanner { config }
    }

    /// The configuration the scanner runs with.
    pub fn config(&self) -> (r: &Config)
        ensures
            *r == self.spec_config(),
    {
        &self.config
    }

    /// Check if we should enter this directory during traversal
    pub fn should_enter(&self, name: &str) -> (r: bool)
        ensures
            r == enters_dir(name@, string_views(self.spec_config().exclude_patterns@)),
    {
        if is_one_of(name, skip_dir_names()) {
            return false;
        }
        let patterns = &self.config.exclude_patterns;
        let mut i: usize = 0;
        while i < patterns.len()
            invariant
                *patterns == self.spec_config().exclude_patterns,
                0 <= i <= patterns@.len(),
                forall|t: int| 0 <= t < i ==> !has_substring(name@, #[trigger] patterns@[t]@),
            decreases patterns@.len() - i,
        {
            if str_contains(name, patterns[i].as_str()) {
                assert(!enters_dir(name@, string_views(patterns@))) by {
                    assert(string_views(patterns@)[i as int] == patterns@[i as int]@);
                }
                return false;
            }
            i = i + 1;
        }
        let r = !is_one_of(name, walk_stop_dir_names());
        assert(forall|t: int|
            0 <= t < patterns@.len() ==> !has_substring(name@, #[trigger] string_views(patterns@)[t]))
            by {
            assert forall|t: int| 0 <= t < patterns@.len() implies !has_substring(
                name@,
                #[trigger] string_views(patterns@)[t],
            ) by {
                assert(string_views(patterns@)[t] == patterns@[t]@);
            }
        }
        r
    }

    /// Check if a project passes all configured filters, at time `now`.
    pub fn passes_filters_at(&self, project: &Project, now: i64) -> (r: bool)
        ensures
            r == passes_filters_spec(self.spec_config(), *project, now),
    {
        let config = &self.config;
        if config.project_filters.len() > 0 {
            let mut found = false;
            let mut i: usize = 0;
            while i < config.project_filters.len()
                invariant
                    0 <= i <= config.project_filters@.len(),
                    found == exists|t: int|
                        0 <= t < i && config.project_filters@[t] == project.project_type,
                decreases config.project_filters@.len() - i,
            {
                if config.project_filters[i] == project.project_type {
                    found = true;
                }
                i = i + 1;
            }
            if !found {
                assert(!config.project_filters@.contains(project.project_type));
                return false;
            }
        }
        if let Some(min_size) = config.min_size_bytes {
            if project.total_size < min_size {
                return false;
            }
        }
        if let Some(min_age_days) = config.min_age_days {
            if let Some(last_modified) = project.last_modified {
                let age_secs: i128 = now as i128 - last_modified as i128;
                let age_days: i128 = if age_secs >= 0 {
                    age_secs / 86_400
                } else {
                    -((-age_secs) / 86_400)
                };
                let min_days = min_age_days as i64;
                if age_days < min_days as i128 {
                    return false;
                }
            }
        }
        true
    }

    /// Check if a project passes all configured filters, against the system clock.
    pub fn passes_filters(&self, project: &Project) -> (r: bool)
        ensures
            exists|now: i64| r == passes_filters_spec(self.spec_config(), *project, now),
    {
        let now = crate::project::current_time();
        self.passes_filters_at(project, now)
    }

    /// Apply configured filters to the project list, at time `now`.
    pub fn apply_filters_at(&self, projects: Vec<Project>, now: i64) -> (r: Vec<Project>)
        ensures
            r@ == projects@.filter(|p: Project| passes_filters_spec(self.spec_config(), p, now)),
    {
        let ghost pred = |p: Project| passes_filters_spec(self.spec_config(), p, now);
        let mut kept: Vec<Project> = Vec::new();
        let mut rest = projects;
        let ghost orig = rest@;
        let mut taken: usize = 0;
        let total = rest.len();
        assert(rest@ =~= orig.subrange(0, orig.len() as int));
        while rest.len() > 0
            invariant
                total == orig.len(),
                pred == (|p: Project| passes_filters_spec(self.spec_config(), p, now)),
                taken + rest@.len() == orig.len(),
                rest@ == orig.subrange(taken as int, orig.len() as int),
                kept@ == orig.subrange(0, taken as int).filter(pred),
            decreases rest@.len(),
        {
            let p = rest.remove(0);
            assert(p == orig[taken as int]);
            let keep = self.passes_filters_at(&p, now);
            proof {
                reveal_with_fuel(Seq::<Project>::filter, 1);
                assert(orig.subrange(0, taken + 1).drop_last() =~= orig.subrange(0, taken as int));
                assert(orig.subrange(0, taken + 1).last() == p);
                assert(keep == passes_filters_spec(self.spec_config(), p, now));
                assert(pred(p) == passes_filters_spec(self.spec_config(), p, now));
            }
            if keep {
                kept.push(p);
            }
            taken = taken + 1;
            assert(rest@ =~= orig.subrange(taken as int, orig.len() as int));
        }
        assert(orig.subrange(0, orig.len() as int) =~= orig);
        kept
    }

    /// Keeps the projects that pass the filters at time `now` and orders them
    /// by total size, largest first (equal sizes keep their order).
    pub fn finish_scan_at(&self, found: Vec<Project>, now: i64) -> (r: Vec<Project>)
        ensures
            is_scan_outcome(self.spec_config(), found@, now, r@),
    {
        let mut kept = self.apply_filters_at(found, now);
        let keys = project_size_keys(&kept);
        sort_desc_by_keys(&mut kept, keys);
        kept
    }

    /// Keeps the projects that pass the filters (against the system clock) and
    /// orders them by total size, largest first.
    pub fn finish_scan(&self, found: Vec<Project>) -> (r: Vec<Project>)
        ensures
            exists|now: i64| #[trigger] is_scan_outcome(self.spec_config(), found@, now, r@),
    {
        let now = crate::project::current_time();
        self.finish_scan_at(found, now)
    }
}

/// The outcome of a scan that found `found`: the projects that pass the
/// filters of `config` at time `now`, largest total size first, equal sizes in
/// their found order.
pub open spec fn is_scan_outcome(config: Config, found: Seq<Project>, now: i64, result: Seq<Project>) -> bool {
    let kept = found.filter(|p: Project| passes_filters_spec(config, p, now));
    is_stable_desc_sort(kept, size_keys(kept), result)
}

/// Each project's total size, as a sort key.
pub open spec fn size_keys(ps: Seq<Project>) -> Seq<u128> {
    Seq::new(ps.len(), |i: int| ps[i].total_size as u128)
}

/// The total sizes of the projects, as sort keys.
pub fn project_size_keys(ps: &Vec<Project>) -> (r: Vec<u128>)
    ensures
        r@ == size_keys(ps@),
{
    let mut keys: Vec<u128> = Vec::new();
    let mut i: usize = 0;
    while i < ps.len()
        invariant
            0 <= i <= ps@.len(),
            keys@.len() == i,
            forall|t: int| 0 <= t < i ==> keys@[t] == ps@[t].total_size as u128,
        decreases ps@.len() - i,
    {
        keys.push(ps[i].total_size as u128);
        i = i + 1;
    }
    assert(keys@ =~= size_keys(ps@));
    keys
}

/// Of the projects built for one directory, one per project type in detection
/// order (`None` where the directory is not of that type), the one reported:
/// the first whose artifact list is not empty.
pub open spec fn detected_project(candidates: Seq<Option<Project>>) -> Option<int>
    decreases candidates.len(),
{
    if candidates.len() == 0 {
        None
    } else {
        match detected_project(candidates.drop_last()) {
            Some(i) => Some(i),
            None => match candidates.last() {
                Some(p) => if p.artifacts@.len() > 0 {
                    Some(candidates.len() - 1)
                } else {
                    None
                },
                None => None,
            },
        }
    }
}

/// Two-factor detection: a directory is reported as a project only for a type
/// whose marker file it has (`Some` candidate) and only with a non-empty
/// artifact list; the first such type wins. Returns its index in `candidates`.
pub fn detect_project(candidates: &Vec<Option<Project>>) -> (r: Option<usize>)
    ensures
        match r {
            Some(i) => detected_project(candidates@) == Some(i as int),
            None => detected_project(candidates@).is_none(),
        },
{
    let mut i: usize = 0;
    while i < candidates.len()
        invariant
            0 <= i <= candidates@.len(),
            detected_project(candidates@.take(i as int)).is_none(),
        decreases candidates@.len() - i,
    {
        assert(candidates@.take(i + 1).drop_last() =~= candidates@.take(i as int));
        match &candidates[i] {
            Some(p) => {
                if p.artifacts.len() > 0 {
                    assert(detected_project(candidates@.take(i + 1)) == Some(i as int));
                    proof {
                        lemma_detected_prefix(candidates@, i as int + 1);
                    }
                    return Some(i);
                }
            },
            None => {},
        }
        i = i + 1;
    }
    assert(candidates@.take(i as int) =~= candidates@);
    None
}

/// Once a prefix decides the detected project, the whole list does.
proof fn lemma_detected_prefix(c: Seq<Option<Project>>, k: int)
    requires
        0 <= k <= c.len(),
        detected_project(c.take(k)).is_some(),
    ensures
        detected_project(c) == detected_project(c.take(k)),
    decreases c.len() - k,
{
    if k < c.len() {
        assert(c.take(k + 1).drop_last() =~= c.take(k));
        lemma_detected_prefix(c, k + 1);
    } else {
        assert(c.take(k) =~= c);
    }
}

/// A detected project has at least one artifact and comes from a candidate of
/// its type (the directory has that type's marker file).
pub proof fn detected_project_has_artifacts(candidates: Seq<Option<Project>>)
    ensures
        match detected_project(candidates) {
            Some(i) => 0 <= i < candidates.len() && candidates[i] is Some
                && candidates[i]->0.artifacts@.len() > 0,
            None => forall|i: int|
                0 <= i < candidates.len() && (#[trigger] candidates[i]) is Some
                    ==> candidates[i]->0.artifacts@.len() == 0,
        },
    decreases candidates.len(),
{
    if candidates.len() > 0 {
        let init = candidates.drop_last();
        detected_project_has_artifacts(init);
        match detected_project(init) {
            Some(i) => {
                assert(candidates[i] == init[i]);
            },
            None => {
                assert forall|i: int|
                    0 <= i < candidates.len() - 1 && (#[trigger] candidates[i]) is Some implies
                    candidates[i]->0.artifacts@.len() == 0 by {
                    assert(candidates[i] == init[i]);
                }
            },
        }
    }
}

} // verus!

verus! {

/// What a scan reports: every reported project passes the type, size and age
/// filters and was found by the walk, every found project that passes them is
/// reported, and the report is ordered by total size, largest first.
pub proof fn scan_reports_filtered_projects_largest_first(
    config: Config,
    found: Seq<Project>,
    now: i64,
    result: Seq<Project>,
)
    requires
        is_scan_outcome(config, found, now, result),
    ensures
        forall|i: int|
            0 <= i < result.len() ==> passes_filters_spec(config, #[trigger] result[i], now)
                && found.contains(result[i]),
        forall|k: int|
            0 <= k < found.len() && passes_filters_spec(config, found[k], now) ==> #[trigger] result.contains(found[k]),
        forall|i: int, j: int|
            0 <= i < j < result.len() ==> (#[trigger] result[i]).total_size >= (#[trigger] result[j]).total_size,
{
    let pred = |p: Project| passes_filters_spec(config, p, now);
    let kept = found.filter(pred);
    let keys = size_keys(kept);
    let perm = choose|perm: Seq<int>| stable_desc_arrangement(kept, keys, result, perm);
    assert(crate::sorting::stable_desc_arrangement(kept, keys, result, perm));
    assert forall|i: int| 0 <= i < result.len() implies passes_filters_spec(config, #[trigger] result[i], now)
        && found.contains(result[i]) by {
        let k = perm[i];
        assert(result[i] == kept[k]);
        found.lemma_filter_pred(pred, k);
        assert(kept.contains(kept[k]));
        found.lemma_filter_contains_rev(pred, kept[k]);
    }
    assert forall|k: int|
        0 <= k < found.len() && passes_filters_spec(config, found[k], now) implies #[trigger] result.contains(found[k]) by {
        found.lemma_filter_contains(pred, k);
        let m = choose|m: int| 0 <= m < kept.len() && kept[m] == found[k];
        assert(crate::sorting::has_preimage(perm, m));
        let i = choose|i: int| 0 <= i < perm.len() && #[trigger] perm[i] == m;
        assert(result[i] == found[k]);
    }
    assert forall|i: int, j: int| 0 <= i < j < result.len() implies (#[trigger] result[i]).total_size
        >= (#[trigger] result[j]).total_size by {
        assert(keys[perm[i]] >= keys[perm[j]]);
        assert(result[i] == kept[perm[i]]);
        assert(result[j] == kept[perm[j]]);
    }
}

} // verus!

verus! {

/// The type filter keeps every listed type: a project whose type occurs
/// anywhere among the `--lang` values passes when no size or age filter is
/// set, and a project whose type is not listed (with a non-empty list) never
/// passes. A project below the minimum size never passes.
pub proof fn type_filter_keeps_every_listed_type(config: Config, project: Project, now: i64)
    ensures
        config.project_filters@.contains(project.project_type) && config.min_size_bytes.is_none()
            && config.min_age_days.is_none() ==> passes_filters_spec(config, project, now),
        config.project_filters@.len() == 0 && config.min_size_bytes.is_none()
            && config.min_age_days.is_none() ==> passes_filters_spec(config, project, now),
        config.project_filters@.len() > 0 && !config.project_filters@.contains(project.project_type)
            ==> !passes_filters_spec(config, project, now),
        (config.min_size_bytes matches Some(m) && project.total_size < m) ==> !passes_filters_spec(
            config,
            project,
            now,
        ),
{
}

/// With only a type filter, a scan reports every found project whose type is
/// listed anywhere among the `--lang` values.
pub proof fn scan_reports_every_listed_type(config: Config, found: Seq<Project>, now: i64, result: Seq<Project>)
    requires
        is_scan_outcome(config, found, now, result),
        config.min_size_bytes.is_none(),
        config.min_age_days.is_none(),
    ensures
        forall|k: int|
            0 <= k < found.len() && config.project_filters@.contains(found[k].project_type)
                ==> #[trigger] result.contains(found[k]),
{
    scan_reports_filtered_projects_largest_first(config, found, now, result);
    assert forall|k: int|
        0 <= k < found.len() && config.project_filters@.contains(found[k].project_type)
            implies #[trigger] result.contains(found[k]) by {
        type_filter_keeps_every_listed_type(config, found[k], now);
    }
}

} // verus!
