//! Project ecosystems, discovered projects and their build artifacts.
use vstd::prelude::*;
use crate::sorting::{has_preimage, is_stable_desc_sort, sort_desc_by_keys, stable_desc_arrangement};
use crate::sys::{byte_size_display, byte_size_text, file_name_of, path_file_name, system_clock_secs};
use crate::text::{decimal_text, str_equal, u64_to_text};

verus! {

/// Supported project types/ecosystems
#[derive(Debug, Clone, Copy, PartialEq, Eq, Hash, Structural)]
pub enum ProjectType {
    /// Node.js/JavaScript projects (package.json)
    Node,
    /// Rust projects (Cargo.toml)
    Rust,
    /// Python projects (pyproject.toml, setup.py, requirements.txt)
    Python,
    /// Flutter/Dart projects (pubspec.yaml)
    Flutter,
    /// Java Maven projects (pom.xml)
    JavaMaven,
    /// Java Gradle projects (build.gradle)
    JavaGradle,
    /// C/C++ projects (CMakeLists.txt, Makefile)
    Cpp,
    /// .NET/C# projects (*.csproj, *.sln)
    DotNet,
    /// Go projects (go.mod)
    Go,
}

pub open spec fn project_type_icon(t: ProjectType) -> Seq<char> {
    match t {
        ProjectType::Node => "\u{1F4E6}"@,
        ProjectType::Rust => "\u{1F980}"@,
        ProjectType::Python => "\u{1F40D}"@,
        ProjectType::Flutter => "\u{1F98B}"@,
        ProjectType::JavaMaven => "\u{2615}"@,
        ProjectType::JavaGradle => "\u{2615}"@,
        ProjectType::Cpp => "\u{2699}"@,
        ProjectType::DotNet => "\u{1F7E3}"@,
        ProjectType::Go => "\u{1F439}"@,
    }
}

pub open spec fn project_type_label(t: ProjectType) -> Seq<char> {
    match t {
        ProjectType::Node => "Node.js"@,
        ProjectType::Rust => "Rust"@,
        ProjectType::Python => "Python"@,
        ProjectType::Flutter => "Flutter"@,
        ProjectType::JavaMaven => "Maven"@,
        ProjectType::JavaGradle => "Gradle"@,
        ProjectType::Cpp => "C/C++"@,
        ProjectType::DotNet => ".NET"@,
        ProjectType::Go => "Go"@,
    }
}

/// The variant's name, as `{:?}` prints it.
pub open spec fn project_type_name(t: ProjectType) -> Seq<char> {
    match t {
        ProjectType::Node => "Node"@,
        ProjectType::Rust => "Rust"@,
        ProjectType::Python => "Python"@,
        ProjectType::Flutter => "Flutter"@,
        ProjectType::JavaMaven => "JavaMaven"@,
        ProjectType::JavaGradle => "JavaGradle"@,
        ProjectType::Cpp => "Cpp"@,
        ProjectType::DotNet => "DotNet"@,
        ProjectType::Go => "Go"@,
    }
}

/// Names of the files whose presence marks a directory as a project of this type.
pub open spec fn config_patterns_of(t: ProjectType) -> Seq<Seq<char>> {
    match t {
        ProjectType::Node => seq!["package.json"@],
        ProjectType::Rust => seq!["Cargo.toml"@],
        ProjectType::Python => seq![
            "pyproject.toml"@,
            "setup.py"@,
            "setup.cfg"@,
            "requirements.txt"@,
        ],
        ProjectType::Flutter => seq!["pubspec.yaml"@],
        ProjectType::JavaMaven => seq!["pom.xml"@],
        ProjectType::JavaGradle => seq!["build.gradle"@, "build.gradle.kts"@],
        ProjectType::Cpp => seq!["CMakeLists.txt"@, "Makefile"@, "makefile"@],
        ProjectType::DotNet => Seq::empty(),
        ProjectType::Go => seq!["go.mod"@],
    }
}

/// Artifact directories (relative paths, or `*`-suffix patterns) cleaned for this type.
pub open spec fn artifact_patterns_of(t: ProjectType) -> Seq<Seq<char>> {
    match t {
        ProjectType::Node => seq!["node_modules"@, "dist"@, "build"@, ".next"@, ".nuxt"@],
        ProjectType::Rust => seq!["target"@],
        ProjectType::Python => seq![
            "__pycache__"@,
            ".pytest_cache"@,
            ".tox"@,
            "build"@,
            "dist"@,
            ".eggs"@,
            "*.egg-info"@,
            "venv"@,
            ".venv"@,
        ],
        ProjectType::Flutter => seq!["build"@, ".dart_tool"@, "ios/Pods"@],
        ProjectType::JavaMaven => seq!["target"@],
        ProjectType::JavaGradle => seq!["build"@, ".gradle"@],
        ProjectType::Cpp => seq!["build"@, "cmake-build-*"@],
        ProjectType::DotNet => seq!["bin"@, "obj"@],
        ProjectType::Go => seq!["vendor"@],
    }
}

/// Every project type, in detection order.
pub open spec fn all_project_types() -> Seq<ProjectType> {
    seq![
        ProjectType::Node,
        ProjectType::Rust,
        ProjectType::Python,
        ProjectType::Flutter,
        ProjectType::JavaMaven,
        ProjectType::JavaGradle,
        ProjectType::Cpp,
        ProjectType::DotNet,
        ProjectType::Go,
    ]
}

/// The views of a list of string slices.
pub open spec fn str_views(s: Seq<&str>) -> Seq<Seq<char>> {
    s.map_values(|x: &str| x@)
}

impl ProjectType {
    /// Get the emoji/icon for this project type
    pub fn icon(&self) -> (r: &'static str)
        ensures
            r@ == project_type_icon(*self),
    {
        match self {
            ProjectType::Node => "\u{1F4E6}",
            ProjectType::Rust => "\u{1F980}",
            ProjectType::Python => "\u{1F40D}",
            ProjectType::Flutter => "\u{1F98B}",
            ProjectType::JavaMaven => "\u{2615}",
            ProjectType::JavaGradle => "\u{2615}",
            ProjectType::Cpp => "\u{2699}",
            ProjectType::DotNet => "\u{1F7E3}",
            ProjectType::Go => "\u{1F439}",
        }
    }

    /// Get the display label for this project type
    pub fn label(&self) -> (r: &'static str)
        ensures
            r@ == project_type_label(*self),
    {
        match self {
            ProjectType::Node => "Node.js",
            ProjectType::Rust => "Rust",
            ProjectType::Python => "Python",
            ProjectType::Flutter => "Flutter",
            ProjectType::JavaMaven => "Maven",
            ProjectType::JavaGradle => "Gradle",
            ProjectType::Cpp => "C/C++",
            ProjectType::DotNet => ".NET",
            ProjectType::Go => "Go",
        }
    }

    /// The variant's name (what `{:?}` prints for it).
    pub fn variant_name(&self) -> (r: &'static str)
        ensures
            r@ == project_type_name(*self),
    {
        match self {
            ProjectType::Node => "Node",
            ProjectType::Rust => "Rust",
            ProjectType::Python => "Python",
            ProjectType::Flutter => "Flutter",
            ProjectType::JavaMaven => "JavaMaven",
            ProjectType::JavaGradle => "JavaGradle",
            ProjectType::Cpp => "Cpp",
            ProjectType::DotNet => "DotNet",
            ProjectType::Go => "Go",
        }
    }

    /// Icon and label separated by a space (the type's display form).
    pub fn display_text(&self) -> (r: String)
        ensures
            r@ == project_type_icon(*self) + " "@ + project_type_label(*self),
    {
        crate::text::concat3(self.icon(), " ", self.label())
    }

    /// Get the config file patterns that indicate this project type
    pub fn config_patterns(&self) -> (r: &'static [&'static str])
        ensures
            str_views(r@) == config_patterns_of(*self),
    {
        match self {
            ProjectType::Node => &["package.json"],
            ProjectType::Rust => &["Cargo.toml"],
            ProjectType::Python => &["pyproject.toml", "setup.py", "setup.cfg", "requirements.txt"],
            ProjectType::Flutter => &["pubspec.yaml"],
            ProjectType::JavaMaven => &["pom.xml"],
            ProjectType::JavaGradle => &["build.gradle", "build.gradle.kts"],
            ProjectType::Cpp => &["CMakeLists.txt", "Makefile", "makefile"],
            ProjectType::DotNet => &[],
            ProjectType::Go => &["go.mod"],
        }
    }

    /// Get the artifact directory names to clean for this project type
    pub fn artifact_patterns(&self) -> (r: &'static [&'static str])
        ensures
            str_views(r@) == artifact_patterns_of(*self),
    {
        match self {
            ProjectType::Node => &["node_modules", "dist", "build", ".next", ".nuxt"],
            ProjectType::Rust => &["target"],
            ProjectType::Python => &[
                "__pycache__",
                ".pytest_cache",
                ".tox",
                "build",
                "dist",
                ".eggs",
                "*.egg-info",
                "venv",
                ".venv",
            ],
            ProjectType::Flutter => &["build", ".dart_tool", "ios/Pods"],
            ProjectType::JavaMaven => &["target"],
            ProjectType::JavaGradle => &["build", ".gradle"],
            ProjectType::Cpp => &["build", "cmake-build-*"],
            ProjectType::DotNet => &["bin", "obj"],
            ProjectType::Go => &["vendor"],
        }
    }

    /// Get all project types
    pub fn all() -> (r: &'static [ProjectType])
        ensures
            r@ == all_project_types(),
    {
        &[
            ProjectType::Node,
            ProjectType::Rust,
            ProjectType::Python,
            ProjectType::Flutter,
            ProjectType::JavaMaven,
            ProjectType::JavaGradle,
            ProjectType::Cpp,
            ProjectType::DotNet,
            ProjectType::Go,
        ]
    }
}

/// Represents a single artifact (directory or file) to be cleaned
#[derive(Debug, Clone)]
pub struct Artifact {
    /// Path to the artifact
    pub path: String,
    /// Size in bytes
    pub size: u64,
    /// Name of the artifact (directory/file name)
    pub name: String,
}

/// The name an artifact at `path` is shown under: its last path component.
pub open spec fn artifact_name_for(path: Seq<char>) -> Seq<char> {
    match file_name_of(path) {
        Some(name) => name,
        None => "unknown"@,
    }
}

impl Artifact {
    /// Create a new artifact
    pub fn new(path: String, size: u64) -> (r: Self)
        ensures
            r.path@ == path@,
            r.size == size,
            r.name@ == artifact_name_for(path@),
    {
        let name = match path_file_name(path.as_str()) {
            Some(n) => n,
            None => String::from_str("unknown"),
        };
        Artifact { path, size, name }
    }

    /// Get human-readable size
    pub fn size_display(&self) -> (r: String)
        ensures
            r@ == byte_size_text(self.size),
    {
        byte_size_display(self.size)
    }
}

/// Represents a discovered project with its build artifacts
#[derive(Debug, Clone)]
pub struct Project {
    /// Project name (derived from directory name or config file)
    pub name: String,
    /// Type of project
    pub project_type: ProjectType,
    /// Path to the project root directory
    pub path: String,
    /// Artifact directories/files to be deleted
    pub artifacts: Vec<Artifact>,
    /// Total size of all artifacts in bytes
    pub total_size: u64,
    /// Last modification time (Unix timestamp)
    pub last_modified: Option<i64>,
}

/// Whether one of `artifacts` lies at `path`.
pub open spec fn has_artifact_path(artifacts: Seq<Artifact>, path: Seq<char>) -> bool {
    exists|i: int| 0 <= i < artifacts.len() && (#[trigger] artifacts[i]).path@ == path
}

/// Seconds in a day.
pub open spec fn day_secs() -> int {
    86_400
}

/// Whole days from `last_modified` to `now`, counting a future time as 0 days.
pub open spec fn age_in_days(last_modified: Option<i64>, now: i64) -> Option<int> {
    match last_modified {
        None => None,
        Some(lm) => Some(
            if now - lm > 0 {
                (now - lm) / day_secs()
            } else {
                0
            },
        ),
    }
}

/// `now - last_modified` fits in an `i64` (the subtraction does not overflow).
pub open spec fn age_computable(last_modified: Option<i64>, now: i64) -> bool {
    match last_modified {
        None => true,
        Some(lm) => i64::MIN <= now - lm <= i64::MAX,
    }
}

/// "today", "1 day ago", "N days ago", or "unknown" when there is no age.
pub open spec fn age_text(days: Option<int>) -> Seq<char> {
    match days {
        None => "unknown"@,
        Some(d) => if d == 0 {
            "today"@
        } else if d == 1 {
            "1 day ago"@
        } else {
            decimal_text(d as nat) + " days ago"@
        },
    }
}

/// Whole days between `lm` and `now` (0 if `lm` lies in the future), computed exactly.
fn whole_days_between(lm: i64, now: i64) -> (r: u64)
    ensures
        r == age_in_days(Some(lm), now).unwrap(),
{
    let diff: i128 = now as i128 - lm as i128;
    if diff > 0 {
        let d = diff / 86_400;
        assert(d <= 0x1_0000_0000_0000_0000i128 / 86_400) by (nonlinear_arith)
            requires
                0 < diff < 0x1_0000_0000_0000_0000i128,
                d == diff / 86_400,
        ;
        d as u64
    } else {
        0
    }
}

/// The current Unix time in seconds from the system clock (0 when the clock
/// reads before the epoch).
pub fn current_time() -> (r: i64) {
    match system_clock_secs() {
        Some(s) => s as i64,
        None => 0,
    }
}

/// The age text for a project last modified at `last_modified`, seen at `now`.
pub fn age_text_at(last_modified: Option<i64>, now: i64) -> (r: String)
    ensures
        r@ == age_text(age_in_days(last_modified, now)),
{
    proof {
        reveal_strlit("unknown");
        reveal_strlit("today");
        reveal_strlit("1 day ago");
        reveal_strlit(" days ago");
    }
    match last_modified {
        None => String::from_str("unknown"),
        Some(lm) => {
            let days = whole_days_between(lm, now);
            if days == 0 {
                String::from_str("today")
            } else if days == 1 {
                String::from_str("1 day ago")
            } else {
                let mut s = u64_to_text(days);
                s.append(" days ago");
                s
            }
        },
    }
}

impl Project {
    /// Create a new project
    pub fn new(name: String, project_type: ProjectType, path: String) -> (r: Self)
        ensures
            r.name@ == name@,
            r.project_type == project_type,
            r.path@ == path@,
            r.artifacts@.len() == 0,
            r.total_size == 0,
            r.last_modified.is_none(),
    {
        Project { name, project_type, path, artifacts: Vec::new(), total_size: 0, last_modified: None }
    }

    /// Add an artifact and update total size
    pub fn add_artifact(&mut self, artifact: Artifact)
        requires
            old(self).total_size + artifact.size <= u64::MAX,
        ensures
            final(self).total_size == old(self).total_size + artifact.size,
            final(self).artifacts@ == old(self).artifacts@.push(artifact),
            final(self).name == old(self).name,
            final(self).project_type == old(self).project_type,
            final(self).path == old(self).path,
            final(self).last_modified == old(self).last_modified,
    {
        self.total_size = self.total_size + artifact.size;
        self.artifacts.push(artifact);
    }

    /// Get human-readable total size
    pub fn size_display(&self) -> (r: String)
        ensures
            r@ == byte_size_text(self.total_size),
    {
        byte_size_display(self.total_size)
    }

    /// Whether one of the project's artifacts lies at `path` (an artifact is
    /// recorded once).
    pub fn has_artifact_at(&self, path: &str) -> (r: bool)
        ensures
            r == has_artifact_path(self.artifacts@, path@),
    {
        let mut i: usize = 0;
        while i < self.artifacts.len()
            invariant
                0 <= i <= self.artifacts@.len(),
                forall|t: int| 0 <= t < i ==> self.artifacts@[t].path@ != path@,
            decreases self.artifacts@.len() - i,
        {
            if str_equal(self.artifacts[i].path.as_str(), path) {
                return true;
            }
            i = i + 1;
        }
        false
    }

    /// Age in whole days since last modification, relative to `now` (unix seconds).
    pub fn age_days(&self, now: i64) -> (r: Option<i64>)
        requires
            age_computable(self.last_modified, now),
        ensures
            match age_in_days(self.last_modified, now) {
                None => r.is_none(),
                Some(d) => r == Some(d as i64),
            },
    {
        match self.last_modified {
            None => None,
            Some(lm) => {
                let diff = now - lm;
                let clamped = if diff > 0 {
                    diff
                } else {
                    0
                };
                Some(clamped / 86_400)
            },
        }
    }

    /// Human-readable "time since last touched" string, e.g. "214 days ago".
    ///
    /// The age is taken against the system clock; whatever the clock reads,
    /// the text is the age text of some reading of it.
    pub fn age_display(&self) -> (r: String)
        ensures
            exists|now: i64| r@ == age_text(age_in_days(self.last_modified, now)),
    {
        let now = current_time();
        age_text_at(self.last_modified, now)
    }
}

/// Largest `total_size` in the list, 0 for an empty list.
pub open spec fn max_total_size(ps: Seq<Project>) -> u64
    decreases ps.len(),
{
    if ps.len() == 0 {
        0
    } else {
        let rest = max_total_size(ps.drop_last());
        if ps.last().total_size > rest {
            ps.last().total_size
        } else {
            rest
        }
    }
}

/// Age in days of a project, 0 when its modification time is unknown.
pub open spec fn age_or_zero(p: Project, now: i64) -> int {
    match age_in_days(p.last_modified, now) {
        Some(d) => d,
        None => 0,
    }
}

/// Largest known age in the list, 0 if none is known.
pub open spec fn max_age(ps: Seq<Project>, now: i64) -> int
    decreases ps.len(),
{
    if ps.len() == 0 {
        0
    } else {
        let rest = max_age(ps.drop_last(), now);
        if age_or_zero(ps.last(), now) > rest {
            age_or_zero(ps.last(), now)
        } else {
            rest
        }
    }
}

/// What the cleanup score of a project is made of: its size and the largest
/// size of the list, its age in days (0 when unknown) and the largest age of
/// the list.
pub struct PriorityTerms {
    pub size: u64,
    pub max_size: u64,
    pub age_days: u64,
    pub max_age_days: u64,
}

/// Bound on any age in days: `2^64 / 86400 < 2^48`.
proof fn lemma_age_bound(p: Project, now: i64)
    ensures
        0 <= age_or_zero(p, now) < 0x1_0000_0000_0000,
{
    match p.last_modified {
        None => {},
        Some(lm) => {
            let diff = now - lm;
            if diff > 0 {
                assert(diff / 86_400 < 0x1_0000_0000_0000) by (nonlinear_arith)
                    requires
                        0 < diff < 0x1_0000_0000_0000_0000int,
                ;
            }
        },
    }
}

proof fn lemma_max_age_bound(ps: Seq<Project>, now: i64)
    ensures
        0 <= max_age(ps, now) < 0x1_0000_0000_0000,
    decreases ps.len(),
{
    if ps.len() > 0 {
        lemma_max_age_bound(ps.drop_last(), now);
        lemma_age_bound(ps.last(), now);
    }
}

/// `r` holds the terms of each project's cleanup score, seen at time `now`, in list order.
pub open spec fn are_priority_terms(r: Seq<PriorityTerms>, ps: Seq<Project>, now: i64) -> bool {
    &&& r.len() == ps.len()
    &&& forall|i: int|
        0 <= i < r.len() ==> {
            &&& (#[trigger] r[i]).size == ps[i].total_size
            &&& r[i].max_size == max_total_size(ps)
            &&& r[i].age_days == age_or_zero(ps[i], now)
            &&& r[i].max_age_days == max_age(ps, now)
        }
}

/// The terms of each project's cleanup score, seen at time `now`, in list order.
pub fn cleanup_priority_terms_at(projects: &Vec<Project>, now: i64) -> (r: Vec<PriorityTerms>)
    ensures
        are_priority_terms(r@, projects@, now),
{
    let ghost ps = projects@;
    let n = projects.len();
    let mut max_size: u64 = 0;
    let mut max_age_days: u64 = 0;
    let mut i: usize = 0;
    while i < n
        invariant
            n == ps.len(),
            projects@ == ps,
            0 <= i <= n,
            max_size == max_total_size(ps.take(i as int)),
            max_age_days == max_age(ps.take(i as int), now),
        decreases n - i,
    {
        assert(ps.take(i as int + 1).drop_last() =~= ps.take(i as int));
        let p = &projects[i];
        if p.total_size > max_size {
            max_size = p.total_size;
        }
        let age = match p.last_modified {
            Some(lm) => whole_days_between(lm, now),
            None => 0,
        };
        proof {
            lemma_age_bound(ps[i as int], now);
        }
        if age > max_age_days {
            max_age_days = age;
        }
        i = i + 1;
    }
    assert(ps.take(n as int) =~= ps);
    let mut out: Vec<PriorityTerms> = Vec::new();
    let mut j: usize = 0;
    while j < n
        invariant
            n == ps.len(),
            projects@ == ps,
            0 <= j <= n,
            max_size == max_total_size(ps),
            max_age_days == max_age(ps, now),
            out@.len() == j,
            forall|t: int|
                0 <= t < j ==> {
                    &&& (#[trigger] out@[t]).size == ps[t].total_size
                    &&& out@[t].max_size == max_total_size(ps)
                    &&& out@[t].age_days == age_or_zero(ps[t], now)
                    &&& out@[t].max_age_days == max_age(ps, now)
                },
        decreases n - j,
    {
        let p = &projects[j];
        let age: u64 = match p.last_modified {
            Some(lm) => whole_days_between(lm, now),
            None => 0,
        };
        out.push(PriorityTerms { size: p.total_size, max_size, age_days: age, max_age_days });
        j = j + 1;
    }
    out
}

/// The terms of each project's cleanup score against the system clock (see
/// `cleanup_priority_terms_at`).
pub fn cleanup_priority_terms(projects: &Vec<Project>) -> (r: Vec<PriorityTerms>)
    ensures
        exists|now: i64| #[trigger] are_priority_terms(r@, projects@, now),
{
    let now = current_time();
    cleanup_priority_terms_at(projects, now)
}

/// The keys as sort keys.
pub open spec fn widened(keys: Seq<u64>) -> Seq<u128> {
    keys.map_values(|k: u64| k as u128)
}

/// Sort projects by cleanup priority: projects that are both large and long
/// untouched are ranked first. `scores[i]` is the score of `projects[i]`,
/// `size / max_size + age / max_age` over its `PriorityTerms` (a term whose
/// maximum is 0 counting 0), computed in floating point and given by its bit
/// pattern, which orders non-negative scores as their values. Higher scores
/// come first and equal scores keep their order. Lists of fewer than two
/// projects are left as they are.
pub fn sort_by_cleanup_priority(projects: &mut Vec<Project>, scores: &Vec<u64>)
    requires
        old(projects)@.len() == scores@.len(),
    ensures
        old(projects)@.len() < 2 ==> final(projects)@ == old(projects)@,
        is_stable_desc_sort(old(projects)@, widened(scores@), final(projects)@),
{
    let mut keys: Vec<u128> = Vec::new();
    let mut i: usize = 0;
    while i < scores.len()
        invariant
            0 <= i <= scores@.len(),
            keys@.len() == i,
            forall|t: int| 0 <= t < i ==> keys@[t] == scores@[t] as u128,
        decreases scores@.len() - i,
    {
        keys.push(scores[i] as u128);
        i = i + 1;
    }
    assert(keys@ =~= widened(scores@));
    if projects.len() < 2 {
        let ghost ps = projects@;
        let ghost perm = Seq::new(ps.len(), |t: int| t);
        assert forall|v: int| 0 <= v < ps.len() implies #[trigger] has_preimage(perm, v) by {
            assert(perm[v] == v);
        }
        assert(stable_desc_arrangement(ps, widened(scores@), ps, perm));
        return;
    }
    sort_desc_by_keys(projects, keys);
}

/// Configuration derived from CLI arguments
#[derive(Debug, Clone)]
pub struct Config {
    /// Root directory to scan
    pub root_dir: String,
    /// Dry-run mode (no actual deletion)
    pub dry_run: bool,
    /// Skip confirmation prompts
    pub auto_confirm: bool,
    /// Interactive selection mode
    pub interactive: bool,
    /// Additional directory patterns to clean
    pub include_patterns: Vec<String>,
    /// Patterns to exclude
    pub exclude_patterns: Vec<String>,
    /// Filter by project types (empty = all)
    pub project_filters: Vec<ProjectType>,
    /// Minimum age in days (None = no filter)
    pub min_age_days: Option<u64>,
    /// Minimum size in bytes (None = no filter)
    pub min_size_bytes: Option<u64>,
    /// Verbose output
    pub verbose: bool,
}

impl Default for Config {
    fn default() -> (r: Self)
        ensures
            r.root_dir@ == "."@,
            !r.dry_run,
            !r.auto_confirm,
            !r.interactive,
            r.include_patterns@.len() == 0,
            r.exclude_patterns@.len() == 0,
            r.project_filters@.len() == 0,
            r.min_age_days.is_none(),
            r.min_size_bytes.is_none(),
            !r.verbose,
    {
        Config {
            root_dir: String::from_str("."),
            dry_run: false,
            auto_confirm: false,
            interactive: false,
            include_patterns: Vec::new(),
            exclude_patterns: Vec::new(),
            project_filters: Vec::new(),
            min_age_days: None,
            min_size_bytes: None,
            verbose: false,
        }
    }
}

} // verus!

verus! {

/// How an artifact pattern begins: never as a marker file name does.
spec fn artifact_head(s: Seq<char>) -> bool {
    &&& s.len() > 0
    &&& s[0] != 'p' && s[0] != 'C' && s[0] != 's' && s[0] != 'r' && s[0] != 'M' && s[0] != 'm'
        && s[0] != 'g'
    &&& s[0] == 'b' ==> s.len() < 12
}

/// How a marker file name begins.
spec fn marker_head(s: Seq<char>) -> bool {
    &&& s.len() > 0
    &&& s[0] == 'p' || s[0] == 'C' || s[0] == 's' || s[0] == 'r' || s[0] == 'M' || s[0] == 'm'
        || s[0] == 'g' || (s[0] == 'b' && s.len() >= 12)
}

proof fn lemma_artifact_heads(t: ProjectType)
    ensures
        forall|i: int| 0 <= i < artifact_patterns_of(t).len() ==> artifact_head(#[trigger] artifact_patterns_of(t)[i]),
{
    reveal_strlit("node_modules");
    assert("node_modules"@.len() == 12 && "node_modules"@[0] == 'n');
    reveal_strlit("dist");
    assert("dist"@.len() == 4 && "dist"@[0] == 'd');
    reveal_strlit("build");
    assert("build"@.len() == 5 && "build"@[0] == 'b');
    reveal_strlit(".next");
    assert(".next"@.len() == 5 && ".next"@[0] == '.');
    reveal_strlit(".nuxt");
    assert(".nuxt"@.len() == 5 && ".nuxt"@[0] == '.');
    reveal_strlit("target");
    assert("target"@.len() == 6 && "target"@[0] == 't');
    reveal_strlit("__pycache__");
    assert("__pycache__"@.len() == 11 && "__pycache__"@[0] == '_');
    reveal_strlit(".pytest_cache");
    assert(".pytest_cache"@.len() == 13 && ".pytest_cache"@[0] == '.');
    reveal_strlit(".tox");
    assert(".tox"@.len() == 4 && ".tox"@[0] == '.');
    reveal_strlit(".eggs");
    assert(".eggs"@.len() == 5 && ".eggs"@[0] == '.');
    reveal_strlit("*.egg-info");
    assert("*.egg-info"@.len() == 10 && "*.egg-info"@[0] == '*');
    reveal_strlit("venv");
    assert("venv"@.len() == 4 && "venv"@[0] == 'v');
    reveal_strlit(".venv");
    assert(".venv"@.len() == 5 && ".venv"@[0] == '.');
    reveal_strlit(".dart_tool");
    assert(".dart_tool"@.len() == 10 && ".dart_tool"@[0] == '.');
    reveal_strlit("ios/Pods");
    assert("ios/Pods"@.len() == 8 && "ios/Pods"@[0] == 'i');
    reveal_strlit(".gradle");
    assert(".gradle"@.len() == 7 && ".gradle"@[0] == '.');
    reveal_strlit("cmake-build-*");
    assert("cmake-build-*"@.len() == 13 && "cmake-build-*"@[0] == 'c');
    reveal_strlit("bin");
    assert("bin"@.len() == 3 && "bin"@[0] == 'b');
    reveal_strlit("obj");
    assert("obj"@.len() == 3 && "obj"@[0] == 'o');
    reveal_strlit("vendor");
    assert("vendor"@.len() == 6 && "vendor"@[0] == 'v');
}

proof fn lemma_marker_heads(t: ProjectType)
    ensures
        forall|i: int| 0 <= i < config_patterns_of(t).len() ==> marker_head(#[trigger] config_patterns_of(t)[i]),
{
    reveal_strlit("package.json");
    assert("package.json"@.len() == 12 && "package.json"@[0] == 'p');
    reveal_strlit("Cargo.toml");
    assert("Cargo.toml"@.len() == 10 && "Cargo.toml"@[0] == 'C');
    reveal_strlit("pyproject.toml");
    assert("pyproject.toml"@.len() == 14 && "pyproject.toml"@[0] == 'p');
    reveal_strlit("setup.py");
    assert("setup.py"@.len() == 8 && "setup.py"@[0] == 's');
    reveal_strlit("setup.cfg");
    assert("setup.cfg"@.len() == 9 && "setup.cfg"@[0] == 's');
    reveal_strlit("requirements.txt");
    assert("requirements.txt"@.len() == 16 && "requirements.txt"@[0] == 'r');
    reveal_strlit("pubspec.yaml");
    assert("pubspec.yaml"@.len() == 12 && "pubspec.yaml"@[0] == 'p');
    reveal_strlit("pom.xml");
    assert("pom.xml"@.len() == 7 && "pom.xml"@[0] == 'p');
    reveal_strlit("build.gradle");
    assert("build.gradle"@.len() == 12 && "build.gradle"@[0] == 'b');
    reveal_strlit("build.gradle.kts");
    assert("build.gradle.kts"@.len() == 16 && "build.gradle.kts"@[0] == 'b');
    reveal_strlit("CMakeLists.txt");
    assert("CMakeLists.txt"@.len() == 14 && "CMakeLists.txt"@[0] == 'C');
    reveal_strlit("Makefile");
    assert("Makefile"@.len() == 8 && "Makefile"@[0] == 'M');
    reveal_strlit("makefile");
    assert("makefile"@.len() == 8 && "makefile"@[0] == 'm');
    reveal_strlit("go.mod");
    assert("go.mod"@.len() == 6 && "go.mod"@[0] == 'g');
}

/// No artifact pattern of any project type names a marker file of any project
/// type: the files that identify a project are never among what is deleted.
pub proof fn marker_files_are_never_artifacts(a: ProjectType, b: ProjectType)
    ensures
        forall|i: int, j: int|
            0 <= i < artifact_patterns_of(a).len() && 0 <= j < config_patterns_of(b).len()
                ==> #[trigger] artifact_patterns_of(a)[i] != #[trigger] config_patterns_of(b)[j],
{
    lemma_artifact_heads(a);
    lemma_marker_heads(b);
}

} // verus!


verus! {

/// The largest age of a list bounds every project's age in it and, for a
/// non-empty list, is the age of one of its projects; likewise the largest
/// size.
pub proof fn list_maxima_are_attained_bounds(ps: Seq<Project>, now: i64)
    ensures
        forall|i: int| 0 <= i < ps.len() ==> age_or_zero(#[trigger] ps[i], now) <= max_age(ps, now),
        forall|i: int| 0 <= i < ps.len() ==> (#[trigger] ps[i]).total_size <= max_total_size(ps),
        ps.len() > 0 ==> exists|i: int| 0 <= i < ps.len() && age_or_zero(#[trigger] ps[i], now) == max_age(ps, now),
        ps.len() > 0 ==> exists|i: int| 0 <= i < ps.len() && (#[trigger] ps[i]).total_size == max_total_size(ps),
        ps.len() == 0 ==> max_age(ps, now) == 0 && max_total_size(ps) == 0,
    decreases ps.len(),
{
    if ps.len() > 0 {
        let init = ps.drop_last();
        list_maxima_are_attained_bounds(init, now);
        assert forall|i: int| 0 <= i < ps.len() implies age_or_zero(#[trigger] ps[i], now) <= max_age(ps, now) by {
            if i < ps.len() - 1 {
                assert(ps[i] == init[i]);
            }
        }
        assert forall|i: int| 0 <= i < ps.len() implies (#[trigger] ps[i]).total_size <= max_total_size(ps) by {
            if i < ps.len() - 1 {
                assert(ps[i] == init[i]);
            }
        }
        let last = ps.len() - 1;
        if age_or_zero(ps.last(), now) > max_age(init, now) || init.len() == 0 {
            assert(age_or_zero(ps[last], now) == max_age(ps, now));
        } else {
            let j = choose|j: int| 0 <= j < init.len() && age_or_zero(#[trigger] init[j], now) == max_age(init, now);
            assert(ps[j] == init[j]);
            assert(age_or_zero(ps[j], now) == max_age(ps, now));
        }
        if ps.last().total_size > max_total_size(init) || init.len() == 0 {
            assert(ps[last].total_size == max_total_size(ps));
        } else {
            let j = choose|j: int| 0 <= j < init.len() && (#[trigger] init[j]).total_size == max_total_size(init);
            assert(ps[j] == init[j]);
        }
    }
}

/// The terms of a list's cleanup scores: every project's age is at most the
/// age maximum and every size at most the size maximum, both maxima are shared
/// by all terms, and in a non-empty list some project has each maximum.
pub proof fn priority_terms_normalize_by_list_maxima(r: Seq<PriorityTerms>, ps: Seq<Project>, now: i64)
    requires
        are_priority_terms(r, ps, now),
    ensures
        r.len() == ps.len(),
        forall|i: int, j: int|
            0 <= i < r.len() && 0 <= j < r.len() ==> (#[trigger] r[i]).age_days <= (#[trigger] r[j]).max_age_days
                && r[i].size <= r[j].max_size && r[i].max_age_days == r[j].max_age_days
                && r[i].max_size == r[j].max_size,
        r.len() > 0 ==> exists|i: int| 0 <= i < r.len() && (#[trigger] r[i]).age_days == r[0].max_age_days,
        r.len() > 0 ==> exists|i: int| 0 <= i < r.len() && (#[trigger] r[i]).size == r[0].max_size,
        forall|i: int| 0 <= i < r.len() ==> (#[trigger] r[i]).size == ps[i].total_size,
{
    list_maxima_are_attained_bounds(ps, now);
    assert forall|i: int, j: int|
        0 <= i < r.len() && 0 <= j < r.len() implies (#[trigger] r[i]).age_days <= (#[trigger] r[j]).max_age_days
            && r[i].size <= r[j].max_size && r[i].max_age_days == r[j].max_age_days
            && r[i].max_size == r[j].max_size by {
        assert(age_or_zero(ps[i], now) <= max_age(ps, now));
        assert(ps[i].total_size <= max_total_size(ps));
    }
    if r.len() > 0 {
        let a = choose|i: int| 0 <= i < ps.len() && age_or_zero(#[trigger] ps[i], now) == max_age(ps, now);
        assert(r[a].age_days == r[0].max_age_days);
        let b = choose|i: int| 0 <= i < ps.len() && (#[trigger] ps[i]).total_size == max_total_size(ps);
        assert(r[b].size == r[0].max_size);
    }
}

} // verus!

verus! {

/// A project's age is the number of whole days since it was last modified
/// (0 when that lies in the future, none when it is unknown).
pub proof fn age_counts_whole_days(last_modified: Option<i64>, now: i64)
    ensures
        last_modified.is_none() ==> age_in_days(last_modified, now).is_none(),
        last_modified matches Some(lm) ==> age_in_days(last_modified, now) matches Some(d) && {
            if now >= lm {
                &&& d * 86_400 <= now - lm
                &&& now - lm < (d + 1) * 86_400
            } else {
                d == 0
            }
        },
{
    if let Some(lm) = last_modified {
        let diff = now - lm;
        if diff > 0 {
            let d = diff / 86_400;
            assert(d * 86_400 <= diff < (d + 1) * 86_400) by (nonlinear_arith)
                requires
                    diff > 0,
                    d == diff / 86_400,
            ;
        }
    }
}

} // verus!
