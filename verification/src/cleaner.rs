//! The decisions of a cleaning run: configuration from the options, what is
//! listed, when deletion may happen, and how deletion results are counted.
//! Prompts, printing and removing files are done by the caller.
use vstd::prelude::*;
use crate::cache::{cache_requires_app_closed, cache_type_icon, cache_type_label, Cache, CacheCategory};
use crate::cache_scanner::CacheScanner;
use crate::cli::{Args, CacheFilter, ProjectFilter};
use crate::project::{
    age_in_days, age_text, age_text_at, current_time, project_type_icon, project_type_label, Config,
    Project, ProjectType,
};
use crate::sys::byte_size_text;

verus! {

pub open spec fn filter_type(f: ProjectFilter) -> ProjectType {
    match f {
        ProjectFilter::Node => ProjectType::Node,
        ProjectFilter::Rust => ProjectType::Rust,
        ProjectFilter::Python => ProjectType::Python,
        ProjectFilter::Flutter => ProjectType::Flutter,
        ProjectFilter::JavaMaven => ProjectType::JavaMaven,
        ProjectFilter::JavaGradle => ProjectType::JavaGradle,
        ProjectFilter::Cpp => ProjectType::Cpp,
        ProjectFilter::DotNet => ProjectType::DotNet,
        ProjectFilter::Go => ProjectType::Go,
    }
}

pub open spec fn filter_category(f: CacheFilter) -> CacheCategory {
    match f {
        CacheFilter::AiMl => CacheCategory::AiMl,
        CacheFilter::Package => CacheCategory::PackageManager,
        CacheFilter::Dev => CacheCategory::Development,
        CacheFilter::Ide => CacheCategory::Ide,
        CacheFilter::Container => CacheCategory::Container,
    }
}

/// The project type a `--lang` value selects.
pub fn project_type_for(f: ProjectFilter) -> (r: ProjectType)
    ensures
        r == filter_type(f),
{
    match f {
        ProjectFilter::Node => ProjectType::Node,
        ProjectFilter::Rust => ProjectType::Rust,
        ProjectFilter::Python => ProjectType::Python,
        ProjectFilter::Flutter => ProjectType::Flutter,
        ProjectFilter::JavaMaven => ProjectType::JavaMaven,
        ProjectFilter::JavaGradle => ProjectType::JavaGradle,
        ProjectFilter::Cpp => ProjectType::Cpp,
        ProjectFilter::DotNet => ProjectType::DotNet,
        ProjectFilter::Go => ProjectType::Go,
    }
}

/// The cache category a `--cache-category` value selects.
pub fn category_for(f: CacheFilter) -> (r: CacheCategory)
    ensures
        r == filter_category(f),
{
    match f {
        CacheFilter::AiMl => CacheCategory::AiMl,
        CacheFilter::Package => CacheCategory::PackageManager,
        CacheFilter::Dev => CacheCategory::Development,
        CacheFilter::Ide => CacheCategory::Ide,
        CacheFilter::Container => CacheCategory::Container,
    }
}

fn project_types_for(filters: &Vec<ProjectFilter>) -> (r: Vec<ProjectType>)
    ensures
        r@ == filters@.map_values(|f: ProjectFilter| filter_type(f)),
{
    let mut out: Vec<ProjectType> = Vec::new();
    let mut i: usize = 0;
    while i < filters.len()
        invariant
            0 <= i <= filters@.len(),
            out@ == filters@.take(i as int).map_values(|f: ProjectFilter| filter_type(f)),
        decreases filters@.len() - i,
    {
        out.push(project_type_for(filters[i]));
        i = i + 1;
        assert(out@ =~= filters@.take(i as int).map_values(|f: ProjectFilter| filter_type(f)));
    }
    assert(filters@.take(i as int) =~= filters@);
    out
}

/// The cache categories selected by `--cache-category` values.
pub fn categories_for(filters: &Vec<CacheFilter>) -> (r: Vec<CacheCategory>)
    ensures
        r@ == filters@.map_values(|f: CacheFilter| filter_category(f)),
{
    let mut out: Vec<CacheCategory> = Vec::new();
    let mut i: usize = 0;
    while i < filters.len()
        invariant
            0 <= i <= filters@.len(),
            out@ == filters@.take(i as int).map_values(|f: CacheFilter| filter_category(f)),
        decreases filters@.len() - i,
    {
        out.push(category_for(filters[i]));
        i = i + 1;
        assert(out@ =~= filters@.take(i as int).map_values(|f: CacheFilter| filter_category(f)));
    }
    assert(filters@.take(i as int) =~= filters@);
    out
}

/// Build Config from CLI Args, given the resolved root directory and the
/// minimum size in bytes read from `--min-size`.
pub fn build_config(args: &Args, root_dir: String, min_size_bytes: Option<u64>) -> (r: Config)
    ensures
        r.root_dir@ == root_dir@,
        r.dry_run == args.dry_run,
        r.auto_confirm == args.yes,
        r.interactive == args.interactive,
        r.include_patterns@ == args.extra_patterns@,
        r.exclude_patterns@ == args.exclude@,
        r.project_filters@ == args.lang@.map_values(|f: ProjectFilter| filter_type(f)),
        r.min_age_days == args.min_age,
        r.min_size_bytes == min_size_bytes,
        r.verbose == args.verbose,
{
    Config {
        root_dir,
        dry_run: args.dry_run,
        auto_confirm: args.yes,
        interactive: args.interactive,
        include_patterns: args.extra_patterns.clone(),
        exclude_patterns: args.exclude.clone(),
        project_filters: project_types_for(&args.lang),
        min_age_days: args.min_age,
        min_size_bytes,
        verbose: args.verbose,
    }
}

/// The user-cache scanner a run uses: rooted at the home directory (none if it
/// cannot be determined), limited to the requested categories and minimum size.
pub fn user_cache_scanner(args: &Args, min_size_bytes: Option<u64>) -> (r: Option<CacheScanner>)
    ensures
        r matches Some(s) ==> {
            &&& s.spec_min_size() == min_size_bytes
            &&& args.cache_category@.len() == 0 ==> s.spec_categories().is_none()
            &&& args.cache_category@.len() > 0 ==> s.spec_categories() == Some(
                args.cache_category@.map_values(|f: CacheFilter| filter_category(f)),
            )
        },
{
    match CacheScanner::new() {
        Some(s) => {
            let cats = categories_for(&args.cache_category);
            Some(s.with_categories(cats).with_min_size(min_size_bytes))
        },
        None => None,
    }
}

/// What a run lists after scanning.
#[derive(Debug, Clone, Copy, PartialEq, Eq, Structural)]
pub enum Listing {
    /// Each project in detail.
    Verbose,
    /// The project list and its summary.
    ProjectsOnly,
    /// The cache list and the cache summary.
    CachesOnly,
    /// Both lists and the combined summary.
    Both,
}

pub open spec fn listing_for(verbose: bool, has_projects: bool, has_caches: bool) -> Listing {
    if verbose {
        Listing::Verbose
    } else if has_projects && !has_caches {
        Listing::ProjectsOnly
    } else if !has_projects && has_caches {
        Listing::CachesOnly
    } else {
        Listing::Both
    }
}

/// How the found items are listed.
pub fn listing(verbose: bool, has_projects: bool, has_caches: bool) -> (r: Listing)
    ensures
        r == listing_for(verbose, has_projects, has_caches),
{
    if verbose {
        Listing::Verbose
    } else if has_projects && !has_caches {
        Listing::ProjectsOnly
    } else if !has_projects && has_caches {
        Listing::CachesOnly
    } else {
        Listing::Both
    }
}

/// Whether a run deletes anything: not in dry-run mode, only with something
/// selected, and only when `--yes` was given or the user confirmed.
pub open spec fn deletes(dry_run: bool, selected: nat, auto_confirm: bool, confirmed: bool) -> bool {
    !dry_run && selected > 0 && (auto_confirm || confirmed)
}

/// Whether the run goes on to delete (see `deletes`).
pub fn proceeds_to_delete(dry_run: bool, selected: usize, auto_confirm: bool, confirmed: bool) -> (r: bool)
    ensures
        r == deletes(dry_run, selected as nat, auto_confirm, confirmed),
{
    !dry_run && selected > 0 && (auto_confirm || confirmed)
}

/// Whether the confirmation prompt is shown: only when deletion is otherwise
/// due and `--yes` was not given.
pub fn asks_confirmation(dry_run: bool, selected: usize, auto_confirm: bool) -> (r: bool)
    ensures
        r == (!dry_run && selected > 0 && !auto_confirm),
{
    !dry_run && selected > 0 && !auto_confirm
}

/// A dry run never deletes, whatever was selected or answered.
pub proof fn dry_run_never_deletes(selected: nat, auto_confirm: bool, confirmed: bool)
    ensures
        !deletes(true, selected, auto_confirm, confirmed),
{
}

/// Without `--yes`, nothing is deleted unless the user confirms.
pub proof fn deletion_needs_confirmation(dry_run: bool, selected: nat, confirmed: bool)
    ensures
        deletes(dry_run, selected, false, confirmed) ==> confirmed,
{
}

/// Sum of the project sizes.
pub open spec fn project_sizes(ps: Seq<Project>) -> nat
    decreases ps.len(),
{
    if ps.len() == 0 {
        0
    } else {
        project_sizes(ps.drop_last()) + ps.last().total_size as nat
    }
}

/// Sum of the cache sizes.
pub open spec fn cache_sizes(cs: Seq<Cache>) -> nat
    decreases cs.len(),
{
    if cs.len() == 0 {
        0
    } else {
        cache_sizes(cs.drop_last()) + cs.last().size as nat
    }
}

pub(crate) proof fn lemma_project_sizes_take(ps: Seq<Project>, j: int)
    requires
        0 <= j <= ps.len(),
    ensures
        project_sizes(ps.take(j)) <= project_sizes(ps),
    decreases ps.len(),
{
    if j < ps.len() {
        assert(ps.drop_last().take(j) =~= ps.take(j));
        lemma_project_sizes_take(ps.drop_last(), j);
    } else {
        assert(ps.take(j) =~= ps);
    }
}

pub(crate) proof fn lemma_cache_sizes_take(cs: Seq<Cache>, j: int)
    requires
        0 <= j <= cs.len(),
    ensures
        cache_sizes(cs.take(j)) <= cache_sizes(cs),
    decreases cs.len(),
{
    if j < cs.len() {
        assert(cs.drop_last().take(j) =~= cs.take(j));
        lemma_cache_sizes_take(cs.drop_last(), j);
    } else {
        assert(cs.take(j) =~= cs);
    }
}

/// Number of items and total bytes of a selection (shown in the confirmation).
pub fn selection_totals(projects: &Vec<Project>, caches: &Vec<Cache>) -> (r: (usize, u64))
    requires
        projects@.len() + caches@.len() <= usize::MAX,
        project_sizes(projects@) + cache_sizes(caches@) <= u64::MAX,
    ensures
        r.0 == projects@.len() + caches@.len(),
        r.1 == project_sizes(projects@) + cache_sizes(caches@),
{
    let mut total: u64 = 0;
    let mut i: usize = 0;
    while i < projects.len()
        invariant
            0 <= i <= projects@.len(),
            project_sizes(projects@) + cache_sizes(caches@) <= u64::MAX,
            total == project_sizes(projects@.take(i as int)),
        decreases projects@.len() - i,
    {
        assert(projects@.take(i + 1).drop_last() =~= projects@.take(i as int));
        proof {
            lemma_project_sizes_take(projects@, i + 1);
        }
        total = total + projects[i].total_size;
        i = i + 1;
    }
    assert(projects@.take(i as int) =~= projects@);
    let mut j: usize = 0;
    while j < caches.len()
        invariant
            0 <= j <= caches@.len(),
            project_sizes(projects@) + cache_sizes(caches@) <= u64::MAX,
            total == project_sizes(projects@) + cache_sizes(caches@.take(j as int)),
        decreases caches@.len() - j,
    {
        assert(caches@.take(j + 1).drop_last() =~= caches@.take(j as int));
        proof {
            lemma_cache_sizes_take(caches@, j + 1);
        }
        total = total + caches[j].size;
        j = j + 1;
    }
    assert(caches@.take(j as int) =~= caches@);
    (projects.len() + caches.len(), total)
}

/// Bytes freed by the artifacts whose deletion succeeded.
pub open spec fn freed_bytes(arts: Seq<crate::project::Artifact>, ok: Seq<bool>) -> nat
    decreases arts.len(),
{
    if arts.len() == 0 || ok.len() == 0 {
        0
    } else {
        freed_bytes(arts.drop_last(), ok.drop_last()) + if ok.last() {
            arts.last().size as nat
        } else {
            0nat
        }
    }
}

/// Number of failed deletions.
pub open spec fn failures(ok: Seq<bool>) -> nat
    decreases ok.len(),
{
    if ok.len() == 0 {
        0
    } else {
        failures(ok.drop_last()) + if ok.last() {
            0nat
        } else {
            1nat
        }
    }
}

proof fn lemma_freed_take(arts: Seq<crate::project::Artifact>, ok: Seq<bool>, j: int)
    requires
        0 <= j <= arts.len(),
        arts.len() == ok.len(),
    ensures
        freed_bytes(arts.take(j), ok.take(j)) <= freed_bytes(arts, ok),
    decreases arts.len(),
{
    if j < arts.len() {
        assert(arts.drop_last().take(j) =~= arts.take(j));
        assert(ok.drop_last().take(j) =~= ok.take(j));
        lemma_freed_take(arts.drop_last(), ok.drop_last(), j);
    } else {
        assert(arts.take(j) =~= arts);
        assert(ok.take(j) =~= ok);
    }
}

proof fn lemma_failures_bound(ok: Seq<bool>)
    ensures
        failures(ok) <= ok.len(),
    decreases ok.len(),
{
    if ok.len() > 0 {
        lemma_failures_bound(ok.drop_last());
    }
}

/// The result of deleting a project's artifacts one by one (`deleted[i]` tells
/// whether artifact `i` was removed): bytes freed by the removed ones and the
/// number that failed.
pub fn project_deletion_result(project: &Project, deleted: &Vec<bool>) -> (r: (u64, usize))
    requires
        deleted@.len() == project.artifacts@.len(),
        freed_bytes(project.artifacts@, deleted@) <= u64::MAX,
    ensures
        r.0 == freed_bytes(project.artifacts@, deleted@),
        r.1 == failures(deleted@),
{
    let arts = &project.artifacts;
    let mut freed: u64 = 0;
    let mut failed: usize = 0;
    let mut i: usize = 0;
    while i < arts.len()
        invariant
            deleted@.len() == arts@.len(),
            freed_bytes(arts@, deleted@) <= u64::MAX,
            0 <= i <= arts@.len(),
            freed == freed_bytes(arts@.take(i as int), deleted@.take(i as int)),
            failed == failures(deleted@.take(i as int)),
            failed <= i,
        decreases arts@.len() - i,
    {
        assert(arts@.take(i + 1).drop_last() =~= arts@.take(i as int));
        assert(deleted@.take(i + 1).drop_last() =~= deleted@.take(i as int));
        proof {
            lemma_freed_take(arts@, deleted@, i + 1);
        }
        if deleted[i] {
            freed = freed + arts[i].size;
        } else {
            failed = failed + 1;
        }
        i = i + 1;
    }
    assert(arts@.take(i as int) =~= arts@);
    assert(deleted@.take(i as int) =~= deleted@);
    (freed, failed)
}

/// A project's deletion frees no more than its artifacts' sizes, and when
/// every deletion succeeds it frees all of them.
pub proof fn freed_is_sum_of_removed(arts: Seq<crate::project::Artifact>, ok: Seq<bool>)
    requires
        arts.len() == ok.len(),
    ensures
        freed_bytes(arts, ok) <= freed_bytes(arts, Seq::new(arts.len(), |i: int| true)),
        failures(ok) == 0 ==> freed_bytes(arts, ok) == freed_bytes(arts, Seq::new(arts.len(), |i: int| true)),
    decreases arts.len(),
{
    let all = Seq::new(arts.len(), |i: int| true);
    if arts.len() > 0 {
        assert(all.drop_last() =~= Seq::new(arts.drop_last().len(), |i: int| true));
        freed_is_sum_of_removed(arts.drop_last(), ok.drop_last());
    }
}

/// Counts of a deletion run: items removed, bytes freed, items that failed.
#[derive(Debug, Clone, Copy, PartialEq, Eq, Structural)]
pub struct DeletionTally {
    pub deleted_count: usize,
    pub total_freed: u64,
    pub failed_count: usize,
}

impl DeletionTally {
    pub fn new() -> (r: Self)
        ensures
            r.deleted_count == 0,
            r.total_freed == 0,
            r.failed_count == 0,
    {
        DeletionTally { deleted_count: 0, total_freed: 0, failed_count: 0 }
    }

    /// A project whose artifact deletions freed `freed` bytes with
    /// `failed_artifacts` failures: it counts as deleted when none failed,
    /// as failed otherwise; its freed bytes count either way.
    pub fn record_project(&mut self, freed: u64, failed_artifacts: usize)
        requires
            old(self).deleted_count < usize::MAX,
            old(self).failed_count < usize::MAX,
            old(self).total_freed + freed <= u64::MAX,
        ensures
            failed_artifacts == 0 ==> final(self).deleted_count == old(self).deleted_count + 1
                && final(self).failed_count == old(self).failed_count,
            failed_artifacts > 0 ==> final(self).deleted_count == old(self).deleted_count
                && final(self).failed_count == old(self).failed_count + 1,
            final(self).total_freed == old(self).total_freed + freed,
    {
        if failed_artifacts == 0 {
            self.deleted_count = self.deleted_count + 1;
        } else {
            self.failed_count = self.failed_count + 1;
        }
        self.total_freed = self.total_freed + freed;
    }

    /// A cache that was removed, freeing its `size` bytes.
    pub fn record_cache_removed(&mut self, size: u64)
        requires
            old(self).deleted_count < usize::MAX,
            old(self).total_freed + size <= u64::MAX,
        ensures
            final(self).deleted_count == old(self).deleted_count + 1,
            final(self).total_freed == old(self).total_freed + size,
            final(self).failed_count == old(self).failed_count,
    {
        self.deleted_count = self.deleted_count + 1;
        self.total_freed = self.total_freed + size;
    }

    /// A cache or project whose removal failed.
    pub fn record_failure(&mut self)
        requires
            old(self).failed_count < usize::MAX,
        ensures
            final(self).failed_count == old(self).failed_count + 1,
            final(self).deleted_count == old(self).deleted_count,
            final(self).total_freed == old(self).total_freed,
    {
        self.failed_count = self.failed_count + 1;
    }
}

/// The line a project is offered under in the interactive selection, with its
/// age taken at `now`: "{icon} {name} ({label}) - {size} • last touched {age}".
pub open spec fn project_choice_text(p: Project, now: i64) -> Seq<char> {
    project_type_icon(p.project_type) + " "@ + p.name@ + " ("@ + project_type_label(p.project_type)
        + ") - "@ + byte_size_text(p.total_size) + " \u{2022} last touched "@ + age_text(
        age_in_days(p.last_modified, now),
    )
}

/// The line a cache is offered under in the interactive selection:
/// "{icon} {label} - {size}", followed by " [!]" for caches whose application
/// must be closed first.
pub open spec fn cache_choice_text(c: Cache) -> Seq<char> {
    cache_type_icon(c.cache_type) + " "@ + cache_type_label(c.cache_type) + " - "@ + byte_size_text(c.size)
        + if cache_requires_app_closed(c.cache_type).is_some() {
        " [!]"@
    } else {
        ""@
    }
}

/// The selection line of a project, with its age taken at `now`.
pub fn project_choice_at(p: &Project, now: i64) -> (r: String)
    ensures
        r@ == project_choice_text(*p, now),
{
    let mut s = String::from_str(p.project_type.icon());
    s.append(" ");
    s.append(p.name.as_str());
    s.append(" (");
    s.append(p.project_type.label());
    s.append(") - ");
    let size = p.size_display();
    s.append(size.as_str());
    s.append(" \u{2022} last touched ");
    let age = age_text_at(p.last_modified, now);
    s.append(age.as_str());
    s
}

/// The selection line of a project, with its age taken against the system clock.
pub fn project_choice(p: &Project) -> (r: String)
    ensures
        exists|now: i64| r@ == #[trigger] project_choice_text(*p, now),
{
    let now = current_time();
    project_choice_at(p, now)
}

/// The selection line of a cache.
pub fn cache_choice(c: &Cache) -> (r: String)
    ensures
        r@ == cache_choice_text(*c),
{
    let mut s = String::from_str(c.cache_type.icon());
    s.append(" ");
    s.append(c.cache_type.label());
    s.append(" - ");
    let size = c.size_display();
    s.append(size.as_str());
    if c.cache_type.requires_app_closed().is_some() {
        s.append(" [!]");
    } else {
        s.append("");
    }
    s
}

/// The choices picked in a multi-select (`picked` lists positions into
/// `count` items): the positions in the order picked, dropping any outside
/// the list.
pub fn picked_positions(picked: &Vec<usize>, count: usize) -> (r: Vec<usize>)
    ensures
        r@ == picked@.filter(|i: usize| i < count),
{
    let ghost pred = |i: usize| i < count;
    let mut out: Vec<usize> = Vec::new();
    let mut k: usize = 0;
    while k < picked.len()
        invariant
            pred == (|i: usize| i < count),
            0 <= k <= picked@.len(),
            out@ == picked@.take(k as int).filter(pred),
        decreases picked@.len() - k,
    {
        proof {
            reveal_with_fuel(Seq::<usize>::filter, 1);
            assert(picked@.take(k + 1).drop_last() =~= picked@.take(k as int));
        }
        if picked[k] < count {
            out.push(picked[k]);
        }
        k = k + 1;
    }
    assert(picked@.take(k as int) =~= picked@);
    out
}

} // verus!

verus! {

/// Outside a dry run, any non-empty selection is deleted when `--yes` is
/// given or the user confirms; an empty selection is never deleted.
pub proof fn confirmed_selection_is_deleted(selected: nat, auto_confirm: bool, confirmed: bool)
    ensures
        selected >= 1 && (auto_confirm || confirmed) ==> deletes(false, selected, auto_confirm, confirmed),
        !deletes(false, 0, auto_confirm, confirmed),
{
}

} // verus!
