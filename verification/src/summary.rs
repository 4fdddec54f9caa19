//! Totals and breakdowns shown after a scan: sizes per ecosystem and per cache
//! category, and the largest items among projects and caches.
use vstd::prelude::*;
use crate::cache::{cache_type_category, cache_type_icon, cache_type_label, Cache, CacheCategory};
use crate::dto::LargestItemDto;
use crate::project::{project_type_icon, Project, ProjectType};
use crate::sorting::{is_stable_desc_sort, sort_desc_by_keys, stable_desc_arrangement};
use crate::sys::byte_size_text;

verus! {

/// Position of a project type in detection order.
pub open spec fn type_index(t: ProjectType) -> u8 {
    match t {
        ProjectType::Node => 0,
        ProjectType::Rust => 1,
        ProjectType::Python => 2,
        ProjectType::Flutter => 3,
        ProjectType::JavaMaven => 4,
        ProjectType::JavaGradle => 5,
        ProjectType::Cpp => 6,
        ProjectType::DotNet => 7,
        ProjectType::Go => 8,
    }
}

/// Position of a cache category in declaration order.
pub open spec fn category_index(c: CacheCategory) -> u8 {
    match c {
        CacheCategory::AiMl => 0,
        CacheCategory::PackageManager => 1,
        CacheCategory::Development => 2,
        CacheCategory::Ide => 3,
        CacheCategory::Container => 4,
    }
}

fn project_type_index(t: ProjectType) -> (r: u8)
    ensures
        r == type_index(t),
{
    match t {
        ProjectType::Node => 0,
        ProjectType::Rust => 1,
        ProjectType::Python => 2,
        ProjectType::Flutter => 3,
        ProjectType::JavaMaven => 4,
        ProjectType::JavaGradle => 5,
        ProjectType::Cpp => 6,
        ProjectType::DotNet => 7,
        ProjectType::Go => 8,
    }
}

fn project_type_at(i: u8) -> (r: ProjectType)
    requires
        i < 9,
    ensures
        type_index(r) == i,
{
    if i == 0 {
        ProjectType::Node
    } else if i == 1 {
        ProjectType::Rust
    } else if i == 2 {
        ProjectType::Python
    } else if i == 3 {
        ProjectType::Flutter
    } else if i == 4 {
        ProjectType::JavaMaven
    } else if i == 5 {
        ProjectType::JavaGradle
    } else if i == 6 {
        ProjectType::Cpp
    } else if i == 7 {
        ProjectType::DotNet
    } else {
        ProjectType::Go
    }
}

fn cache_category_index(c: CacheCategory) -> (r: u8)
    ensures
        r == category_index(c),
{
    match c {
        CacheCategory::AiMl => 0,
        CacheCategory::PackageManager => 1,
        CacheCategory::Development => 2,
        CacheCategory::Ide => 3,
        CacheCategory::Container => 4,
    }
}

fn cache_category_at(i: u8) -> (r: CacheCategory)
    requires
        i < 5,
    ensures
        category_index(r) == i,
{
    if i == 0 {
        CacheCategory::AiMl
    } else if i == 1 {
        CacheCategory::PackageManager
    } else if i == 2 {
        CacheCategory::Development
    } else if i == 3 {
        CacheCategory::Ide
    } else {
        CacheCategory::Container
    }
}

/// Number of entries with key `k`.
pub open spec fn key_count(s: Seq<(u8, u64)>, k: u8) -> nat
    decreases s.len(),
{
    if s.len() == 0 {
        0
    } else {
        key_count(s.drop_last(), k) + if s.last().0 == k {
            1nat
        } else {
            0nat
        }
    }
}

/// Total size of the entries with key `k`.
pub open spec fn key_size(s: Seq<(u8, u64)>, k: u8) -> nat
    decreases s.len(),
{
    if s.len() == 0 {
        0
    } else {
        key_size(s.drop_last(), k) + if s.last().0 == k {
            s.last().1 as nat
        } else {
            0nat
        }
    }
}

/// Total size of all entries.
pub open spec fn size_sum(s: Seq<(u8, u64)>) -> nat
    decreases s.len(),
{
    if s.len() == 0 {
        0
    } else {
        size_sum(s.drop_last()) + s.last().1 as nat
    }
}

/// Each project as (type position, total size).
pub open spec fn project_keys(ps: Seq<Project>) -> Seq<(u8, u64)> {
    ps.map_values(|p: Project| (type_index(p.project_type), p.total_size))
}

/// Each cache as (category position, size).
pub open spec fn cache_keys(cs: Seq<Cache>) -> Seq<(u8, u64)> {
    cs.map_values(|c: Cache| (category_index(cache_type_category(c.cache_type)), c.size))
}

/// Sum of the projects' total sizes.
pub open spec fn projects_size(ps: Seq<Project>) -> nat {
    size_sum(project_keys(ps))
}

/// Sum of the caches' sizes.
pub open spec fn caches_size(cs: Seq<Cache>) -> nat {
    size_sum(cache_keys(cs))
}

/// Total number of artifacts of the projects.
pub open spec fn artifact_count(ps: Seq<Project>) -> nat
    decreases ps.len(),
{
    if ps.len() == 0 {
        0
    } else {
        artifact_count(ps.drop_last()) + ps.last().artifacts@.len()
    }
}

/// `g` groups the entries of `s` by key: one row (key, count, size) for each
/// key below `nkeys` that occurs, no key twice, largest size first.
pub open spec fn is_grouping(s: Seq<(u8, u64)>, nkeys: u8, g: Seq<(u8, usize, u64)>) -> bool {
    &&& forall|i: int|
        0 <= i < g.len() ==> {
            &&& (#[trigger] g[i]).0 < nkeys
            &&& g[i].1 == key_count(s, g[i].0)
            &&& g[i].2 == key_size(s, g[i].0)
            &&& g[i].1 > 0
        }
    &&& forall|i: int, j: int| 0 <= i < j < g.len() ==> (#[trigger] g[i]).0 != (#[trigger] g[j]).0
    &&& forall|k: u8| k < nkeys && key_count(s, k) > 0 ==> exists|i: int| 0 <= i < g.len() && (#[trigger] g[i]).0 == k
    &&& forall|i: int, j: int| 0 <= i < j < g.len() ==> (#[trigger] g[i]).2 >= (#[trigger] g[j]).2
}

proof fn lemma_key_size_le_sum(s: Seq<(u8, u64)>, k: u8)
    ensures
        key_size(s, k) <= size_sum(s),
    decreases s.len(),
{
    if s.len() > 0 {
        lemma_key_size_le_sum(s.drop_last(), k);
    }
}

proof fn lemma_size_sum_take(s: Seq<(u8, u64)>, j: int)
    requires
        0 <= j <= s.len(),
    ensures
        size_sum(s.take(j)) <= size_sum(s),
    decreases s.len(),
{
    if j < s.len() {
        assert(s.drop_last().take(j) =~= s.take(j));
        lemma_size_sum_take(s.drop_last(), j);
    } else {
        assert(s.take(j) =~= s);
    }
}

/// One row per occurring key, in key order (not yet ordered by size).
fn group_rows(pairs: &Vec<(u8, u64)>, nkeys: u8) -> (r: Vec<(u8, usize, u64)>)
    requires
        size_sum(pairs@) <= u64::MAX,
    ensures
        forall|i: int|
            0 <= i < r@.len() ==> {
                &&& (#[trigger] r@[i]).0 < nkeys
                &&& r@[i].1 == key_count(pairs@, r@[i].0)
                &&& r@[i].2 == key_size(pairs@, r@[i].0)
                &&& r@[i].1 > 0
            },
        forall|i: int, j: int| 0 <= i < j < r@.len() ==> (#[trigger] r@[i]).0 < (#[trigger] r@[j]).0,
        forall|k: u8| k < nkeys && key_count(pairs@, k) > 0 ==> exists|i: int| 0 <= i < r@.len() && (#[trigger] r@[i]).0 == k,
{
    let mut rows: Vec<(u8, usize, u64)> = Vec::new();
    let mut k: u8 = 0;
    let n = pairs.len();
    while k < nkeys
        invariant
            n == pairs@.len(),
            size_sum(pairs@) <= u64::MAX,
            0 <= k <= nkeys,
            forall|i: int|
                0 <= i < rows@.len() ==> {
                    &&& (#[trigger] rows@[i]).0 < k
                    &&& rows@[i].1 == key_count(pairs@, rows@[i].0)
                    &&& rows@[i].2 == key_size(pairs@, rows@[i].0)
                    &&& rows@[i].1 > 0
                },
            forall|i: int, j: int| 0 <= i < j < rows@.len() ==> (#[trigger] rows@[i]).0 < (#[trigger] rows@[j]).0,
            forall|q: u8| q < k && key_count(pairs@, q) > 0 ==> exists|i: int| 0 <= i < rows@.len() && (#[trigger] rows@[i]).0 == q,
        decreases nkeys - k,
    {
        let mut count: usize = 0;
        let mut size: u64 = 0;
        let mut j: usize = 0;
        while j < n
            invariant
                n == pairs@.len(),
                size_sum(pairs@) <= u64::MAX,
                0 <= j <= n,
                count == key_count(pairs@.take(j as int), k),
                size == key_size(pairs@.take(j as int), k),
                count <= j,
            decreases n - j,
        {
            assert(pairs@.take(j + 1).drop_last() =~= pairs@.take(j as int));
            proof {
                lemma_key_size_le_sum(pairs@.take(j + 1), k);
                lemma_size_sum_take(pairs@, j + 1);
            }
            if pairs[j].0 == k {
                count = count + 1;
                size = size + pairs[j].1;
            }
            j = j + 1;
        }
        assert(pairs@.take(n as int) =~= pairs@);
        let ghost rows_before = rows@;
        if count > 0 {
            rows.push((k, count, size));
            assert(rows@[rows@.len() - 1].0 == k);
        }
        assert forall|q: u8| q < k + 1 && key_count(pairs@, q) > 0 implies exists|i: int|
            0 <= i < rows@.len() && (#[trigger] rows@[i]).0 == q by {
            if q < k {
                let i0 = choose|i: int| 0 <= i < rows_before.len() && (#[trigger] rows_before[i]).0 == q;
                assert(rows@[i0] == rows_before[i0]);
            } else {
                assert(rows@[rows@.len() - 1].0 == k);
            }
        }
        k = k + 1;
    }
    rows
}

/// Groups by key and orders the rows by size, largest first.
fn grouping(pairs: &Vec<(u8, u64)>, nkeys: u8) -> (r: Vec<(u8, usize, u64)>)
    requires
        size_sum(pairs@) <= u64::MAX,
    ensures
        is_grouping(pairs@, nkeys, r@),
{
    let mut rows = group_rows(pairs, nkeys);
    let ghost before = rows@;
    let mut keys: Vec<u128> = Vec::new();
    let mut i: usize = 0;
    while i < rows.len()
        invariant
            0 <= i <= rows@.len(),
            keys@.len() == i,
            forall|t: int| 0 <= t < i ==> keys@[t] == rows@[t].2 as u128,
        decreases rows@.len() - i,
    {
        keys.push(rows[i].2 as u128);
        i = i + 1;
    }
    let ghost k0 = keys@;
    sort_desc_by_keys(&mut rows, keys);
    let ghost perm = choose|perm: Seq<int>| stable_desc_arrangement(before, k0, rows@, perm);
    let ghost g = rows@;
    assert forall|i: int, j: int| 0 <= i < j < g.len() implies (#[trigger] g[i]).0 != (#[trigger] g[j]).0 by {
        assert(g[i] == before[perm[i]]);
        assert(g[j] == before[perm[j]]);
        assert(perm[i] != perm[j]);
        if perm[i] < perm[j] {
            assert(before[perm[i]].0 < before[perm[j]].0);
        } else {
            assert(before[perm[j]].0 < before[perm[i]].0);
        }
    }
    assert forall|k: u8| k < nkeys && key_count(pairs@, k) > 0 implies exists|i: int| 0 <= i < g.len() && (#[trigger] g[i]).0 == k by {
        let b = choose|b: int| 0 <= b < before.len() && (#[trigger] before[b]).0 == k;
        assert(crate::sorting::has_preimage(perm, b));
        let i = choose|i: int| 0 <= i < perm.len() && #[trigger] perm[i] == b;
        assert(g[i] == before[b]);
    }
    assert forall|i: int, j: int| 0 <= i < j < g.len() implies (#[trigger] g[i]).2 >= (#[trigger] g[j]).2 by {
        assert(k0[perm[i]] >= k0[perm[j]]);
        assert(g[i] == before[perm[i]]);
        assert(g[j] == before[perm[j]]);
    }
    assert forall|i: int| 0 <= i < g.len() implies {
        &&& (#[trigger] g[i]).0 < nkeys
        &&& g[i].1 == key_count(pairs@, g[i].0)
        &&& g[i].2 == key_size(pairs@, g[i].0)
        &&& g[i].1 > 0
    } by {
        assert(g[i] == before[perm[i]]);
    }
    rows
}

/// Project count and total size of one ecosystem.
pub struct EcosystemStat {
    pub project_type: ProjectType,
    pub count: usize,
    pub size: u64,
}

/// Cache count and total size of one cache category.
pub struct CategoryStat {
    pub category: CacheCategory,
    pub count: usize,
    pub size: u64,
}

/// `r` is the per-ecosystem breakdown of `ps`: one row per ecosystem that
/// occurs, with its project count and total size, no ecosystem twice,
/// largest size first.
pub open spec fn is_ecosystem_breakdown(ps: Seq<Project>, r: Seq<EcosystemStat>) -> bool {
    is_grouping(
        project_keys(ps),
        9,
        r.map_values(|e: EcosystemStat| (type_index(e.project_type), e.count, e.size)),
    )
}

/// `r` is the per-category breakdown of `cs` (as for ecosystems).
pub open spec fn is_category_breakdown(cs: Seq<Cache>, r: Seq<CategoryStat>) -> bool {
    is_grouping(
        cache_keys(cs),
        5,
        r.map_values(|e: CategoryStat| (category_index(e.category), e.count, e.size)),
    )
}

fn project_key_pairs(projects: &Vec<Project>) -> (r: Vec<(u8, u64)>)
    ensures
        r@ == project_keys(projects@),
{
    let mut out: Vec<(u8, u64)> = Vec::new();
    let mut i: usize = 0;
    while i < projects.len()
        invariant
            0 <= i <= projects@.len(),
            out@ == project_keys(projects@.take(i as int)),
        decreases projects@.len() - i,
    {
        out.push((project_type_index(projects[i].project_type), projects[i].total_size));
        i = i + 1;
        assert(out@ =~= project_keys(projects@.take(i as int)));
    }
    assert(projects@.take(i as int) =~= projects@);
    out
}

fn cache_key_pairs(caches: &Vec<Cache>) -> (r: Vec<(u8, u64)>)
    ensures
        r@ == cache_keys(caches@),
{
    let mut out: Vec<(u8, u64)> = Vec::new();
    let mut i: usize = 0;
    while i < caches.len()
        invariant
            0 <= i <= caches@.len(),
            out@ == cache_keys(caches@.take(i as int)),
        decreases caches@.len() - i,
    {
        let cat = caches[i].cache_type.category();
        out.push((cache_category_index(cat), caches[i].size));
        i = i + 1;
        assert(out@ =~= cache_keys(caches@.take(i as int)));
    }
    assert(caches@.take(i as int) =~= caches@);
    out
}

/// Project count and total size per ecosystem, largest first.
pub fn ecosystem_stats(projects: &Vec<Project>) -> (r: Vec<EcosystemStat>)
    requires
        projects_size(projects@) <= u64::MAX,
    ensures
        is_ecosystem_breakdown(projects@, r@),
{
    let pairs = project_key_pairs(projects);
    let rows = grouping(&pairs, 9);
    let mut out: Vec<EcosystemStat> = Vec::new();
    let mut i: usize = 0;
    while i < rows.len()
        invariant
            0 <= i <= rows@.len(),
            is_grouping(pairs@, 9, rows@),
            out@.len() == i,
            forall|t: int| 0 <= t < i ==> (type_index((#[trigger] out@[t]).project_type), out@[t].count, out@[t].size) == rows@[t],
        decreases rows@.len() - i,
    {
        let (k, count, size) = rows[i];
        assert(rows@[i as int].0 < 9);
        out.push(EcosystemStat { project_type: project_type_at(k), count, size });
        i = i + 1;
    }
    assert(out@.map_values(|e: EcosystemStat| (type_index(e.project_type), e.count, e.size)) =~= rows@);
    out
}

/// Cache count and total size per category, largest first.
pub fn category_stats(caches: &Vec<Cache>) -> (r: Vec<CategoryStat>)
    requires
        caches_size(caches@) <= u64::MAX,
    ensures
        is_category_breakdown(caches@, r@),
{
    let pairs = cache_key_pairs(caches);
    let rows = grouping(&pairs, 5);
    let mut out: Vec<CategoryStat> = Vec::new();
    let mut i: usize = 0;
    while i < rows.len()
        invariant
            0 <= i <= rows@.len(),
            is_grouping(pairs@, 5, rows@),
            out@.len() == i,
            forall|t: int| 0 <= t < i ==> (category_index((#[trigger] out@[t]).category), out@[t].count, out@[t].size) == rows@[t],
        decreases rows@.len() - i,
    {
        let (k, count, size) = rows[i];
        assert(rows@[i as int].0 < 5);
        out.push(CategoryStat { category: cache_category_at(k), count, size });
        i = i + 1;
    }
    assert(out@.map_values(|e: CategoryStat| (category_index(e.category), e.count, e.size)) =~= rows@);
    out
}

/// Sum of the projects' total sizes.
pub fn total_project_size(projects: &Vec<Project>) -> (r: u64)
    requires
        projects_size(projects@) <= u64::MAX,
    ensures
        r == projects_size(projects@),
{
    let pairs = project_key_pairs(projects);
    pair_size_total(&pairs)
}

/// Sum of the caches' sizes.
pub fn total_cache_size(caches: &Vec<Cache>) -> (r: u64)
    requires
        caches_size(caches@) <= u64::MAX,
    ensures
        r == caches_size(caches@),
{
    let pairs = cache_key_pairs(caches);
    pair_size_total(&pairs)
}

fn pair_size_total(pairs: &Vec<(u8, u64)>) -> (r: u64)
    requires
        size_sum(pairs@) <= u64::MAX,
    ensures
        r == size_sum(pairs@),
{
    let mut total: u64 = 0;
    let mut i: usize = 0;
    while i < pairs.len()
        invariant
            0 <= i <= pairs@.len(),
            size_sum(pairs@) <= u64::MAX,
            total == size_sum(pairs@.take(i as int)),
        decreases pairs@.len() - i,
    {
        assert(pairs@.take(i + 1).drop_last() =~= pairs@.take(i as int));
        proof {
            lemma_size_sum_take(pairs@, i + 1);
        }
        total = total + pairs[i].1;
        i = i + 1;
    }
    assert(pairs@.take(i as int) =~= pairs@);
    total
}

/// Total number of artifacts of the projects.
pub fn total_artifacts(projects: &Vec<Project>) -> (r: usize)
    requires
        artifact_count(projects@) <= usize::MAX,
    ensures
        r == artifact_count(projects@),
{
    let mut total: usize = 0;
    let mut i: usize = 0;
    while i < projects.len()
        invariant
            0 <= i <= projects@.len(),
            artifact_count(projects@) <= usize::MAX,
            total == artifact_count(projects@.take(i as int)),
        decreases projects@.len() - i,
    {
        assert(projects@.take(i + 1).drop_last() =~= projects@.take(i as int));
        proof {
            lemma_artifact_count_take(projects@, i + 1);
        }
        total = total + projects[i].artifacts.len();
        i = i + 1;
    }
    assert(projects@.take(i as int) =~= projects@);
    total
}

proof fn lemma_artifact_count_take(ps: Seq<Project>, j: int)
    requires
        0 <= j <= ps.len(),
    ensures
        artifact_count(ps.take(j)) <= artifact_count(ps),
    decreases ps.len(),
{
    if j < ps.len() {
        assert(ps.drop_last().take(j) =~= ps.take(j));
        lemma_artifact_count_take(ps.drop_last(), j);
    } else {
        assert(ps.take(j) =~= ps);
    }
}

/// What the summary shows of one item: (name, icon, kind, size, size text, path).
pub type ItemView = (Seq<char>, Seq<char>, Seq<char>, u64, Seq<char>, Seq<char>);

pub open spec fn project_item(p: Project) -> ItemView {
    (p.name@, project_type_icon(p.project_type), "project"@, p.total_size, byte_size_text(p.total_size), p.path@)
}

pub open spec fn cache_item(c: Cache) -> ItemView {
    (
        cache_type_label(c.cache_type),
        cache_type_icon(c.cache_type),
        "cache"@,
        c.size,
        byte_size_text(c.size),
        c.path@,
    )
}

pub open spec fn item_view(d: LargestItemDto) -> ItemView {
    (d.name@, d.icon@, d.item_type@, d.size, d.size_display@, d.path@)
}

/// Every project then every cache, as summary items.
pub open spec fn candidate_items(ps: Seq<Project>, cs: Seq<Cache>) -> Seq<ItemView> {
    ps.map_values(|p: Project| project_item(p)) + cs.map_values(|c: Cache| cache_item(c))
}

pub open spec fn item_size_keys(items: Seq<ItemView>) -> Seq<u128> {
    Seq::new(items.len(), |i: int| items[i].3 as u128)
}

/// How many items the "largest items" list shows at most.
pub open spec fn largest_items_limit() -> int {
    10
}

/// `r` lists the largest items: the candidates ordered by size (largest first,
/// equal sizes in project-then-cache order), at most ten of them, ranked from 1.
pub open spec fn is_largest_items(ps: Seq<Project>, cs: Seq<Cache>, r: Seq<LargestItemDto>) -> bool {
    let items = candidate_items(ps, cs);
    exists|sorted: Seq<ItemView>|
        {
            &&& #[trigger] is_stable_desc_sort(items, item_size_keys(items), sorted)
            &&& r.len() == if sorted.len() < largest_items_limit() {
                sorted.len() as int
            } else {
                largest_items_limit()
            }
            &&& forall|i: int| 0 <= i < r.len() ==> item_view(#[trigger] r[i]) == sorted[i] && r[i].rank == i + 1
        }
}

proof fn lemma_arrangement_views(
    orig: Seq<LargestItemDto>,
    keys: Seq<u128>,
    res: Seq<LargestItemDto>,
    perm: Seq<int>,
)
    requires
        stable_desc_arrangement(orig, keys, res, perm),
    ensures
        stable_desc_arrangement(
            orig.map_values(|d: LargestItemDto| item_view(d)),
            keys,
            res.map_values(|d: LargestItemDto| item_view(d)),
            perm,
        ),
{
    let ov = orig.map_values(|d: LargestItemDto| item_view(d));
    let rv = res.map_values(|d: LargestItemDto| item_view(d));
    assert forall|i: int| 0 <= i < rv.len() implies #[trigger] rv[i] == ov[perm[i]] by {
        assert(res[i] == orig[perm[i]]);
    }
}

fn project_item_dto(p: &Project) -> (r: LargestItemDto)
    ensures
        item_view(r) == project_item(*p),
{
    proof {
        reveal_strlit("project");
    }
    LargestItemDto {
        rank: 0,
        name: p.name.clone(),
        icon: String::from_str(p.project_type.icon()),
        item_type: String::from_str("project"),
        size: p.total_size,
        size_display: p.size_display(),
        path: p.path.clone(),
    }
}

fn cache_item_dto(c: &Cache) -> (r: LargestItemDto)
    ensures
        item_view(r) == cache_item(*c),
{
    proof {
        reveal_strlit("cache");
    }
    LargestItemDto {
        rank: 0,
        name: String::from_str(c.cache_type.label()),
        icon: String::from_str(c.cache_type.icon()),
        item_type: String::from_str("cache"),
        size: c.size,
        size_display: c.size_display(),
        path: c.path.clone(),
    }
}

/// The largest items among projects and caches (at most ten, ranked from 1).
pub fn largest_items(projects: &Vec<Project>, caches: &Vec<Cache>) -> (r: Vec<LargestItemDto>)
    ensures
        is_largest_items(projects@, caches@, r@),
{
    let ghost ps = projects@;
    let ghost cs = caches@;
    let mut items: Vec<LargestItemDto> = Vec::new();
    let mut i: usize = 0;
    while i < projects.len()
        invariant
            ps == projects@,
            0 <= i <= ps.len(),
            items@.len() == i,
            forall|t: int| 0 <= t < i ==> item_view(#[trigger] items@[t]) == project_item(ps[t]),
        decreases ps.len() - i,
    {
        items.push(project_item_dto(&projects[i]));
        i = i + 1;
    }
    let np = items.len();
    let mut j: usize = 0;
    while j < caches.len()
        invariant
            cs == caches@,
            np == ps.len(),
            0 <= j <= cs.len(),
            items@.len() == np + j,
            forall|t: int| 0 <= t < np ==> item_view(#[trigger] items@[t]) == project_item(ps[t]),
            forall|t: int| np <= t < np + j ==> item_view(#[trigger] items@[t]) == cache_item(cs[t - np]),
        decreases cs.len() - j,
    {
        items.push(cache_item_dto(&caches[j]));
        j = j + 1;
    }
    let ghost cand = candidate_items(ps, cs);
    assert(items@.map_values(|d: LargestItemDto| item_view(d)) =~= cand);
    let mut keys: Vec<u128> = Vec::new();
    let mut t: usize = 0;
    while t < items.len()
        invariant
            0 <= t <= items@.len(),
            keys@.len() == t,
            forall|q: int| 0 <= q < t ==> keys@[q] == items@[q].size as u128,
        decreases items@.len() - t,
    {
        keys.push(items[t].size as u128);
        t = t + 1;
    }
    assert(keys@ =~= item_size_keys(cand));
    let ghost before = items@;
    let ghost k0 = keys@;
    sort_desc_by_keys(&mut items, keys);
    let ghost perm = choose|perm: Seq<int>| stable_desc_arrangement(before, k0, items@, perm);
    let ghost sorted = items@.map_values(|d: LargestItemDto| item_view(d));
    proof {
        lemma_arrangement_views(before, k0, items@, perm);
        assert(is_stable_desc_sort(cand, item_size_keys(cand), sorted));
    }
    let ghost sorted_items = items@;
    let limit: usize = 10;
    if items.len() > limit {
        items.truncate(limit);
    }
    let mut out: Vec<LargestItemDto> = Vec::new();
    let mut rank: usize = 0;
    let ghost trimmed = items@;
    assert(trimmed.len() == if sorted.len() < 10 { sorted.len() as int } else { 10 });
    assert(forall|q: int| 0 <= q < trimmed.len() ==> trimmed[q] == sorted_items[q]);
    let mut rest = items;
    while rest.len() > 0
        invariant
            trimmed.len() <= 10,
            rank + rest@.len() == trimmed.len(),
            rest@ == trimmed.subrange(rank as int, trimmed.len() as int),
            out@.len() == rank,
            forall|q: int| 0 <= q < rank ==> item_view(#[trigger] out@[q]) == item_view(trimmed[q]) && out@[q].rank == q + 1,
        decreases rest@.len(),
    {
        let mut d = rest.remove(0);
        assert(d == trimmed[rank as int]);
        d.rank = rank + 1;
        out.push(d);
        rank = rank + 1;
        assert(rest@ =~= trimmed.subrange(rank as int, trimmed.len() as int));
    }
    assert forall|q: int| 0 <= q < out@.len() implies item_view(#[trigger] out@[q]) == sorted[q] && out@[q].rank == q + 1 by {
        assert(trimmed[q] == sorted_items[q]);
    }
    out
}

} // verus!

verus! {

/// Sum of the sizes of the rows.
pub open spec fn rows_size(g: Seq<(u8, usize, u64)>) -> nat
    decreases g.len(),
{
    if g.len() == 0 {
        0
    } else {
        rows_size(g.drop_last()) + g.last().2 as nat
    }
}

/// Sum of the counts of the rows.
pub open spec fn rows_count(g: Seq<(u8, usize, u64)>) -> nat
    decreases g.len(),
{
    if g.len() == 0 {
        0
    } else {
        rows_count(g.drop_last()) + g.last().1 as nat
    }
}

/// Sum of `key_size` and of `key_count` over the keys below `n`.
spec fn keys_total(s: Seq<(u8, u64)>, n: nat) -> (nat, nat)
    decreases n,
{
    if n == 0 {
        (0, 0)
    } else {
        let before = keys_total(s, (n - 1) as nat);
        (before.0 + key_size(s, (n - 1) as u8), before.1 + key_count(s, (n - 1) as u8))
    }
}

/// `g` holds, for distinct keys below `n`, each key's count and size in `s`,
/// and every key below `n` that occurs in `s`.
spec fn rows_cover(s: Seq<(u8, u64)>, n: nat, g: Seq<(u8, usize, u64)>) -> bool {
    &&& forall|i: int|
        0 <= i < g.len() ==> {
            &&& (#[trigger] g[i]).0 < n
            &&& g[i].1 == key_count(s, g[i].0)
            &&& g[i].2 == key_size(s, g[i].0)
        }
    &&& forall|i: int, j: int| 0 <= i < j < g.len() ==> (#[trigger] g[i]).0 != (#[trigger] g[j]).0
    &&& forall|k: u8| k < n && key_count(s, k) > 0 ==> exists|i: int| 0 <= i < g.len() && (#[trigger] g[i]).0 == k
}

proof fn lemma_keys_total_push(s: Seq<(u8, u64)>, x: (u8, u64), n: nat)
    requires
        n <= 256,
    ensures
        keys_total(s.push(x), n).0 == keys_total(s, n).0 + if x.0 < n { x.1 as nat } else { 0 },
        keys_total(s.push(x), n).1 == keys_total(s, n).1 + if x.0 < n { 1nat } else { 0 },
    decreases n,
{
    if n > 0 {
        lemma_keys_total_push(s, x, (n - 1) as nat);
        assert(s.push(x).drop_last() =~= s);
    }
}

proof fn lemma_keys_total_whole(s: Seq<(u8, u64)>, n: nat)
    requires
        n <= 256,
        forall|i: int| 0 <= i < s.len() ==> (#[trigger] s[i]).0 < n,
    ensures
        keys_total(s, n).0 == size_sum(s),
        keys_total(s, n).1 == s.len(),
    decreases s.len(),
{
    if s.len() == 0 {
        lemma_keys_total_empty(s, n);
    } else {
        let init = s.drop_last();
        assert forall|i: int| 0 <= i < init.len() implies (#[trigger] init[i]).0 < n by {
            assert(init[i] == s[i]);
        }
        lemma_keys_total_whole(init, n);
        assert(init.push(s.last()) =~= s);
        lemma_keys_total_push(init, s.last(), n);
    }
}

proof fn lemma_keys_total_empty(s: Seq<(u8, u64)>, n: nat)
    requires
        s.len() == 0,
    ensures
        keys_total(s, n) == (0nat, 0nat),
    decreases n,
{
    if n > 0 {
        lemma_keys_total_empty(s, (n - 1) as nat);
    }
}

proof fn lemma_absent_key_has_no_size(s: Seq<(u8, u64)>, k: u8)
    requires
        key_count(s, k) == 0,
    ensures
        key_size(s, k) == 0,
    decreases s.len(),
{
    if s.len() > 0 {
        lemma_absent_key_has_no_size(s.drop_last(), k);
    }
}

proof fn lemma_rows_remove(g: Seq<(u8, usize, u64)>, r: int)
    requires
        0 <= r < g.len(),
    ensures
        rows_size(g) == rows_size(g.remove(r)) + g[r].2 as nat,
        rows_count(g) == rows_count(g.remove(r)) + g[r].1 as nat,
    decreases g.len(),
{
    if r == g.len() - 1 {
        assert(g.remove(r) =~= g.drop_last());
    } else {
        lemma_rows_remove(g.drop_last(), r);
        assert(g.remove(r).drop_last() =~= g.drop_last().remove(r));
        assert(g.remove(r).last() == g.last());
    }
}

proof fn lemma_rows_cover_total(s: Seq<(u8, u64)>, n: nat, g: Seq<(u8, usize, u64)>)
    requires
        n <= 256,
        rows_cover(s, n, g),
    ensures
        rows_size(g) == keys_total(s, n).0,
        rows_count(g) == keys_total(s, n).1,
    decreases n,
{
    if n == 0 {
        if g.len() > 0 {
            assert(g[0].0 < n);
        }
    } else {
        let k = (n - 1) as u8;
        if exists|i: int| 0 <= i < g.len() && (#[trigger] g[i]).0 == k {
            let r = choose|i: int| 0 <= i < g.len() && (#[trigger] g[i]).0 == k;
            let h = g.remove(r);
            assert forall|i: int| 0 <= i < h.len() implies {
                &&& (#[trigger] h[i]).0 < (n - 1) as nat
                &&& h[i].1 == key_count(s, h[i].0)
                &&& h[i].2 == key_size(s, h[i].0)
            } by {
                if i < r {
                    assert(h[i] == g[i]);
                } else {
                    assert(h[i] == g[i + 1]);
                }
            }
            assert forall|i: int, j: int| 0 <= i < j < h.len() implies (#[trigger] h[i]).0 != (#[trigger] h[j]).0 by {
                let gi = if i < r { i } else { i + 1 };
                let gj = if j < r { j } else { j + 1 };
                assert(h[i] == g[gi]);
                assert(h[j] == g[gj]);
            }
            assert forall|q: u8| q < (n - 1) as nat && key_count(s, q) > 0 implies exists|i: int|
                0 <= i < h.len() && (#[trigger] h[i]).0 == q by {
                let i0 = choose|i: int| 0 <= i < g.len() && (#[trigger] g[i]).0 == q;
                if i0 < r {
                    assert(h[i0] == g[i0]);
                } else {
                    assert(i0 != r);
                    assert(h[i0 - 1] == g[i0]);
                }
            }
            lemma_rows_cover_total(s, (n - 1) as nat, h);
            lemma_rows_remove(g, r);
        } else {
            if key_count(s, k) > 0 {
                assert(exists|i: int| 0 <= i < g.len() && (#[trigger] g[i]).0 == k);
            }
            lemma_absent_key_has_no_size(s, k);
            assert forall|i: int| 0 <= i < g.len() implies (#[trigger] g[i]).0 < (n - 1) as nat by {
                assert(g[i].0 != k);
            }
            lemma_rows_cover_total(s, (n - 1) as nat, g);
        }
    }
}

/// Sum of the sizes of the ecosystem rows.
pub open spec fn ecosystem_rows_size(r: Seq<EcosystemStat>) -> nat {
    rows_size(r.map_values(|e: EcosystemStat| (type_index(e.project_type), e.count, e.size)))
}

/// Sum of the project counts of the ecosystem rows.
pub open spec fn ecosystem_rows_count(r: Seq<EcosystemStat>) -> nat {
    rows_count(r.map_values(|e: EcosystemStat| (type_index(e.project_type), e.count, e.size)))
}

/// Sum of the sizes of the category rows.
pub open spec fn category_rows_size(r: Seq<CategoryStat>) -> nat {
    rows_size(r.map_values(|e: CategoryStat| (category_index(e.category), e.count, e.size)))
}

/// Sum of the cache counts of the category rows.
pub open spec fn category_rows_count(r: Seq<CategoryStat>) -> nat {
    rows_count(r.map_values(|e: CategoryStat| (category_index(e.category), e.count, e.size)))
}

/// The per-ecosystem breakdown adds up: its sizes sum to the total size of the
/// projects and its counts to the number of projects.
pub proof fn ecosystem_breakdown_adds_up(ps: Seq<Project>, r: Seq<EcosystemStat>)
    requires
        is_ecosystem_breakdown(ps, r),
    ensures
        ecosystem_rows_size(r) == projects_size(ps),
        ecosystem_rows_count(r) == ps.len(),
{
    let s = project_keys(ps);
    let g = r.map_values(|e: EcosystemStat| (type_index(e.project_type), e.count, e.size));
    assert forall|i: int| 0 <= i < s.len() implies (#[trigger] s[i]).0 < 9 by {}
    lemma_keys_total_whole(s, 9);
    lemma_rows_cover_total(s, 9, g);
}

/// The per-category breakdown adds up: its sizes sum to the total size of the
/// caches and its counts to the number of caches.
pub proof fn category_breakdown_adds_up(cs: Seq<Cache>, r: Seq<CategoryStat>)
    requires
        is_category_breakdown(cs, r),
    ensures
        category_rows_size(r) == caches_size(cs),
        category_rows_count(r) == cs.len(),
{
    let s = cache_keys(cs);
    let g = r.map_values(|e: CategoryStat| (category_index(e.category), e.count, e.size));
    assert forall|i: int| 0 <= i < s.len() implies (#[trigger] s[i]).0 < 5 by {}
    lemma_keys_total_whole(s, 5);
    lemma_rows_cover_total(s, 5, g);
}

} // verus!

verus! {

/// The plural ending of a count of projects or caches: none for exactly one.
pub fn plural_s(n: usize) -> (r: &'static str)
    ensures
        r@ == (if n == 1 { ""@ } else { "s"@ }),
{
    proof {
        reveal_strlit("");
        reveal_strlit("s");
    }
    if n == 1 {
        ""
    } else {
        "s"
    }
}

/// The ending of "director…" for a count of artifact directories:
/// "directory" for exactly one, "directories" otherwise.
pub fn directory_ending(n: usize) -> (r: &'static str)
    ensures
        r@ == (if n == 1 { "y"@ } else { "ies"@ }),
{
    if n == 1 {
        "y"
    } else {
        "ies"
    }
}

} // verus!
