//! The rules of the user-cache scan: which locations are looked at, which
//! caches are kept and how they are ordered. Checking that a location exists
//! and measuring it is done by the caller.
use vstd::prelude::*;
use crate::cache::{
    all_cache_types, cache_paths_of, cache_type_category, Cache, CacheCategory, CacheType,
};
use crate::sorting::{is_stable_desc_sort, sort_desc_by_keys, stable_desc_arrangement};
use crate::sys::{home_directory, join_path, joined_path};

verus! {

/// Scanner for user-level caches
pub struct CacheScanner {
    home_dir: String,
    categories: Option<Vec<CacheCategory>>,
    min_size: Option<u64>,
}

/// Whether caches of type `t` are scanned under the category filter `cats`
/// (`None`: every category).
pub open spec fn category_selected(cats: Option<Seq<CacheCategory>>, t: CacheType) -> bool {
    match cats {
        None => true,
        Some(cs) => cs.contains(cache_type_category(t)),
    }
}

/// Whether a location that exists only on macOS (when `macos_only`) is looked
/// at on this platform.
pub open spec fn location_applies(macos_only: bool, is_macos: bool) -> bool {
    !(macos_only && !is_macos)
}

/// The locations looked at for cache type `t`: its paths below `home` that
/// apply on this platform, in their listed order.
pub open spec fn targets_for_type(t: CacheType, is_macos: bool, home: Seq<char>) -> Seq<(CacheType, Seq<char>)> {
    cache_paths_of(t).filter(|p: (Seq<char>, bool)| location_applies(p.1, is_macos)).map_values(
        |p: (Seq<char>, bool)| (t, joined_path(home, p.0)),
    )
}

/// The locations looked at for the listed types, type after type.
pub open spec fn targets_for_types(
    types: Seq<CacheType>,
    cats: Option<Seq<CacheCategory>>,
    is_macos: bool,
    home: Seq<char>,
) -> Seq<(CacheType, Seq<char>)>
    decreases types.len(),
{
    if types.len() == 0 {
        Seq::empty()
    } else {
        let t = types.last();
        let before = targets_for_types(types.drop_last(), cats, is_macos, home);
        if category_selected(cats, t) {
            before + targets_for_type(t, is_macos, home)
        } else {
            before
        }
    }
}

/// Whether a cache of `size` bytes is kept under the minimum size `min`.
pub open spec fn meets_min_size(min: Option<u64>, size: u64) -> bool {
    match min {
        Some(m) => size >= m,
        None => true,
    }
}

/// Each cache's size, as a sort key.
pub open spec fn cache_size_keys(cs: Seq<Cache>) -> Seq<u128> {
    Seq::new(cs.len(), |i: int| cs[i].size as u128)
}

/// The views of (type, path) pairs.
pub open spec fn target_views(s: Seq<(CacheType, String)>) -> Seq<(CacheType, Seq<char>)> {
    s.map_values(|x: (CacheType, String)| (x.0, x.1@))
}

impl CacheScanner {
    pub closed spec fn spec_home_dir(&self) -> Seq<char> {
        self.home_dir@
    }

    pub closed spec fn spec_categories(&self) -> Option<Seq<CacheCategory>> {
        match self.categories {
            Some(c) => Some(c@),
            None => None,
        }
    }

    pub closed spec fn spec_min_size(&self) -> Option<u64> {
        self.min_size
    }

    /// Create a new cache scanner rooted at the user's home directory
    /// (`None` when it cannot be determined).
    pub fn new() -> (r: Option<Self>)
        ensures
            r matches Some(s) ==> s.spec_categories().is_none() && s.spec_min_size().is_none(),
    {
        match home_directory() {
            Some(home_dir) => Some(Self::for_home(home_dir)),
            None => None,
        }
    }

    /// A cache scanner rooted at `home_dir`, with no filters.
    pub fn for_home(home_dir: String) -> (r: Self)
        ensures
            r.spec_home_dir() == home_dir@,
            r.spec_categories().is_none(),
            r.spec_min_size().is_none(),
    {
        CacheScanner { home_dir, categories: None, min_size: None }
    }

    /// The home directory the scanner looks below.
    pub fn home_dir(&self) -> (r: &str)
        ensures
            r@ == self.spec_home_dir(),
    {
        self.home_dir.as_str()
    }

    /// Filter by cache categories (an empty list leaves the scanner unchanged)
    pub fn with_categories(self, categories: Vec<CacheCategory>) -> (r: Self)
        ensures
            r.spec_home_dir() == self.spec_home_dir(),
            r.spec_min_size() == self.spec_min_size(),
            categories@.len() == 0 ==> r.spec_categories() == self.spec_categories(),
            categories@.len() > 0 ==> r.spec_categories() == Some(categories@),
    {
        let mut s = self;
        if categories.len() > 0 {
            s.categories = Some(categories);
        }
        s
    }

    /// Filter by minimum size
    pub fn with_min_size(self, min_size: Option<u64>) -> (r: Self)
        ensures
            r.spec_home_dir() == self.spec_home_dir(),
            r.spec_categories() == self.spec_categories(),
            r.spec_min_size() == min_size,
    {
        let mut s = self;
        s.min_size = min_size;
        s
    }

    /// Whether caches of `cache_type` are scanned under the category filter.
    pub fn selects(&self, cache_type: CacheType) -> (r: bool)
        ensures
            r == category_selected(self.spec_categories(), cache_type),
    {
        match &self.categories {
            None => true,
            Some(cats) => {
                assert(self.spec_categories() == Some(cats@));
                let cat = cache_type.category();
                let mut i: usize = 0;
                while i < cats.len()
                    invariant
                        self.spec_categories() == Some(cats@),
                        cat == cache_type_category(cache_type),
                        0 <= i <= cats@.len(),
                        forall|t: int| 0 <= t < i ==> cats@[t] != cat,
                    decreases cats@.len() - i,
                {
                    if cats[i] == cat {
                        assert(cats@[i as int] == cat);
                        return true;
                    }
                    i = i + 1;
                }
                false
            },
        }
    }

    /// The locations to look at, in scanning order: for each selected cache
    /// type, its paths below the home directory that apply on this platform.
    pub fn scan_targets(&self, is_macos: bool) -> (r: Vec<(CacheType, String)>)
        ensures
            target_views(r@) == targets_for_types(
                all_cache_types(),
                self.spec_categories(),
                is_macos,
                self.spec_home_dir(),
            ),
    {
        let types = CacheType::all();
        let ghost cats = self.spec_categories();
        let ghost home = self.spec_home_dir();
        let mut out: Vec<(CacheType, String)> = Vec::new();
        let mut i: usize = 0;
        while i < types.len()
            invariant
                types@ == all_cache_types(),
                cats == self.spec_categories(),
                home == self.spec_home_dir(),
                0 <= i <= types@.len(),
                target_views(out@) == targets_for_types(types@.take(i as int), cats, is_macos, home),
            decreases types@.len() - i,
        {
            let t = types[i];
            assert(types@.take(i + 1).drop_last() =~= types@.take(i as int));
            assert(types@.take(i + 1).last() == t);
            if self.selects(t) {
                let paths = t.paths();
                let ghost before = out@;
                let ghost applicable = cache_paths_of(t).filter(
                    |p: (Seq<char>, bool)| location_applies(p.1, is_macos),
                );
                let mut k: usize = 0;
                while k < paths.len()
                    invariant
                        crate::cache::path_views(paths@) == cache_paths_of(t),
                        0 <= k <= paths@.len(),
                        home == self.spec_home_dir(),
                        target_views(out@) == target_views(before) + cache_paths_of(t).take(
                            k as int,
                        ).filter(|p: (Seq<char>, bool)| location_applies(p.1, is_macos)).map_values(
                            |p: (Seq<char>, bool)| (t, joined_path(home, p.0)),
                        ),
                    decreases paths@.len() - k,
                {
                    let (rel, macos_only) = paths[k];
                    let ghost pk = cache_paths_of(t)[k as int];
                    assert(pk == (rel@, macos_only));
                    let ghost prev = cache_paths_of(t).take(k as int);
                    let ghost next = cache_paths_of(t).take(k + 1);
                    proof {
                        reveal_with_fuel(Seq::<(Seq<char>, bool)>::filter, 1);
                        assert(next.drop_last() =~= prev);
                        assert(next.last() == pk);
                    }
                    if !(macos_only && !is_macos) {
                        let path = join_path(self.home_dir(), rel);
                        let ghost out_before = out@;
                        out.push((t, path));
                        assert(next.filter(|p: (Seq<char>, bool)| location_applies(p.1, is_macos))
                            == prev.filter(|p: (Seq<char>, bool)| location_applies(p.1, is_macos)).push(pk));
                        assert(next.filter(|p: (Seq<char>, bool)| location_applies(p.1, is_macos)).map_values(
                            |p: (Seq<char>, bool)| (t, joined_path(home, p.0)),
                        ) =~= prev.filter(|p: (Seq<char>, bool)| location_applies(p.1, is_macos)).map_values(
                            |p: (Seq<char>, bool)| (t, joined_path(home, p.0)),
                        ).push((t, joined_path(home, rel@))));
                        assert(target_views(out@) =~= target_views(out_before).push((t, joined_path(home, rel@))));
                        assert(target_views(out@) =~= target_views(before) + next.filter(
                            |p: (Seq<char>, bool)| location_applies(p.1, is_macos),
                        ).map_values(|p: (Seq<char>, bool)| (t, joined_path(home, p.0))));
                    } else {
                        assert(next.filter(|p: (Seq<char>, bool)| location_applies(p.1, is_macos))
                            == prev.filter(|p: (Seq<char>, bool)| location_applies(p.1, is_macos)));
                    }
                    k = k + 1;
                }
                assert(cache_paths_of(t).take(paths@.len() as int) =~= cache_paths_of(t));
            }
            i = i + 1;
        }
        assert(types@.take(types@.len() as int) =~= types@);
        out
    }

    /// Turns the caches found at the scan targets into the scan's result: the
    /// ones that meet the minimum size, largest first (equal sizes keep their
    /// found order).
    pub fn collect_found(&self, found: Vec<Cache>) -> (r: Vec<Cache>)
        ensures
            is_stable_desc_sort(
                found@.filter(|c: Cache| meets_min_size(self.spec_min_size(), c.size)),
                cache_size_keys(found@.filter(|c: Cache| meets_min_size(self.spec_min_size(), c.size))),
                r@,
            ),
    {
        let ghost pred = |c: Cache| meets_min_size(self.spec_min_size(), c.size);
        let ghost orig = found@;
        let mut rest = found;
        let total = rest.len();
        let mut kept: Vec<Cache> = Vec::new();
        let mut taken: usize = 0;
        assert(rest@ =~= orig.subrange(0, orig.len() as int));
        while rest.len() > 0
            invariant
                total == orig.len(),
                pred == (|c: Cache| meets_min_size(self.spec_min_size(), c.size)),
                taken + rest@.len() == orig.len(),
                rest@ == orig.subrange(taken as int, orig.len() as int),
                kept@ == orig.subrange(0, taken as int).filter(pred),
            decreases rest@.len(),
        {
            let c = rest.remove(0);
            let keep = match self.min_size {
                Some(m) => c.size >= m,
                None => true,
            };
            proof {
                reveal_with_fuel(Seq::<Cache>::filter, 1);
                assert(orig.subrange(0, taken + 1).drop_last() =~= orig.subrange(0, taken as int));
                assert(orig.subrange(0, taken + 1).last() == c);
                assert(pred(c) == keep);
            }
            if keep {
                kept.push(c);
            }
            taken = taken + 1;
            assert(rest@ =~= orig.subrange(taken as int, orig.len() as int));
        }
        assert(orig.subrange(0, orig.len() as int) =~= orig);
        let mut keys: Vec<u128> = Vec::new();
        let mut j: usize = 0;
        while j < kept.len()
            invariant
                0 <= j <= kept@.len(),
                keys@.len() == j,
                forall|t: int| 0 <= t < j ==> keys@[t] == kept@[t].size as u128,
            decreases kept@.len() - j,
        {
            keys.push(kept[j].size as u128);
            j = j + 1;
        }
        assert(keys@ =~= cache_size_keys(kept@));
        sort_desc_by_keys(&mut kept, keys);
        kept
    }
}

/// With no minimum size and with a minimum of 0 bytes, the same caches are kept.
pub proof fn no_minimum_equals_zero_minimum(size: u64)
    ensures
        meets_min_size(None, size) == meets_min_size(Some(0), size),
{
}

/// Every location looked at belongs to a cache type whose category the filter
/// selects.
pub proof fn targets_respect_category_filter(
    types: Seq<CacheType>,
    cats: Option<Seq<CacheCategory>>,
    is_macos: bool,
    home: Seq<char>,
)
    ensures
        forall|i: int|
            0 <= i < targets_for_types(types, cats, is_macos, home).len() ==> category_selected(
                cats,
                (#[trigger] targets_for_types(types, cats, is_macos, home)[i]).0,
            ),
    decreases types.len(),
{
    if types.len() > 0 {
        let t = types.last();
        targets_respect_category_filter(types.drop_last(), cats, is_macos, home);
        let before = targets_for_types(types.drop_last(), cats, is_macos, home);
        if category_selected(cats, t) {
            let mine = targets_for_type(t, is_macos, home);
            assert forall|i: int| 0 <= i < mine.len() implies (#[trigger] mine[i]).0 == t by {}
            let all = targets_for_types(types, cats, is_macos, home);
            assert forall|i: int| 0 <= i < all.len() implies category_selected(
                cats,
                (#[trigger] all[i]).0,
            ) by {
                if i < before.len() {
                    assert(all[i] == before[i]);
                } else {
                    assert(all[i] == mine[i - before.len()]);
                }
            }
        }
    }
}

} // verus!

verus! {

/// What a cache scan reports of the caches found at its locations: each
/// reported cache meets the minimum size and was found, each found cache that
/// meets it is reported, and the report is ordered by size, largest first.
pub proof fn cache_report_meets_minimum_largest_first(min: Option<u64>, found: Seq<Cache>, result: Seq<Cache>)
    requires
        is_stable_desc_sort(
            found.filter(|c: Cache| meets_min_size(min, c.size)),
            cache_size_keys(found.filter(|c: Cache| meets_min_size(min, c.size))),
            result,
        ),
    ensures
        forall|i: int| 0 <= i < result.len() ==> meets_min_size(min, (#[trigger] result[i]).size) && found.contains(result[i]),
        forall|k: int| 0 <= k < found.len() && meets_min_size(min, found[k].size) ==> #[trigger] result.contains(found[k]),
        forall|i: int, j: int| 0 <= i < j < result.len() ==> (#[trigger] result[i]).size >= (#[trigger] result[j]).size,
{
    let pred = |c: Cache| meets_min_size(min, c.size);
    let kept = found.filter(pred);
    let keys = cache_size_keys(kept);
    let perm = choose|perm: Seq<int>| stable_desc_arrangement(kept, keys, result, perm);
    assert(stable_desc_arrangement(kept, keys, result, perm));
    assert forall|i: int| 0 <= i < result.len() implies meets_min_size(min, (#[trigger] result[i]).size)
        && found.contains(result[i]) by {
        let k = perm[i];
        assert(result[i] == kept[k]);
        found.lemma_filter_pred(pred, k);
        assert(kept.contains(kept[k]));
        found.lemma_filter_contains_rev(pred, kept[k]);
    }
    assert forall|k: int| 0 <= k < found.len() && meets_min_size(min, found[k].size) implies #[trigger] result.contains(found[k]) by {
        found.lemma_filter_contains(pred, k);
        let m = choose|m: int| 0 <= m < kept.len() && kept[m] == found[k];
        assert(crate::sorting::has_preimage(perm, m));
        let i = choose|i: int| 0 <= i < perm.len() && #[trigger] perm[i] == m;
        assert(result[i] == found[k]);
    }
    assert forall|i: int, j: int| 0 <= i < j < result.len() implies (#[trigger] result[i]).size
        >= (#[trigger] result[j]).size by {
        assert(keys[perm[i]] >= keys[perm[j]]);
        assert(result[i] == kept[perm[i]]);
        assert(result[j] == kept[perm[j]]);
    }
}

} // verus!

verus! {

/// Two scanners whose filters select alike report alike: with the same home
/// directory and category filter they look at the same locations, and with
/// minimum sizes that admit the same sizes they report the same caches, in
/// the same order, from the same caches found. This covers an empty category
/// list (`with_categories` then leaves the filter as it was) and a minimum of
/// 0 bytes against none (`zero_minimum_reports_as_no_minimum`).
pub proof fn same_filters_same_report(
    a: CacheScanner,
    b: CacheScanner,
    is_macos: bool,
    targets_a: Seq<(CacheType, String)>,
    targets_b: Seq<(CacheType, String)>,
    found: Seq<Cache>,
    report_a: Seq<Cache>,
    report_b: Seq<Cache>,
)
    requires
        a.spec_home_dir() == b.spec_home_dir(),
        a.spec_categories() == b.spec_categories(),
        forall|size: u64| meets_min_size(a.spec_min_size(), size) == meets_min_size(b.spec_min_size(), size),
        target_views(targets_a) == targets_for_types(all_cache_types(), a.spec_categories(), is_macos, a.spec_home_dir()),
        target_views(targets_b) == targets_for_types(all_cache_types(), b.spec_categories(), is_macos, b.spec_home_dir()),
        is_stable_desc_sort(
            found.filter(|c: Cache| meets_min_size(a.spec_min_size(), c.size)),
            cache_size_keys(found.filter(|c: Cache| meets_min_size(a.spec_min_size(), c.size))),
            report_a,
        ),
        is_stable_desc_sort(
            found.filter(|c: Cache| meets_min_size(b.spec_min_size(), c.size)),
            cache_size_keys(found.filter(|c: Cache| meets_min_size(b.spec_min_size(), c.size))),
            report_b,
        ),
    ensures
        target_views(targets_a) == target_views(targets_b),
        report_a == report_b,
{
    let pa = |c: Cache| meets_min_size(a.spec_min_size(), c.size);
    let pb = |c: Cache| meets_min_size(b.spec_min_size(), c.size);
    assert(pa =~= pb) by {
        assert forall|c: Cache| #[trigger] pa(c) == pb(c) by {
            assert(meets_min_size(a.spec_min_size(), c.size) == meets_min_size(b.spec_min_size(), c.size));
        }
    }
    assert(found.filter(pa) == found.filter(pb));
    crate::sorting::stable_desc_sort_is_unique(
        found.filter(pa),
        cache_size_keys(found.filter(pa)),
        report_a,
        report_b,
    );
}

/// A minimum of 0 bytes reports exactly what no minimum reports.
pub proof fn zero_minimum_reports_as_no_minimum(found: Seq<Cache>, with_none: Seq<Cache>, with_zero: Seq<Cache>)
    requires
        is_stable_desc_sort(
            found.filter(|c: Cache| meets_min_size(None, c.size)),
            cache_size_keys(found.filter(|c: Cache| meets_min_size(None, c.size))),
            with_none,
        ),
        is_stable_desc_sort(
            found.filter(|c: Cache| meets_min_size(Some(0u64), c.size)),
            cache_size_keys(found.filter(|c: Cache| meets_min_size(Some(0u64), c.size))),
            with_zero,
        ),
    ensures
        with_none == with_zero,
{
    let pn = |c: Cache| meets_min_size(None, c.size);
    let pz = |c: Cache| meets_min_size(Some(0u64), c.size);
    assert(pn =~= pz);
    assert(found.filter(pn) == found.filter(pz));
    crate::sorting::stable_desc_sort_is_unique(found.filter(pn), cache_size_keys(found.filter(pn)), with_none, with_zero);
}

} // verus!

verus! {

/// A cache type is scanned exactly when its category occurs anywhere in the
/// category filter; with no filter every type is scanned.
pub proof fn category_filter_selects_every_listed_category(cats: Seq<CacheCategory>, t: CacheType)
    ensures
        category_selected(Some(cats), t) <==> cats.contains(cache_type_category(t)),
        category_selected(None, t),
{
}

} // verus!

verus! {

proof fn lemma_type_targets_in_all(
    types: Seq<CacheType>,
    cats: Option<Seq<CacheCategory>>,
    is_macos: bool,
    home: Seq<char>,
    j: int,
    x: (CacheType, Seq<char>),
)
    requires
        0 <= j < types.len(),
        category_selected(cats, types[j]),
        targets_for_type(types[j], is_macos, home).contains(x),
    ensures
        targets_for_types(types, cats, is_macos, home).contains(x),
    decreases types.len(),
{
    let init = types.drop_last();
    let before = targets_for_types(init, cats, is_macos, home);
    if j < types.len() - 1 {
        assert(types[j] == init[j]);
        lemma_type_targets_in_all(init, cats, is_macos, home, j, x);
        let m = choose|m: int| 0 <= m < before.len() && before[m] == x;
        if category_selected(cats, types.last()) {
            let all = before + targets_for_type(types.last(), is_macos, home);
            assert(all[m] == x);
        }
    } else {
        let mine = targets_for_type(types.last(), is_macos, home);
        let m = choose|m: int| 0 <= m < mine.len() && mine[m] == x;
        let all = before + mine;
        assert(all[before.len() + m] == x);
    }
}

/// A scan looks at every location of every selected cache type that applies
/// on the platform: for a type whose category the filter lists (or with no
/// filter), each of its locations below the home directory is a target.
pub proof fn scan_looks_at_every_selected_location(
    cats: Option<Seq<CacheCategory>>,
    is_macos: bool,
    home: Seq<char>,
    t: CacheType,
    k: int,
)
    requires
        0 <= k < cache_paths_of(t).len(),
        cats matches Some(cs) ==> cs.contains(cache_type_category(t)),
        !cache_paths_of(t)[k].1 || is_macos,
    ensures
        targets_for_types(all_cache_types(), cats, is_macos, home).contains(
            (t, joined_path(home, cache_paths_of(t)[k].0)),
        ),
{
    let p = cache_paths_of(t)[k];
    let pred = |q: (Seq<char>, bool)| location_applies(q.1, is_macos);
    let applicable = cache_paths_of(t).filter(pred);
    cache_paths_of(t).lemma_filter_contains(pred, k);
    let m = choose|m: int| 0 <= m < applicable.len() && applicable[m] == p;
    let mine = targets_for_type(t, is_macos, home);
    assert(mine[m] == (t, joined_path(home, p.0)));
    crate::cache::all_cache_types_lists_each_type_once(t);
    let j = choose|j: int| 0 <= j < all_cache_types().len() && all_cache_types()[j] == t;
    lemma_type_targets_in_all(all_cache_types(), cats, is_macos, home, j, (t, joined_path(home, p.0)));
}

} // verus!
