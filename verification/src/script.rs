//! The reviewable cleanup script: a bash script that removes the selected
//! artifacts and caches, grouped by ecosystem and cache category with their
//! sizes. Writing it to a file is done by the caller.
use vstd::prelude::*;
use crate::cache::{
    cache_cleanup_command, cache_type_category, cache_type_label, Cache, CacheCategory, CacheType,
};
use crate::cleaner::{cache_sizes, project_sizes};
use crate::project::{all_project_types, project_type_label, Artifact, Project, ProjectType};
use crate::summary::artifact_count;
use crate::sys::{byte_size_display, byte_size_text};
use crate::text::{has_substring, occurs_at};

verus! {

/// A heavy rule line framing a group header.
pub open spec fn rule_line() -> Seq<char> {
    "# ════════════════════════════════════════\n"@
}

/// `c` as it stands inside double quotes in bash: `\`, `"`, `$` and `` ` ``
/// are escaped with a backslash.
pub open spec fn escaped_char(c: char) -> Seq<char> {
    if c == '\\' || c == '"' || c == '$' || c == '`' {
        seq!['\\', c]
    } else {
        seq![c]
    }
}

/// `s` with each character escaped for double quotes.
pub open spec fn escaped(s: Seq<char>) -> Seq<char>
    decreases s.len(),
{
    if s.len() == 0 {
        Seq::empty()
    } else {
        escaped(s.drop_last()) + escaped_char(s.last())
    }
}

/// The command that removes `path`: `rm -rf "<path>"`.
pub open spec fn rm_line(path: Seq<char>) -> Seq<char> {
    "rm -rf \""@ + escaped(path) + "\"\n"@
}

/// One removal line per artifact, in order.
pub open spec fn rm_lines(arts: Seq<Artifact>) -> Seq<char>
    decreases arts.len(),
{
    if arts.len() == 0 {
        Seq::empty()
    } else {
        rm_lines(arts.drop_last()) + rm_line(arts.last().path@)
    }
}

/// A project's entry: a comment with its name and size, then its removals.
pub open spec fn project_entry(p: Project) -> Seq<char> {
    "# "@ + p.name@ + " ("@ + byte_size_text(p.total_size) + ")\n"@ + rm_lines(p.artifacts@) + "\n"@
}

/// A cache's entry: Docker is pruned with its own command; any other cache
/// has a comment with its label and size, its removal, and its official
/// cleanup command as a comment where it has one.
pub open spec fn cache_entry(c: Cache) -> Seq<char> {
    if c.cache_type == CacheType::Docker {
        "# Docker system prune\n# Note: This removes ALL unused images, containers, and volumes\n"@
            + "docker system prune -a -f\n"@ + "\n"@
    } else {
        "# "@ + cache_type_label(c.cache_type) + " ("@ + byte_size_text(c.size) + ")\n"@ + rm_line(c.path@)
            + match cache_cleanup_command(c.cache_type) {
            Some(cmd) => "# Official cleanup: "@ + cmd.0 + "\n"@,
            None => ""@,
        } + "\n"@
    }
}

/// Number of the projects of type `t`.
pub open spec fn type_count(ps: Seq<Project>, t: ProjectType) -> nat
    decreases ps.len(),
{
    if ps.len() == 0 {
        0
    } else {
        type_count(ps.drop_last(), t) + if ps.last().project_type == t { 1nat } else { 0nat }
    }
}

/// Total size of the projects of type `t`.
pub open spec fn type_size(ps: Seq<Project>, t: ProjectType) -> nat
    decreases ps.len(),
{
    if ps.len() == 0 {
        0
    } else {
        type_size(ps.drop_last(), t) + if ps.last().project_type == t {
            ps.last().total_size as nat
        } else {
            0nat
        }
    }
}

/// The entries of the projects of type `t`, in order.
pub open spec fn type_entries(ps: Seq<Project>, t: ProjectType) -> Seq<char>
    decreases ps.len(),
{
    if ps.len() == 0 {
        Seq::empty()
    } else {
        type_entries(ps.drop_last(), t) + if ps.last().project_type == t {
            project_entry(ps.last())
        } else {
            Seq::empty()
        }
    }
}

/// Number of the caches of category `k`.
pub open spec fn category_count(cs: Seq<Cache>, k: CacheCategory) -> nat
    decreases cs.len(),
{
    if cs.len() == 0 {
        0
    } else {
        category_count(cs.drop_last(), k) + if cache_type_category(cs.last().cache_type) == k {
            1nat
        } else {
            0nat
        }
    }
}

/// Total size of the caches of category `k`.
pub open spec fn category_size(cs: Seq<Cache>, k: CacheCategory) -> nat
    decreases cs.len(),
{
    if cs.len() == 0 {
        0
    } else {
        category_size(cs.drop_last(), k) + if cache_type_category(cs.last().cache_type) == k {
            cs.last().size as nat
        } else {
            0nat
        }
    }
}

/// The entries of the caches of category `k`, in order.
pub open spec fn category_entries(cs: Seq<Cache>, k: CacheCategory) -> Seq<char>
    decreases cs.len(),
{
    if cs.len() == 0 {
        Seq::empty()
    } else {
        category_entries(cs.drop_last(), k) + if cache_type_category(cs.last().cache_type) == k {
            cache_entry(cs.last())
        } else {
            Seq::empty()
        }
    }
}

/// A group: its header between two rule lines, with title and subtotal, then its entries.
pub open spec fn group_text(title: Seq<char>, size: u64, body: Seq<char>) -> Seq<char> {
    rule_line() + "# "@ + title + " ("@ + byte_size_text(size) + ")\n"@ + rule_line() + "\n"@ + body
}

/// The group of the projects of type `t` (nothing when there are none).
pub open spec fn project_group(ps: Seq<Project>, t: ProjectType) -> Seq<char> {
    if type_count(ps, t) > 0 {
        group_text(project_type_label(t) + " Projects"@, type_size(ps, t) as u64, type_entries(ps, t))
    } else {
        Seq::empty()
    }
}

/// The project groups for the listed types, in that order.
pub open spec fn project_groups(ps: Seq<Project>, types: Seq<ProjectType>) -> Seq<char>
    decreases types.len(),
{
    if types.len() == 0 {
        Seq::empty()
    } else {
        project_groups(ps, types.drop_last()) + project_group(ps, types.last())
    }
}

/// The title of a cache category's group.
pub open spec fn category_title(k: CacheCategory) -> Seq<char> {
    match k {
        CacheCategory::AiMl => "AI/ML Caches"@,
        CacheCategory::PackageManager => "Package Manager Caches"@,
        CacheCategory::Development => "Development Tool Caches"@,
        CacheCategory::Ide => "IDE Caches"@,
        CacheCategory::Container => "Container (Docker)"@,
    }
}

/// The group of the caches of category `k` (nothing when there are none).
pub open spec fn cache_group(cs: Seq<Cache>, k: CacheCategory) -> Seq<char> {
    if category_count(cs, k) > 0 {
        group_text(category_title(k), category_size(cs, k) as u64, category_entries(cs, k))
    } else {
        Seq::empty()
    }
}

/// The cache groups for the listed categories, in that order.
pub open spec fn cache_groups(cs: Seq<Cache>, cats: Seq<CacheCategory>) -> Seq<char>
    decreases cats.len(),
{
    if cats.len() == 0 {
        Seq::empty()
    } else {
        cache_groups(cs, cats.drop_last()) + cache_group(cs, cats.last())
    }
}

/// The order of the cache groups.
pub open spec fn script_categories() -> Seq<CacheCategory> {
    seq![
        CacheCategory::AiMl,
        CacheCategory::PackageManager,
        CacheCategory::Development,
        CacheCategory::Ide,
        CacheCategory::Container,
    ]
}

/// The script's header: when it was generated and the total it reclaims.
pub open spec fn script_header(generated_at: Seq<char>, total: u64) -> Seq<char> {
    "#!/bin/bash\n# Build Cleaner - Generated Cleanup Script\n# Generated: "@ + generated_at
        + "\n#\n# Review this script before running!\n# Total space to reclaim: "@ + byte_size_text(total)
        + "\n\nset -e  # Exit on first error\n\n"@
}

/// The whole cleanup script for the projects and caches, generated at the
/// time given as text: the header, the project groups in ecosystem order, the
/// cache groups in category order, and the closing message.
pub open spec fn cleanup_script_text(ps: Seq<Project>, cs: Seq<Cache>, generated_at: Seq<char>) -> Seq<char> {
    script_header(generated_at, (project_sizes(ps) + cache_sizes(cs)) as u64) + project_groups(
        ps,
        all_project_types(),
    ) + cache_groups(cs, script_categories()) + "echo \"Cleanup complete!\"\n"@
}

proof fn lemma_type_size_bound(ps: Seq<Project>, t: ProjectType)
    ensures
        type_size(ps, t) <= project_sizes(ps),
    decreases ps.len(),
{
    if ps.len() > 0 {
        lemma_type_size_bound(ps.drop_last(), t);
    }
}

proof fn lemma_category_size_bound(cs: Seq<Cache>, k: CacheCategory)
    ensures
        category_size(cs, k) <= cache_sizes(cs),
    decreases cs.len(),
{
    if cs.len() > 0 {
        lemma_category_size_bound(cs.drop_last(), k);
    }
}

/// Appends `path` escaped for double quotes.
fn append_escaped(out: &mut String, path: &str)
    ensures
        final(out)@ == old(out)@ + escaped(path@),
{
    proof {
        reveal_strlit("\\");
        assert("\\"@.len() == 1 && "\\"@[0] == '\\');
        assert("\\"@ =~= seq!['\\']);
    }
    let n = path.unicode_len();
    let ghost start = out@;
    let mut i: usize = 0;
    while i < n
        invariant
            n == path@.len(),
            0 <= i <= n,
            out@ == start + escaped(path@.take(i as int)),
            "\\"@ == seq!['\\'],
        decreases n - i,
    {
        let c = path.get_char(i);
        assert(path@.take(i + 1).drop_last() =~= path@.take(i as int));
        assert(path@.take(i + 1).last() == c);
        if c == '\\' || c == '"' || c == '$' || c == '`' {
            out.append("\\");
        }
        let one = path.substring_char(i, i + 1);
        assert(one@ =~= seq![c]);
        out.append(one);
        proof {
            if c == '\\' || c == '"' || c == '$' || c == '`' {
                assert("\\"@ + seq![c] =~= escaped_char(c));
            } else {
                assert(seq![c] =~= escaped_char(c));
            }
        }
        assert(out@ =~= start + escaped(path@.take(i + 1)));
        i = i + 1;
    }
    assert(path@.take(n as int) =~= path@);
}

/// Appends the removal command of `path`.
fn append_rm_line(out: &mut String, path: &str)
    ensures
        final(out)@ == old(out)@ + rm_line(path@),
{
    let ghost start = out@;
    out.append("rm -rf \"");
    append_escaped(out, path);
    out.append("\"\n");
    assert(out@ =~= start + rm_line(path@));
}

/// Appends the entry of project `p`.
fn append_project_entry(out: &mut String, p: &Project)
    ensures
        final(out)@ == old(out)@ + project_entry(*p),
{
    let ghost start = out@;
    out.append("# ");
    out.append(p.name.as_str());
    out.append(" (");
    let size = p.size_display();
    out.append(size.as_str());
    out.append(")\n");
    let ghost before_rm = out@;
    let arts = &p.artifacts;
    let mut i: usize = 0;
    while i < arts.len()
        invariant
            0 <= i <= arts@.len(),
            out@ == before_rm + rm_lines(arts@.take(i as int)),
        decreases arts@.len() - i,
    {
        assert(arts@.take(i + 1).drop_last() =~= arts@.take(i as int));
        append_rm_line(out, arts[i].path.as_str());
        assert(out@ =~= before_rm + rm_lines(arts@.take(i + 1)));
        i = i + 1;
    }
    assert(arts@.take(i as int) =~= arts@);
    out.append("\n");
    assert(out@ =~= start + project_entry(*p));
}

/// Appends the entry of cache `c`.
fn append_cache_entry(out: &mut String, c: &Cache)
    ensures
        final(out)@ == old(out)@ + cache_entry(*c),
{
    let ghost start = out@;
    if c.cache_type == CacheType::Docker {
        out.append("# Docker system prune\n# Note: This removes ALL unused images, containers, and volumes\n");
        out.append("docker system prune -a -f\n");
        out.append("\n");
        assert(out@ =~= start + cache_entry(*c));
    } else {
        out.append("# ");
        out.append(c.cache_type.label());
        out.append(" (");
        let size = c.size_display();
        out.append(size.as_str());
        out.append(")\n");
        append_rm_line(out, c.path.as_str());
        let ghost before_cmd = out@;
        match c.cache_type.cleanup_command() {
            Some((cmd, _)) => {
                out.append("# Official cleanup: ");
                out.append(cmd);
                out.append("\n");
            },
            None => {
                out.append("");
            },
        }
        out.append("\n");
        assert(out@ =~= start + cache_entry(*c));
    }
}

/// Appends the group of the projects of type `t`.
fn append_project_group(out: &mut String, ps: &Vec<Project>, t: ProjectType)
    requires
        project_sizes(ps@) <= u64::MAX,
    ensures
        final(out)@ == old(out)@ + project_group(ps@, t),
{
    let mut count: usize = 0;
    let mut size: u64 = 0;
    let mut body = String::new();
    let mut i: usize = 0;
    while i < ps.len()
        invariant
            0 <= i <= ps@.len(),
            project_sizes(ps@) <= u64::MAX,
            count == type_count(ps@.take(i as int), t),
            count <= i,
            size == type_size(ps@.take(i as int), t),
            body@ == type_entries(ps@.take(i as int), t),
        decreases ps@.len() - i,
    {
        assert(ps@.take(i + 1).drop_last() =~= ps@.take(i as int));
        proof {
            lemma_type_size_bound(ps@.take(i + 1), t);
            crate::cleaner::lemma_project_sizes_take(ps@, i + 1);
        }
        if ps[i].project_type == t {
            count = count + 1;
            size = size + ps[i].total_size;
            append_project_entry(&mut body, &ps[i]);
        }
        i = i + 1;
    }
    assert(ps@.take(i as int) =~= ps@);
    if count > 0 {
        let ghost start = out@;
        out.append("# ════════════════════════════════════════\n");
        out.append("# ");
        out.append(t.label());
        out.append(" Projects");
        out.append(" (");
        let sz = byte_size_display(size);
        out.append(sz.as_str());
        out.append(")\n");
        out.append("# ════════════════════════════════════════\n");
        out.append("\n");
        out.append(body.as_str());
        assert(out@ =~= start + project_group(ps@, t));
    } else {
        assert(project_group(ps@, t) =~= Seq::<char>::empty());
        assert(out@ =~= out@ + project_group(ps@, t));
    }
}

/// Appends the group of the caches of category `k`.
fn append_cache_group(out: &mut String, cs: &Vec<Cache>, k: CacheCategory)
    requires
        cache_sizes(cs@) <= u64::MAX,
    ensures
        final(out)@ == old(out)@ + cache_group(cs@, k),
{
    let mut count: usize = 0;
    let mut size: u64 = 0;
    let mut body = String::new();
    let mut i: usize = 0;
    while i < cs.len()
        invariant
            0 <= i <= cs@.len(),
            cache_sizes(cs@) <= u64::MAX,
            count == category_count(cs@.take(i as int), k),
            count <= i,
            size == category_size(cs@.take(i as int), k),
            body@ == category_entries(cs@.take(i as int), k),
        decreases cs@.len() - i,
    {
        assert(cs@.take(i + 1).drop_last() =~= cs@.take(i as int));
        proof {
            lemma_category_size_bound(cs@.take(i + 1), k);
            crate::cleaner::lemma_cache_sizes_take(cs@, i + 1);
        }
        if cs[i].cache_type.category() == k {
            count = count + 1;
            size = size + cs[i].size;
            append_cache_entry(&mut body, &cs[i]);
        }
        i = i + 1;
    }
    assert(cs@.take(i as int) =~= cs@);
    if count > 0 {
        let ghost start = out@;
        out.append("# ════════════════════════════════════════\n");
        out.append("# ");
        let title = category_title_text(k);
        out.append(title);
        out.append(" (");
        let sz = byte_size_display(size);
        out.append(sz.as_str());
        out.append(")\n");
        out.append("# ════════════════════════════════════════\n");
        out.append("\n");
        out.append(body.as_str());
        assert(out@ =~= start + cache_group(cs@, k));
    } else {
        assert(cache_group(cs@, k) =~= Seq::<char>::empty());
        assert(out@ =~= out@ + cache_group(cs@, k));
    }
}

fn category_title_text(k: CacheCategory) -> (r: &'static str)
    ensures
        r@ == category_title(k),
{
    match k {
        CacheCategory::AiMl => "AI/ML Caches",
        CacheCategory::PackageManager => "Package Manager Caches",
        CacheCategory::Development => "Development Tool Caches",
        CacheCategory::Ide => "IDE Caches",
        CacheCategory::Container => "Container (Docker)",
    }
}

fn script_category_order() -> (r: &'static [CacheCategory])
    ensures
        r@ == script_categories(),
{
    &[
        CacheCategory::AiMl,
        CacheCategory::PackageManager,
        CacheCategory::Development,
        CacheCategory::Ide,
        CacheCategory::Container,
    ]
}

/// The cleanup script for `projects` and `caches`, generated at the time
/// given by `generated_at` (see `cleanup_script_text`).
pub fn cleanup_script(projects: &Vec<Project>, caches: &Vec<Cache>, generated_at: &str) -> (r: String)
    requires
        project_sizes(projects@) + cache_sizes(caches@) <= u64::MAX,
    ensures
        r@ == cleanup_script_text(projects@, caches@, generated_at@),
{
    let total = script_total_size(projects, caches);
    let mut out = String::from_str("#!/bin/bash\n# Build Cleaner - Generated Cleanup Script\n# Generated: ");
    out.append(generated_at);
    out.append("\n#\n# Review this script before running!\n# Total space to reclaim: ");
    let t = byte_size_display(total);
    out.append(t.as_str());
    out.append("\n\nset -e  # Exit on first error\n\n");
    let ghost head = out@;
    assert(head =~= script_header(generated_at@, (project_sizes(projects@) + cache_sizes(caches@)) as u64));
    let types = ProjectType::all();
    let mut i: usize = 0;
    while i < types.len()
        invariant
            types@ == all_project_types(),
            project_sizes(projects@) <= u64::MAX,
            0 <= i <= types@.len(),
            out@ == head + project_groups(projects@, types@.take(i as int)),
        decreases types@.len() - i,
    {
        assert(types@.take(i + 1).drop_last() =~= types@.take(i as int));
        append_project_group(&mut out, projects, types[i]);
        assert(out@ =~= head + project_groups(projects@, types@.take(i + 1)));
        i = i + 1;
    }
    assert(types@.take(i as int) =~= types@);
    let ghost mid = out@;
    let cats = script_category_order();
    let mut j: usize = 0;
    while j < cats.len()
        invariant
            cats@ == script_categories(),
            cache_sizes(caches@) <= u64::MAX,
            0 <= j <= cats@.len(),
            out@ == mid + cache_groups(caches@, cats@.take(j as int)),
        decreases cats@.len() - j,
    {
        assert(cats@.take(j + 1).drop_last() =~= cats@.take(j as int));
        append_cache_group(&mut out, caches, cats[j]);
        assert(out@ =~= mid + cache_groups(caches@, cats@.take(j + 1)));
        j = j + 1;
    }
    assert(cats@.take(j as int) =~= cats@);
    out.append("echo \"Cleanup complete!\"\n");
    assert(out@ =~= cleanup_script_text(projects@, caches@, generated_at@));
    out
}

/// Total bytes the script reclaims: the sizes of the projects and caches.
pub fn script_total_size(projects: &Vec<Project>, caches: &Vec<Cache>) -> (r: u64)
    requires
        project_sizes(projects@) + cache_sizes(caches@) <= u64::MAX,
    ensures
        r == project_sizes(projects@) + cache_sizes(caches@),
{
    let mut total: u64 = 0;
    let mut i: usize = 0;
    while i < projects.len()
        invariant
            0 <= i <= projects@.len(),
            project_sizes(projects@) + cache_sizes(caches@) <= u64::MAX,
            total == project_sizes(projects@.take(i as int)),
        decreases projects@.len() - i,
    {
        assert(projects@.take(i + 1).drop_last() =~= projects@.take(i as int));
        proof {
            crate::cleaner::lemma_project_sizes_take(projects@, i + 1);
        }
        total = total + projects[i].total_size;
        i = i + 1;
    }
    assert(projects@.take(i as int) =~= projects@);
    let mut j: usize = 0;
    while j < caches.len()
        invariant
            0 <= j <= caches@.len(),
            project_sizes(projects@) + cache_sizes(caches@) <= u64::MAX,
            total == project_sizes(projects@) + cache_sizes(caches@.take(j as int)),
        decreases caches@.len() - j,
    {
        assert(caches@.take(j + 1).drop_last() =~= caches@.take(j as int));
        proof {
            crate::cleaner::lemma_cache_sizes_take(caches@, j + 1);
        }
        total = total + caches[j].size;
        j = j + 1;
    }
    assert(caches@.take(j as int) =~= caches@);
    total
}

/// Number of actions of the script: one removal per project artifact and one
/// command per cache.
pub fn script_action_count(projects: &Vec<Project>, caches: &Vec<Cache>) -> (r: usize)
    requires
        artifact_count(projects@) + caches@.len() <= usize::MAX,
    ensures
        r == artifact_count(projects@) + caches@.len(),
{
    let n = crate::summary::total_artifacts(projects);
    n + caches.len()
}

} // verus!

verus! {

/// The removal command of `path` as it stands in the script.
pub open spec fn removal_of(path: Seq<char>) -> Seq<char> {
    "rm -rf \""@ + escaped(path) + "\"\n"@
}

proof fn lemma_substring_in_concat(p: Seq<char>, a: Seq<char>, q: Seq<char>, x: Seq<char>)
    requires
        has_substring(a, x),
    ensures
        has_substring(p + a + q, x),
{
    let i = choose|i: int| occurs_at(a, x, i);
    assert((p + a + q).subrange(i + p.len(), i + p.len() + x.len()) =~= a.subrange(i, i + x.len()));
    assert(occurs_at(p + a + q, x, i + p.len()));
}

proof fn lemma_substring_self(x: Seq<char>)
    ensures
        has_substring(x, x),
{
    assert(x.subrange(0, x.len() as int) =~= x);
    assert(occurs_at(x, x, 0));
}

proof fn lemma_entry_in_category(cs: Seq<Cache>, i: int, x: Seq<char>)
    requires
        0 <= i < cs.len(),
        has_substring(cache_entry(cs[i]), x),
    ensures
        has_substring(category_entries(cs, cache_type_category(cs[i].cache_type)), x),
        category_count(cs, cache_type_category(cs[i].cache_type)) > 0,
    decreases cs.len(),
{
    let k = cache_type_category(cs[i].cache_type);
    let init = cs.drop_last();
    if i < cs.len() - 1 {
        assert(cs[i] == init[i]);
        lemma_entry_in_category(init, i, x);
        let tail = if cache_type_category(cs.last().cache_type) == k { cache_entry(cs.last()) } else { Seq::empty() };
        lemma_substring_in_concat(Seq::empty(), category_entries(init, k), tail, x);
        assert(Seq::<char>::empty() + category_entries(init, k) + tail =~= category_entries(cs, k));
    } else {
        lemma_substring_in_concat(category_entries(init, k), cache_entry(cs.last()), Seq::empty(), x);
        assert(category_entries(init, k) + cache_entry(cs.last()) + Seq::<char>::empty() =~= category_entries(cs, k));
    }
}

proof fn lemma_category_group_in_groups(cs: Seq<Cache>, cats: Seq<CacheCategory>, j: int, x: Seq<char>)
    requires
        0 <= j < cats.len(),
        has_substring(cache_group(cs, cats[j]), x),
    ensures
        has_substring(cache_groups(cs, cats), x),
    decreases cats.len(),
{
    let init = cats.drop_last();
    if j < cats.len() - 1 {
        assert(cats[j] == init[j]);
        lemma_category_group_in_groups(cs, init, j, x);
        lemma_substring_in_concat(Seq::empty(), cache_groups(cs, init), cache_group(cs, cats.last()), x);
        assert(Seq::<char>::empty() + cache_groups(cs, init) + cache_group(cs, cats.last()) =~= cache_groups(cs, cats));
    } else {
        lemma_substring_in_concat(cache_groups(cs, init), cache_group(cs, cats.last()), Seq::empty(), x);
        assert(cache_groups(cs, init) + cache_group(cs, cats.last()) + Seq::<char>::empty() =~= cache_groups(cs, cats));
    }
}

proof fn lemma_script_category_position(k: CacheCategory) -> (j: int)
    ensures
        0 <= j < script_categories().len(),
        script_categories()[j] == k,
{
    match k {
        CacheCategory::AiMl => 0,
        CacheCategory::PackageManager => 1,
        CacheCategory::Development => 2,
        CacheCategory::Ide => 3,
        CacheCategory::Container => 4,
    }
}

/// What cleans cache `c` in the script: Docker's prune command, else the
/// removal of its path.
pub open spec fn cleaning_of(c: Cache) -> Seq<char> {
    if c.cache_type == CacheType::Docker {
        "docker system prune -a -f\n"@
    } else {
        removal_of(c.path@)
    }
}

proof fn lemma_entry_cleans(c: Cache)
    ensures
        has_substring(cache_entry(c), cleaning_of(c)),
{
    let x = cleaning_of(c);
    lemma_substring_self(x);
    if c.cache_type == CacheType::Docker {
        let pre = "# Docker system prune\n# Note: This removes ALL unused images, containers, and volumes\n"@;
        lemma_substring_in_concat(pre, x, "\n"@, x);
    } else {
        let pre = "# "@ + cache_type_label(c.cache_type) + " ("@ + byte_size_text(c.size) + ")\n"@;
        let post = match cache_cleanup_command(c.cache_type) {
            Some(cmd) => "# Official cleanup: "@ + cmd.0 + "\n"@,
            None => ""@,
        } + "\n"@;
        lemma_substring_in_concat(pre, x, post, x);
        assert(pre + x + post =~= cache_entry(c));
    }
}

proof fn lemma_cache_text_in_script(ps: Seq<Project>, cs: Seq<Cache>, generated_at: Seq<char>, i: int, x: Seq<char>)
    requires
        0 <= i < cs.len(),
        has_substring(cache_entry(cs[i]), x),
    ensures
        has_substring(cleanup_script_text(ps, cs, generated_at), x),
{
    let k = cache_type_category(cs[i].cache_type);
    lemma_entry_in_category(cs, i, x);
    let head = rule_line() + "# "@ + category_title(k) + " ("@ + byte_size_text(category_size(cs, k) as u64)
        + ")\n"@ + rule_line() + "\n"@;
    lemma_substring_in_concat(head, category_entries(cs, k), Seq::empty(), x);
    assert(head + category_entries(cs, k) + Seq::<char>::empty() =~= cache_group(cs, k));
    let j = lemma_script_category_position(k);
    lemma_category_group_in_groups(cs, script_categories(), j, x);
    let before = script_header(generated_at, (project_sizes(ps) + cache_sizes(cs)) as u64) + project_groups(
        ps,
        all_project_types(),
    );
    lemma_substring_in_concat(before, cache_groups(cs, script_categories()), "echo \"Cleanup complete!\"\n"@, x);
    assert(before + cache_groups(cs, script_categories()) + "echo \"Cleanup complete!\"\n"@
        =~= cleanup_script_text(ps, cs, generated_at));
}

/// Every selected cache is cleaned by the script: a Docker cache by its prune
/// command, any other cache by the removal of its path (whether or not it also
/// has an official cleanup command).
pub proof fn script_cleans_every_cache(ps: Seq<Project>, cs: Seq<Cache>, generated_at: Seq<char>)
    ensures
        forall|i: int|
            0 <= i < cs.len() && cs[i].cache_type != CacheType::Docker ==> has_substring(
                cleanup_script_text(ps, cs, generated_at),
                "rm -rf \""@ + escaped(#[trigger] cs[i].path@) + "\"\n"@,
            ),
        forall|i: int|
            0 <= i < cs.len() && (#[trigger] cs[i]).cache_type == CacheType::Docker ==> has_substring(
                cleanup_script_text(ps, cs, generated_at),
                "docker system prune -a -f\n"@,
            ),
{
    assert forall|i: int| 0 <= i < cs.len() implies has_substring(
        cleanup_script_text(ps, cs, generated_at),
        cleaning_of(#[trigger] cs[i]),
    ) by {
        lemma_entry_cleans(cs[i]);
        lemma_cache_text_in_script(ps, cs, generated_at, i, cleaning_of(cs[i]));
    }
    assert forall|i: int|
        0 <= i < cs.len() && cs[i].cache_type != CacheType::Docker implies has_substring(
            cleanup_script_text(ps, cs, generated_at),
            "rm -rf \""@ + escaped(#[trigger] cs[i].path@) + "\"\n"@,
        ) by {
        assert(cleaning_of(cs[i]) == removal_of(cs[i].path@));
    }
    assert forall|i: int|
        0 <= i < cs.len() && (#[trigger] cs[i]).cache_type == CacheType::Docker implies has_substring(
            cleanup_script_text(ps, cs, generated_at),
            "docker system prune -a -f\n"@,
        ) by {
        assert(cleaning_of(cs[i]) == "docker system prune -a -f\n"@);
    }
}

proof fn lemma_removal_in_rm_lines(arts: Seq<Artifact>, j: int)
    requires
        0 <= j < arts.len(),
    ensures
        has_substring(rm_lines(arts), removal_of(arts[j].path@)),
    decreases arts.len(),
{
    let x = removal_of(arts[j].path@);
    let init = arts.drop_last();
    if j < arts.len() - 1 {
        assert(arts[j] == init[j]);
        lemma_removal_in_rm_lines(init, j);
        lemma_substring_in_concat(Seq::empty(), rm_lines(init), rm_line(arts.last().path@), x);
        assert(Seq::<char>::empty() + rm_lines(init) + rm_line(arts.last().path@) =~= rm_lines(arts));
    } else {
        lemma_substring_self(x);
        lemma_substring_in_concat(rm_lines(init), x, Seq::empty(), x);
        assert(rm_lines(init) + x + Seq::<char>::empty() =~= rm_lines(arts));
    }
}

proof fn lemma_entry_in_type(ps: Seq<Project>, i: int, x: Seq<char>)
    requires
        0 <= i < ps.len(),
        has_substring(project_entry(ps[i]), x),
    ensures
        has_substring(type_entries(ps, ps[i].project_type), x),
        type_count(ps, ps[i].project_type) > 0,
    decreases ps.len(),
{
    let t = ps[i].project_type;
    let init = ps.drop_last();
    if i < ps.len() - 1 {
        assert(ps[i] == init[i]);
        lemma_entry_in_type(init, i, x);
        let tail = if ps.last().project_type == t { project_entry(ps.last()) } else { Seq::empty() };
        lemma_substring_in_concat(Seq::empty(), type_entries(init, t), tail, x);
        assert(Seq::<char>::empty() + type_entries(init, t) + tail =~= type_entries(ps, t));
    } else {
        lemma_substring_in_concat(type_entries(init, t), project_entry(ps.last()), Seq::empty(), x);
        assert(type_entries(init, t) + project_entry(ps.last()) + Seq::<char>::empty() =~= type_entries(ps, t));
    }
}

proof fn lemma_project_group_in_groups(ps: Seq<Project>, types: Seq<ProjectType>, j: int, x: Seq<char>)
    requires
        0 <= j < types.len(),
        has_substring(project_group(ps, types[j]), x),
    ensures
        has_substring(project_groups(ps, types), x),
    decreases types.len(),
{
    let init = types.drop_last();
    if j < types.len() - 1 {
        assert(types[j] == init[j]);
        lemma_project_group_in_groups(ps, init, j, x);
        lemma_substring_in_concat(Seq::empty(), project_groups(ps, init), project_group(ps, types.last()), x);
        assert(Seq::<char>::empty() + project_groups(ps, init) + project_group(ps, types.last()) =~= project_groups(ps, types));
    } else {
        lemma_substring_in_concat(project_groups(ps, init), project_group(ps, types.last()), Seq::empty(), x);
        assert(project_groups(ps, init) + project_group(ps, types.last()) + Seq::<char>::empty() =~= project_groups(ps, types));
    }
}

proof fn lemma_type_position(t: ProjectType) -> (j: int)
    ensures
        0 <= j < all_project_types().len(),
        all_project_types()[j] == t,
{
    match t {
        ProjectType::Node => 0,
        ProjectType::Rust => 1,
        ProjectType::Python => 2,
        ProjectType::Flutter => 3,
        ProjectType::JavaMaven => 4,
        ProjectType::JavaGradle => 5,
        ProjectType::Cpp => 6,
        ProjectType::DotNet => 7,
        ProjectType::Go => 8,
    }
}

proof fn lemma_artifact_removal_in_script(ps: Seq<Project>, cs: Seq<Cache>, generated_at: Seq<char>, i: int, j: int)
    requires
        0 <= i < ps.len(),
        0 <= j < ps[i].artifacts@.len(),
    ensures
        has_substring(cleanup_script_text(ps, cs, generated_at), removal_of(ps[i].artifacts@[j].path@)),
{
    let p = ps[i];
    let x = removal_of(p.artifacts@[j].path@);
    lemma_removal_in_rm_lines(p.artifacts@, j);
    let pre = "# "@ + p.name@ + " ("@ + byte_size_text(p.total_size) + ")\n"@;
    lemma_substring_in_concat(pre, rm_lines(p.artifacts@), "\n"@, x);
    assert(pre + rm_lines(p.artifacts@) + "\n"@ =~= project_entry(p));
    let t = p.project_type;
    lemma_entry_in_type(ps, i, x);
    let head = rule_line() + "# "@ + (project_type_label(t) + " Projects"@) + " ("@ + byte_size_text(type_size(ps, t) as u64)
        + ")\n"@ + rule_line() + "\n"@;
    lemma_substring_in_concat(head, type_entries(ps, t), Seq::empty(), x);
    assert(head + type_entries(ps, t) + Seq::<char>::empty() =~= project_group(ps, t));
    let k = lemma_type_position(t);
    lemma_project_group_in_groups(ps, all_project_types(), k, x);
    let before = script_header(generated_at, (project_sizes(ps) + cache_sizes(cs)) as u64);
    let after = cache_groups(cs, script_categories()) + "echo \"Cleanup complete!\"\n"@;
    lemma_substring_in_concat(before, project_groups(ps, all_project_types()), after, x);
    assert(before + project_groups(ps, all_project_types()) + after =~= cleanup_script_text(ps, cs, generated_at));
}

/// Every artifact of every selected project is removed by the script: its
/// path, quoted, follows `rm -rf`.
pub proof fn script_removes_every_artifact(ps: Seq<Project>, cs: Seq<Cache>, generated_at: Seq<char>)
    ensures
        forall|i: int, j: int|
            0 <= i < ps.len() && 0 <= j < ps[i].artifacts@.len() ==> has_substring(
                cleanup_script_text(ps, cs, generated_at),
                "rm -rf \""@ + escaped(#[trigger] ps[i].artifacts@[j].path@) + "\"\n"@,
            ),
{
    assert forall|i: int, j: int|
        0 <= i < ps.len() && 0 <= j < ps[i].artifacts@.len() implies has_substring(
            cleanup_script_text(ps, cs, generated_at),
            "rm -rf \""@ + escaped(#[trigger] ps[i].artifacts@[j].path@) + "\"\n"@,
        ) by {
        lemma_artifact_removal_in_script(ps, cs, generated_at, i, j);
    }
}

/// Escaping keeps every character and only adds backslashes: a path without
/// `\`, `"`, `$` or a backquote stands in the script as it is, and an escaped
/// path is never shorter than the path.
pub proof fn escaping_keeps_plain_paths(s: Seq<char>)
    ensures
        escaped(s).len() >= s.len(),
        (forall|i: int| 0 <= i < s.len() ==> #[trigger] s[i] != '\\' && s[i] != '"' && s[i] != '$' && s[i] != '`')
            ==> escaped(s) == s,
    decreases s.len(),
{
    if s.len() > 0 {
        let init = s.drop_last();
        escaping_keeps_plain_paths(init);
        if forall|i: int| 0 <= i < s.len() ==> #[trigger] s[i] != '\\' && s[i] != '"' && s[i] != '$' && s[i] != '`' {
            assert forall|i: int| 0 <= i < init.len() implies #[trigger] init[i] != '\\' && init[i] != '"' && init[i] != '$'
                && init[i] != '`' by {
                assert(init[i] == s[i]);
            }
            assert(s[s.len() - 1] == s.last());
            assert(init + seq![s.last()] =~= s);
        }
    }
}

} // verus!
