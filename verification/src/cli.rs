//! Command-line options, and the non-numeric part of reading a human-readable size.
use vstd::prelude::*;
use crate::sys::{alphabetic, is_alphabetic, to_uppercase, trim, trimmed, uppercase_of};
use crate::text::{chars_of, str_equal};

verus! {

#[derive(Debug, Clone, Copy, PartialEq, Eq, Structural)]
pub enum ProjectFilter {
    Node,
    Rust,
    Python,
    Flutter,
    JavaMaven,
    JavaGradle,
    Cpp,
    DotNet,
    Go,
}

#[derive(Debug, Clone, Copy, PartialEq, Eq, Structural)]
pub enum CacheFilter {
    /// AI/ML model caches (Hugging Face, Ollama, PyTorch)
    AiMl,
    /// Package manager caches (npm, yarn, cargo, pip, gradle, maven)
    Package,
    /// Development tool caches (Xcode, Android SDK)
    Dev,
    /// IDE caches (JetBrains, VSCode)
    Ide,
    /// Container caches (Docker)
    Container,
}

/// Command-line options of the tool.
#[derive(Debug, Clone)]
pub struct Args {
    /// Directory to scan for projects (defaults to current directory)
    pub directory: String,
    /// Preview mode - show what would be deleted without actually deleting
    pub dry_run: bool,
    /// Skip confirmation prompts and proceed with deletion
    pub yes: bool,
    /// Interactive selection mode - choose which projects to clean
    pub interactive: bool,
    /// Additional directory patterns to clean (can be repeated)
    pub extra_patterns: Vec<String>,
    /// Directory patterns to skip (can be repeated)
    pub exclude: Vec<String>,
    /// Filter by project type (can be repeated for multiple types)
    pub lang: Vec<ProjectFilter>,
    /// Only consider projects not modified in the last N days
    pub min_age: Option<u64>,
    /// Only consider artifacts above this size (e.g., "100MB", "1GB")
    pub min_size: Option<String>,
    /// Enable verbose output
    pub verbose: bool,
    /// Also scan user-level caches (AI models, package managers, IDE caches)
    pub user_caches: bool,
    /// Only scan user caches, skip project build artifacts
    pub cache_only: bool,
    /// Filter cache categories (can be repeated: ai-ml, package, dev, ide, container)
    pub cache_category: Vec<CacheFilter>,
    /// Generate a shell script instead of deleting directly
    pub script: Option<String>,
    /// Launch web UI dashboard instead of terminal output
    pub serve: bool,
    /// Port for web UI server (default: 8080)
    pub port: u16,
    /// Don't automatically open browser when starting web UI
    pub no_open: bool,
}

/// Multiplier of a size unit (already trimmed and upper-cased).
pub open spec fn unit_multiplier(unit: Seq<char>) -> Option<u64> {
    if unit == "B"@ || unit == ""@ {
        Some(1)
    } else if unit == "KB"@ || unit == "K"@ {
        Some(1_000)
    } else if unit == "KIB"@ {
        Some(1_024)
    } else if unit == "MB"@ || unit == "M"@ {
        Some(1_000_000)
    } else if unit == "MIB"@ {
        Some(1_048_576)
    } else if unit == "GB"@ || unit == "G"@ {
        Some(1_000_000_000)
    } else if unit == "GIB"@ {
        Some(1_073_741_824)
    } else if unit == "TB"@ || unit == "T"@ {
        Some(1_000_000_000_000)
    } else if unit == "TIB"@ {
        Some(1_099_511_627_776)
    } else {
        None
    }
}

/// Position of the first alphabetic character of `t`, if any.
pub open spec fn first_alphabetic(t: Seq<char>) -> Option<int> {
    if exists|i: int| is_first_alphabetic(t, i) {
        Some(choose|i: int| is_first_alphabetic(t, i))
    } else {
        None
    }
}

pub open spec fn is_first_alphabetic(t: Seq<char>, i: int) -> bool {
    &&& 0 <= i < t.len()
    &&& alphabetic(t[i])
    &&& forall|j: int| 0 <= j < i ==> !alphabetic(#[trigger] t[j])
}

/// A size text split into its number part and its unit's multiplier: the text
/// is trimmed and upper-cased; the unit starts at the first alphabetic
/// character ("B" if there is none) and is trimmed; an unknown unit gives none.
pub open spec fn size_parts_of(s: Seq<char>) -> Option<(Seq<char>, u64)> {
    let t = uppercase_of(trimmed(s));
    let (num, unit) = match first_alphabetic(t) {
        Some(i) => (t.subrange(0, i), t.subrange(i, t.len() as int)),
        None => (t, "B"@),
    };
    match unit_multiplier(trimmed(unit)) {
        Some(m) => Some((num, m)),
        None => None,
    }
}

/// The multiplier of a size unit (already trimmed and upper-cased).
pub fn size_unit_multiplier(unit: &str) -> (r: Option<u64>)
    ensures
        r == unit_multiplier(unit@),
{
    if str_equal(unit, "B") || str_equal(unit, "") {
        Some(1)
    } else if str_equal(unit, "KB") || str_equal(unit, "K") {
        Some(1_000)
    } else if str_equal(unit, "KIB") {
        Some(1_024)
    } else if str_equal(unit, "MB") || str_equal(unit, "M") {
        Some(1_000_000)
    } else if str_equal(unit, "MIB") {
        Some(1_048_576)
    } else if str_equal(unit, "GB") || str_equal(unit, "G") {
        Some(1_000_000_000)
    } else if str_equal(unit, "GIB") {
        Some(1_073_741_824)
    } else if str_equal(unit, "TB") || str_equal(unit, "T") {
        Some(1_000_000_000_000)
    } else if str_equal(unit, "TIB") {
        Some(1_099_511_627_776)
    } else {
        None
    }
}

/// Splits a human-readable size such as "100MB" or "1.5 GiB" into the text of
/// its number and the multiplier of its unit (see `size_parts_of`). Reading
/// the number itself is left to the caller.
pub fn size_parts(s: &str) -> (r: Option<(String, u64)>)
    ensures
        match r {
            Some((num, m)) => size_parts_of(s@) == Some((num@, m)),
            None => size_parts_of(s@).is_none(),
        },
{
    let trimmed_s = trim(s);
    let t = to_uppercase(trimmed_s.as_str());
    let cs = chars_of(t.as_str());
    let n = cs.len();
    let mut i: usize = 0;
    let mut found = false;
    while i < n && !found
        invariant
            n == cs@.len(),
            cs@ == t@,
            0 <= i <= n,
            forall|j: int| 0 <= j < i ==> !alphabetic(#[trigger] cs@[j]),
            found ==> i < n && alphabetic(cs@[i as int]),
        decreases n - i + if found { 0int } else { 1int },
    {
        if is_alphabetic(cs[i]) {
            found = true;
        } else {
            i = i + 1;
        }
    }
    let ghost tv = t@;
    let (num, unit) = if found {
        assert(is_first_alphabetic(tv, i as int));
        proof {
            let k = choose|k: int| is_first_alphabetic(tv, k);
            if k < i {
                assert(!alphabetic(tv[k]));
            } else if k > i {
                assert(!alphabetic(tv[i as int]));
            }
        }
        let t_str = t.as_str();
        (String::from_str(t_str.substring_char(0, i)), String::from_str(t_str.substring_char(i, n)))
    } else {
        assert(forall|k: int| !is_first_alphabetic(tv, k));
        (t.clone(), String::from_str("B"))
    };
    let unit_t = trim(unit.as_str());
    match size_unit_multiplier(unit_t.as_str()) {
        Some(m) => Some((num, m)),
        None => None,
    }
}

} // verus!
