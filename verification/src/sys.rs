//! Calls into std and outside crates whose results the library takes as given.
//!
//! Each function here is trusted: Verus believes its contract without reading
//! its body. The doc comment of each says what is claimed of the call.
use vstd::prelude::*;
use crate::text::decimal_text;

verus! {

/// What `bytesize::ByteSize(n).to_string()` renders for `n` bytes.
pub uninterp spec fn byte_size_text(n: u64) -> Seq<char>;

/// The last component of a path, as `std::path::Path::file_name` gives it.
pub uninterp spec fn file_name_of(path: Seq<char>) -> Option<Seq<char>>;

/// `base` joined with `rel`, as `std::path::Path::join` gives it.
pub uninterp spec fn joined_path(base: Seq<char>, rel: Seq<char>) -> Seq<char>;

/// `str::to_lowercase` of a string.
pub uninterp spec fn lowercase_of(s: Seq<char>) -> Seq<char>;

/// `str::to_uppercase` of a string.
pub uninterp spec fn uppercase_of(s: Seq<char>) -> Seq<char>;

/// `str::trim` of a string.
pub uninterp spec fn trimmed(s: Seq<char>) -> Seq<char>;

/// `char::is_alphabetic` of a character.
pub uninterp spec fn alphabetic(c: char) -> bool;

/// Human-readable size through `bytesize::ByteSize`'s `Display`.
///
/// Claimed: the text depends on `n` alone; below 1000 bytes the crate's
/// source (`to_string` in bytesize 1.3) formats it as `"{} B"`. The rounding
/// and unit choice above that are left to the crate and not stated.
#[verifier::external_body]
pub fn byte_size_display(n: u64) -> (r: String)
    ensures
        r@ == byte_size_text(n),
        n < 1000 ==> r@ == decimal_text(n as nat) + " B"@,
{
    bytesize::ByteSize(n).to_string()
}

/// Seconds since the Unix epoch from `SystemTime::now().duration_since(UNIX_EPOCH)`.
///
/// Nothing is claimed of the reading: it depends on the machine's clock, and is
/// `None` when the clock is set before the epoch.
#[verifier::external_body]
pub fn system_clock_secs() -> (r: Option<u64>) {
    std::time::SystemTime::now().duration_since(std::time::UNIX_EPOCH).ok().map(|d| d.as_secs())
}

/// `dirs::home_dir()`, converted to a string.
///
/// Nothing is claimed of the result: it depends on the environment of the
/// process (`$HOME` on Unix).
#[verifier::external_body]
pub fn home_directory() -> (r: Option<String>) {
    dirs::home_dir().map(|p| p.to_string_lossy().into_owned())
}

/// `std::path::Path::new(path).file_name()`, converted to a string.
///
/// Claimed: the result depends on `path` alone.
#[verifier::external_body]
pub fn path_file_name(path: &str) -> (r: Option<String>)
    ensures
        match r {
            Some(name) => file_name_of(path@) == Some(name@),
            None => file_name_of(path@) == None::<Seq<char>>,
        },
{
    std::path::Path::new(path).file_name().map(|s| s.to_string_lossy().into_owned())
}

/// `std::path::Path::new(base).join(rel)`, converted to a string.
///
/// Claimed: the result depends on `base` and `rel` alone.
#[verifier::external_body]
pub fn join_path(base: &str, rel: &str) -> (r: String)
    ensures
        r@ == joined_path(base@, rel@),
{
    std::path::Path::new(base).join(rel).to_string_lossy().into_owned()
}

/// `str::to_lowercase`.
///
/// Claimed: the result depends on `s` alone.
#[verifier::external_body]
pub fn to_lowercase(s: &str) -> (r: String)
    ensures
        r@ == lowercase_of(s@),
{
    s.to_lowercase()
}

/// `str::to_uppercase`.
///
/// Claimed: the result depends on `s` alone.
#[verifier::external_body]
pub fn to_uppercase(s: &str) -> (r: String)
    ensures
        r@ == uppercase_of(s@),
{
    s.to_uppercase()
}

/// `str::trim`, copied into a new string.
///
/// Claimed: the result depends on `s` alone.
#[verifier::external_body]
pub fn trim(s: &str) -> (r: String)
    ensures
        r@ == trimmed(s@),
{
    s.trim().to_string()
}

/// `char::is_alphabetic`.
///
/// Claimed: the result depends on `c` alone.
#[verifier::external_body]
pub fn is_alphabetic(c: char) -> (r: bool)
    ensures
        r == alphabetic(c),
{
    c.is_alphabetic()
}

} // verus!
