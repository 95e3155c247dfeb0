//! Calls whose results come from the standard library's path and clock
//! handling, the `dirs` crate and the `unicode-width` tables.

use vstd::prelude::*;
use crate::text::ascii_lower;

verus! {

#[verifier::external_type_specification]
#[verifier::external_body]
pub struct ExInstant(std::time::Instant);

/// The last component of a path, as `Path::file_name` gives it.
pub uninterp spec fn file_name_of(path: Seq<char>) -> Option<Seq<char>>;

/// The extension of a path, as `Path::extension` gives it.
pub uninterp spec fn extension_of(path: Seq<char>) -> Option<Seq<char>>;

/// The path `PathBuf::join` builds from `base` and `rel`.
pub uninterp spec fn joined_path(base: Seq<char>, rel: Seq<char>) -> Seq<char>;

/// The first character of `char::to_lowercase`.
pub uninterp spec fn lowercase_first(c: char) -> char;

/// `str::to_lowercase`.
pub uninterp spec fn lowercase_text(s: Seq<char>) -> Seq<char>;

/// `UnicodeWidthStr::width`.
pub uninterp spec fn text_width_of(s: Seq<char>) -> usize;

/// `Path::file_name` of `path`, as text.
#[verifier::external_body]
pub(crate) fn path_file_name(path: &str) -> (r: Option<String>)
    ensures
        match r {
            Some(n) => file_name_of(path@) == Some(n@),
            None => file_name_of(path@) is None,
        },
{
    std::path::Path::new(path).file_name().and_then(|n| n.to_str()).map(|n| n.to_string())
}

/// `Path::extension` of `path`, as text.
#[verifier::external_body]
pub(crate) fn path_extension(path: &str) -> (r: Option<String>)
    ensures
        match r {
            Some(n) => extension_of(path@) == Some(n@),
            None => extension_of(path@) is None,
        },
{
    std::path::Path::new(path).extension().and_then(|n| n.to_str()).map(|n| n.to_string())
}

/// `Path::exists`; what it returns depends on the file system at the moment
/// of the call, so nothing is stated of it.
#[verifier::external_body]
pub(crate) fn path_exists(path: &str) -> (r: bool) {
    std::path::Path::new(path).exists()
}

/// `PathBuf::join` of `rel` onto `base`, as text (lossy for non-UTF-8).
#[verifier::external_body]
pub(crate) fn path_join(base: &str, rel: &str) -> (r: String)
    ensures
        r@ == joined_path(base@, rel@),
{
    std::path::Path::new(base).join(rel).to_string_lossy().to_string()
}

/// `dirs::home_dir`, as text; it reads the environment, so nothing is stated
/// of what it returns.
#[verifier::external_body]
pub(crate) fn home_dir() -> (r: Option<String>) {
    dirs::home_dir().map(|p| p.to_string_lossy().to_string())
}

/// `Instant::now`; what it returns depends on the clock.
#[verifier::external_body]
pub(crate) fn instant_now() -> (r: std::time::Instant) {
    std::time::Instant::now()
}

/// `Instant::elapsed`; what it returns depends on the clock.
#[verifier::external_body]
pub(crate) fn instant_elapsed(t: &std::time::Instant) -> (r: std::time::Duration) {
    t.elapsed()
}

/// `Duration::as_secs`; `Duration` is opaque here, so nothing is stated of
/// the number of seconds.
#[verifier::external_body]
pub(crate) fn duration_secs(d: &std::time::Duration) -> (r: u64) {
    d.as_secs()
}

/// The first character of `char::to_lowercase` (which always yields at least
/// one); ASCII characters map as `to_ascii_lowercase` does.
#[verifier::external_body]
pub(crate) fn char_lowercase(c: char) -> (r: char)
    ensures
        r == lowercase_first(c),
        (c as u32) < 128 ==> r == ascii_lower(c),
{
    c.to_lowercase().next().unwrap_or(c)
}

/// `str::to_lowercase`.
#[verifier::external_body]
pub(crate) fn text_lowercase(s: &str) -> (r: String)
    ensures
        r@ == lowercase_text(s@),
{
    s.to_lowercase()
}

/// `UnicodeWidthStr::width`.
#[verifier::external_body]
pub(crate) fn text_width(s: &str) -> (r: usize)
    ensures
        r == text_width_of(s@),
{
    unicode_width::UnicodeWidthStr::width(s)
}

} // verus!
