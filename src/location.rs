//! Which paths name a cloud location or a glob pattern.
//!
//! The scan backends of this build read local files only, and stop the
//! process on some cloud locations instead of reporting an error; these
//! tests let resolution refuse such paths first.
use vstd::prelude::*;

verus! {

/// `s` begins with `p`.
pub open spec fn starts_with(s: Seq<char>, p: Seq<char>) -> bool {
    p.len() <= s.len() && s.subrange(0, p.len() as int) == p
}

/// The path begins with the scheme of a cloud store or of a URL, followed by
/// `://`.
pub open spec fn is_cloud_url(path: Seq<char>) -> bool {
    starts_with(path, "s3://"@) || starts_with(path, "s3a://"@) || starts_with(path, "gs://"@)
        || starts_with(path, "gcs://"@) || starts_with(path, "file://"@) || starts_with(
        path,
        "abfs://"@,
    ) || starts_with(path, "abfss://"@) || starts_with(path, "azure://"@) || starts_with(
        path,
        "az://"@,
    ) || starts_with(path, "adl://"@) || starts_with(path, "http://"@) || starts_with(
        path,
        "https://"@,
    )
}

/// The path holds a glob character: `*`, `?` or `[`.
pub open spec fn has_glob_char(path: Seq<char>) -> bool {
    path.contains('*') || path.contains('?') || path.contains('[')
}

/// Whether `s` begins with `p`.
fn has_prefix(s: &str, p: &str) -> (r: bool)
    ensures
        r == starts_with(s@, p@),
{
    let n = p.unicode_len();
    if n > s.unicode_len() {
        return false;
    }
    let mut i: usize = 0;
    while i < n
        invariant
            n == p@.len(),
            n <= s@.len(),
            i <= n,
            forall|j: int| 0 <= j < i ==> s@[j] == p@[j],
        decreases n - i,
    {
        if s.get_char(i) != p.get_char(i) {
            assert(s@.subrange(0, n as int)[i as int] != p@[i as int]);
            return false;
        }
        i = i + 1;
    }
    assert(s@.subrange(0, n as int) =~= p@);
    true
}

/// Whether `s` holds the character `c`.
fn has_char(s: &str, c: char) -> (r: bool)
    ensures
        r == s@.contains(c),
{
    let n = s.unicode_len();
    let mut i: usize = 0;
    while i < n
        invariant
            n == s@.len(),
            i <= n,
            forall|j: int| 0 <= j < i ==> s@[j] != c,
        decreases n - i,
    {
        if s.get_char(i) == c {
            return true;
        }
        i = i + 1;
    }
    false
}

/// Whether the path names a cloud location.
pub fn cloud_url(path: &str) -> (r: bool)
    ensures
        r == is_cloud_url(path@),
{
    has_prefix(path, "s3://") || has_prefix(path, "s3a://") || has_prefix(path, "gs://")
        || has_prefix(path, "gcs://") || has_prefix(path, "file://") || has_prefix(path, "abfs://")
        || has_prefix(path, "abfss://") || has_prefix(path, "azure://") || has_prefix(path, "az://")
        || has_prefix(path, "adl://") || has_prefix(path, "http://") || has_prefix(path, "https://")
}

/// Whether the path holds a glob character.
pub fn glob_pattern(path: &str) -> (r: bool)
    ensures
        r == has_glob_char(path@),
{
    has_char(path, '*') || has_char(path, '?') || has_char(path, '[')
}

} // verus!
