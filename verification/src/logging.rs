//! Display helpers for log lines.
//!
//! User-entered text (usernames, wrong flags) can be arbitrarily long;
//! log lines show a bounded prefix instead, with a marker when something
//! was cut off.

use vstd::prelude::*;
use vstd::string::StrSliceExecFns;

verus! {

/// A bounded prefix of a borrowed string, for display in log lines: the
/// kept text together with whether anything was cut off.
#[derive(Clone, Copy, Debug)]
pub struct Shortened<'a> {
    /// The kept prefix.
    pub text: &'a str,
    /// Whether the original went on beyond the kept prefix.
    pub truncated: bool,
}

/// Whether a string of `len` characters is cut down by [`Shortened::new`]
/// with the given bound.
pub open spec fn spec_shortens(len: nat, max_len: nat) -> bool {
    len >= max_len && max_len >= 3
}

impl<'a> Shortened<'a> {
    /// Creates a displayable shortened string. The lifetime of `string`
    /// determines the lifetime of the result.
    ///
    /// `max_len` bounds the *raw characters* kept: a string of at least
    /// `max_len` characters keeps only the first `max_len - 3` of them
    /// (leaving room for a three-character marker); shorter strings pass
    /// through whole.
    pub fn new(string: &'a str, max_len: usize) -> (r: Self)
        ensures
            r.truncated == spec_shortens(string@.len(), max_len as nat),
            r.truncated ==> r.text@ == string@.subrange(0, max_len - 3),
            !r.truncated ==> r.text@ == string@,
    {
        let count = string.unicode_len();
        if count >= max_len && max_len >= 3 {
            Shortened { text: string.substring_char(0, max_len - 3), truncated: true }
        } else {
            Shortened { text: string, truncated: false }
        }
    }
}

/// A free-standing spelling of [`Shortened::new`].
pub fn shortened(string: &str, max_len: usize) -> (r: Shortened<'_>)
    ensures
        r.truncated == spec_shortens(string@.len(), max_len as nat),
        r.truncated ==> r.text@ == string@.subrange(0, max_len - 3),
        !r.truncated ==> r.text@ == string@,
{
    Shortened::new(string, max_len)
}

} // verus!
