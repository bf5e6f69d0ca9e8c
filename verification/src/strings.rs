//! Character-level string helpers.

use vstd::prelude::*;
use vstd::string::StrSliceExecFns;

verus! {

/// Relies on `String::push`: appends exactly the one character.
#[verifier::external_body]
pub(crate) fn push_char(s: &mut String, c: char)
    ensures
        (*final(s))@ == (*old(s))@.push(c),
{
    s.push(c);
}

/// The text with every backtick turned into a straight quote, so that
/// user-entered names cannot break out of a code span in a rendered
/// notification.
pub open spec fn spec_without_backticks(s: Seq<char>) -> Seq<char> {
    s.map_values(
        |c: char|
            if c == '`' {
                '\''
            } else {
                c
            },
    )
}

/// Replaces every backtick with a straight quote.
pub fn without_backticks(s: &str) -> (r: String)
    ensures
        r@ == spec_without_backticks(s@),
{
    let n = s.unicode_len();
    let mut out = String::new();
    let mut i: usize = 0;
    while i < n
        invariant
            i <= n,
            n == s@.len(),
            out@ == spec_without_backticks(s@.take(i as int)),
        decreases n - i,
    {
        let c = s.get_char(i);
        if c == '`' {
            push_char(&mut out, '\'');
        } else {
            push_char(&mut out, c);
        }
        i += 1;
        proof {
            assert(out@ =~= spec_without_backticks(s@.take(i as int)));
        }
    }
    proof {
        assert(s@.take(n as int) =~= s@);
    }
    out
}

} // verus!
