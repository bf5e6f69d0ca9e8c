//! Types shared with the database layer.
//!
//! Connection handling lives with the persistence collaborator; the one
//! thing the engine itself carries is the case-insensitive text wrapper
//! that database rows use for names.

use vstd::prelude::*;

verus! {

/// Text stored under a case-insensitive collation. The wrapper only marks
/// the collation; the bytes themselves pass through unchanged.
#[derive(Clone, Debug)]
pub struct CiText(String);

impl CiText {
    /// The text this value wraps.
    pub closed spec fn spec_str(self) -> Seq<char> {
        self.0@
    }

    /// Unwraps into the owned text.
    pub fn string(self) -> (r: String)
        ensures
            r@ == self.spec_str(),
    {
        self.0
    }

    /// Borrows the text.
    pub fn str(&self) -> (r: &str)
        ensures
            r@ == self.spec_str(),
    {
        self.0.as_str()
    }

    /// Wraps owned text.
    pub fn wrap(s: String) -> (r: Self)
        ensures
            r.spec_str() == s@,
    {
        CiText(s)
    }
}

} // verus!
