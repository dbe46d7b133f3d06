//! Normalized URL path fragments.
//!
//! A path-like setting (`public_path`, `short_path`) is stored with at most
//! one trailing `/` stripped, so that downstream consumers can concatenate
//! route segments onto it without producing a double slash.

use vstd::prelude::*;

verus! {

/// One application of the trailing-slash strip: drops the last character
/// when it is `/`, and leaves the sequence alone otherwise.
pub open spec fn norm_path(s: Seq<char>) -> Seq<char> {
    if s.len() > 0 && s.last() == '/' {
        s.drop_last()
    } else {
        s
    }
}

/// A URL path prefix in normalized form (no trailing `/`, provided the
/// input carried at most one).
#[derive(Debug, Clone)]
pub struct PublicUrl(pub String);

impl PublicUrl {
    /// Builds a `PublicUrl` from raw text, stripping one trailing `/`.
    pub fn from_str(s: &str) -> (u: PublicUrl)
        ensures
            u.0@ == norm_path(s@),
    {
        let n = s.unicode_len();
        if n > 0 && s.get_char(n - 1) == '/' {
            PublicUrl(String::from_str(s.substring_char(0, n - 1)))
        } else {
            PublicUrl(String::from_str(s))
        }
    }

    /// The normalized text of the path.
    pub fn as_string(&self) -> (r: String)
        ensures
            r@ == self.0@,
    {
        self.0.clone()
    }
}

/// Stripping a trailing slash is idempotent for every input that does not
/// end in two slashes: once the single trailing `/` is gone, a second
/// application changes nothing.
pub proof fn lemma_norm_path_idempotent(s: Seq<char>)
    requires
        !(s.len() >= 2 && s[s.len() - 1] == '/' && s[s.len() - 2] == '/'),
    ensures
        norm_path(norm_path(s)) == norm_path(s),
{
}

} // verus!
