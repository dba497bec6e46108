//! The client-side error of a traced request, and the classification of a
//! response body: a body that reports an error becomes an `AppError`, and
//! a timeout is recognized by its message, which decides whether a retry
//! is worth attempting.

use vstd::prelude::*;
use vstd::string::StrSliceExecFns;
use vstd::string::StringExecFns;

verus! {

/// Whether `needle` occurs in `hay` starting at position `i`.
pub open spec fn contains_at(hay: Seq<char>, needle: Seq<char>, i: int) -> bool {
    0 <= i && i + needle.len() <= hay.len() && hay.subrange(i, i + needle.len()) == needle
}

/// Whether `needle` occurs anywhere in `hay`.
pub open spec fn spec_contains(hay: Seq<char>, needle: Seq<char>) -> bool {
    exists|i: int| contains_at(hay, needle, i)
}

/// Whether `needle` occurs in `hay` at exactly position `i`.
#[verifier::loop_isolation(false)]
fn match_at(hay: &str, needle: &str, i: usize) -> (r: bool)
    requires
        i + needle@.len() <= hay@.len(),
        hay@.len() <= usize::MAX,
    ensures
        r == (hay@.subrange(i as int, i + needle@.len()) == needle@),
{
    let m = needle.unicode_len();
    let mut j: usize = 0;
    while j < m
        invariant
            0 <= j <= m,
            forall|k: int| 0 <= k < j ==> hay@[i + k] == needle@[k],
        decreases m - j,
    {
        if hay.get_char(i + j) != needle.get_char(j) {
            proof {
                assert(hay@.subrange(i as int, i + needle@.len())[j as int] == hay@[i + j]);
            }
            return false;
        }
        j = j + 1;
    }
    proof {
        assert(hay@.subrange(i as int, i + needle@.len()) =~= needle@);
    }
    true
}

/// Substring search, character by character.
#[verifier::loop_isolation(false)]
pub fn str_contains(hay: &str, needle: &str) -> (r: bool)
    ensures
        r == spec_contains(hay@, needle@),
{
    let n = hay.unicode_len();
    let m = needle.unicode_len();
    if m == 0 {
        proof {
            assert(hay@.subrange(0, 0) =~= needle@);
            assert(contains_at(hay@, needle@, 0));
        }
        return true;
    }
    if m > n {
        proof {
            assert forall|k: int| !contains_at(hay@, needle@, k) by {}
        }
        return false;
    }
    let mut i: usize = 0;
    while i <= n - m
        invariant
            0 <= i <= n - m + 1,
            forall|k: int| 0 <= k < i ==> !contains_at(hay@, needle@, k),
        decreases n + 1 - m - i,
    {
        if match_at(hay, needle, i) {
            proof {
                assert(contains_at(hay@, needle@, i as int));
            }
            return true;
        }
        i = i + 1;
    }
    proof {
        assert forall|k: int| !contains_at(hay@, needle@, k) by {
            if 0 <= k < i {
            }
        }
    }
    false
}

/// What a traced request can fail with, carrying the provider's message.
#[derive(Debug, Clone, PartialEq)]
pub struct AppError {
    message: String,
}

impl AppError {
    /// The message, as characters.
    pub closed spec fn msg(&self) -> Seq<char> {
        self.message@
    }

    pub fn new(message: String) -> (r: AppError)
        ensures
            r.msg() == message@,
    {
        AppError { message }
    }

    /// Whether the failure was a timeout, which a retry may cure.
    pub fn is_timeout(&self) -> (r: bool)
        ensures
            r == spec_contains(self.msg(), "timeout"@),
    {
        str_contains(self.message.as_str(), "timeout")
    }

    /// The message, for a caller that reports the failure.
    pub fn message(&self) -> (r: String)
        ensures
            r@ == self.msg(),
    {
        self.message.clone()
    }
}

/// Classify a response body: one that reports an error fails the request,
/// any other is the request's result.
pub fn classify_body(body: String) -> (r: Result<String, AppError>)
    ensures
        spec_contains(body@, "error"@) ==> (r matches Err(e) && e.msg() == "error"@),
        !spec_contains(body@, "error"@) ==> (r matches Ok(b) && b@ == body@),
{
    if str_contains(body.as_str(), "error") {
        Err(AppError::new(String::from_str("error")))
    } else {
        Ok(body)
    }
}

} // verus!
