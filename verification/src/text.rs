//! Text inspection for error classification: lower-casing (through the
//! standard library) and a verified substring search.

use vstd::prelude::*;

verus! {

/// The sequence of characters of the lower-cased form of `s`, as
/// `str::to_lowercase` computes it. Its value depends on `s` alone.
pub uninterp spec fn lower_of(s: Seq<char>) -> Seq<char>;

/// Relies on `str::to_lowercase`: the lower-cased form of a string depends on
/// its characters alone. The characters of the result are handed back as a
/// vector (collecting an iterator changes only the container).
#[verifier::external_body]
pub(crate) fn lowercase_chars(s: &str) -> (r: Vec<char>)
    ensures
        r@ == lower_of(s@),
{
    s.to_lowercase().chars().collect()
}

/// Relies on `str::chars`: it yields exactly the characters of the string,
/// in order; collecting them changes only the container.
#[verifier::external_body]
pub(crate) fn str_chars(s: &str) -> (r: Vec<char>)
    ensures
        r@ == s@,
{
    s.chars().collect()
}

/// `needle` occurs contiguously somewhere in `hay`.
pub open spec fn contains_seq(hay: Seq<char>, needle: Seq<char>) -> bool {
    exists|i: int|
        0 <= i && i + needle.len() <= hay.len() && #[trigger] hay.subrange(i, i + needle.len())
            == needle
}

/// Whether `needle` occurs in `hay` starting at position `at`.
fn matches_at(hay: &Vec<char>, needle: &Vec<char>, at: usize) -> (r: bool)
    requires
        at + needle@.len() <= hay@.len(),
    ensures
        r == (hay@.subrange(at as int, at as int + needle@.len() as int) == needle@),
{
    let n = needle.len();
    let hlen = hay.len();
    let mut k: usize = 0;
    while k < n
        invariant
            n == needle@.len(),
            hlen == hay@.len(),
            at + n <= hlen,
            k <= n,
            forall|t: int| 0 <= t < k ==> hay@[at + t] == needle@[t],
        decreases n - k,
    {
        if hay[at + k] != needle[k] {
            proof {
                let sub = hay@.subrange(at as int, at as int + needle@.len() as int);
                assert(sub[k as int] == hay@[at + k]);
            }
            return false;
        }
        k += 1;
    }
    proof {
        assert(hay@.subrange(at as int, at as int + needle@.len() as int) =~= needle@);
    }
    true
}

/// Verified substring search: whether `needle` occurs contiguously in `hay`.
pub fn contains_chars(hay: &Vec<char>, needle: &Vec<char>) -> (r: bool)
    ensures
        r == contains_seq(hay@, needle@),
{
    let nlen = needle.len();
    let hlen = hay.len();
    if nlen > hlen {
        return false;
    }
    if nlen == 0 {
        proof {
            assert(hay@.subrange(0, 0 + needle@.len() as int) =~= needle@);
        }
        return true;
    }
    let mut i: usize = 0;
    while i <= hlen - nlen
        invariant
            nlen == needle@.len(),
            hlen == hay@.len(),
            1 <= nlen <= hlen,
            i <= hlen - nlen + 1,
            forall|j: int|
                0 <= j < i ==> #[trigger] hay@.subrange(j, j + needle@.len() as int) != needle@,
        decreases hlen - nlen + 1 - i,
    {
        if matches_at(hay, needle, i) {
            return true;
        }
        i += 1;
    }
    false
}

/// The classification of an already lower-cased error text: it is retryable
/// when it mentions a rate limit, a timeout or a connection problem, or when
/// it mentions both "server" and "50" (a server-side 5xx-class status).
pub open spec fn spec_retryable_text(t: Seq<char>) -> bool {
    contains_seq(t, "rate limit"@) || contains_seq(t, "timeout"@)
        || contains_seq(t, "connection"@)
        || (contains_seq(t, "server"@) && contains_seq(t, "50"@))
}

/// Classifies an already lower-cased error text, given as its characters.
pub fn retryable_chars(t: &Vec<char>) -> (r: bool)
    ensures
        r == spec_retryable_text(t@),
{
    let rate_limit = str_chars("rate limit");
    let timeout = str_chars("timeout");
    let connection = str_chars("connection");
    let server = str_chars("server");
    let fifty = str_chars("50");
    contains_chars(t, &rate_limit) || contains_chars(t, &timeout) || contains_chars(
        t,
        &connection,
    ) || (contains_chars(t, &server) && contains_chars(t, &fifty))
}

/// Classifies an already lower-cased error text as retryable or not.
pub fn retryable_text(t: &str) -> (r: bool)
    ensures
        r == spec_retryable_text(t@),
{
    let chars = str_chars(t);
    retryable_chars(&chars)
}

} // verus!
