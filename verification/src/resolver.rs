//! The identifier resolver: maps an identifier of the shape
//! `<prefix>[:<anchor>]` to the URL of its place in the matching specification
//! document, or to the empty string when nothing matches.
//!
//! The text before the first colon is the prefix. A prefix equal to the
//! term-code tag `TCR` resolves to the protocol document with the whole
//! identifier as the fragment; a prefix starting with `zip-` resolves, when a
//! colon is present, to the per-ZIP document with the text after the first
//! colon as the fragment. Anything else resolves to the empty string.

use vstd::prelude::*;

verus! {

use vstd::string::StrSliceExecFns;
use vstd::string::StringExecFns;
use crate::strutil::str_eq;

/// Index of the first `':'` in `s`, or `s.len()` when `s` has none.
pub open spec fn first_colon_idx(s: Seq<char>) -> int
    decreases s.len(),
{
    if s.len() == 0 {
        0
    } else if s[0] == ':' {
        0
    } else {
        1 + first_colon_idx(s.drop_first())
    }
}

/// The text before the first colon: the whole of `s` when it has no colon.
pub open spec fn prefix_of(s: Seq<char>) -> Seq<char> {
    s.subrange(0, first_colon_idx(s))
}

/// Whether `s` holds a colon at all.
pub open spec fn has_colon(s: Seq<char>) -> bool {
    first_colon_idx(s) < s.len()
}

/// The text after the first colon; meaningful only when `has_colon(s)`.
pub open spec fn anchor_of(s: Seq<char>) -> Seq<char> {
    s.subrange(first_colon_idx(s) + 1, s.len() as int)
}

/// Whether a prefix starts with the literal `zip-`.
pub open spec fn is_zip_prefix(p: Seq<char>) -> bool {
    &&& p.len() >= 4
    &&& p[0] == 'z'
    &&& p[1] == 'i'
    &&& p[2] == 'p'
    &&& p[3] == '-'
}

/// The location an identifier resolves to: a URL into the specification
/// documents, or the empty sequence when nothing matches.
pub open spec fn location_of(s: Seq<char>) -> Seq<char> {
    if prefix_of(s) == "TCR"@ {
        "https://zips.z.cash/protocol/protocol.pdf#"@ + s
    } else if is_zip_prefix(prefix_of(s)) && has_colon(s) {
        "https://zips.z.cash/"@ + prefix_of(s) + "#"@ + anchor_of(s)
    } else {
        Seq::<char>::empty()
    }
}

/// The first-colon index always lies between zero and the length, so
/// `prefix_of` is a well-formed subrange of any identifier.
pub proof fn lemma_first_colon_bounds(s: Seq<char>)
    ensures
        0 <= first_colon_idx(s) <= s.len(),
    decreases s.len(),
{
    if s.len() == 0 {
    } else if s[0] == ':' {
    } else {
        lemma_first_colon_bounds(s.drop_first());
    }
}

/// A position before which no colon stands, and which holds one or is the end,
/// is the first-colon index.
proof fn lemma_first_colon_at(s: Seq<char>, i: int)
    requires
        0 <= i <= s.len(),
        forall|j: int| 0 <= j < i ==> s[j] != ':',
        i < s.len() ==> s[i] == ':',
    ensures
        first_colon_idx(s) == i,
    decreases s.len(),
{
    if s.len() == 0 {
    } else if s[0] == ':' {
        assert(i == 0) by {
            if i > 0 {
                assert(s[0] != ':');
            }
        }
    } else {
        assert(i >= 1);
        let t = s.drop_first();
        assert(forall|j: int| 0 <= j < i - 1 ==> t[j] == s[j + 1]);
        if i - 1 < t.len() {
            assert(t[i - 1] == s[i]);
        }
        lemma_first_colon_at(t, i - 1);
    }
}

/// Index of the first colon in `s`, or its length when it has none.
fn find_colon(s: &str) -> (r: usize)
    ensures
        r == first_colon_idx(s@),
{
    let n = s.unicode_len();
    let mut i: usize = 0;
    while i < n
        invariant
            i <= n,
            n == s@.len(),
            forall|j: int| 0 <= j < i ==> s@[j] != ':',
        decreases n - i,
    {
        if s.get_char(i) == ':' {
            proof {
                lemma_first_colon_at(s@, i as int);
            }
            return i;
        }
        i = i + 1;
    }
    proof {
        lemma_first_colon_at(s@, n as int);
    }
    n
}

/// Whether `p` starts with the literal `zip-`.
fn starts_with_zip(p: &str) -> (r: bool)
    ensures
        r == is_zip_prefix(p@),
{
    let n = p.unicode_len();
    if n < 4 {
        return false;
    }
    p.get_char(0) == 'z' && p.get_char(1) == 'i' && p.get_char(2) == 'p' && p.get_char(3) == '-'
}

/// An identifier whose prefix is exactly the term-code tag resolves to the
/// protocol document with the whole identifier, colon and anchor included, as
/// the fragment.
pub proof fn lemma_resolve_term_code(s: Seq<char>)
    requires
        prefix_of(s) == "TCR"@,
    ensures
        location_of(s) == "https://zips.z.cash/protocol/protocol.pdf#"@ + s,
{
}

/// An identifier whose prefix starts with `zip-` and which holds a colon
/// resolves to the per-ZIP document with the text after the first colon as
/// the fragment.
pub proof fn lemma_resolve_zip(s: Seq<char>)
    requires
        is_zip_prefix(prefix_of(s)),
        has_colon(s),
    ensures
        location_of(s) == "https://zips.z.cash/"@ + prefix_of(s) + "#"@ + anchor_of(s),
{
    reveal_strlit("TCR");
    assert(prefix_of(s) != "TCR"@);
}

/// An identifier that starts with `zip-` but holds no colon resolves to the
/// empty string.
pub proof fn lemma_resolve_zip_no_colon(s: Seq<char>)
    requires
        is_zip_prefix(s),
        !has_colon(s),
    ensures
        location_of(s) == Seq::<char>::empty(),
{
    lemma_first_colon_bounds(s);
    assert(prefix_of(s) =~= s);
    reveal_strlit("TCR");
    assert(prefix_of(s) != "TCR"@);
}

/// An identifier whose prefix is neither the term-code tag nor a `zip-` tag
/// resolves to the empty string.
pub proof fn lemma_resolve_no_match(s: Seq<char>)
    requires
        prefix_of(s) != "TCR"@,
        !is_zip_prefix(prefix_of(s)),
    ensures
        location_of(s) == Seq::<char>::empty(),
{
}

/// Resolution is a pure function of the identifier alone: equal identifiers
/// resolve to equal locations, so resolving twice yields the same result.
pub proof fn lemma_resolve_idempotent(a: Seq<char>, b: Seq<char>)
    requires
        a == b,
    ensures
        location_of(a) == location_of(b),
{
}

/// Returns the URL to this identifier in its matching protocol specification,
/// or the empty string if no match is found.
pub fn get_location(identifier: &str) -> (r: String)
    ensures
        r@ == location_of(identifier@),
{
    let n = identifier.unicode_len();
    let idx = find_colon(identifier);
    proof {
        lemma_first_colon_bounds(identifier@);
    }
    let prefix = identifier.substring_char(0, idx);
    if str_eq(prefix, "TCR") {
        let mut r = "https://zips.z.cash/protocol/protocol.pdf#".to_owned();
        r.append(identifier);
        proof {
            assert(r@ =~= location_of(identifier@));
        }
        r
    } else if starts_with_zip(prefix) && idx < n {
        let anchor = identifier.substring_char(idx + 1, n);
        let mut r = "https://zips.z.cash/".to_owned();
        r.append(prefix);
        r.append("#");
        r.append(anchor);
        proof {
            assert(r@ =~= location_of(identifier@));
        }
        r
    } else {
        let r = String::new();
        proof {
            assert(r@ =~= location_of(identifier@));
        }
        r
    }
}

} // verus!

