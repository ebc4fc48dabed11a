//! Small verified string helpers shared by the resolver and the redirect
//! filter.

use vstd::prelude::*;

verus! {

use vstd::string::StrSliceExecFns;

/// The view of an optional string: the characters when one is present.
pub open spec fn view_str_opt(value: Option<&str>) -> Option<Seq<char>> {
    match value {
        Option::Some(s) => Option::Some(s@),
        Option::None => Option::None,
    }
}

/// True exactly when the two strings hold the same characters.
pub fn str_eq(a: &str, b: &str) -> (r: bool)
    ensures
        r == (a@ == b@),
{
    let an = a.unicode_len();
    let bn = b.unicode_len();
    if an != bn {
        return false;
    }
    let mut i: usize = 0;
    while i < an
        invariant
            i <= an,
            an == a@.len(),
            an == b@.len(),
            forall|j: int| 0 <= j < i ==> a@[j] == b@[j],
        decreases an - i,
    {
        if a.get_char(i) != b.get_char(i) {
            return false;
        }
        i = i + 1;
    }
    proof {
        assert(a@ =~= b@);
    }
    true
}

} // verus!
