//! The decoding rule for the `partial` query parameter: an absent or empty
//! value means `true`; any other value must read exactly `true` or `false`,
//! and anything else is an error.

use vstd::prelude::*;

verus! {

use crate::strutil::str_eq;
use crate::strutil::view_str_opt;

/// Error for a `partial` query value that is not a boolean.
#[derive(Debug, Clone, Copy, PartialEq, Eq)]
pub struct InvalidBool;

/// What the `partial` query parameter decodes to: absent or empty means
/// `true`; otherwise exactly `true` or `false`; anything else is an error.
pub open spec fn partial_of(v: Option<Seq<char>>) -> Result<bool, InvalidBool> {
    match v {
        Option::None => Result::Ok(true),
        Option::Some(s) => if s.len() == 0 {
            Result::Ok(true)
        } else if s == "true"@ {
            Result::Ok(true)
        } else if s == "false"@ {
            Result::Ok(false)
        } else {
            Result::Err(InvalidBool)
        },
    }
}

/// Maps an absent or empty `partial` value to `true`, and any other value
/// through boolean parsing.
pub fn empty_string_as_true(value: Option<&str>) -> (r: Result<bool, InvalidBool>)
    ensures
        r == partial_of(view_str_opt(value)),
{
    match value {
        Option::None => Result::Ok(true),
        Option::Some(s) => {
            if s.is_empty() {
                Result::Ok(true)
            } else if str_eq(s, "true") {
                Result::Ok(true)
            } else if str_eq(s, "false") {
                Result::Ok(false)
            } else {
                Result::Err(InvalidBool)
            }
        },
    }
}

} // verus!
