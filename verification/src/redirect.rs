//! The host-redirect filter's decision: a request whose `Host` header is
//! `p.z.cash` is answered at once with a temporary redirect to
//! `https://protocol.z.cash` keeping path and query; every other request is
//! handed to the wrapped service untouched.

use vstd::prelude::*;

verus! {

use vstd::string::StringExecFns;
use crate::strutil::str_eq;
use crate::strutil::view_str_opt;

/// Whether the request's host header names the old domain.
pub open spec fn host_matches(host: Option<Seq<char>>) -> bool {
    host == Option::Some("p.z.cash"@)
}

/// The target of the redirect: the new authority with the request's own path
/// and query kept verbatim.
pub open spec fn redirect_location_of(path_and_query: Seq<char>) -> Seq<char> {
    "https://protocol.z.cash"@ + path_and_query
}

/// What the filter does with one request: either answer at once with a
/// redirect, or hand the request to the wrapped service.
pub enum RedirectAction {
    Redirect { status: u16, location: String },
    Serve,
}

/// Redirects `p.z.cash` to `https://protocol.z.cash`; wraps the service that
/// handles every other request.
pub struct RedirectDomain<S> {
    pub inner: S,
}

impl<S> RedirectDomain<S> {
    pub fn new(inner: S) -> (r: Self)
        ensures
            r.inner == inner,
    {
        Self { inner }
    }
}

/// Decides one request from its host header and its path-and-query text. On
/// the old domain the action is a temporary redirect (status 307) whose
/// location keeps path and query verbatim; on any other host, including an
/// absent header, the wrapped service serves the request.
pub fn redirect_decision(host: Option<&str>, path_and_query: &str) -> (r: RedirectAction)
    ensures
        host_matches(view_str_opt(host)) ==> (r matches RedirectAction::Redirect {
            status,
            location,
        } && status == 307 && location@ == redirect_location_of(path_and_query@)),
        !host_matches(view_str_opt(host)) ==> (r matches RedirectAction::Serve),
{
    if let Option::Some(h) = host {
        if str_eq(h, "p.z.cash") {
            let mut location = "https://protocol.z.cash".to_owned();
            location.append(path_and_query);
            return RedirectAction::Redirect { status: 307, location };
        }
    }
    RedirectAction::Serve
}

} // verus!
