use vstd::prelude::*;
use crate::guard::{verdict, verdict_for, Verdict};
use crate::request::Request;
use crate::version::{resolution, resolved, RejectReason, RequestedVersion, VersionError};

verus! {

/// Where a request goes among the routes registered for its path.
#[derive(Clone, Copy, Debug, PartialEq, Eq, Structural)]
pub enum Routed {
    /// The route at this index accepted the request.
    Matched(usize),
    /// The first guard rejected the request; no other route is tried.
    Rejected(RejectReason),
    /// Every guard passed the request on (or there is no route).
    Unmatched,
}

/// `r` is where a request whose version resolved to `res` goes among routes
/// guarded by the versions `routes`, tried in order: the first route whose
/// version equals the requested major and minor version, a rejection when the
/// version could not be read, and no route when none matches or there is none.
pub open spec fn routes_to(routes: Seq<(u64, u64)>, res: Result<(u64, u64, u64), RejectReason>, r: Routed) -> bool {
    match r {
        Routed::Matched(i) => {
            &&& res is Ok
            &&& 0 <= i < routes.len()
            &&& routes[i as int] == (res->Ok_0.0, res->Ok_0.1)
            &&& forall|j: int| 0 <= j < i ==> routes[j] != (res->Ok_0.0, res->Ok_0.1)
        },
        Routed::Rejected(reason) => routes.len() > 0 && res == Err::<(u64, u64, u64), RejectReason>(reason),
        Routed::Unmatched => routes.len() == 0 || (res is Ok && forall|j: int|
            0 <= j < routes.len() ==> routes[j] != (res->Ok_0.0, res->Ok_0.1)),
    }
}

/// Tries the guards of `routes` in order on a request whose version has been
/// resolved to `version`.
pub fn route_version(routes: &Vec<(u64, u64)>, version: &Result<RequestedVersion, VersionError>) -> (r: Routed)
    ensures
        routes_to(routes@, resolved(*version), r),
{
    if routes.len() == 0 {
        return Routed::Unmatched;
    }
    let mut i: usize = 0;
    while i < routes.len()
        invariant
            0 <= i <= routes@.len(),
            routes@.len() > 0,
            forall|j: int|
                0 <= j < i ==> verdict(routes@[j].0, routes@[j].1, resolved(*version)) == Verdict::Skip,
        decreases routes@.len() - i,
    {
        let (major, minor) = routes[i];
        match verdict_for(major, minor, version) {
            Verdict::Accept => {
                return Routed::Matched(i);
            },
            Verdict::Reject(reason) => {
                return Routed::Rejected(reason);
            },
            Verdict::Skip => {},
        }
        i = i + 1;
    }
    assert(verdict(routes@[0].0, routes@[0].1, resolved(*version)) == Verdict::Skip);
    Routed::Unmatched
}

/// Tries the guards of `routes` (each a required major and minor version) in
/// order on `req`: the first that accepts takes the request, a rejection ends
/// the search, and a skip moves on to the next route.
pub fn dispatch(routes: &Vec<(u64, u64)>, req: &mut Request) -> (r: Routed)
    requires
        old(req).wf(),
    ensures
        final(req).wf(),
        final(req).header() == old(req).header(),
        old(req).is_resolved() ==> *final(req) == *old(req),
        final(req).parse_count() <= 1,
        routes_to(routes@, resolution(old(req).header()), r),
{
    let version = req.version();
    route_version(routes, version)
}

} // verus!
