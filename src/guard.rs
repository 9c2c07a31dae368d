use vstd::prelude::*;
use crate::request::Request;
use crate::version::{
    is_version_text, lacks_leading_digit, resolution, resolved, version_consistent, RejectReason,
    RequestedVersion, VersionError,
};

verus! {

/// A route guard that admits requests declaring API version `MAJOR.MINOR`.
#[derive(Debug)]
pub struct Versioning<const MAJOR: u64, const MINOR: u64> {
    major: u64,
    minor: u64,
}

impl<const MAJOR: u64, const MINOR: u64> View for Versioning<MAJOR, MINOR> {
    type V = (u64, u64);

    /// The (major, minor) pair that the guard admits.
    closed spec fn view(&self) -> (u64, u64) {
        (self.major, self.minor)
    }
}

impl<const MAJOR: u64, const MINOR: u64> Versioning<MAJOR, MINOR> {
    #[verifier::type_invariant]
    spec fn inv(self) -> bool {
        self.major == MAJOR && self.minor == MINOR
    }

    /// The guard for version `MAJOR.MINOR`.
    pub fn new() -> (r: Versioning<MAJOR, MINOR>)
        ensures
            r@ == (MAJOR, MINOR),
    {
        Versioning { major: MAJOR, minor: MINOR }
    }

    /// The major version this guard admits.
    pub fn major(&self) -> (r: u64)
        ensures
            r == MAJOR,
            r == self@.0,
    {
        proof {
            use_type_invariant(self);
        }
        self.major
    }

    /// The minor version this guard admits.
    pub fn minor(&self) -> (r: u64)
        ensures
            r == MINOR,
            r == self@.1,
    {
        proof {
            use_type_invariant(self);
        }
        self.minor
    }
}

/// How a guard for one version decides on a request.
#[derive(Clone, Copy, Debug, PartialEq, Eq, Structural)]
pub enum Verdict {
    /// The request declares exactly the guarded major and minor version.
    Accept,
    /// The request declares no usable version: the request fails.
    Reject(RejectReason),
    /// The request declares another version: the next candidate route is tried.
    Skip,
}

/// The verdict of a guard for `major.minor` on a request whose declared
/// version resolved to `res`.
pub open spec fn verdict(major: u64, minor: u64, res: Result<(u64, u64, u64), RejectReason>) -> Verdict {
    match res {
        Err(reason) => Verdict::Reject(reason),
        Ok(t) => if t.0 == major && t.1 == minor {
            Verdict::Accept
        } else {
            Verdict::Skip
        },
    }
}

/// Decides for a guard of version `major.minor` on a resolved request version.
pub fn verdict_for(major: u64, minor: u64, version: &Result<RequestedVersion, VersionError>) -> (r: Verdict)
    ensures
        r == verdict(major, minor, resolved(*version)),
{
    match version {
        Err(VersionError::NotExists) => Verdict::Reject(RejectReason::Missing),
        Err(VersionError::SemverError(_)) => Verdict::Reject(RejectReason::ParseFailure),
        Ok(v) => if v.major == major && v.minor == minor {
            Verdict::Accept
        } else {
            Verdict::Skip
        },
    }
}

/// The outcome of a guard: the guard itself on success.
#[derive(Debug)]
pub enum Outcome<const MAJOR: u64, const MINOR: u64> {
    /// The route may handle the request.
    Accept(Versioning<MAJOR, MINOR>),
    /// The request fails with not-found; no other route is tried.
    Reject(RejectReason),
    /// Another route registered for the path gets the request.
    Skip,
}

impl<const MAJOR: u64, const MINOR: u64> Outcome<MAJOR, MINOR> {
    pub open spec fn verdict(self) -> Verdict {
        match self {
            Outcome::Accept(_) => Verdict::Accept,
            Outcome::Reject(reason) => Verdict::Reject(reason),
            Outcome::Skip => Verdict::Skip,
        }
    }
}

/// What evaluating the guard for `MAJOR.MINOR` on request state `before` may
/// leave: the request `after` and the outcome `r`.
pub open spec fn evaluation<const MAJOR: u64, const MINOR: u64>(
    before: Request,
    after: Request,
    r: Outcome<MAJOR, MINOR>,
) -> bool {
    &&& after.wf()
    &&& after.header() == before.header()
    &&& after.is_resolved()
    &&& before.is_resolved() ==> after == before
    &&& after.parse_count() <= 1
    &&& r.verdict() == verdict(MAJOR, MINOR, resolution(before.header()))
}

impl<const MAJOR: u64, const MINOR: u64> Versioning<MAJOR, MINOR> {
    /// Decides on a request whose version has been resolved.
    pub fn decide(version: &Result<RequestedVersion, VersionError>) -> (r: Outcome<MAJOR, MINOR>)
        ensures
            r.verdict() == verdict(MAJOR, MINOR, resolved(*version)),
    {
        match verdict_for(MAJOR, MINOR, version) {
            Verdict::Accept => Outcome::Accept(Self::new()),
            Verdict::Reject(reason) => Outcome::Reject(reason),
            Verdict::Skip => Outcome::Skip,
        }
    }

    /// Evaluates the guard on a request, reading the request's version at most
    /// once over all guards evaluated on it.
    pub fn evaluate(req: &mut Request) -> (r: Outcome<MAJOR, MINOR>)
        requires
            old(req).wf(),
        ensures
            evaluation(*old(req), *final(req), r),
            old(req).header() is None ==> r.verdict() == Verdict::Reject(RejectReason::Missing),
            forall|patch: u64, suffix: Seq<char>|
                old(req).header() is Some && #[trigger] is_version_text(
                    old(req).header()->Some_0,
                    MAJOR,
                    MINOR,
                    patch,
                    suffix,
                ) ==> r.verdict() == Verdict::Accept,
            forall|major: u64, minor: u64, patch: u64, suffix: Seq<char>|
                old(req).header() is Some && #[trigger] is_version_text(
                    old(req).header()->Some_0,
                    major,
                    minor,
                    patch,
                    suffix,
                ) && (major, minor) != (MAJOR, MINOR) ==> r.verdict() == Verdict::Skip,
            old(req).header() is Some && lacks_leading_digit(old(req).header()->Some_0)
                ==> r.verdict() == Verdict::Reject(RejectReason::ParseFailure),
    {
        let version = req.version();
        let r = Self::decide(version);
        proof {
            assert(version_consistent(old(req).header(), *version));
        }
        r
    }
}

/// Evaluating a guard twice on the same request gives the same outcome both
/// times, the second evaluation leaves the request as the first left it, and
/// the header is parsed at most once.
pub proof fn lemma_evaluate_idempotent<const MAJOR: u64, const MINOR: u64>(
    before: Request,
    once: Request,
    first: Outcome<MAJOR, MINOR>,
    twice: Request,
    second: Outcome<MAJOR, MINOR>,
)
    requires
        before.wf(),
        evaluation(before, once, first),
        evaluation(once, twice, second),
    ensures
        second.verdict() == first.verdict(),
        twice == once,
        twice.parse_count() <= 1,
{
}

} // verus!
