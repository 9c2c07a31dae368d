use vstd::prelude::*;
use crate::version::{
    header_view, resolve_version, version_consistent, RequestedVersion, VersionError,
};

verus! {

/// A request as a guard sees it: the value of its `api-version` header, if
/// any, and a slot that keeps the version read from it for the rest of the
/// request's handling.
pub struct Request {
    header: Option<String>,
    cached: Option<Result<RequestedVersion, VersionError>>,
    parses: Ghost<nat>,
}

impl Request {
    /// The header value.
    pub closed spec fn header(&self) -> Option<Seq<char>> {
        match self.header {
            Some(s) => Some(s@),
            None => None,
        }
    }

    /// The version read so far, if it has been read.
    pub closed spec fn cached(&self) -> Option<Result<RequestedVersion, VersionError>> {
        self.cached
    }

    /// How many times the header has been parsed.
    pub closed spec fn parse_count(&self) -> nat {
        self.parses@
    }

    pub open spec fn is_resolved(&self) -> bool {
        self.cached() is Some
    }

    /// The slot holds nothing or exactly what the header resolves to, and the
    /// header was parsed at most once, and only to fill the slot.
    pub open spec fn wf(&self) -> bool {
        &&& self.parse_count() <= 1
        &&& !self.is_resolved() ==> self.parse_count() == 0
        &&& self.is_resolved() ==> version_consistent(self.header(), self.cached()->Some_0)
    }

    /// A fresh request with the given `api-version` header value.
    pub fn new(header: Option<String>) -> (r: Request)
        ensures
            r.wf(),
            r.header() == (match header {
                Some(s) => Some(s@),
                None => None::<Seq<char>>,
            }),
            !r.is_resolved(),
            r.parse_count() == 0,
    {
        Request { header, cached: None, parses: Ghost(0) }
    }

    /// The version the request declares, read from the header on first use and
    /// taken from the slot afterwards.
    pub fn version(&mut self) -> (r: &Result<RequestedVersion, VersionError>)
        requires
            old(self).wf(),
        ensures
            final(self).wf(),
            final(self).header() == old(self).header(),
            final(self).is_resolved(),
            old(self).is_resolved() ==> *final(self) == *old(self),
            final(self).parse_count() <= 1,
            *r == final(self).cached()->Some_0,
            version_consistent(old(self).header(), *r),
    {
        if self.cached.is_none() {
            let v = match &self.header {
                Some(s) => {
                    proof {
                        self.parses = Ghost(self.parses@ + 1);
                    }
                    resolve_version(Some(s.as_str()))
                },
                None => resolve_version(None),
            };
            self.cached = Some(v);
        }
        self.cached.as_ref().unwrap()
    }
}

} // verus!
