//! Version-aware request guards: a route declares the API version it serves,
//! and each request is accepted, rejected or passed on according to the
//! `api-version` header it carries.

mod guard;
mod request;
mod route;
mod version;

pub use guard::{lemma_evaluate_idempotent, verdict_for, Outcome, Verdict, Versioning};
pub use request::Request;
pub use route::{dispatch, route_version, Routed};
pub use version::{resolve_version, RejectReason, RequestedVersion, VersionError, VERSION_HEADER};
