use api_versioning::{
    dispatch, resolve_version, route_version, verdict_for, Outcome, RejectReason, Request,
    RequestedVersion, Routed, Verdict, VersionError, Versioning, VERSION_HEADER,
};

const OK: u16 = 200;
const NOT_FOUND: u16 = 404;

/// Routes registered for one path, in the order they are tried, with the body each answers.
fn routes() -> (Vec<(u64, u64)>, Vec<&'static str>) {
    (vec![(1, 0), (1, 1), (2, 1)], vec!["v1.0", "v1.1", "v2.1"])
}

fn respond(header: Option<&str>) -> (u16, String) {
    let (guards, bodies) = routes();
    let mut req = Request::new(header.map(|h| h.to_string()));
    match dispatch(&guards, &mut req) {
        Routed::Matched(i) => (OK, bodies[i].to_string()),
        Routed::Rejected(_) | Routed::Unmatched => (NOT_FOUND, String::new()),
    }
}

#[test]
fn test_versioning() {
    let (status, body) = respond(Some("1.0.0"));
    assert_eq!(status, OK);
    assert_eq!(body, "v1.0");

    let (status, body) = respond(Some("1.1.0"));
    assert_eq!(status, OK);
    assert_eq!(body, "v1.1");

    let (status, body) = respond(Some("2.1.0"));
    assert_eq!(status, OK);
    assert_eq!(body, "v2.1");

    let (status, _) = respond(Some("2.0.0"));
    assert_eq!(status, NOT_FOUND);
}

#[test]
fn missing_header_is_not_found() {
    let (status, _) = respond(None);
    assert_eq!(status, NOT_FOUND);
    let (guards, _) = routes();
    let mut req = Request::new(None);
    assert_eq!(dispatch(&guards, &mut req), Routed::Rejected(RejectReason::Missing));
}

#[test]
fn unmatched_version_skips_every_route() {
    let (guards, _) = routes();
    let mut req = Request::new(Some("2.0.0".to_string()));
    assert_eq!(dispatch(&guards, &mut req), Routed::Unmatched);
}

#[test]
fn no_routes_means_unmatched() {
    let mut req = Request::new(Some("1.0.0".to_string()));
    assert_eq!(dispatch(&Vec::new(), &mut req), Routed::Unmatched);
    let v = resolve_version(None);
    assert_eq!(route_version(&Vec::new(), &v), Routed::Unmatched);
}

#[test]
fn first_matching_route_wins() {
    let guards = vec![(3, 0), (1, 2), (1, 2)];
    let v = resolve_version(Some("1.2.9"));
    assert_eq!(route_version(&guards, &v), Routed::Matched(1));
}

#[test]
fn accepts_exact_major_minor_with_any_patch() {
    for text in ["1.0.0", "1.0.7", "1.0.123456"] {
        let mut req = Request::new(Some(text.to_string()));
        let out = Versioning::<1, 0>::evaluate(&mut req);
        match out {
            Outcome::Accept(g) => {
                assert_eq!(g.major(), 1);
                assert_eq!(g.minor(), 0);
            }
            other => panic!("expected accept for {}, got {:?}", text, other),
        }
    }
}

#[test]
fn accepts_prerelease_and_build_suffixes() {
    for text in ["2.5.1-alpha", "2.5.1-alpha.1", "2.5.1+build.7", "2.5.1-rc.0+sha.0042", "2.5.1-x-y.7z"] {
        let mut req = Request::new(Some(text.to_string()));
        assert!(matches!(Versioning::<2, 5>::evaluate(&mut req), Outcome::Accept(_)), "{}", text);
    }
}

#[test]
fn other_major_or_minor_skips() {
    for text in ["1.1.0", "0.0.0", "2.0.0", "10.0.0", "1.10.0"] {
        let mut req = Request::new(Some(text.to_string()));
        assert!(matches!(Versioning::<1, 0>::evaluate(&mut req), Outcome::Skip), "{}", text);
    }
}

#[test]
fn missing_header_rejects_any_guard() {
    let mut req = Request::new(None);
    assert!(matches!(Versioning::<0, 0>::evaluate(&mut req), Outcome::Reject(RejectReason::Missing)));
    let mut req = Request::new(None);
    assert!(matches!(Versioning::<7, 3>::evaluate(&mut req), Outcome::Reject(RejectReason::Missing)));
}

#[test]
fn malformed_header_rejects() {
    for text in ["not-a-version", "", "1.0", "01.0.0", "1.0.0-", "1.0.0-01", "v1.0.0", "1.0.0 "] {
        let mut req = Request::new(Some(text.to_string()));
        assert!(
            matches!(Versioning::<1, 0>::evaluate(&mut req), Outcome::Reject(RejectReason::ParseFailure)),
            "{}",
            text
        );
    }
}

#[test]
fn evaluating_twice_gives_the_same_outcome() {
    let mut req = Request::new(Some("1.1.4".to_string()));
    let first = Versioning::<1, 1>::evaluate(&mut req);
    let second = Versioning::<1, 1>::evaluate(&mut req);
    assert!(matches!(first, Outcome::Accept(_)));
    assert!(matches!(second, Outcome::Accept(_)));
    let third = Versioning::<1, 0>::evaluate(&mut req);
    assert!(matches!(third, Outcome::Skip));
    let mut req = Request::new(Some("bad".to_string()));
    let first = Versioning::<1, 1>::evaluate(&mut req);
    let second = Versioning::<1, 1>::evaluate(&mut req);
    assert!(matches!(first, Outcome::Reject(RejectReason::ParseFailure)));
    assert!(matches!(second, Outcome::Reject(RejectReason::ParseFailure)));
}

#[test]
fn request_version_is_read_once_and_kept() {
    let mut req = Request::new(Some("3.4.5-beta".to_string()));
    let v = req.version().as_ref().map(|v| *v).ok();
    assert_eq!(v, Some(RequestedVersion { major: 3, minor: 4, patch: 5 }));
    let again = req.version().as_ref().map(|v| *v).ok();
    assert_eq!(again, v);
}

#[test]
fn resolve_reads_numbers() {
    match resolve_version(Some("12.34.56+meta")) {
        Ok(v) => assert_eq!(v, RequestedVersion { major: 12, minor: 34, patch: 56 }),
        Err(e) => panic!("unexpected error {:?}", e),
    }
    assert!(matches!(resolve_version(None), Err(VersionError::NotExists)));
    assert!(matches!(resolve_version(Some("not-a-version")), Err(VersionError::SemverError(_))));
    assert!(matches!(
        resolve_version(Some("18446744073709551616.0.0")),
        Err(VersionError::SemverError(_))
    ));
    match resolve_version(Some("18446744073709551615.0.1")) {
        Ok(v) => assert_eq!(v.major, u64::MAX),
        Err(e) => panic!("unexpected error {:?}", e),
    }
}

#[test]
fn verdicts_on_resolved_versions() {
    let ok = resolve_version(Some("4.2.0"));
    assert_eq!(verdict_for(4, 2, &ok), Verdict::Accept);
    assert_eq!(verdict_for(4, 3, &ok), Verdict::Skip);
    assert_eq!(verdict_for(5, 2, &ok), Verdict::Skip);
    let missing = resolve_version(None);
    assert_eq!(verdict_for(4, 2, &missing), Verdict::Reject(RejectReason::Missing));
    let bad = resolve_version(Some("4.2"));
    assert_eq!(verdict_for(4, 2, &bad), Verdict::Reject(RejectReason::ParseFailure));
}

#[test]
fn decide_maps_verdicts_to_outcomes() {
    assert!(matches!(Versioning::<4, 2>::decide(&resolve_version(Some("4.2.1"))), Outcome::Accept(_)));
    assert!(matches!(Versioning::<4, 1>::decide(&resolve_version(Some("4.2.1"))), Outcome::Skip));
    assert!(matches!(
        Versioning::<4, 1>::decide(&resolve_version(Some("x"))),
        Outcome::Reject(RejectReason::ParseFailure)
    ));
}

#[test]
fn guard_reports_its_version() {
    let g = Versioning::<3, 9>::new();
    assert_eq!(g.major(), 3);
    assert_eq!(g.minor(), 9);
    assert_eq!(VERSION_HEADER, "api-version");
}
