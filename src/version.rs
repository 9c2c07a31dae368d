use vstd::prelude::*;

verus! {

/// Declares semver's parse error so that it can travel inside [`VersionError`].
#[verifier::external_type_specification]
#[verifier::external_body]
pub struct ExSemverError(semver::Error);

/// The version that a request declares; only `major` and `minor` take part in routing.
#[derive(Clone, Copy, Debug, PartialEq, Eq, Structural)]
pub struct RequestedVersion {
    pub major: u64,
    pub minor: u64,
    pub patch: u64,
}

/// Why the version of a request could not be determined.
#[derive(Debug)]
pub enum VersionError {
    /// The header holds text that is not a semantic version.
    SemverError(semver::Error),
    /// The request carries no `api-version` header.
    NotExists,
}

/// Why a guard rejected a request, without the parser's diagnostics.
#[derive(Clone, Copy, Debug, PartialEq, Eq, Structural)]
pub enum RejectReason {
    /// The request carries no `api-version` header.
    Missing,
    /// The header is not a semantic version.
    ParseFailure,
}

/// The name of the header that carries the requested version.
pub const VERSION_HEADER: &'static str = "api-version";

// ----- the text of a version -----

pub open spec fn is_ascii_digit(c: char) -> bool {
    '0' <= c && c <= '9'
}

/// Characters allowed in a pre-release or build identifier.
pub open spec fn is_ident_char(c: char) -> bool {
    is_ascii_digit(c) || ('a' <= c && c <= 'z') || ('A' <= c && c <= 'Z') || c == '-'
}

/// The character of the decimal digit `d`.
pub open spec fn digit_char(d: nat) -> char {
    if d == 0 { '0' }
    else if d == 1 { '1' }
    else if d == 2 { '2' }
    else if d == 3 { '3' }
    else if d == 4 { '4' }
    else if d == 5 { '5' }
    else if d == 6 { '6' }
    else if d == 7 { '7' }
    else if d == 8 { '8' }
    else { '9' }
}

/// `n` written in decimal, without leading zeros.
pub open spec fn decimal(n: nat) -> Seq<char>
    decreases n,
{
    if n < 10 {
        seq![digit_char(n)]
    } else {
        decimal(n / 10).push(digit_char(n % 10))
    }
}

/// The text `MAJOR.MINOR.PATCH`.
pub open spec fn core_text(major: u64, minor: u64, patch: u64) -> Seq<char> {
    decimal(major as nat) + seq!['.'] + decimal(minor as nat) + seq!['.'] + decimal(patch as nat)
}

pub open spec fn all_digits(seg: Seq<char>) -> bool {
    forall|i: int| 0 <= i < seg.len() ==> is_ascii_digit(#[trigger] seg[i])
}

/// One identifier of a pre-release (`pre`) or of build metadata: not empty, and
/// in a pre-release a numeric identifier has no leading zero.
pub open spec fn valid_segment(seg: Seq<char>, pre: bool) -> bool {
    seg.len() > 0 && !(pre && all_digits(seg) && seg.len() > 1 && seg[0] == '0')
}

/// `s` completes a dot-separated identifier list whose current identifier so far is `seg`.
pub open spec fn identifiers_from(s: Seq<char>, seg: Seq<char>, pre: bool) -> bool
    decreases s.len(),
{
    if s.len() == 0 {
        valid_segment(seg, pre)
    } else if s[0] == '.' {
        valid_segment(seg, pre) && identifiers_from(s.drop_first(), seq![], pre)
    } else {
        is_ident_char(s[0]) && identifiers_from(s.drop_first(), seg.push(s[0]), pre)
    }
}

/// `s` is a dot-separated list of valid identifiers.
pub open spec fn dotted_identifiers(s: Seq<char>, pre: bool) -> bool {
    identifiers_from(s, seq![], pre)
}

/// What may follow `MAJOR.MINOR.PATCH`: nothing, `-PRERELEASE`, `+BUILD`, or both in that order.
pub open spec fn valid_suffix(x: Seq<char>) -> bool {
    ||| x.len() == 0
    ||| x.len() > 0 && x[0] == '+' && dotted_identifiers(x.drop_first(), false)
    ||| x.len() > 0 && x[0] == '-' && exists|k: int|
        1 <= k <= x.len() && #[trigger] dotted_identifiers(x.subrange(1, k), true) && (k == x.len()
            || (x[k] == '+' && dotted_identifiers(x.subrange(k + 1, x.len() as int), false)))
}

/// `s` is the semantic version `major.minor.patch` followed by `suffix`.
pub open spec fn is_version_text(s: Seq<char>, major: u64, minor: u64, patch: u64, suffix: Seq<char>) -> bool {
    s == core_text(major, minor, patch) + suffix && valid_suffix(suffix)
}

/// The numeric triple that semver reads from `s`, or `None` where it refuses `s`.
pub uninterp spec fn semver_triple(s: Seq<char>) -> Option<(u64, u64, u64)>;

/// Relies on `semver::Version::parse`: the same text always gives the same
/// triple; a version it accepts begins with its three numbers in canonical
/// decimal; and every `MAJOR.MINOR.PATCH[-PRE][+BUILD]` that follows the
/// semantic-versioning grammar is accepted with those numbers.
#[verifier::external_body]
fn parse_semver(text: &str) -> (r: Result<RequestedVersion, semver::Error>)
    ensures
        r is Ok ==> semver_triple(text@) == Some((r->Ok_0.major, r->Ok_0.minor, r->Ok_0.patch)),
        r is Err ==> semver_triple(text@) is None,
        r is Ok ==> core_text(r->Ok_0.major, r->Ok_0.minor, r->Ok_0.patch).is_prefix_of(text@),
        (forall|major: u64, minor: u64, patch: u64, suffix: Seq<char>|
            #[trigger] is_version_text(text@, major, minor, patch, suffix) ==> r
                == Ok::<RequestedVersion, semver::Error>(RequestedVersion { major, minor, patch })),
{
    match semver::Version::parse(text) {
        Ok(v) => Ok(RequestedVersion { major: v.major, minor: v.minor, patch: v.patch }),
        Err(e) => Err(e),
    }
}

/// The view of an optional header value.
pub open spec fn header_view(header: Option<&str>) -> Option<Seq<char>> {
    match header {
        Some(s) => Some(s@),
        None => None,
    }
}

/// What a request with header value `header` declares: its numeric triple, or
/// why it has none.
pub open spec fn resolution(header: Option<Seq<char>>) -> Result<(u64, u64, u64), RejectReason> {
    match header {
        None => Err(RejectReason::Missing),
        Some(s) => match semver_triple(s) {
            Some(t) => Ok(t),
            None => Err(RejectReason::ParseFailure),
        },
    }
}

/// The same as [`resolution`], read off a resolved version.
pub open spec fn resolved(version: Result<RequestedVersion, VersionError>) -> Result<(u64, u64, u64), RejectReason> {
    match version {
        Ok(v) => Ok((v.major, v.minor, v.patch)),
        Err(VersionError::NotExists) => Err(RejectReason::Missing),
        Err(VersionError::SemverError(_)) => Err(RejectReason::ParseFailure),
    }
}

/// Text that cannot begin a semantic version: empty, or not starting with a digit.
pub open spec fn lacks_leading_digit(s: Seq<char>) -> bool {
    s.len() == 0 || !is_ascii_digit(s[0])
}

/// Every decimal numeral starts with a digit.
pub proof fn lemma_decimal_leading_digit(n: nat)
    ensures
        decimal(n).len() > 0,
        is_ascii_digit(decimal(n)[0]),
    decreases n,
{
    if n >= 10 {
        lemma_decimal_leading_digit(n / 10);
    }
}

/// `v` is what resolving a request with header value `header` gives: the
/// contract of [`resolve_version`], as a predicate.
pub open spec fn version_consistent(header: Option<Seq<char>>, v: Result<RequestedVersion, VersionError>) -> bool {
    &&& resolved(v) == resolution(header)
    &&& header is None ==> v == Err::<RequestedVersion, VersionError>(VersionError::NotExists)
    &&& forall|major: u64, minor: u64, patch: u64, suffix: Seq<char>|
        header is Some && #[trigger] is_version_text(header->Some_0, major, minor, patch, suffix)
            ==> v == Ok::<RequestedVersion, VersionError>(RequestedVersion { major, minor, patch })
    &&& header is Some && lacks_leading_digit(header->Some_0) ==> v matches Err(VersionError::SemverError(_))
}

/// Reads the version that a request declares in its `api-version` header
/// (`header` is that header's value, if present).
pub fn resolve_version(header: Option<&str>) -> (r: Result<RequestedVersion, VersionError>)
    ensures
        resolved(r) == resolution(header_view(header)),
        header is None ==> r == Err::<RequestedVersion, VersionError>(VersionError::NotExists),
        forall|major: u64, minor: u64, patch: u64, suffix: Seq<char>|
            header is Some && #[trigger] is_version_text(header->Some_0@, major, minor, patch, suffix)
                ==> r == Ok::<RequestedVersion, VersionError>(RequestedVersion { major, minor, patch }),
        header is Some && lacks_leading_digit(header->Some_0@) ==> r matches Err(VersionError::SemverError(_)),
        version_consistent(header_view(header), r),
{
    match header {
        None => Err(VersionError::NotExists),
        Some(text) => match parse_semver(text) {
            Ok(v) => {
                proof {
                    lemma_decimal_leading_digit(v.major as nat);
                    let c = core_text(v.major, v.minor, v.patch);
                    assert(c[0] == text@[0]);
                }
                Ok(v)
            },
            Err(e) => Err(VersionError::SemverError(e)),
        },
    }
}

} // verus!
