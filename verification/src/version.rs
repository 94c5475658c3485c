//! Semantic versions and their ordering.
//!
//! A version is the `major.minor.patch` triple together with its pre-release
//! and build-metadata texts (empty when absent). The triple is ordered here
//! directly; the precedence of the pre-release and build parts is semver's
//! own and stands behind a trusted comparison.

use vstd::prelude::*;

verus! {

/// A semantic version: three numeric components, a pre-release text and a
/// build-metadata text, each empty when the version has none.
#[derive(Debug, PartialEq, Eq)]
pub struct SemVer {
    pub major: u64,
    pub minor: u64,
    pub patch: u64,
    pub pre: String,
    pub build: String,
}

impl Clone for SemVer {
    fn clone(&self) -> (r: Self)
        ensures
            r == *self,
    {
        SemVer {
            major: self.major,
            minor: self.minor,
            patch: self.patch,
            pre: self.pre.clone(),
            build: self.build.clone(),
        }
    }
}

/// Everything a version's identity consists of, as plain values.
pub open spec fn ver_key(v: SemVer) -> (u64, u64, u64, Seq<char>, Seq<char>) {
    (v.major, v.minor, v.patch, v.pre@, v.build@)
}

/// Strict order on the numeric triples alone.
pub open spec fn ver_triple_lt(a: SemVer, b: SemVer) -> bool {
    a.major < b.major || (a.major == b.major && (a.minor < b.minor || (a.minor == b.minor
        && a.patch < b.patch)))
}

/// Equality of the numeric triples alone.
pub open spec fn ver_triple_eq(a: SemVer, b: SemVer) -> bool {
    a.major == b.major && a.minor == b.minor && a.patch == b.patch
}

/// The order of the pre-release and build parts, as semver compares them
/// within versions of equal triple: semver precedence for the pre-release
/// text (an absent one ranks highest), then semver's build-metadata order.
pub uninterp spec fn ver_tail_lt(
    pre_a: Seq<char>,
    build_a: Seq<char>,
    pre_b: Seq<char>,
    build_b: Seq<char>,
) -> bool;

/// Strict version order: the numeric triple first, semver's tail order on
/// the pre-release and build parts between equal triples.
pub open spec fn ver_lt(a: SemVer, b: SemVer) -> bool {
    ver_triple_lt(a, b) || (ver_triple_eq(a, b) && ver_tail_lt(a.pre@, a.build@, b.pre@, b.build@))
}

/// Version identity: equal triples and equal pre-release and build texts.
pub open spec fn ver_eq(a: SemVer, b: SemVer) -> bool {
    ver_key(a) == ver_key(b)
}

/// Non-strict version order.
pub open spec fn ver_le(a: SemVer, b: SemVer) -> bool {
    ver_lt(a, b) || ver_eq(a, b)
}

/// Relies on semver's `Ord` for `Prerelease` and `BuildMetadata`, the tie
/// orders of `Version`'s derived `Ord`: each is a total order with `Equal`
/// exactly on equal text. The three pairs of tails are compared under one
/// total order — the lexicographic order of `(Prerelease, BuildMetadata,
/// text, text)` keys, with a text that is no valid identifier ranked by the
/// raw text below all valid ones — so the three results are each a function
/// of the texts alone, mutually consistent, and agree with semver's
/// precedence wherever the texts are valid. Each result is `-1`, `0` or `1`
/// for less, equal and greater.
#[verifier::external_body]
fn tail_cmp3(pa: &str, ba: &str, pb: &str, bb: &str, pc: &str, bc: &str) -> (r: (i8, i8, i8))
    ensures
        -1 <= r.0 <= 1 && -1 <= r.1 <= 1 && -1 <= r.2 <= 1,
        (r.0 == -1) == ver_tail_lt(pa@, ba@, pb@, bb@),
        (r.0 == 0) == (pa@ == pb@ && ba@ == bb@),
        (r.0 == 1) == ver_tail_lt(pb@, bb@, pa@, ba@),
        (r.1 == -1) == ver_tail_lt(pb@, bb@, pc@, bc@),
        (r.1 == 0) == (pb@ == pc@ && bb@ == bc@),
        (r.1 == 1) == ver_tail_lt(pc@, bc@, pb@, bb@),
        (r.2 == -1) == ver_tail_lt(pa@, ba@, pc@, bc@),
        (r.2 == 0) == (pa@ == pc@ && ba@ == bc@),
        (r.2 == 1) == ver_tail_lt(pc@, bc@, pa@, ba@),
        r.0 == -1 && r.1 == -1 ==> r.2 == -1,
{
    let key = |p: &str, b: &str| (
        semver::Prerelease::new(p).ok(),
        semver::BuildMetadata::new(b).ok(),
        p.to_owned(),
        b.to_owned(),
    );
    let sign = |o: core::cmp::Ordering| match o {
        core::cmp::Ordering::Less => -1i8,
        core::cmp::Ordering::Equal => 0i8,
        core::cmp::Ordering::Greater => 1i8,
    };
    let (a, b, c) = (key(pa, ba), key(pb, bb), key(pc, bc));
    (sign(a.cmp(&b)), sign(b.cmp(&c)), sign(a.cmp(&c)))
}

/// Three-way comparison of two versions by full precedence.
pub fn cmp_ver(a: &SemVer, b: &SemVer) -> (r: i8)
    ensures
        -1 <= r <= 1,
        (r == -1) == ver_lt(*a, *b),
        (r == 0) == ver_eq(*a, *b),
        (r == 1) == ver_lt(*b, *a),
{
    if a.major != b.major {
        return if a.major < b.major { -1 } else { 1 };
    }
    if a.minor != b.minor {
        return if a.minor < b.minor { -1 } else { 1 };
    }
    if a.patch != b.patch {
        return if a.patch < b.patch { -1 } else { 1 };
    }
    let c = tail_cmp3(
        a.pre.as_str(),
        a.build.as_str(),
        b.pre.as_str(),
        b.build.as_str(),
        b.pre.as_str(),
        b.build.as_str(),
    );
    c.0
}

/// Supply the ordering fact `ver_lt(a, c)` for versions already known to
/// satisfy `ver_lt(a, b)` and `ver_lt(b, c)`: for differing triples the
/// numeric order carries it, and between equal triples the trusted
/// comparison of the three tails does.
pub(crate) fn witness_lt_trans(a: &SemVer, b: &SemVer, c: &SemVer)
    requires
        ver_lt(*a, *b),
        ver_lt(*b, *c),
    ensures
        ver_lt(*a, *c),
{
    let _facts = tail_cmp3(
        a.pre.as_str(),
        a.build.as_str(),
        b.pre.as_str(),
        b.build.as_str(),
        c.pre.as_str(),
        c.build.as_str(),
    );
}

impl SemVer {
    /// Compare two versions by strict precedence.
    pub fn lt(&self, other: &SemVer) -> (r: bool)
        ensures
            r == ver_lt(*self, *other),
    {
        cmp_ver(self, other) == -1
    }

    /// Compare two versions for non-strict precedence.
    pub fn le(&self, other: &SemVer) -> (r: bool)
        ensures
            r == ver_le(*self, *other),
    {
        cmp_ver(self, other) <= 0
    }
}

/// The decimal digit character for a value below ten.
pub open spec fn digit_char(d: nat) -> char
    recommends
        d < 10,
{
    ((d + 48) as u8) as char
}

/// The canonical decimal rendering of a natural number: no sign, no leading
/// zeros (a single `0` for zero).
pub open spec fn dec_str(n: nat) -> Seq<char>
    decreases n,
{
    if n < 10 {
        seq![digit_char(n)]
    } else {
        dec_str(n / 10) + seq![digit_char(n % 10)]
    }
}

/// The text of a version: `major.minor.patch` in decimal, `-` and the
/// pre-release text when one is present, `+` and the build text when one is
/// present.
pub open spec fn sem_ver_str(v: SemVer) -> Seq<char> {
    dec_str(v.major as nat) + seq!['.'] + dec_str(v.minor as nat) + seq!['.'] + dec_str(
        v.patch as nat,
    ) + (if v.pre@.len() > 0 {
        seq!['-'] + v.pre@
    } else {
        Seq::<char>::empty()
    }) + (if v.build@.len() > 0 {
        seq!['+'] + v.build@
    } else {
        Seq::<char>::empty()
    })
}

/// One decimal digit as a string slice.
fn digit_str(d: u64) -> (r: &'static str)
    requires
        d < 10,
    ensures
        r@ =~= seq![digit_char(d as nat)],
{
    let r: &'static str = match d {
        0 => "0",
        1 => "1",
        2 => "2",
        3 => "3",
        4 => "4",
        5 => "5",
        6 => "6",
        7 => "7",
        8 => "8",
        _ => "9",
    };
    proof {
        reveal_strlit("0");
        reveal_strlit("1");
        reveal_strlit("2");
        reveal_strlit("3");
        reveal_strlit("4");
        reveal_strlit("5");
        reveal_strlit("6");
        reveal_strlit("7");
        reveal_strlit("8");
        reveal_strlit("9");
    }
    r
}

/// Render a number in canonical decimal form.
pub fn u64_to_string(n: u64) -> (r: String)
    ensures
        r@ == dec_str(n as nat),
    decreases n,
{
    if n < 10 {
        String::from_str(digit_str(n))
    } else {
        let prefix = u64_to_string(n / 10);
        prefix.concat(digit_str(n % 10))
    }
}

/// Render a version in its textual form.
pub fn sem_ver_to_string(v: &SemVer) -> (r: String)
    ensures
        r@ == sem_ver_str(*v),
{
    let mut s = u64_to_string(v.major);
    s.append(".");
    let minor = u64_to_string(v.minor);
    s.append(minor.as_str());
    s.append(".");
    let patch = u64_to_string(v.patch);
    s.append(patch.as_str());
    if !v.pre.as_str().is_empty() {
        s.append("-");
        s.append(v.pre.as_str());
    }
    if !v.build.as_str().is_empty() {
        s.append("+");
        s.append(v.build.as_str());
    }
    proof {
        reveal_strlit(".");
        reveal_strlit("-");
        reveal_strlit("+");
        assert(s@ =~= sem_ver_str(*v));
    }
    s
}

/// What `semver::Version::parse` makes of a string: the five components of
/// the version, or nothing where the string is not a semantic version.
pub uninterp spec fn sem_parse(s: Seq<char>) -> Option<(u64, u64, u64, Seq<char>, Seq<char>)>;

/// Whether a string is a well-formed semantic-version requirement, exactly as
/// `semver::VersionReq::parse` accepts it.
pub uninterp spec fn req_wf(req: Seq<char>) -> bool;

/// Whether a version satisfies a requirement, exactly as
/// `semver::VersionReq::matches` decides it for a version with the given
/// components.
pub uninterp spec fn req_match(
    req: Seq<char>,
    major: u64,
    minor: u64,
    patch: u64,
    pre: Seq<char>,
    build: Seq<char>,
) -> bool;

/// Relies on `semver::Version::parse`: it accepts exactly the grammar
/// `MAJOR.MINOR.PATCH[-PRE][+BUILD]`, deterministically in the text alone,
/// and returns the three numbers and the pre-release and build texts.
#[verifier::external_body]
pub(crate) fn parse_version(s: &str) -> (r: Option<SemVer>)
    ensures
        match r {
            Some(v) => sem_parse(s@) == Some(ver_key(v)),
            None => sem_parse(s@) is None,
        },
{
    match semver::Version::parse(s) {
        Ok(v) => Some(
            SemVer {
                major: v.major,
                minor: v.minor,
                patch: v.patch,
                pre: v.pre.as_str().to_owned(),
                build: v.build.as_str().to_owned(),
            },
        ),
        Err(_) => None,
    }
}

/// Relies on `semver::VersionReq::parse`: it returns `Ok` exactly on
/// well-formed requirement expressions.
#[verifier::external_body]
pub(crate) fn req_is_valid(s: &str) -> (r: bool)
    ensures
        r == req_wf(s@),
{
    semver::VersionReq::parse(s).is_ok()
}

/// Relies on `semver::VersionReq::parse` and `semver::VersionReq::matches`:
/// parsing succeeds exactly on well-formed requirements, and matching is a
/// function of the requirement text and the version's components alone. A
/// version whose pre-release or build text is no valid identifier cannot be
/// rebuilt for the call and matches nothing.
#[verifier::external_body]
pub(crate) fn req_matches_version(req: &str, v: &SemVer) -> (r: bool)
    ensures
        r == (req_wf(req@) && req_match(req@, v.major, v.minor, v.patch, v.pre@, v.build@)),
{
    let (parsed, pre, build) = (
        semver::VersionReq::parse(req),
        semver::Prerelease::new(&v.pre),
        semver::BuildMetadata::new(&v.build),
    );
    match (parsed, pre, build) {
        (Ok(rq), Ok(pre), Ok(build)) => rq.matches(
            &semver::Version { major: v.major, minor: v.minor, patch: v.patch, pre, build },
        ),
        _ => false,
    }
}

} // verus!
