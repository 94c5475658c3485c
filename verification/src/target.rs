//! Parsing a raw spec string of the form `name[@version]` into a target.

use vstd::prelude::*;

use crate::errors::Error;
use crate::text::eq_str;
use crate::version::{req_is_valid, req_wf};

verus! {

/// What the user said about the version.
#[derive(Debug)]
pub enum VersionSpec {
    /// No version given: whatever is installed, else whatever is latest.
    Unspecified,
    /// The literal token `latest`: always re-check the remote registry.
    Latest,
    /// A semantic-version requirement expression the resolved version must
    /// satisfy.
    Requirement(String),
}

/// One invocation's subject: a crate, a version spec, and the binary name
/// inside the crate (the crate name itself unless overridden).
#[derive(Debug)]
pub struct Target {
    pub crate_name: String,
    pub version: VersionSpec,
    pub binary: String,
}

/// Divide a spec string at its first `@`: everything before it is the crate
/// name, everything after it the version part. Without an `@` the whole
/// string is the name and the version part is empty.
pub open spec fn chop_spec(s: Seq<char>) -> (Seq<char>, Seq<char>)
    decreases s.len(),
{
    if s.len() == 0 {
        (Seq::<char>::empty(), Seq::<char>::empty())
    } else if s[0] == '@' {
        (Seq::<char>::empty(), s.subrange(1, s.len() as int))
    } else {
        let rest = chop_spec(s.subrange(1, s.len() as int));
        (seq![s[0]] + rest.0, rest.1)
    }
}

/// The crate-name part of a spec string.
pub open spec fn spec_name_part(s: Seq<char>) -> Seq<char> {
    chop_spec(s).0
}

/// The version part of a spec string.
pub open spec fn spec_ver_part(s: Seq<char>) -> Seq<char> {
    chop_spec(s).1
}

/// What a version part means, by the rules of the spec grammar: empty means
/// unspecified, the literal `latest` means latest, anything else must be a
/// well-formed requirement.
pub open spec fn version_part_means(ver: Seq<char>, vs: VersionSpec) -> bool {
    match vs {
        VersionSpec::Unspecified => ver.len() == 0,
        VersionSpec::Latest => ver =~= "latest"@,
        VersionSpec::Requirement(t) => t@ == ver && req_wf(ver) && ver.len() > 0 && !(ver
            =~= "latest"@),
    }
}

proof fn lemma_chop_at(s: Seq<char>, i: int)
    requires
        0 <= i <= s.len(),
        forall|k: int| 0 <= k < i ==> s[k] != '@',
        i < s.len() ==> s[i] == '@',
    ensures
        i < s.len() ==> chop_spec(s).0 =~= s.subrange(0, i) && chop_spec(s).1 =~= s.subrange(
            i + 1,
            s.len() as int,
        ),
        i == s.len() ==> chop_spec(s).0 =~= s && chop_spec(s).1 =~= Seq::<char>::empty(),
    decreases s.len(),
{
    if s.len() == 0 {
    } else if s[0] == '@' {
    } else {
        let tail = s.subrange(1, s.len() as int);
        lemma_chop_at(tail, i - 1);
    }
}

/// Parse a spec string into a crate name and a version spec.
///
/// The string divides at its first `@`. An absent or empty version part is
/// `Unspecified`; the exact lowercase token `latest` is `Latest`; anything
/// else must parse as a semantic-version requirement, and is rejected with
/// `InvalidVersionSpec` otherwise.
pub fn parse_spec(s: &str) -> (r: Result<(String, VersionSpec), Error>)
    ensures
        r matches Ok(p) ==> p.0@ == spec_name_part(s@) && version_part_means(
            spec_ver_part(s@),
            p.1,
        ),
        r matches Err(e) ==> e matches Error::InvalidVersionSpec { spec_text } && spec_text@
            == spec_ver_part(s@),
        (r is Err) <==> (spec_ver_part(s@).len() > 0 && !(spec_ver_part(s@) =~= "latest"@)
            && !req_wf(spec_ver_part(s@))),
{
    let len = s.unicode_len();
    let mut i: usize = 0;
    while i < len && s.get_char(i) != '@'
        invariant
            i <= len,
            len == s@.len(),
            forall|k: int| 0 <= k < i ==> s@[k] != '@',
        decreases len - i,
    {
        i += 1;
    }
    proof {
        lemma_chop_at(s@, i as int);
    }
    if i == len {
        let name = s.to_owned();
        return Ok((name, VersionSpec::Unspecified));
    }
    let name = s.substring_char(0, i).to_owned();
    let ver = s.substring_char(i + 1, len);
    if ver.unicode_len() == 0 {
        Ok((name, VersionSpec::Unspecified))
    } else if eq_str(ver, "latest") {
        Ok((name, VersionSpec::Latest))
    } else if req_is_valid(ver) {
        let text = ver.to_owned();
        Ok((name, VersionSpec::Requirement(text)))
    } else {
        let text = ver.to_owned();
        Err(Error::InvalidVersionSpec { spec_text: text })
    }
}

/// Build the target of one invocation: the binary name defaults to the crate
/// name unless an explicit one was given.
pub fn make_target(crate_name: String, version: VersionSpec, bin: Option<String>) -> (t: Target)
    ensures
        t.crate_name@ == crate_name@,
        t.version == version,
        match bin {
            Some(b) => t.binary@ == b@,
            None => t.binary@ == crate_name@,
        },
{
    let binary = match bin {
        Some(b) => b,
        None => crate_name.clone(),
    };
    Target { crate_name, version, binary }
}

} // verus!
