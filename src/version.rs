use vstd::prelude::*;
use vstd::string::*;

verus! {

/// What `bump_is_greater(current, other)` of self_update decides: `None` when
/// either string is not a semantic version, else whether `other` is strictly
/// greater than `current`.
pub uninterp spec fn semver_bump_greater(current: Seq<char>, other: Seq<char>) -> Option<bool>;

/// Relies on `self_update::version::bump_is_greater`, which parses both
/// strings as semantic versions and compares them; it fails only when a
/// string does not parse.
#[verifier::external_body]
pub(crate) fn bump_is_greater(current: &str, other: &str) -> (r: Option<bool>)
    ensures
        r == semver_bump_greater(current@, other@),
{
    match self_update::version::bump_is_greater(current, other) {
        Ok(b) => Some(b),
        Err(_) => None,
    }
}

/// The conventional short name of a machine architecture.
pub open spec fn canonical_arch(arch: Seq<char>) -> Seq<char> {
    if arch == "x86_64"@ {
        "amd64"@
    } else if arch == "aarch64"@ {
        "arm64"@
    } else {
        arch
    }
}

/// Maps an architecture name to the vocabulary used by release targets.
pub fn normalize_arch(arch: &str) -> (r: String)
    ensures
        r@ == canonical_arch(arch@),
{
    let a = String::from_str(arch);
    if a == String::from_str("x86_64") {
        String::from_str("amd64")
    } else if a == String::from_str("aarch64") {
        String::from_str("arm64")
    } else {
        a
    }
}

/// The platform identifier that releases are published under: the operating
/// system, a dash, and the normalized architecture.
pub fn release_target(os: &str, arch: &str) -> (r: String)
    ensures
        r@ == os@ + "-"@ + canonical_arch(arch@),
{
    let arch = normalize_arch(arch);
    String::from_str(os).concat("-").concat(arch.as_str())
}

} // verus!
