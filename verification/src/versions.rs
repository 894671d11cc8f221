//! Semantic versions and version requirements, read and compared with the
//! `semver` crate.
use vstd::prelude::*;

verus! {

/// The message of the error that `semver::Version::parse` gives for `text`,
/// or `None` where the text is a valid version.
pub uninterp spec fn semver_version_error(text: Seq<char>) -> Option<Seq<char>>;

/// How the versions `a` and `b` compare in semver precedence, as `Ord::cmp`
/// on the parsed versions gives it: -1, 0 or 1 for less, equal or greater.
pub uninterp spec fn semver_order(a: Seq<char>, b: Seq<char>) -> int;

/// The message of the error that `semver::VersionReq::parse` gives for
/// `text`, or `None` where the text is a valid requirement.
pub uninterp spec fn semver_requirement_error(text: Seq<char>) -> Option<Seq<char>>;

/// Whether `VersionReq::matches` accepts the version `version` for the
/// requirement `requirement`.
pub uninterp spec fn semver_requirement_matches(requirement: Seq<char>, version: Seq<char>) -> bool;

/// Whether `text` is a valid semantic version.
pub open spec fn is_version(text: Seq<char>) -> bool {
    semver_version_error(text) is None
}

/// `semver::Version::parse`, reduced to its error message. The contract
/// names the result: which texts are versions is not restated. A version
/// that parses compares equal to itself, as the derived `Ord` of `Version`
/// does.
#[verifier::external_body]
pub(crate) fn version_error(text: &str) -> (r: Option<String>)
    ensures
        match r {
            None => semver_version_error(text@) is None,
            Some(e) => semver_version_error(text@) == Some(e@),
        },
        r is None ==> semver_order(text@, text@) == 0,
{
    semver::Version::parse(text).err().map(|error| error.to_string())
}

/// The precedence of two versions, from `Ord::cmp` on the parsed
/// `semver::Version`s, as -1, 0 or 1. `Version` derives `Ord`, a total
/// order, and the contract states what that gives for the compared pair:
/// a text is equal to itself, swapping the versions swaps the sign, a
/// version above `b` is above every version that `b` is not below, and a
/// version equal to `b` compares with every version as `b` does.
#[verifier::external_body]
pub(crate) fn version_order(a: &str, b: &str) -> (r: i8)
    requires
        is_version(a@),
        is_version(b@),
    ensures
        -1 <= r <= 1,
        r == semver_order(a@, b@),
        r == -semver_order(b@, a@),
        a@ == b@ ==> r == 0,
        forall|c: Seq<char>|
            is_version(c) && r > 0 && #[trigger] semver_order(b@, c) >= 0 ==> semver_order(a@, c)
                > 0,
        forall|c: Seq<char>|
            is_version(c) && r == 0 ==> #[trigger] semver_order(b@, c) == semver_order(a@, c),
{
    match (semver::Version::parse(a), semver::Version::parse(b)) {
        (Ok(a), Ok(b)) => match a.cmp(&b) {
            std::cmp::Ordering::Less => -1,
            std::cmp::Ordering::Equal => 0,
            std::cmp::Ordering::Greater => 1,
        },
        _ => 0,
    }
}

/// `semver::VersionReq::parse`, reduced to its error message. The contract
/// names the result.
#[verifier::external_body]
pub(crate) fn requirement_error(text: &str) -> (r: Option<String>)
    ensures
        match r {
            None => semver_requirement_error(text@) is None,
            Some(e) => semver_requirement_error(text@) == Some(e@),
        },
{
    semver::VersionReq::parse(text).err().map(|error| error.to_string())
}

/// `semver::VersionReq::matches` for a parsed requirement and version. The
/// contract names the result.
#[verifier::external_body]
pub(crate) fn requirement_matches(requirement: &str, version: &str) -> (r: bool)
    requires
        semver_requirement_error(requirement@) is None,
        is_version(version@),
    ensures
        r == semver_requirement_matches(requirement@, version@),
{
    match (semver::VersionReq::parse(requirement), semver::Version::parse(version)) {
        (Ok(requirement), Ok(version)) => requirement.matches(&version),
        _ => false,
    }
}

} // verus!
