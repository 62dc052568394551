//! What the panel knows of its own build and surroundings: its version
//! text, the kind of container it runs in, and branch hints.

use vstd::prelude::*;
use crate::text::{push_str, text_eq};

verus! {

/// The version text: the plain version on builds whose branch is unknown,
/// else `version:commit@branch`.
pub open spec fn spec_full_version(version: Seq<char>, commit: Seq<char>, branch: Seq<char>) -> Seq<char> {
    if branch == "unknown"@ {
        version
    } else {
        version + ":"@ + commit + "@"@ + branch
    }
}

/// The version text of a build of `version` from `commit` on `branch`.
pub fn full_version(version: &str, commit: &str, branch: &str) -> (r: String)
    ensures
        r@ == spec_full_version(version@, commit@, branch@),
{
    if text_eq(branch, "unknown") {
        version.to_owned()
    } else {
        let mut r = version.to_owned();
        push_str(&mut r, ":");
        push_str(&mut r, commit);
        push_str(&mut r, "@");
        push_str(&mut r, branch);
        r
    }
}

/// The kind of container the panel runs in.
#[derive(Clone, Copy, PartialEq, Eq, Debug)]
pub enum AppContainerType {
    Official,
    OfficialHeavy,
    Unknown,
    NoContainer,
}

/// The container kind that the `OCI_CONTAINER` setting names: the two
/// official images by name, any other value as unknown, and no setting as
/// none.
pub open spec fn spec_container_type(value: Option<Seq<char>>) -> AppContainerType {
    match value {
        Some(v) => if v == "official"@ {
            AppContainerType::Official
        } else if v == "official-heavy"@ {
            AppContainerType::OfficialHeavy
        } else {
            AppContainerType::Unknown
        },
        Option::None => AppContainerType::NoContainer,
    }
}

/// The name of a container kind on the wire.
pub open spec fn container_type_name(t: AppContainerType) -> Seq<char> {
    match t {
        AppContainerType::Official => "official"@,
        AppContainerType::OfficialHeavy => "official_heavy"@,
        AppContainerType::Unknown => "unknown"@,
        AppContainerType::NoContainer => "none"@,
    }
}

impl AppContainerType {
    /// The container kind for the value of the `OCI_CONTAINER` setting,
    /// `None` where it is not set.
    pub fn from_setting(value: Option<&str>) -> (r: Self)
        ensures
            r == spec_container_type(match value {
                Some(v) => Some(v@),
                Option::None => Option::None,
            }),
    {
        match value {
            Some(v) => if text_eq(v, "official") {
                AppContainerType::Official
            } else if text_eq(v, "official-heavy") {
                AppContainerType::OfficialHeavy
            } else {
                AppContainerType::Unknown
            },
            Option::None => AppContainerType::NoContainer,
        }
    }

    /// The kind's name on the wire.
    pub fn as_str(&self) -> (s: &'static str)
        ensures
            s@ == container_type_name(*self),
    {
        match self {
            AppContainerType::Official => "official",
            AppContainerType::OfficialHeavy => "official_heavy",
            AppContainerType::Unknown => "unknown",
            AppContainerType::NoContainer => "none",
        }
    }
}

/// Marks the unlikely arm of a branch; does nothing else.
fn cold_path() {
}

/// Returns `b`, hinting that it is usually `true`.
pub fn likely(b: bool) -> (r: bool)
    ensures
        r == b,
{
    if b {
        true
    } else {
        cold_path();
        false
    }
}

/// Returns `b`, hinting that it is usually `false`.
pub fn unlikely(b: bool) -> (r: bool)
    ensures
        r == b,
{
    if b {
        cold_path();
        true
    } else {
        false
    }
}

} // verus!
