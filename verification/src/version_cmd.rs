//! Raising the version of a build.

use vstd::prelude::*;
use crate::config::is_version;
use crate::text::{concat3, decimal, decimal_text, number_of, parse_number, split, split_on, texts};

verus! {

/// Which part of a version to raise.
#[derive(Debug, Clone, Copy, PartialEq, Eq, Structural)]
pub enum BumpLevel {
    Patch,
    Minor,
    Major,
}

/// Why a version could not be raised.
#[derive(Debug, Clone, Copy, PartialEq, Eq, Structural)]
pub enum VersionError {
    /// The version is not three numbers with a dot between each two, or one
    /// of the numbers is larger than `u32::MAX`.
    InvalidFormat,
    /// The part to raise is `u32::MAX` already.
    Overflow,
}

/// The three numbers of a version.
pub open spec fn version_numbers(version: Seq<char>) -> Option<(u32, u32, u32)> {
    let parts = split_on(version, '.');
    if parts.len() == 3 && number_of(parts[0]) is Some && number_of(parts[1]) is Some && number_of(
        parts[2],
    ) is Some {
        Some((number_of(parts[0])->0, number_of(parts[1])->0, number_of(parts[2])->0))
    } else {
        None
    }
}

/// A version raised: the part named goes up by one and the parts after it
/// go back to zero.
pub open spec fn raised(numbers: (u32, u32, u32), level: BumpLevel) -> (nat, nat, nat) {
    match level {
        BumpLevel::Patch => (numbers.0 as nat, numbers.1 as nat, numbers.2 as nat + 1),
        BumpLevel::Minor => (numbers.0 as nat, numbers.1 as nat + 1, 0),
        BumpLevel::Major => (numbers.0 as nat + 1, 0, 0),
    }
}

/// The part of a version that a level names.
pub open spec fn part_raised(numbers: (u32, u32, u32), level: BumpLevel) -> u32 {
    match level {
        BumpLevel::Patch => numbers.2,
        BumpLevel::Minor => numbers.1,
        BumpLevel::Major => numbers.0,
    }
}

/// Three numbers written as a version.
pub open spec fn version_text(numbers: (nat, nat, nat)) -> Seq<char> {
    decimal_text(numbers.0) + "."@ + decimal_text(numbers.1) + "."@ + decimal_text(numbers.2)
}

/// What raising a version gives.
pub open spec fn bumped(version: Seq<char>, level: BumpLevel) -> Result<Seq<char>, VersionError> {
    match version_numbers(version) {
        None => Err(VersionError::InvalidFormat),
        Some(numbers) => if part_raised(numbers, level) == u32::MAX {
            Err(VersionError::Overflow)
        } else {
            Ok(version_text(raised(numbers, level)))
        },
    }
}

fn write_version(major: u32, minor: u32, patch: u32) -> (text: String)
    ensures
        text@ == version_text((major as nat, minor as nat, patch as nat)),
{
    let head = concat3(decimal(major as u128).as_str(), ".", decimal(minor as u128).as_str());
    concat3(head.as_str(), ".", decimal(patch as u128).as_str())
}

/// Raises a version.
pub fn bump_version(version: &str, level: BumpLevel) -> (r: Result<String, VersionError>)
    ensures
        match bumped(version@, level) {
            Ok(text) => r is Ok && r->Ok_0@ == text,
            Err(e) => r == Err::<String, VersionError>(e),
        },
{
    let parts = split(version, '.');
    if parts.len() != 3 {
        return Err(VersionError::InvalidFormat);
    }
    assert(texts(parts@)[0] == parts@[0]@);
    assert(texts(parts@)[1] == parts@[1]@);
    assert(texts(parts@)[2] == parts@[2]@);
    let major = match parse_number(parts[0].as_str()) {
        Some(n) => n,
        None => {
            return Err(VersionError::InvalidFormat);
        },
    };
    let minor = match parse_number(parts[1].as_str()) {
        Some(n) => n,
        None => {
            return Err(VersionError::InvalidFormat);
        },
    };
    let patch = match parse_number(parts[2].as_str()) {
        Some(n) => n,
        None => {
            return Err(VersionError::InvalidFormat);
        },
    };
    match level {
        BumpLevel::Patch => match patch.checked_add(1) {
            Some(next) => Ok(write_version(major, minor, next)),
            None => Err(VersionError::Overflow),
        },
        BumpLevel::Minor => match minor.checked_add(1) {
            Some(next) => Ok(write_version(major, next, 0)),
            None => Err(VersionError::Overflow),
        },
        BumpLevel::Major => match major.checked_add(1) {
            Some(next) => Ok(write_version(next, 0, 0)),
            None => Err(VersionError::Overflow),
        },
    }
}

/// The message of a version error, for the version it is about.
pub open spec fn version_error_text(e: VersionError, version: Seq<char>) -> Seq<char> {
    match e {
        VersionError::InvalidFormat => "Version must be in major.minor.patch format, got: "@
            + version,
        VersionError::Overflow => "Version cannot be raised any further: "@ + version,
    }
}

impl VersionError {
    /// The message shown for this error, for the version it is about.
    pub fn message(&self, version: &str) -> (text: String)
        ensures
            text@ == version_error_text(*self, version@),
    {
        match self {
            VersionError::InvalidFormat => crate::text::concat2(
                "Version must be in major.minor.patch format, got: ",
                version,
            ),
            VersionError::Overflow => crate::text::concat2(
                "Version cannot be raised any further: ",
                version,
            ),
        }
    }
}

/// Every version that can be raised is a version in the project file's
/// sense: three non-empty runs of digits.
pub proof fn law_raisable_versions_are_versions(version: Seq<char>)
    requires
        version_numbers(version) is Some,
    ensures
        is_version(version),
{
}

} // verus!
