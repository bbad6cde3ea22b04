//! The ways in which a run can fail.

use vstd::prelude::*;

verus! {

/// Why a run was given up. Every failure ends the run at once: nothing is
/// retried, and what was written before the failure stays written.
#[derive(Clone, Copy, Debug, PartialEq, Eq, Structural)]
pub enum Failure {
    /// A manifest could not be read.
    ReadingManifest,
    /// A manifest is not valid TOML.
    ParsingManifest,
    /// A workspace has no `members` entry.
    WorkspaceMembersIsMissing,
    /// The `members` entry of a workspace is not an array.
    WorkspaceMembersIsNotArray,
    /// A member of a workspace is not a string.
    WorkspaceMemberIsNotString,
    /// The request for the release description failed.
    Http,
    /// The release description that came back is not text.
    ParsingReleaseInfoNotString,
    /// The release description is not valid TOML.
    ParsingReleaseInfoNotValidToml,
    /// The release description has no `pkg` entry.
    ReleaseInfoPkgSectionIsMissing,
    /// The `pkg` entry of the release description has no `rustc` entry.
    ReleaseInfoRustcSectionIsMissing,
    /// The `rustc` entry of the release description has no `version` entry.
    ReleaseInfoRustCVersionIsMissing,
    /// The `version` entry of the release description is not a string.
    ReleaseInfoRustCVersionIsNotString,
    /// Nothing stands before the first space of the `version` entry.
    ReleaseInfoRustCVersionIsEmpty,
    /// The `package` entry of a manifest that needs the field is neither a
    /// table nor an inline table, so it cannot take the field.
    PackageIsNotTable,
    /// A manifest could not be written.
    WritingManifest,
}

impl Failure {
    /// The one-line description of the failure, as a spec value.
    pub open spec fn description(self) -> Seq<char> {
        match self {
            Failure::ReadingManifest => "reading manifest"@,
            Failure::ParsingManifest => "parsing manifest"@,
            Failure::WorkspaceMembersIsMissing => "parsing manifest workspace members is missing"@,
            Failure::WorkspaceMembersIsNotArray => "parsing manifest workspace members is not array"@,
            Failure::WorkspaceMemberIsNotString => "parsing manifest workspace member is not string"@,
            Failure::Http => "making http request"@,
            Failure::ParsingReleaseInfoNotString => "making http request not string"@,
            Failure::ParsingReleaseInfoNotValidToml => "parsing release info not valid toml"@,
            Failure::ReleaseInfoPkgSectionIsMissing => "parsing release info pkg section is missing"@,
            Failure::ReleaseInfoRustcSectionIsMissing => "parsing release info rustc section is missing"@,
            Failure::ReleaseInfoRustCVersionIsMissing => "parsing release info rustc version is missing"@,
            Failure::ReleaseInfoRustCVersionIsNotString => "parsing release info rustc version is not string"@,
            Failure::ReleaseInfoRustCVersionIsEmpty => "parsing release info rustc version is empty"@,
            Failure::PackageIsNotTable => "updating manifest package is not table"@,
            Failure::WritingManifest => "writing manifest"@,
        }
    }

    /// The one-line description of the failure.
    pub fn message(&self) -> (r: &'static str)
        ensures
            r@ == self.description(),
    {
        match self {
            Failure::ReadingManifest => "reading manifest",
            Failure::ParsingManifest => "parsing manifest",
            Failure::WorkspaceMembersIsMissing => "parsing manifest workspace members is missing",
            Failure::WorkspaceMembersIsNotArray => "parsing manifest workspace members is not array",
            Failure::WorkspaceMemberIsNotString => "parsing manifest workspace member is not string",
            Failure::Http => "making http request",
            Failure::ParsingReleaseInfoNotString => "making http request not string",
            Failure::ParsingReleaseInfoNotValidToml => "parsing release info not valid toml",
            Failure::ReleaseInfoPkgSectionIsMissing => "parsing release info pkg section is missing",
            Failure::ReleaseInfoRustcSectionIsMissing => "parsing release info rustc section is missing",
            Failure::ReleaseInfoRustCVersionIsMissing => "parsing release info rustc version is missing",
            Failure::ReleaseInfoRustCVersionIsNotString => "parsing release info rustc version is not string",
            Failure::ReleaseInfoRustCVersionIsEmpty => "parsing release info rustc version is empty",
            Failure::PackageIsNotTable => "updating manifest package is not table",
            Failure::WritingManifest => "writing manifest",
        }
    }
}

} // verus!
