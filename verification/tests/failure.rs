use cargo_set_rust_version::failure::Failure;

#[test]
fn every_failure_has_its_own_message() {
    let all = [
        (Failure::ReadingManifest, "reading manifest"),
        (Failure::ParsingManifest, "parsing manifest"),
        (Failure::WorkspaceMembersIsMissing, "parsing manifest workspace members is missing"),
        (Failure::WorkspaceMembersIsNotArray, "parsing manifest workspace members is not array"),
        (Failure::WorkspaceMemberIsNotString, "parsing manifest workspace member is not string"),
        (Failure::Http, "making http request"),
        (Failure::ParsingReleaseInfoNotString, "making http request not string"),
        (Failure::ParsingReleaseInfoNotValidToml, "parsing release info not valid toml"),
        (Failure::ReleaseInfoPkgSectionIsMissing, "parsing release info pkg section is missing"),
        (Failure::ReleaseInfoRustcSectionIsMissing, "parsing release info rustc section is missing"),
        (Failure::ReleaseInfoRustCVersionIsMissing, "parsing release info rustc version is missing"),
        (
            Failure::ReleaseInfoRustCVersionIsNotString,
            "parsing release info rustc version is not string",
        ),
        (Failure::ReleaseInfoRustCVersionIsEmpty, "parsing release info rustc version is empty"),
        (Failure::PackageIsNotTable, "updating manifest package is not table"),
        (Failure::WritingManifest, "writing manifest"),
    ];
    for (i, (failure, message)) in all.iter().enumerate() {
        assert_eq!(failure.message(), *message);
        for (other, _) in &all[i + 1..] {
            assert_ne!(failure, other);
            assert_ne!(failure.message(), other.message());
        }
    }
}
