//! The release description of a channel, and the version that it announces.

use vstd::prelude::*;
use vstd::string::StringExecFns;
use crate::failure::Failure;
use crate::toml_value::{parse_release, release_tree, value_as_str, value_get, value_tree};
use crate::tree::Node;
use crate::version::{
    lemma_normalized_first_two_components, lemma_normalized_shape, normalize, normalized,
    occurrences,
};

verus! {

/// Where the release descriptions are published, up to the name of the channel.
pub const URL_BEFORE_CHANNEL: &'static str = "https://static.rust-lang.org/dist/channel-rust-";

/// What follows the name of the channel in the address of its release
/// description.
pub const URL_AFTER_CHANNEL: &'static str = ".toml";

/// The address of the release description of `channel`.
pub open spec fn url_of(channel: Seq<char>) -> Seq<char> {
    URL_BEFORE_CHANNEL@ + channel + URL_AFTER_CHANNEL@
}

/// The address of the release description of `channel`.
pub fn release_url(channel: &str) -> (r: String)
    ensures
        r@ == url_of(channel@),
{
    let mut url = String::from_str(URL_BEFORE_CHANNEL);
    url.append(channel);
    url.append(URL_AFTER_CHANNEL);
    url
}

/// The full version that a release description announces: the text of its entry
/// `pkg.rustc.version`, or the error that names the first thing missing on the
/// way to it.
pub open spec fn announced(info: Node) -> Result<Seq<char>, Failure> {
    match info.child("pkg"@) {
        None => Err(Failure::ReleaseInfoPkgSectionIsMissing),
        Some(pkg) => match pkg.child("rustc"@) {
            None => Err(Failure::ReleaseInfoRustcSectionIsMissing),
            Some(rustc) => match rustc.child("version"@) {
                None => Err(Failure::ReleaseInfoRustCVersionIsMissing),
                Some(version) => match version.text() {
                    None => Err(Failure::ReleaseInfoRustCVersionIsNotString),
                    Some(text) => Ok(text),
                },
            },
        },
    }
}

/// The version to write into manifests, from what a release description holds.
pub open spec fn latest_of(info: Node) -> Result<Seq<char>, Failure> {
    match announced(info) {
        Err(error) => Err(error),
        Ok(text) => match normalized(text) {
            None => Err(Failure::ReleaseInfoRustCVersionIsEmpty),
            Some(version) => Ok(version),
        },
    }
}

/// The version to write into manifests, from the text of a release description.
pub open spec fn resolved(body: Seq<char>) -> Result<Seq<char>, Failure> {
    match release_tree(body) {
        None => Err(Failure::ParsingReleaseInfoNotValidToml),
        Some(info) => latest_of(info),
    }
}

/// The version that is written where a release description announces a version
/// of two components or more: its first two components, whatever follows the
/// version after a space.
///
/// The release description `body` reads as TOML and holds, under
/// `pkg.rustc.version`, the string `announcement`. That string is a version,
/// alone or followed by a space and any `suffix`. The version is `major`, a
/// dot, `minor`, and `rest`, which is empty or begins with a dot; `major` and
/// `minor` hold no dot, and the version holds no space.
pub proof fn lemma_resolved_first_two_components(
    body: Seq<char>,
    announcement: Seq<char>,
    major: Seq<char>,
    minor: Seq<char>,
    rest: Seq<char>,
    suffix: Seq<char>,
)
    requires
        release_tree(body) is Some,
        announced(release_tree(body).unwrap()) == Ok::<Seq<char>, Failure>(announcement),
        announcement == major + seq!['.'] + minor + rest + seq![' '] + suffix || announcement
            == major + seq!['.'] + minor + rest,
        !major.contains('.'),
        !minor.contains('.'),
        rest.len() == 0 || rest[0] == '.',
        !major.contains(' '),
        !minor.contains(' '),
        !rest.contains(' '),
    ensures
        resolved(body) == Ok::<Seq<char>, Failure>(major + seq!['.'] + minor),
{
    lemma_normalized_first_two_components(major, minor, rest, suffix);
}

/// The version that is written is never empty, holds no space, and holds one
/// dot at most: no third component, and nothing of what a release description
/// says after the version, gets into a manifest.
pub proof fn lemma_resolved_shape(body: Seq<char>)
    requires
        resolved(body) is Ok,
    ensures
        resolved(body).unwrap().len() > 0,
        !resolved(body).unwrap().contains(' '),
        occurrences(resolved(body).unwrap(), '.') <= 1,
{
    lemma_normalized_shape(announced(release_tree(body).unwrap()).unwrap());
}

/// Whether `r` holds the text or the error that `expected` holds.
pub open spec fn text_is(r: Result<String, Failure>, expected: Result<Seq<char>, Failure>) -> bool {
    match r {
        Ok(text) => expected == Ok::<Seq<char>, Failure>(text@),
        Err(error) => expected == Err::<Seq<char>, Failure>(error),
    }
}

/// The version to write into manifests, from a release description that has
/// been read: the `major.minor` form of its entry `pkg.rustc.version`.
pub fn latest_version(info: &toml::Value) -> (r: Result<String, Failure>)
    ensures
        text_is(r, latest_of(value_tree(*info))),
{
    let pkg = match value_get(info, "pkg") {
        Some(pkg) => pkg,
        None => { return Err(Failure::ReleaseInfoPkgSectionIsMissing); },
    };
    let rustc = match value_get(pkg, "rustc") {
        Some(rustc) => rustc,
        None => { return Err(Failure::ReleaseInfoRustcSectionIsMissing); },
    };
    let version = match value_get(rustc, "version") {
        Some(version) => version,
        None => { return Err(Failure::ReleaseInfoRustCVersionIsMissing); },
    };
    let version_and_meta = match value_as_str(version) {
        Some(text) => text,
        None => { return Err(Failure::ReleaseInfoRustCVersionIsNotString); },
    };
    match normalize(version_and_meta) {
        Some(latest) => Ok(latest),
        None => Err(Failure::ReleaseInfoRustCVersionIsEmpty),
    }
}

/// The version to write into manifests, from the text of the release
/// description of a channel.
pub fn resolve(body: &str) -> (r: Result<String, Failure>)
    ensures
        text_is(r, resolved(body@)),
{
    match parse_release(body) {
        Ok(info) => latest_version(&info),
        Err(_) => Err(Failure::ParsingReleaseInfoNotValidToml),
    }
}

} // verus!
