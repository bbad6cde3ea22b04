//! The lines that a run reports, one for each thing it does.

use vstd::prelude::*;
use vstd::string::StringExecFns;

verus! {

/// The line that names the channel.
pub open spec fn channel_line(channel: Seq<char>) -> Seq<char> {
    "channel: "@ + channel
}

/// The line that gives the version to write.
pub open spec fn latest_line(latest: Seq<char>) -> Seq<char> {
    "latest rust-version: "@ + latest
}

/// The line that precedes the reading of the manifest at `path`.
pub open spec fn reading_line(path: Seq<char>) -> Seq<char> {
    path + ": reading"@
}

/// The line that tells that the manifest at `path` is that of a workspace.
pub open spec fn workspace_line(path: Seq<char>) -> Seq<char> {
    path + ": found workspace"@
}

/// The line that tells that the manifest at `path` holds `version` already.
pub open spec fn up_to_date_line(path: Seq<char>, version: Seq<char>) -> Seq<char> {
    path + ": up-to-date rust-version: "@ + version
}

/// How the version that a manifest holds is shown: the word `None` where it
/// holds none.
pub open spec fn shown(current: Option<Seq<char>>) -> Seq<char> {
    match current {
        Some(version) => version,
        None => "None"@,
    }
}

/// The line that tells that the manifest at `path` goes from `current` to
/// `latest`.
pub open spec fn updating_line(
    path: Seq<char>,
    current: Option<Seq<char>>,
    latest: Seq<char>,
) -> Seq<char> {
    path + ": updating rust-version: "@ + shown(current) + " => "@ + latest
}

/// The line that names the channel.
pub fn channel(name: &str) -> (r: String)
    ensures
        r@ == channel_line(name@),
{
    let mut line = String::from_str("channel: ");
    line.append(name);
    line
}

/// The line that gives the version to write.
pub fn latest(version: &str) -> (r: String)
    ensures
        r@ == latest_line(version@),
{
    let mut line = String::from_str("latest rust-version: ");
    line.append(version);
    line
}

/// The line that precedes the reading of the manifest at `path`.
pub fn reading(path: &str) -> (r: String)
    ensures
        r@ == reading_line(path@),
{
    let mut line = String::from_str(path);
    line.append(": reading");
    line
}

/// The line that tells that the manifest at `path` is that of a workspace.
pub fn found_workspace(path: &str) -> (r: String)
    ensures
        r@ == workspace_line(path@),
{
    let mut line = String::from_str(path);
    line.append(": found workspace");
    line
}

/// The line that tells that the manifest at `path` holds `version` already.
pub fn up_to_date(path: &str, version: &str) -> (r: String)
    ensures
        r@ == up_to_date_line(path@, version@),
{
    let mut line = String::from_str(path);
    line.append(": up-to-date rust-version: ");
    line.append(version);
    line
}

/// The line that tells that the manifest at `path` goes from `current` to
/// `latest`.
pub fn updating(path: &str, current: &Option<String>, latest: &str) -> (r: String)
    ensures
        r@ == updating_line(path@, current.deep_view(), latest@),
{
    let mut line = String::from_str(path);
    line.append(": updating rust-version: ");
    match current {
        Some(version) => line.append(version.as_str()),
        None => line.append("None"),
    }
    line.append(" => ");
    line.append(latest);
    line
}

} // verus!
