//! The command: which manifest to start from, and which channel to follow.

use vstd::prelude::*;
use vstd::string::StringExecFns;
use crate::failure::Failure;
use crate::manifest::{plan, settled, visited, written, ManifestDocument, Report, VisitView};
use crate::release::{release_url, url_of};
use crate::report::{channel, channel_line};
use crate::toml_document::parsed_manifest;
use crate::walk::{waiting, Action, ActionView, Output, OutputView, Walk};

verus! {

/// The manifest that is used where none is named.
pub const DEFAULT_MANIFEST: &'static str = "Cargo.toml";

/// The channel that is followed where none is named.
pub const DEFAULT_CHANNEL: &'static str = "stable";

/// Sets the `rust-version` of a manifest, and of the members of a workspace,
/// to the latest version of a channel.
#[derive(Debug, PartialEq, Eq)]
pub struct SetRustVersionCmd {
    /// The path of the manifest to start from.
    pub manifest: String,
    /// The channel whose latest version is to be written.
    pub channel: String,
}

impl Default for SetRustVersionCmd {
    fn default() -> (r: SetRustVersionCmd)
        ensures
            r.manifest@ == DEFAULT_MANIFEST@,
            r.channel@ == DEFAULT_CHANNEL@,
    {
        SetRustVersionCmd {
            manifest: String::from_str(DEFAULT_MANIFEST),
            channel: String::from_str(DEFAULT_CHANNEL),
        }
    }
}

impl SetRustVersionCmd {
    /// What the first step of a run of this command hands to the caller: the
    /// line that names the channel, and the request for its release description.
    pub open spec fn announced(self) -> OutputView {
        OutputView {
            lines: seq![channel_line(self.channel@)],
            action: ActionView::Fetch { url: url_of(self.channel@) },
        }
    }

    /// Begins a run: names the channel, and asks for its release description.
    /// The run goes on with `Walk::step`, which takes what the caller got.
    pub fn run(&self) -> (r: (Walk, Output))
        ensures
            r.0@ == waiting(self.manifest@),
            r.1@ == self.announced(),
    {
        let mut lines: Vec<String> = Vec::new();
        lines.push(channel(self.channel.as_str()));
        assert(lines.deep_view() =~= seq![channel_line(self.channel@)]);
        let cmd = SetRustVersionCmd { manifest: self.manifest.clone(), channel: self.channel.clone() };
        let output = Output { lines, action: Action::Fetch { url: release_url(self.channel.as_str()) } };
        (Walk::new(cmd), output)
    }

    /// What comes of the manifest at `manifest_path` whose text is
    /// `manifest_raw`, when the version to write is `latest_version`: the text
    /// is read as TOML, and `plan` decides on the document.
    ///
    /// Where the manifest is to be overwritten, the document whose text is
    /// handed out holds `latest_version`.
    pub fn run_for_manifest(
        &self,
        manifest_path: &str,
        manifest_raw: &str,
        latest_version: &str,
    ) -> (r: Report)
        ensures
            r@ == visited(manifest_path@, manifest_raw@, latest_version@),
            r@.outcome matches Ok(VisitView::Update { .. }) ==> {
                &&& parsed_manifest(manifest_raw@) is Some
                &&& settled(
                    written(parsed_manifest(manifest_raw@).unwrap(), latest_version@),
                    latest_version@,
                )
            },
    {
        match ManifestDocument::parse(manifest_raw) {
            Ok(manifest) => plan(manifest_path, manifest, latest_version),
            Err(failure) => {
                let report = Report { lines: Vec::new(), outcome: Err(failure) };
                assert(report@.lines =~= Seq::<Seq<char>>::empty());
                report
            },
        }
    }
}

} // verus!
