//! One manifest: what it describes, and what is to be done with it.

use vstd::prelude::*;
use crate::failure::Failure;
use crate::paths::{member_manifest, member_manifest_path};
use crate::report::{found_workspace, up_to_date, up_to_date_line, updating, updating_line, workspace_line};
use crate::toml_document::{
    document_entry, document_get, document_tree, edited, edited_within, has_table_root,
    item_as_array, item_as_str, item_decor, item_decoration, item_entry, item_get,
    item_is_table_like, parse_manifest, parsed_manifest, render, rendered, set_text,
    set_text_within,
};
use crate::tree::Node;

verus! {

/// The key of the section that makes a manifest that of a workspace.
pub const WORKSPACE_KEY: &'static str = "workspace";

/// The key under which a workspace lists its members.
pub const MEMBERS_KEY: &'static str = "members";

/// The key of the section that describes a package.
pub const PACKAGE_KEY: &'static str = "package";

/// The key of the field that this library keeps up to date.
pub const RUST_VERSION_KEY: &'static str = "rust-version";

/// A manifest in memory: a TOML document that keeps its comments, its blanks
/// and the order of its entries. It is made from text, by `parse`, and changed
/// by `plan` alone, so that its root is a table at all times.
pub struct ManifestDocument {
    doc: toml_edit::Document,
}

impl ManifestDocument {
    #[verifier::type_invariant]
    spec fn rooted(self) -> bool {
        has_table_root(self.doc)
    }

    /// The document, as the `toml_edit` crate holds it.
    pub closed spec fn document(self) -> toml_edit::Document {
        self.doc
    }

    /// The manifest that `raw` describes; `ParsingManifest` where `raw` is not
    /// valid TOML.
    pub fn parse(raw: &str) -> (r: Result<ManifestDocument, Failure>)
        ensures
            match r {
                Ok(manifest) => parsed_manifest(raw@) == Some(manifest.document()),
                Err(failure) => failure == Failure::ParsingManifest && parsed_manifest(raw@)
                    is None,
            },
    {
        match parse_manifest(raw) {
            Ok(doc) => Ok(ManifestDocument { doc }),
            Err(_) => Err(Failure::ParsingManifest),
        }
    }
}

/// What a manifest describes. A manifest with a `workspace` section is that of
/// a workspace, whatever else it holds; any other is that of a package.
#[derive(Debug, PartialEq, Eq)]
pub enum ManifestNode {
    /// A workspace, with the directories of its members in the order in which
    /// it lists them; `None` stands for an entry of the list that is no string.
    Workspace { members: Vec<Option<String>> },
    /// A package, with the version in its `rust-version` field where it has one
    /// that is a string.
    Package { rust_version: Option<String> },
}

/// A `ManifestNode` in the terms of contracts.
pub enum ManifestNodeView {
    Workspace { members: Seq<Option<Seq<char>>> },
    Package { rust_version: Option<Seq<char>> },
}

impl View for ManifestNode {
    type V = ManifestNodeView;

    open spec fn view(&self) -> ManifestNodeView {
        match self {
            ManifestNode::Workspace { members } => ManifestNodeView::Workspace {
                members: members.deep_view(),
            },
            ManifestNode::Package { rust_version } => ManifestNodeView::Package {
                rust_version: rust_version.deep_view(),
            },
        }
    }
}

/// What is to be done with a manifest that has been read.
#[derive(Debug, PartialEq, Eq)]
pub enum Visit {
    /// It is that of a workspace: the manifests of its members are to be
    /// visited, in this order. `None` stands for a member that is no string.
    Workspace { members: Vec<Option<String>> },
    /// It holds the version already: nothing is to be written.
    UpToDate,
    /// It is to be overwritten with `text`.
    Update { text: String },
}

/// A `Visit` in the terms of contracts.
pub enum VisitView {
    Workspace { members: Seq<Option<Seq<char>>> },
    UpToDate,
    Update { text: Seq<char> },
}

impl View for Visit {
    type V = VisitView;

    open spec fn view(&self) -> VisitView {
        match self {
            Visit::Workspace { members } => VisitView::Workspace { members: members.deep_view() },
            Visit::UpToDate => VisitView::UpToDate,
            Visit::Update { text } => VisitView::Update { text: text@ },
        }
    }
}

/// What came of one manifest: the lines to report, in their order, and what is
/// to be done next, or why the run ends here.
#[derive(Debug, PartialEq, Eq)]
pub struct Report {
    pub lines: Vec<String>,
    pub outcome: Result<Visit, Failure>,
}

/// A `Report` in the terms of contracts.
pub struct ReportView {
    pub lines: Seq<Seq<char>>,
    pub outcome: Result<VisitView, Failure>,
}

impl View for Report {
    type V = ReportView;

    open spec fn view(&self) -> ReportView {
        ReportView {
            lines: self.lines.deep_view(),
            outcome: match self.outcome {
                Ok(visit) => Ok(visit@),
                Err(failure) => Err(failure),
            },
        }
    }
}

/// The version in the field `package.rust-version` of a manifest, where there
/// is such a field and it holds a string.
pub open spec fn current_version(root: Node) -> Option<Seq<char>> {
    match root.child(PACKAGE_KEY@) {
        Some(package) => match package.child(RUST_VERSION_KEY@) {
            Some(field) => field.text(),
            None => None,
        },
        None => None,
    }
}

/// What the manifest with the tree `root` describes, or what is wrong with its
/// `workspace` section.
pub open spec fn inspected(root: Node) -> Result<ManifestNodeView, Failure> {
    match root.child(WORKSPACE_KEY@) {
        Some(workspace) => match workspace.child(MEMBERS_KEY@) {
            None => Err(Failure::WorkspaceMembersIsMissing),
            Some(members) => match members.elements() {
                None => Err(Failure::WorkspaceMembersIsNotArray),
                Some(names) => Ok(ManifestNodeView::Workspace { members: names }),
            },
        },
        None => Ok(ManifestNodeView::Package { rust_version: current_version(root) }),
    }
}

/// The manifests of the members of the workspace whose manifest is at
/// `manifest`, for the directories `members`.
pub open spec fn member_manifests(manifest: Seq<char>, members: Seq<Option<Seq<char>>>) -> Seq<
    Option<Seq<char>>,
> {
    Seq::new(
        members.len(),
        |i: int|
            match members[i] {
                Some(member) => Some(member_manifest(manifest, member)),
                None => None,
            },
    )
}

/// What surrounds the value in the field `package.rust-version` of a document:
/// the blanks before it, and the blanks and the comment after it. `None` where
/// no value stands there.
pub open spec fn kept_decoration(doc: toml_edit::Document) -> Option<toml_edit::Decor> {
    match document_entry(doc, PACKAGE_KEY@) {
        Some(package) => match item_entry(package, RUST_VERSION_KEY@) {
            Some(field) => item_decoration(field),
            None => None,
        },
        None => None,
    }
}

/// The document `doc` with its field `package.rust-version` set to `latest`.
/// Where a value stood in the field, the new one takes its place between what
/// surrounded it, so that nothing but the value changes on its line.
pub open spec fn written(doc: toml_edit::Document, latest: Seq<char>) -> toml_edit::Document {
    match kept_decoration(doc) {
        Some(decor) => edited_within(doc, PACKAGE_KEY@, RUST_VERSION_KEY@, latest, decor),
        None => edited(doc, PACKAGE_KEY@, RUST_VERSION_KEY@, latest),
    }
}

/// What comes of the manifest at `path` that holds `doc`, when the version to
/// write is `latest`.
pub open spec fn planned(path: Seq<char>, doc: toml_edit::Document, latest: Seq<char>) -> ReportView {
    match inspected(document_tree(doc)) {
        Err(failure) => ReportView { lines: seq![workspace_line(path)], outcome: Err(failure) },
        Ok(ManifestNodeView::Workspace { members }) => ReportView {
            lines: seq![workspace_line(path)],
            outcome: Ok(VisitView::Workspace { members: member_manifests(path, members) }),
        },
        Ok(ManifestNodeView::Package { rust_version }) => if rust_version == Some(latest) {
            ReportView { lines: seq![up_to_date_line(path, latest)], outcome: Ok(VisitView::UpToDate) }
        } else if !document_tree(doc).can_take(PACKAGE_KEY@) {
            ReportView {
                lines: seq![updating_line(path, rust_version, latest)],
                outcome: Err(Failure::PackageIsNotTable),
            }
        } else {
            ReportView {
                lines: seq![updating_line(path, rust_version, latest)],
                outcome: Ok(VisitView::Update { text: rendered(written(doc, latest)) }),
            }
        },
    }
}

/// What comes of the manifest at `path` whose text is `raw`, when the version
/// to write is `latest`.
pub open spec fn visited(path: Seq<char>, raw: Seq<char>, latest: Seq<char>) -> ReportView {
    match parsed_manifest(raw) {
        None => ReportView { lines: Seq::empty(), outcome: Err(Failure::ParsingManifest) },
        Some(doc) => planned(path, doc, latest),
    }
}

/// Whether the document `doc` is that of a package that holds `latest`.
pub open spec fn settled(doc: toml_edit::Document, latest: Seq<char>) -> bool {
    inspected(document_tree(doc)) == Ok::<ManifestNodeView, Failure>(
        ManifestNodeView::Package { rust_version: Some(latest) },
    )
}

/// A package that holds the version already is left alone: the one line that
/// says so is reported, and nothing is to be written.
pub proof fn lemma_settled_is_left_alone(path: Seq<char>, doc: toml_edit::Document, latest: Seq<char>)
    requires
        settled(doc, latest),
    ensures
        planned(path, doc, latest) == (ReportView {
            lines: seq![up_to_date_line(path, latest)],
            outcome: Ok(VisitView::UpToDate),
        }),
{
}

/// A manifest that has been written is left alone when it is visited again,
/// as far as that lies with this library.
///
/// `plan` and `run_for_manifest` promise that the document that they write,
/// `document`, holds `latest`. Where the text `text` that was written for it
/// reads back as a document that holds what `document` holds, which is for
/// `toml_edit` to keep, the visit of `text` reports that the manifest is up to
/// date and asks for no write.
pub proof fn lemma_written_is_left_alone(
    path: Seq<char>,
    document: toml_edit::Document,
    text: Seq<char>,
    latest: Seq<char>,
)
    requires
        settled(document, latest),
        parsed_manifest(text) is Some,
        document_tree(parsed_manifest(text).unwrap()) == document_tree(document),
    ensures
        visited(path, text, latest) == (ReportView {
            lines: seq![up_to_date_line(path, latest)],
            outcome: Ok(VisitView::UpToDate),
        }),
{
    lemma_settled_is_left_alone(path, parsed_manifest(text).unwrap(), latest);
}

/// A tree that has no `workspace` entry and takes the field is, with the field
/// set to `latest`, that of a package that holds `latest`.
pub proof fn lemma_with_field_settles(root: Node, latest: Seq<char>)
    requires
        root.child(WORKSPACE_KEY@) is None,
    ensures
        inspected(root.with_text(PACKAGE_KEY@, RUST_VERSION_KEY@, latest)) == Ok::<
            ManifestNodeView,
            Failure,
        >(ManifestNodeView::Package { rust_version: Some(latest) }),
{
    reveal_strlit("workspace");
    reveal_strlit("package");
    let after = root.with_text(PACKAGE_KEY@, RUST_VERSION_KEY@, latest);
    assert(WORKSPACE_KEY@ != PACKAGE_KEY@) by {
        assert(WORKSPACE_KEY@.len() == 9);
        assert(PACKAGE_KEY@.len() == 7);
    }
    assert(after.child(WORKSPACE_KEY@) is None);
    assert(after.child(PACKAGE_KEY@) is Some);
    assert(after.child(PACKAGE_KEY@).unwrap().child(RUST_VERSION_KEY@) == Some(Node::Text(latest)));
}

/// What a manifest describes: a workspace with its members, or a package with
/// the version that it holds.
pub fn inspect(manifest: &ManifestDocument) -> (r: Result<ManifestNode, Failure>)
    ensures
        match r {
            Ok(node) => inspected(document_tree(manifest.document())) == Ok::<
                ManifestNodeView,
                Failure,
            >(node@),
            Err(failure) => inspected(document_tree(manifest.document())) == Err::<
                ManifestNodeView,
                Failure,
            >(failure),
        },
{
    proof {
        use_type_invariant(manifest);
    }
    match document_get(&manifest.doc, WORKSPACE_KEY) {
        Some(workspace) => {
            let members = match item_get(workspace, MEMBERS_KEY) {
                Some(members) => members,
                None => { return Err(Failure::WorkspaceMembersIsMissing); },
            };
            match item_as_array(members) {
                Some(names) => Ok(ManifestNode::Workspace { members: names }),
                None => Err(Failure::WorkspaceMembersIsNotArray),
            }
        },
        None => {
            let rust_version = match document_get(&manifest.doc, PACKAGE_KEY) {
                Some(package) => match item_get(package, RUST_VERSION_KEY) {
                    Some(field) => match item_as_str(field) {
                        Some(text) => Some(text.to_owned()),
                        None => None,
                    },
                    None => None,
                },
                None => None,
            };
            Ok(ManifestNode::Package { rust_version })
        },
    }
}

/// The paths of the manifests of the members of the workspace whose manifest is
/// at `manifest`, in the order of `members`.
pub fn member_paths(manifest: &str, members: &Vec<Option<String>>) -> (r: Vec<Option<String>>)
    ensures
        r.deep_view() == member_manifests(manifest@, members.deep_view()),
{
    let mut paths: Vec<Option<String>> = Vec::new();
    let mut i: usize = 0;
    while i < members.len()
        invariant
            i <= members.len(),
            paths.len() == i,
            forall|k: int|
                0 <= k < i ==> paths[k].deep_view() == member_manifests(
                    manifest@,
                    members.deep_view(),
                )[k],
        decreases members.len() - i,
    {
        let path = match &members[i] {
            Some(member) => Some(member_manifest_path(manifest, member.as_str())),
            None => None,
        };
        paths.push(path);
        i = i + 1;
    }
    assert(paths.deep_view() =~= member_manifests(manifest@, members.deep_view()));
    paths
}

/// Whether the `package` entry of a manifest can take the field: the manifest
/// has no such entry yet, or the entry is a table.
pub fn takes_field(manifest: &ManifestDocument) -> (r: bool)
    ensures
        r == document_tree(manifest.document()).can_take(PACKAGE_KEY@),
{
    proof {
        use_type_invariant(manifest);
    }
    match document_get(&manifest.doc, PACKAGE_KEY) {
        Some(package) => item_is_table_like(package),
        None => true,
    }
}

/// What surrounds the value in the field `package.rust-version`, to be kept
/// when the value is replaced.
fn decoration(doc: &toml_edit::Document) -> (r: Option<toml_edit::Decor>)
    requires
        has_table_root(*doc),
    ensures
        r == kept_decoration(*doc),
{
    match document_get(doc, PACKAGE_KEY) {
        Some(package) => match item_get(package, RUST_VERSION_KEY) {
            Some(field) => item_decor(field),
            None => None,
        },
        None => None,
    }
}

/// The text of the document `doc` once its field `package.rust-version` is set
/// to `latest`.
fn rewrite(doc: toml_edit::Document, latest: &str) -> (r: String)
    requires
        has_table_root(doc),
        document_tree(doc).can_take(PACKAGE_KEY@),
    ensures
        r@ == rendered(written(doc, latest@)),
        document_tree(written(doc, latest@)) == document_tree(doc).with_text(
            PACKAGE_KEY@,
            RUST_VERSION_KEY@,
            latest@,
        ),
{
    let mut doc = doc;
    match decoration(&doc) {
        Some(decor) => set_text_within(&mut doc, PACKAGE_KEY, RUST_VERSION_KEY, latest, decor),
        None => set_text(&mut doc, PACKAGE_KEY, RUST_VERSION_KEY, latest),
    }
    render(&doc)
}

/// What comes of the manifest at `path` that holds `manifest`, when the
/// version to write is `latest`.
///
/// A workspace hands on to the manifests of its members and is itself left as
/// it is, whatever else it holds. A package that holds `latest` is left as it
/// is. Any other package gets the field `package.rust-version` set to `latest`,
/// the section being made where there is none, and is to be overwritten with
/// the text of the document as it then stands. A value that stood in the field
/// leaves its place to the new one: the blanks around it and the comment
/// behind it stay.
///
/// The document that is written holds `latest`: `plan` would leave it alone.
pub fn plan(path: &str, manifest: ManifestDocument, latest: &str) -> (r: Report)
    ensures
        r@ == planned(path@, manifest.document(), latest@),
        r@.outcome matches Ok(VisitView::Update { .. }) ==> settled(
            written(manifest.document(), latest@),
            latest@,
        ),
{
    let ghost given = manifest.doc;
    proof {
        use_type_invariant(&manifest);
    }
    let mut lines: Vec<String> = Vec::new();
    let outcome = match inspect(&manifest) {
        Err(failure) => {
            lines.push(found_workspace(path));
            Err(failure)
        },
        Ok(ManifestNode::Workspace { members }) => {
            lines.push(found_workspace(path));
            Ok(Visit::Workspace { members: member_paths(path, &members) })
        },
        Ok(ManifestNode::Package { rust_version }) => {
            let holds_latest = match &rust_version {
                Some(version) => *version == latest.to_owned(),
                None => false,
            };
            if holds_latest {
                lines.push(up_to_date(path, latest));
                Ok(Visit::UpToDate)
            } else {
                lines.push(updating(path, &rust_version, latest));
                if takes_field(&manifest) {
                    proof {
                        lemma_with_field_settles(document_tree(given), latest@);
                    }
                    Ok(Visit::Update { text: rewrite(manifest.doc, latest) })
                } else {
                    Err(Failure::PackageIsNotTable)
                }
            }
        },
    };
    let report = Report { lines, outcome };
    assert(report@.lines =~= planned(path@, given, latest@).lines);
    report
}

} // verus!
