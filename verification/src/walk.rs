//! A run, as a sequence of steps. The run itself touches nothing: each step
//! says what the caller is to do next, and the caller reports back what came
//! of it.
//!
//! The manifests are visited depth first: a workspace before its members, the
//! members in the order in which the workspace lists them, and all that lies
//! below a member before the next member. The first failure ends the run.

use vstd::prelude::*;
use crate::failure::Failure;
use crate::command::SetRustVersionCmd;
use crate::manifest::{lemma_settled_is_left_alone, settled, visited, Visit, VisitView};
use crate::release::{resolve, resolved};
use crate::report::{latest, latest_line, reading, reading_line, up_to_date_line};
use crate::toml_document::parsed_manifest;

verus! {

/// What the caller is asked to do next.
#[derive(Debug, PartialEq, Eq)]
pub enum Action {
    /// Get the text at `url`, and report it, or that it could not be had.
    Fetch { url: String },
    /// Read the file at `path`, and report its text, or that it could not be
    /// read.
    Read { path: String },
    /// Overwrite the file at `path` with `text`, and report how that went.
    Write { path: String, text: String },
    /// Nothing more: the run has ended, in this way.
    Finish { result: Result<(), Failure> },
}

/// An `Action` in the terms of contracts.
pub enum ActionView {
    Fetch { url: Seq<char> },
    Read { path: Seq<char> },
    Write { path: Seq<char>, text: Seq<char> },
    Finish { result: Result<(), Failure> },
}

impl View for Action {
    type V = ActionView;

    open spec fn view(&self) -> ActionView {
        match self {
            Action::Fetch { url } => ActionView::Fetch { url: url@ },
            Action::Read { path } => ActionView::Read { path: path@ },
            Action::Write { path, text } => ActionView::Write { path: path@, text: text@ },
            Action::Finish { result } => ActionView::Finish { result: *result },
        }
    }
}

/// What the caller reports of the action that it was asked for.
#[derive(Debug, PartialEq, Eq)]
pub enum Reply {
    /// The text that was asked for.
    Text(String),
    /// The file has been written.
    Done,
    /// What came back is not text.
    NotText,
    /// The action failed.
    Failed,
}

/// A `Reply` in the terms of contracts.
pub enum ReplyView {
    Text(Seq<char>),
    Done,
    NotText,
    Failed,
}

impl View for Reply {
    type V = ReplyView;

    open spec fn view(&self) -> ReplyView {
        match self {
            Reply::Text(text) => ReplyView::Text(text@),
            Reply::Done => ReplyView::Done,
            Reply::NotText => ReplyView::NotText,
            Reply::Failed => ReplyView::Failed,
        }
    }
}

/// What a step hands to the caller: the lines to report, in their order, and
/// then the action to take.
#[derive(Debug, PartialEq, Eq)]
pub struct Output {
    pub lines: Vec<String>,
    pub action: Action,
}

/// An `Output` in the terms of contracts.
pub struct OutputView {
    pub lines: Seq<Seq<char>>,
    pub action: ActionView,
}

impl View for Output {
    type V = OutputView;

    open spec fn view(&self) -> OutputView {
        OutputView { lines: self.lines.deep_view(), action: self.action@ }
    }
}

/// What a run is waiting for.
#[derive(Clone, Copy, Debug, PartialEq, Eq, Structural)]
pub enum Phase {
    /// The release description of the channel.
    Fetching,
    /// The text of the manifest in hand.
    Reading,
    /// Word that the manifest in hand has been written.
    Writing,
    /// Nothing: the run has ended well.
    Succeeded,
    /// Nothing: the run has been given up.
    Failed(Failure),
}

/// A run in progress.
pub struct Walk {
    cmd: SetRustVersionCmd,
    phase: Phase,
    latest: String,
    current: String,
    pending: Vec<Option<String>>,
}

/// A `Walk` in the terms of contracts.
pub struct WalkView {
    /// What the run is waiting for.
    pub phase: Phase,
    /// The version to write; empty until the release description is in.
    pub latest: Seq<char>,
    /// The path of the manifest in hand; empty before the first.
    pub current: Seq<char>,
    /// The manifests that are still to be visited, the next one first. `None`
    /// stands for a member of a workspace that is no string.
    pub pending: Seq<Option<Seq<char>>>,
}

impl View for Walk {
    type V = WalkView;

    closed spec fn view(&self) -> WalkView {
        WalkView {
            phase: self.phase,
            latest: self.latest@,
            current: self.current@,
            pending: self.pending.deep_view(),
        }
    }
}

/// The run that waits for the release description of its channel, with the
/// manifest at `manifest` to start from.
pub open spec fn waiting(manifest: Seq<char>) -> WalkView {
    WalkView {
        phase: Phase::Fetching,
        latest: Seq::empty(),
        current: Seq::empty(),
        pending: seq![Some(manifest)],
    }
}

/// The end of a run: its state, and what the caller is told.
pub open spec fn finished(
    walk: WalkView,
    lines: Seq<Seq<char>>,
    result: Result<(), Failure>,
) -> (WalkView, OutputView) {
    let phase = match result {
        Ok(_) => Phase::Succeeded,
        Err(failure) => Phase::Failed(failure),
    };
    (WalkView { phase, ..walk }, OutputView { lines, action: ActionView::Finish { result } })
}

/// On to the next manifest, after `lines`: the run ends well where none is
/// left, is given up where the next member is no string, and asks for the text
/// of the next manifest otherwise.
pub open spec fn proceeded(walk: WalkView, lines: Seq<Seq<char>>) -> (WalkView, OutputView) {
    if walk.pending.len() == 0 {
        finished(walk, lines, Ok(()))
    } else {
        let rest = walk.pending.drop_first();
        match walk.pending[0] {
            None => finished(
                WalkView { pending: rest, ..walk },
                lines,
                Err(Failure::WorkspaceMemberIsNotString),
            ),
            Some(path) => (
                WalkView { phase: Phase::Reading, current: path, pending: rest, ..walk },
                OutputView {
                    lines: lines.push(reading_line(path)),
                    action: ActionView::Read { path },
                },
            ),
        }
    }
}

/// One step of a run: from its state and what the caller reports, to its next
/// state and what the caller is told.
pub open spec fn stepped(walk: WalkView, reply: ReplyView) -> (WalkView, OutputView) {
    match walk.phase {
        Phase::Fetching => match reply {
            ReplyView::Text(body) => match resolved(body) {
                Ok(version) => proceeded(
                    WalkView { latest: version, ..walk },
                    seq![latest_line(version)],
                ),
                Err(failure) => finished(walk, Seq::empty(), Err(failure)),
            },
            ReplyView::NotText => finished(
                walk,
                Seq::empty(),
                Err(Failure::ParsingReleaseInfoNotString),
            ),
            _ => finished(walk, Seq::empty(), Err(Failure::Http)),
        },
        Phase::Reading => match reply {
            ReplyView::Text(raw) => {
                let report = visited(walk.current, raw, walk.latest);
                match report.outcome {
                    Err(failure) => finished(walk, report.lines, Err(failure)),
                    Ok(VisitView::Workspace { members }) => proceeded(
                        WalkView { pending: members + walk.pending, ..walk },
                        report.lines,
                    ),
                    Ok(VisitView::UpToDate) => proceeded(walk, report.lines),
                    Ok(VisitView::Update { text }) => (
                        WalkView { phase: Phase::Writing, ..walk },
                        OutputView {
                            lines: report.lines,
                            action: ActionView::Write { path: walk.current, text },
                        },
                    ),
                }
            },
            _ => finished(walk, Seq::empty(), Err(Failure::ReadingManifest)),
        },
        Phase::Writing => match reply {
            ReplyView::Done => proceeded(walk, Seq::empty()),
            _ => finished(walk, Seq::empty(), Err(Failure::WritingManifest)),
        },
        Phase::Succeeded => (
            walk,
            OutputView { lines: Seq::empty(), action: ActionView::Finish { result: Ok(()) } },
        ),
        Phase::Failed(failure) => (
            walk,
            OutputView { lines: Seq::empty(), action: ActionView::Finish { result: Err(failure) } },
        ),
    }
}

/// A manifest that holds the version already is not written: the step that
/// takes its text reports that it is up to date and goes on to the next
/// manifest.
pub proof fn lemma_up_to_date_is_not_written(walk: WalkView, raw: Seq<char>)
    requires
        walk.phase == Phase::Reading,
        parsed_manifest(raw) is Some,
        settled(parsed_manifest(raw).unwrap(), walk.latest),
    ensures
        stepped(walk, ReplyView::Text(raw)) == proceeded(
            walk,
            seq![up_to_date_line(walk.current, walk.latest)],
        ),
        !(stepped(walk, ReplyView::Text(raw)).1.action is Write),
{
    lemma_settled_is_left_alone(walk.current, parsed_manifest(raw).unwrap(), walk.latest);
}

/// A step asks for a write only when it has been given the text of a manifest,
/// and then only of that manifest.
pub proof fn lemma_writes_only_what_was_read(walk: WalkView, reply: ReplyView)
    requires
        stepped(walk, reply).1.action is Write,
    ensures
        walk.phase == Phase::Reading,
        reply is Text,
        stepped(walk, reply).1.action->Write_path == walk.current,
{
}

/// No line at all.
fn no_lines() -> (r: Vec<String>)
    ensures
        r.deep_view() == Seq::<Seq<char>>::empty(),
{
    let lines: Vec<String> = Vec::new();
    assert(lines.deep_view() =~= Seq::<Seq<char>>::empty());
    lines
}

impl Walk {
    /// The run of `cmd` that waits for the release description of its channel.
    pub fn new(cmd: SetRustVersionCmd) -> (r: Walk)
        ensures
            r@ == waiting(cmd.manifest@),
    {
        let mut pending: Vec<Option<String>> = Vec::new();
        pending.push(Some(cmd.manifest.clone()));
        let walk = Walk {
            cmd,
            phase: Phase::Fetching,
            latest: String::new(),
            current: String::new(),
            pending,
        };
        assert(walk@.pending =~= seq![Some(cmd.manifest@)]);
        walk
    }

    /// What the run is waiting for.
    pub fn phase(&self) -> (r: Phase)
        ensures
            r == self@.phase,
    {
        self.phase
    }

    fn finish(&mut self, lines: Vec<String>, result: Result<(), Failure>) -> (out: Output)
        ensures
            (final(self)@, out@) == finished(old(self)@, lines.deep_view(), result),
    {
        self.phase = match result {
            Ok(_) => Phase::Succeeded,
            Err(failure) => Phase::Failed(failure),
        };
        Output { lines, action: Action::Finish { result } }
    }

    fn proceed(&mut self, lines: Vec<String>) -> (out: Output)
        ensures
            (final(self)@, out@) == proceeded(old(self)@, lines.deep_view()),
    {
        if self.pending.len() == 0 {
            return self.finish(lines, Ok(()));
        }
        let ghost before = self.pending.deep_view();
        let next = self.pending.remove(0);
        assert(self.pending.deep_view() =~= before.drop_first());
        assert(next.deep_view() == before[0]);
        match next {
            None => self.finish(lines, Err(Failure::WorkspaceMemberIsNotString)),
            Some(path) => {
                let mut lines = lines;
                let ghost said = lines.deep_view();
                lines.push(reading(path.as_str()));
                assert(lines.deep_view() =~= said.push(reading_line(path@)));
                self.phase = Phase::Reading;
                self.current = path.clone();
                Output { lines, action: Action::Read { path } }
            },
        }
    }

    /// One step of the run. `reply` is what came of the action that the step
    /// before asked for; a reply that does not answer that action counts as
    /// its failure. A run that has ended stays as it is and says again how it
    /// ended.
    pub fn step(&mut self, reply: Reply) -> (out: Output)
        ensures
            (final(self)@, out@) == stepped(old(self)@, reply@),
    {
        match self.phase {
            Phase::Fetching => match reply {
                Reply::Text(body) => match resolve(body.as_str()) {
                    Ok(version) => {
                        let mut lines: Vec<String> = Vec::new();
                        lines.push(latest(version.as_str()));
                        assert(lines.deep_view() =~= seq![latest_line(version@)]);
                        self.latest = version;
                        self.proceed(lines)
                    },
                    Err(failure) => self.finish(no_lines(), Err(failure)),
                },
                Reply::NotText => self.finish(no_lines(), Err(Failure::ParsingReleaseInfoNotString)),
                _ => self.finish(no_lines(), Err(Failure::Http)),
            },
            Phase::Reading => match reply {
                Reply::Text(raw) => {
                    let report = self.cmd.run_for_manifest(
                        self.current.as_str(),
                        raw.as_str(),
                        self.latest.as_str(),
                    );
                    match report.outcome {
                        Err(failure) => self.finish(report.lines, Err(failure)),
                        Ok(Visit::Workspace { members }) => {
                            let ghost ahead = members.deep_view();
                            let ghost behind = self.pending.deep_view();
                            let mut pending = members;
                            pending.append(&mut self.pending);
                            assert(pending.deep_view() =~= ahead + behind);
                            self.pending = pending;
                            self.proceed(report.lines)
                        },
                        Ok(Visit::UpToDate) => self.proceed(report.lines),
                        Ok(Visit::Update { text }) => {
                            self.phase = Phase::Writing;
                            Output {
                                lines: report.lines,
                                action: Action::Write { path: self.current.clone(), text },
                            }
                        },
                    }
                },
                _ => self.finish(no_lines(), Err(Failure::ReadingManifest)),
            },
            Phase::Writing => match reply {
                Reply::Done => self.proceed(no_lines()),
                _ => self.finish(no_lines(), Err(Failure::WritingManifest)),
            },
            Phase::Succeeded => Output { lines: no_lines(), action: Action::Finish { result: Ok(()) } },
            Phase::Failed(failure) => Output {
                lines: no_lines(),
                action: Action::Finish { result: Err(failure) },
            },
        }
    }
}

} // verus!
