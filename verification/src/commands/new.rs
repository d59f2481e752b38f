//! Creating a new project from the template.
//!
//! Creating a project needs the file system and, for the template, the
//! network; what is done next depends on what came back. [`step`] holds the
//! rule; whoever drives it does the reading and writing.

use crate::archive::{target_texts, unpack_plan, unpack_template};
use crate::errors::{CliError, CliErrorView};
use crate::paths::{adjoin, file_name, join_path, last_name};
use crate::template::{Template, TemplateView};
use crate::text::{
    contains, cut_by, in_a_piece, joined, occurs_at, replace_all, str_replace, text_view,
};
use vstd::prelude::*;

verus! {

/// The name that the template's manifest gives the project, and that the
/// new project's name takes the place of.
pub open spec fn placeholder() -> Seq<char> {
    "vexide-template"@
}

/// The manifest's file name.
pub open spec fn manifest_name() -> Seq<char> {
    "Cargo.toml"@
}

/// The manifest `manifest` with the project's name in the place of the
/// template's.
pub open spec fn rewritten(manifest: Seq<char>, name: Seq<char>) -> Seq<char> {
    replace_all(manifest, placeholder(), name)
}

/// Puts the project's name in the place of the template's, wherever the
/// manifest holds it.
pub fn rewrite_manifest(manifest: &str, name: &str) -> (text: String)
    ensures
        text@ == rewritten(manifest@, name@),
{
    str_replace(manifest, "vexide-template", name)
}

/// How far the creation of a project has come.
#[derive(Debug, Clone, Copy, PartialEq, Eq, Structural)]
pub enum Stage {
    /// The project directory is being looked into.
    CheckingDirectory,
    /// The template is being resolved.
    Resolving,
    /// The template is being unpacked.
    Unpacking,
    /// The manifest is being read.
    ReadingManifest,
    /// The manifest is being written.
    WritingManifest,
    /// The outcome was handed out.
    Finished,
}

/// A project in the making.
#[derive(Debug, Clone, PartialEq, Eq)]
pub struct Scaffold {
    pub stage: Stage,
    /// The project directory.
    pub dir: String,
    /// The project's name, where it has one: the name given, else the name
    /// of its directory.
    pub name: Option<String>,
    /// Whether the caller asked for the template to be refreshed.
    pub download: bool,
}

/// What came back from the outside.
#[derive(Debug, PartialEq, Eq)]
pub enum ScaffoldEvent {
    /// The project directory was listed: it holds so many entries. `None`
    /// where it could not be listed, as when it does not exist yet.
    DirectoryListed(Option<usize>),
    /// The template was resolved.
    TemplateResolved(Template),
    /// The archive was unpacked, or unpacking failed for the reason given.
    Unpacked(Result<(), String>),
    /// The manifest was read, or reading failed for the reason given.
    ManifestRead(Result<String, String>),
    /// The manifest was written, or writing failed for the reason given.
    ManifestWritten(Result<(), String>),
}

/// What to do next.
#[derive(Debug, PartialEq, Eq)]
pub enum ScaffoldAction {
    /// Create the directory `create` with all its parents, where there is
    /// one to create; then list the directory `dir`.
    ListDirectory { create: Option<String>, dir: String },
    /// Resolve the template.
    ResolveTemplate { download: bool },
    /// Unpack `archive`: its entries in their order, each to its place in
    /// `targets`, creating the directories above it; an entry whose place is
    /// `None` is passed over.
    Unpack { archive: Vec<u8>, targets: Vec<Option<String>> },
    /// Read the manifest at `path`.
    ReadManifest { path: String },
    /// Write `text` to the manifest at `path`.
    WriteManifest { path: String, text: String },
    /// Report the outcome.
    Finish(Result<(), CliError>),
    /// Nothing: the event answered no request, or the outcome was reported.
    Idle,
}

/// A [`Scaffold`] as plain sequences.
pub struct ScaffoldView {
    pub stage: Stage,
    pub dir: Seq<char>,
    pub name: Option<Seq<char>>,
    pub download: bool,
}

/// A [`ScaffoldEvent`] as plain sequences.
pub enum ScaffoldEventView {
    DirectoryListed(Option<usize>),
    TemplateResolved(TemplateView),
    Unpacked(Result<(), Seq<char>>),
    ManifestRead(Result<Seq<char>, Seq<char>>),
    ManifestWritten(Result<(), Seq<char>>),
}

/// A [`ScaffoldAction`] as plain sequences.
pub enum ScaffoldActionView {
    ListDirectory { create: Option<Seq<char>>, dir: Seq<char> },
    ResolveTemplate { download: bool },
    Unpack { archive: Seq<u8>, targets: Seq<Option<Seq<char>>> },
    ReadManifest { path: Seq<char> },
    WriteManifest { path: Seq<char>, text: Seq<char> },
    Finish(Result<(), CliErrorView>),
    Idle,
}

impl View for Scaffold {
    type V = ScaffoldView;

    open spec fn view(&self) -> ScaffoldView {
        ScaffoldView {
            stage: self.stage,
            dir: self.dir@,
            name: text_view(self.name),
            download: self.download,
        }
    }
}

/// The outcome of a step on the file system, as plain sequences.
pub open spec fn done_view(done: Result<(), String>) -> Result<(), Seq<char>> {
    match done {
        Ok(()) => Ok(()),
        Err(reason) => Err(reason@),
    }
}

/// The outcome of reading a text, as plain sequences.
pub open spec fn read_view(read: Result<String, String>) -> Result<Seq<char>, Seq<char>> {
    match read {
        Ok(text) => Ok(text@),
        Err(reason) => Err(reason@),
    }
}

/// The outcome of a command, as plain sequences.
pub open spec fn outcome_view(outcome: Result<(), CliError>) -> Result<(), CliErrorView> {
    match outcome {
        Ok(()) => Ok(()),
        Err(error) => Err(error@),
    }
}

impl View for ScaffoldEvent {
    type V = ScaffoldEventView;

    open spec fn view(&self) -> ScaffoldEventView {
        match self {
            ScaffoldEvent::DirectoryListed(entries) => ScaffoldEventView::DirectoryListed(*entries),
            ScaffoldEvent::TemplateResolved(template) => ScaffoldEventView::TemplateResolved(
                template@,
            ),
            ScaffoldEvent::Unpacked(done) => ScaffoldEventView::Unpacked(done_view(*done)),
            ScaffoldEvent::ManifestRead(read) => ScaffoldEventView::ManifestRead(read_view(*read)),
            ScaffoldEvent::ManifestWritten(done) => ScaffoldEventView::ManifestWritten(
                done_view(*done),
            ),
        }
    }
}

impl View for ScaffoldAction {
    type V = ScaffoldActionView;

    open spec fn view(&self) -> ScaffoldActionView {
        match self {
            ScaffoldAction::ListDirectory { create, dir } => ScaffoldActionView::ListDirectory {
                create: text_view(*create),
                dir: dir@,
            },
            ScaffoldAction::ResolveTemplate { download } => ScaffoldActionView::ResolveTemplate {
                download: *download,
            },
            ScaffoldAction::Unpack { archive, targets } => ScaffoldActionView::Unpack {
                archive: archive@,
                targets: target_texts(targets@),
            },
            ScaffoldAction::ReadManifest { path } => ScaffoldActionView::ReadManifest { path: path@ },
            ScaffoldAction::WriteManifest { path, text } => ScaffoldActionView::WriteManifest {
                path: path@,
                text: text@,
            },
            ScaffoldAction::Finish(outcome) => ScaffoldActionView::Finish(outcome_view(*outcome)),
            ScaffoldAction::Idle => ScaffoldActionView::Idle,
        }
    }
}

/// The directory that the project is created in: `path` itself, or the
/// directory `name` in it where a name is given.
pub open spec fn project_dir(path: Seq<char>, name: Option<Seq<char>>) -> Seq<char> {
    match name {
        Some(name) => adjoin(path, name),
        None => path,
    }
}

/// The project's name: the one given, else the name of its directory.
pub open spec fn project_name(path: Seq<char>, name: Option<Seq<char>>) -> Option<Seq<char>> {
    match name {
        Some(name) => Some(name),
        None => last_name(path),
    }
}

/// How the creation of a project starts: with the look into its directory.
/// With a name given, `path` is the directory to create the project's
/// directory in, and is created first.
pub open spec fn new_model(path: Seq<char>, name: Option<Seq<char>>, download: bool) -> (
    ScaffoldView,
    ScaffoldActionView,
) {
    (
        ScaffoldView {
            stage: Stage::CheckingDirectory,
            dir: project_dir(path, name),
            name: project_name(path, name),
            download,
        },
        ScaffoldActionView::ListDirectory {
            create: if name is Some {
                Some(path)
            } else {
                None
            },
            dir: project_dir(path, name),
        },
    )
}

/// The state in which the outcome was handed out.
pub open spec fn finished(state: ScaffoldView) -> ScaffoldView {
    ScaffoldView { stage: Stage::Finished, ..state }
}

/// The state at another stage.
pub open spec fn at_stage(state: ScaffoldView, stage: Stage) -> ScaffoldView {
    ScaffoldView { stage, ..state }
}

/// The project directory holds something.
pub open spec fn is_full(entries: Option<usize>) -> bool {
    entries matches Some(count) && count > 0
}

/// The rule of the creation:
/// a project directory that holds anything ends it with
/// [`CliError::ProjectDirFull`], before anything is unpacked and whatever
/// else is amiss; a project without a name ends it next, with
/// [`CliError::NoProjectName`]; otherwise the
/// template is resolved and unpacked below the directory, and the manifest
/// is read, rewritten with the project's name and written back. An archive
/// that cannot be read, and any failure on the file system, ends it with
/// [`CliError::IoError`] and the reason. An event that answers no pending
/// request changes nothing.
pub open spec fn step_model(state: ScaffoldView, event: ScaffoldEventView) -> (
    ScaffoldView,
    ScaffoldActionView,
) {
    match (state.stage, event) {
        (Stage::CheckingDirectory, ScaffoldEventView::DirectoryListed(entries)) => {
            if is_full(entries) {
                (
                    finished(state),
                    ScaffoldActionView::Finish(Err(CliErrorView::ProjectDirFull(state.dir))),
                )
            } else if state.name is None {
                (
                    finished(state),
                    ScaffoldActionView::Finish(Err(CliErrorView::NoProjectName(state.dir))),
                )
            } else {
                (
                    at_stage(state, Stage::Resolving),
                    ScaffoldActionView::ResolveTemplate { download: state.download },
                )
            }
        },
        (Stage::Resolving, ScaffoldEventView::TemplateResolved(template)) => {
            match unpack_plan(state.dir, template.data) {
                Ok(targets) => (
                    at_stage(state, Stage::Unpacking),
                    ScaffoldActionView::Unpack { archive: template.data, targets },
                ),
                Err(reason) => (
                    finished(state),
                    ScaffoldActionView::Finish(Err(CliErrorView::IoError(reason))),
                ),
            }
        },
        (Stage::Unpacking, ScaffoldEventView::Unpacked(Ok(()))) => (
            at_stage(state, Stage::ReadingManifest),
            ScaffoldActionView::ReadManifest { path: adjoin(state.dir, manifest_name()) },
        ),
        (Stage::ReadingManifest, ScaffoldEventView::ManifestRead(Ok(text))) => match state.name {
            Some(name) => (
                at_stage(state, Stage::WritingManifest),
                ScaffoldActionView::WriteManifest {
                    path: adjoin(state.dir, manifest_name()),
                    text: rewritten(text, name),
                },
            ),
            None => (
                finished(state),
                ScaffoldActionView::Finish(Err(CliErrorView::NoProjectName(state.dir))),
            ),
        },
        (Stage::WritingManifest, ScaffoldEventView::ManifestWritten(Ok(()))) => (
            finished(state),
            ScaffoldActionView::Finish(Ok(())),
        ),
        (Stage::Unpacking, ScaffoldEventView::Unpacked(Err(reason))) => (
            finished(state),
            ScaffoldActionView::Finish(Err(CliErrorView::IoError(reason))),
        ),
        (Stage::ReadingManifest, ScaffoldEventView::ManifestRead(Err(reason))) => (
            finished(state),
            ScaffoldActionView::Finish(Err(CliErrorView::IoError(reason))),
        ),
        (Stage::WritingManifest, ScaffoldEventView::ManifestWritten(Err(reason))) => (
            finished(state),
            ScaffoldActionView::Finish(Err(CliErrorView::IoError(reason))),
        ),
        _ => (state, ScaffoldActionView::Idle),
    }
}

/// Starts the creation of a project at `path`, or in the directory `name`
/// below `path` where a name is given. Without a name the project is named
/// after its directory. Where the directory's path ends in no name, the
/// creation starts all the same, and ends for want of a name once the
/// directory was found empty.
pub fn new(path: String, name: Option<String>, download_template: bool) -> (begun: (
    Scaffold,
    ScaffoldAction,
))
    ensures
        (begun.0@, begun.1@) == new_model(path@, text_view(name), download_template),
{
    match name {
        Some(name) => {
            let dir = join_path(path.as_str(), name.as_str());
            let listed = dir.clone();
            (
                Scaffold {
                    stage: Stage::CheckingDirectory,
                    dir,
                    name: Some(name),
                    download: download_template,
                },
                ScaffoldAction::ListDirectory { create: Some(path), dir: listed },
            )
        },
        None => {
            let name = file_name(path.as_str());
            let listed = path.clone();
            (
                Scaffold {
                    stage: Stage::CheckingDirectory,
                    dir: path,
                    name,
                    download: download_template,
                },
                ScaffoldAction::ListDirectory { create: None, dir: listed },
            )
        },
    }
}

fn finish(state: Scaffold, outcome: Result<(), CliError>) -> (next: (Scaffold, ScaffoldAction))
    ensures
        next.0@ == finished(state@),
        next.1@ == ScaffoldActionView::Finish(outcome_view(outcome)),
{
    (
        Scaffold { stage: Stage::Finished, dir: state.dir, name: state.name, download: state.download },
        ScaffoldAction::Finish(outcome),
    )
}

fn advance(state: Scaffold, stage: Stage, action: ScaffoldAction) -> (next: (
    Scaffold,
    ScaffoldAction,
))
    ensures
        next.0@ == at_stage(state@, stage),
        next.1 == action,
{
    (Scaffold { stage, dir: state.dir, name: state.name, download: state.download }, action)
}

/// Takes the creation one step on: from `state`, with what came back.
pub fn step(state: Scaffold, event: ScaffoldEvent) -> (next: (Scaffold, ScaffoldAction))
    ensures
        (next.0@, next.1@) == step_model(state@, event@),
{
    match (state.stage, event) {
        (Stage::CheckingDirectory, ScaffoldEvent::DirectoryListed(entries)) => {
            let full = match entries {
                Some(count) => count > 0,
                None => false,
            };
            if full {
                let dir = state.dir.clone();
                finish(state, Err(CliError::ProjectDirFull(dir)))
            } else if state.name.is_none() {
                let dir = state.dir.clone();
                finish(state, Err(CliError::NoProjectName(dir)))
            } else {
                let download = state.download;
                advance(state, Stage::Resolving, ScaffoldAction::ResolveTemplate { download })
            }
        },
        (Stage::Resolving, ScaffoldEvent::TemplateResolved(template)) => {
            match unpack_template(&template.data, state.dir.as_str()) {
                Ok(targets) => advance(
                    state,
                    Stage::Unpacking,
                    ScaffoldAction::Unpack { archive: template.data, targets },
                ),
                Err(error) => finish(state, Err(error)),
            }
        },
        (Stage::Unpacking, ScaffoldEvent::Unpacked(Ok(()))) => {
            let path = join_path(state.dir.as_str(), "Cargo.toml");
            advance(state, Stage::ReadingManifest, ScaffoldAction::ReadManifest { path })
        },
        (Stage::ReadingManifest, ScaffoldEvent::ManifestRead(Ok(manifest))) => {
            match &state.name {
                Some(name) => {
                    let path = join_path(state.dir.as_str(), "Cargo.toml");
                    let text = rewrite_manifest(manifest.as_str(), name.as_str());
                    advance(
                        state,
                        Stage::WritingManifest,
                        ScaffoldAction::WriteManifest { path, text },
                    )
                },
                None => {
                    let dir = state.dir.clone();
                    finish(state, Err(CliError::NoProjectName(dir)))
                },
            }
        },
        (Stage::WritingManifest, ScaffoldEvent::ManifestWritten(Ok(()))) => finish(state, Ok(())),
        (Stage::Unpacking, ScaffoldEvent::Unpacked(Err(reason))) => finish(
            state,
            Err(CliError::IoError(reason)),
        ),
        (Stage::ReadingManifest, ScaffoldEvent::ManifestRead(Err(reason))) => finish(
            state,
            Err(CliError::IoError(reason)),
        ),
        (Stage::WritingManifest, ScaffoldEvent::ManifestWritten(Err(reason))) => finish(
            state,
            Err(CliError::IoError(reason)),
        ),
        (_, _) => (state, ScaffoldAction::Idle),
    }
}

/// The actions that answer `events`, one after the other, from `state` on.
pub open spec fn run(state: ScaffoldView, events: Seq<ScaffoldEventView>) -> Seq<
    ScaffoldActionView,
>
    decreases events.len(),
{
    if events.len() == 0 {
        Seq::<ScaffoldActionView>::empty()
    } else {
        let (next, action) = step_model(state, events.first());
        seq![action] + run(next, events.drop_first())
    }
}

/// One step of a run, unfolded.
pub proof fn lemma_run_unfold(
    state: ScaffoldView,
    event: ScaffoldEventView,
    rest: Seq<ScaffoldEventView>,
)
    ensures
        run(state, seq![event] + rest) == seq![step_model(state, event).1] + run(
            step_model(state, event).0,
            rest,
        ),
{
    let events = seq![event] + rest;
    assert(events.drop_first() == rest);
}

/// A project directory that holds anything ends the creation with
/// [`CliError::ProjectDirFull`] and the directory's path: whatever path and
/// name the creation was started with, and before anything else is looked
/// at. Any other directory lets a project that has a name go on to the
/// template.
pub proof fn lemma_directory_gate(
    path: Seq<char>,
    name: Option<Seq<char>>,
    download: bool,
    entries: Option<usize>,
)
    ensures
        ({
            let (state, first) = new_model(path, name, download);
            let answer = step_model(state, ScaffoldEventView::DirectoryListed(entries));
            &&& first is ListDirectory
            &&& state.dir == project_dir(path, name)
            &&& is_full(entries) ==> answer == (
                finished(state),
                ScaffoldActionView::Finish(Err(CliErrorView::ProjectDirFull(state.dir))),
            )
            &&& !is_full(entries) && project_name(path, name) is Some ==> answer == (
                at_stage(state, Stage::Resolving),
                ScaffoldActionView::ResolveTemplate { download },
            )
            &&& !is_full(entries) && project_name(path, name) is None ==> answer == (
                finished(state),
                ScaffoldActionView::Finish(Err(CliErrorView::NoProjectName(state.dir))),
            )
        }),
{
}

/// No step but the look into the project directory ends the creation with
/// [`CliError::ProjectDirFull`], and that one only for a directory that
/// holds something.
pub proof fn lemma_full_only_at_gate(state: ScaffoldView, event: ScaffoldEventView)
    requires
        step_model(state, event).1 matches ScaffoldActionView::Finish(
            Err(CliErrorView::ProjectDirFull(_)),
        ),
    ensures
        state.stage == Stage::CheckingDirectory,
        event matches ScaffoldEventView::DirectoryListed(entries) && is_full(entries),
{
}

/// From an empty project directory the creation of a project that has a
/// name succeeds whenever the template's archive can be read and the file
/// system fails nowhere: the
/// archive is unpacked to the planned places, and the manifest is written
/// back with the project's name in it.
pub proof fn lemma_empty_directory_succeeds(
    state: ScaffoldView,
    entries: Option<usize>,
    template: TemplateView,
    manifest: Seq<char>,
)
    requires
        state.stage == Stage::CheckingDirectory,
        state.name is Some,
        !is_full(entries),
        unpack_plan(state.dir, template.data) is Ok,
    ensures
        run(
            state,
            seq![
                ScaffoldEventView::DirectoryListed(entries),
                ScaffoldEventView::TemplateResolved(template),
                ScaffoldEventView::Unpacked(Ok(())),
                ScaffoldEventView::ManifestRead(Ok(manifest)),
                ScaffoldEventView::ManifestWritten(Ok(())),
            ],
        ) == seq![
            ScaffoldActionView::ResolveTemplate { download: state.download },
            ScaffoldActionView::Unpack {
                archive: template.data,
                targets: unpack_plan(state.dir, template.data)->Ok_0,
            },
            ScaffoldActionView::ReadManifest { path: adjoin(state.dir, manifest_name()) },
            ScaffoldActionView::WriteManifest {
                path: adjoin(state.dir, manifest_name()),
                text: rewritten(manifest, state.name->0),
            },
            ScaffoldActionView::Finish(Ok(())),
        ],
{
    let e0 = ScaffoldEventView::DirectoryListed(entries);
    let e1 = ScaffoldEventView::TemplateResolved(template);
    let e2 = ScaffoldEventView::Unpacked(Ok(()));
    let e3 = ScaffoldEventView::ManifestRead(Ok(manifest));
    let e4 = ScaffoldEventView::ManifestWritten(Ok(()));
    let s1 = step_model(state, e0).0;
    let s2 = step_model(s1, e1).0;
    let s3 = step_model(s2, e2).0;
    let s4 = step_model(s3, e3).0;
    let none = Seq::<ScaffoldEventView>::empty();
    assert(seq![e0, e1, e2, e3, e4] == seq![e0] + seq![e1, e2, e3, e4]);
    assert(seq![e1, e2, e3, e4] == seq![e1] + seq![e2, e3, e4]);
    assert(seq![e2, e3, e4] == seq![e2] + seq![e3, e4]);
    assert(seq![e3, e4] == seq![e3] + seq![e4]);
    lemma_run_unfold(state, e0, seq![e1, e2, e3, e4]);
    lemma_run_unfold(s1, e1, seq![e2, e3, e4]);
    lemma_run_unfold(s2, e2, seq![e3, e4]);
    lemma_run_unfold(s3, e3, seq![e4]);
    lemma_run_unfold(s4, e4, none);
}

/// A manifest that holds the template's name exactly once, between `before`
/// and `after`, is rewritten to `before`, the project's name, and `after`:
/// the name stands where the template's stood, and nothing else changed.
pub proof fn lemma_rewrite_single(before: Seq<char>, after: Seq<char>, name: Seq<char>)
    requires
        forall|j: int|
            occurs_at(before + placeholder() + after, placeholder(), j) ==> j == before.len(),
    ensures
        rewritten(before + placeholder() + after, name) == before + name + after,
{
    reveal_strlit("vexide-template");
    crate::text::lemma_replace_single(before, placeholder(), name, after);
}

/// After such a rewrite the template's name is gone from the manifest,
/// unless the project's name brings it back: that is, unless the template's
/// name stands in the result at a place where it touches the project's name.
pub proof fn lemma_rewrite_leaves_none(before: Seq<char>, after: Seq<char>, name: Seq<char>)
    requires
        forall|j: int|
            occurs_at(before + placeholder() + after, placeholder(), j) ==> j == before.len(),
        forall|j: int|
            before.len() < j + placeholder().len() && j < before.len() + name.len() ==> !occurs_at(
                before + name + after,
                placeholder(),
                j,
            ),
    ensures
        !contains(rewritten(before + placeholder() + after, name), placeholder()),
{
    reveal_strlit("vexide-template");
    lemma_rewrite_single(before, after, name);
    let result = before + name + after;
    if contains(result, placeholder()) {
        let at = choose|at: int| occurs_at(result, placeholder(), at);
        crate::text::lemma_replace_single_touches(before, placeholder(), name, after, at);
    }
}

/// A manifest that holds the template's name any number of times is
/// rewritten in one pass: where `pieces` is what stands between the
/// occurrences, the result is the same pieces with the project's name
/// between them, one name for each occurrence.
pub proof fn lemma_rewrite_each(pieces: Seq<Seq<char>>, name: Seq<char>)
    requires
        cut_by(pieces, placeholder()),
    ensures
        rewritten(joined(pieces, placeholder()), name) == joined(pieces, name),
{
    reveal_strlit("vexide-template");
    crate::text::lemma_replace_each(pieces, placeholder(), name);
}

/// After such a rewrite the template's name is gone from the manifest,
/// unless the project's name brings it back: that is, unless the template's
/// name stands in the result at a place that is not wholly inside one of
/// the pieces.
pub proof fn lemma_rewrite_each_leaves_none(pieces: Seq<Seq<char>>, name: Seq<char>)
    requires
        cut_by(pieces, placeholder()),
        forall|at: int| #[trigger]
            occurs_at(joined(pieces, name), placeholder(), at) ==> in_a_piece(
                pieces,
                name,
                at,
                placeholder().len() as int,
            ),
    ensures
        !contains(rewritten(joined(pieces, placeholder()), name), placeholder()),
{
    reveal_strlit("vexide-template");
    lemma_rewrite_each(pieces, name);
    let result = joined(pieces, name);
    if contains(result, placeholder()) {
        let at = choose|at: int| occurs_at(result, placeholder(), at);
        crate::text::lemma_replace_each_touches(pieces, placeholder(), name, at);
    }
}

} // verus!
