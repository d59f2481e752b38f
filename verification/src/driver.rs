//! Driving a build: the look at the toolchain, the build tool's command
//! line, and the handling of the executables that the build reports.
//!
//! A build needs other programs, one after the other, and what is done next
//! depends on what came back. [`step`] holds the rule; whoever drives it
//! runs the programs and reads their output.

use crate::invocation::{Invocation, InvocationView};
use crate::messages::{
    line_messages, message_of, parse_message, reported, reported_executables, CompilerMessage,
    CompilerMessageView, Misuse,
};
use crate::paths::{adjoin, join_path};
use crate::toolchain::{
    has_wasm_target, is_nightly_toolchain, nightly_installed, wasm_target_installed, Blocking,
    TargetMode,
};
use vstd::prelude::*;

verus! {

/// What to build, and with what.
#[derive(Debug, Clone, PartialEq, Eq)]
pub struct BuildRequest {
    /// The project's directory.
    pub project_root: String,
    /// Arguments handed on to the build tool, behind its own.
    pub extra_args: Vec<String>,
    /// What the build is for.
    pub target_mode: TargetMode,
    /// The build tool.
    pub cargo: String,
}

/// A [`BuildRequest`] as plain sequences.
pub struct BuildRequestView {
    pub project_root: Seq<char>,
    pub extra_args: Seq<Seq<char>>,
    pub target_mode: TargetMode,
    pub cargo: Seq<char>,
}

impl View for BuildRequest {
    type V = BuildRequestView;

    open spec fn view(&self) -> BuildRequestView {
        BuildRequestView {
            project_root: self.project_root@,
            extra_args: self.extra_args.deep_view(),
            target_mode: self.target_mode,
            cargo: self.cargo@,
        }
    }
}

/// The build tool's name where the environment names none.
pub open spec fn default_cargo() -> Seq<char> {
    "cargo"@
}

/// The build tool: the one that the environment names, else `cargo`.
pub fn cargo_bin(configured: Option<String>) -> (cargo: String)
    ensures
        cargo@ == match configured {
            Some(path) => path@,
            None => default_cargo(),
        },
{
    match configured {
        Some(path) => path,
        None => "cargo".to_string(),
    }
}

/// Where the project's manifest lies.
pub open spec fn manifest_path(root: Seq<char>) -> Seq<char> {
    root + "/Cargo.toml"@
}

/// Where the description of the brain as a compilation target is written
/// before a build for it: a fixed place below the project's build output.
pub open spec fn descriptor_path(root: Seq<char>) -> Seq<char> {
    adjoin(root, "target/armv7a-vexos-eabi.json"@)
}

/// The arguments that every build starts with: the message format that
/// [`parse_message`] reads, and the project's manifest.
pub open spec fn common_arguments(root: Seq<char>) -> Seq<Seq<char>> {
    seq![
        "build"@,
        "--message-format"@,
        "json-render-diagnostics"@,
        "--manifest-path"@,
        manifest_path(root),
    ]
}

/// The arguments that select what is built for. For the brain: the target
/// description at [`descriptor_path`], with the core crates built from
/// source. For the simulator: the WebAssembly target with shared memory and
/// atomics, and the standard library built from source with them.
pub open spec fn target_arguments(root: Seq<char>, mode: TargetMode) -> Seq<Seq<char>> {
    match mode {
        TargetMode::Simulator => seq![
            "--target"@,
            "wasm32-unknown-unknown"@,
            "-Zbuild-std=std,panic_abort"@,
            "--config=build.rustflags=['-Ctarget-feature=+atomics,+bulk-memory,+mutable-globals','-Clink-arg=--shared-memory','-Clink-arg=--export-table']"@,
        ],
        TargetMode::Physical => seq![
            "--target"@,
            descriptor_path(root),
            "-Zbuild-std=core,alloc,compiler_builtins"@,
        ],
    }
}

/// All arguments of the build tool: the common ones, those for the target,
/// and the caller's own behind them.
pub open spec fn build_arguments(root: Seq<char>, mode: TargetMode, extra: Seq<Seq<char>>) -> Seq<
    Seq<char>,
> {
    common_arguments(root) + target_arguments(root, mode) + extra
}

/// The build tool's command line: it is started in the project's directory.
pub open spec fn command_for(request: BuildRequestView) -> InvocationView {
    InvocationView {
        program: request.cargo,
        args: build_arguments(request.project_root, request.target_mode, request.extra_args),
        current_dir: Some(request.project_root),
    }
}

/// The command line that builds what `request` asks for.
pub fn build_command(request: &BuildRequest) -> (command: Invocation)
    ensures
        command@ == command_for(request@),
{
    let root = request.project_root.as_str();
    let mut args: Vec<String> = Vec::new();
    args.push("build".to_string());
    args.push("--message-format".to_string());
    args.push("json-render-diagnostics".to_string());
    args.push("--manifest-path".to_string());
    let mut manifest = request.project_root.clone();
    manifest.append("/Cargo.toml");
    args.push(manifest);
    match request.target_mode {
        TargetMode::Simulator => {
            args.push("--target".to_string());
            args.push("wasm32-unknown-unknown".to_string());
            args.push("-Zbuild-std=std,panic_abort".to_string());
            args.push(
                "--config=build.rustflags=['-Ctarget-feature=+atomics,+bulk-memory,+mutable-globals','-Clink-arg=--shared-memory','-Clink-arg=--export-table']".to_string(),
            );
        },
        TargetMode::Physical => {
            args.push("--target".to_string());
            args.push(join_path(root, "target/armv7a-vexos-eabi.json"));
            args.push("-Zbuild-std=core,alloc,compiler_builtins".to_string());
        },
    }
    proof {
        assert(args.deep_view() == common_arguments(root@) + target_arguments(
            root@,
            request.target_mode,
        ));
    }
    let ghost front = args.deep_view();
    let mut i: usize = 0;
    while i < request.extra_args.len()
        invariant
            i <= request.extra_args.len(),
            args.deep_view() == front + request.extra_args.deep_view().take(i as int),
        decreases request.extra_args.len() - i,
    {
        let ghost before = args.deep_view();
        args.push(request.extra_args[i].clone());
        proof {
            let extra = request.extra_args.deep_view();
            assert(args.deep_view() == before.push(extra[i as int]));
        }
        i += 1;
    }
    proof {
        let extra = request.extra_args.deep_view();
        assert(extra.take(extra.len() as int) == extra);
    }
    Invocation {
        program: request.cargo.clone(),
        args,
        current_dir: Some(request.project_root.clone()),
    }
}

/// How the start of a program ended.
#[derive(Debug, Clone, PartialEq, Eq)]
pub enum Spawned {
    /// The program runs.
    Started,
    /// No such program was found.
    NotFound,
    /// The program could not be started, for the reason given.
    Failed(String),
}

/// A [`Spawned`] as plain sequences.
pub enum SpawnedView {
    Started,
    NotFound,
    Failed(Seq<char>),
}

impl View for Spawned {
    type V = SpawnedView;

    open spec fn view(&self) -> SpawnedView {
        match self {
            Spawned::Started => SpawnedView::Started,
            Spawned::NotFound => SpawnedView::NotFound,
            Spawned::Failed(reason) => SpawnedView::Failed(reason@),
        }
    }
}

/// How a command ends before its work is done.
#[derive(Debug, Clone, PartialEq, Eq)]
pub enum Halt {
    /// The user can mend it: print the lines to the error stream and leave
    /// with the status `code`.
    Exit { code: u8, diagnostics: Vec<String> },
    /// Nothing can be done: hand the reason up.
    Fail { reason: String },
}

/// A [`Halt`] as plain sequences.
pub enum HaltView {
    Exit { code: u8, diagnostics: Seq<Seq<char>> },
    Fail { reason: Seq<char> },
}

impl View for Halt {
    type V = HaltView;

    open spec fn view(&self) -> HaltView {
        match self {
            Halt::Exit { code, diagnostics } => HaltView::Exit {
                code: *code,
                diagnostics: diagnostics.deep_view(),
            },
            Halt::Fail { reason } => HaltView::Fail { reason: reason@ },
        }
    }
}

/// The lines that tell the user that the program `program` is missing.
pub open spec fn missing_command_lines(program: Seq<char>) -> Seq<Seq<char>> {
    seq![
        "error: command `"@ + program + "` not found"@,
        "Please refer to the documentation for installing pros-rs on your platform."@,
        "> https://github.com/pros-rs/pros-rs#compiling"@,
    ]
}

/// The end that a blocked toolchain check brings: the lines of the check,
/// and status 1.
pub open spec fn blocked(blocking: Blocking) -> HaltView {
    HaltView::Exit { code: 1, diagnostics: blocking.diagnostic_lines() }
}

/// What the start of `program` means for the command: a program that runs
/// lets it go on; one that was not found ends it with the three lines of
/// [`missing_command_lines`] and status 1; any other failure is handed up.
pub open spec fn spawn_outcome(program: Seq<char>, spawned: SpawnedView) -> Result<(), HaltView> {
    match spawned {
        SpawnedView::Started => Ok(()),
        SpawnedView::NotFound => Err(
            HaltView::Exit { code: 1, diagnostics: missing_command_lines(program) },
        ),
        SpawnedView::Failed(reason) => Err(HaltView::Fail { reason }),
    }
}

/// The outcome of a start, as plain sequences.
pub open spec fn halt_view(outcome: Result<(), Halt>) -> Result<(), HaltView> {
    match outcome {
        Ok(()) => Ok(()),
        Err(halt) => Err(halt@),
    }
}

/// Decides on the start of `program`, as [`spawn_outcome`] reads it.
pub fn spawn_handling_not_found(program: &str, spawned: Spawned) -> (outcome: Result<(), Halt>)
    ensures
        halt_view(outcome) == spawn_outcome(program@, spawned@),
{
    match spawned {
        Spawned::Started => Ok(()),
        Spawned::NotFound => {
            let mut first = "error: command `".to_string();
            first.append(program);
            first.append("` not found");
            let mut diagnostics: Vec<String> = Vec::new();
            diagnostics.push(first);
            diagnostics.push(
                "Please refer to the documentation for installing pros-rs on your platform.".to_string(),
            );
            diagnostics.push("> https://github.com/pros-rs/pros-rs#compiling".to_string());
            proof {
                assert(diagnostics.deep_view() =~= missing_command_lines(program@));
            }
            Err(Halt::Exit { code: 1, diagnostics })
        },
        Spawned::Failed(reason) => Err(Halt::Fail { reason }),
    }
}

/// The end that a misuse of the simulator brings: the misuse is told, and
/// the status is 1.
pub open spec fn misuse_halt() -> HaltView {
    HaltView::Exit { code: 1, diagnostics: seq!["pros-simulator may not run libraries"@] }
}

/// How the command ends when the simulator cannot be started.
pub fn report_misuse(misuse: Misuse) -> (halt: Halt)
    ensures
        halt@ == misuse_halt(),
{
    let mut diagnostics: Vec<String> = Vec::new();
    diagnostics.push(misuse.message());
    proof {
        assert(diagnostics.deep_view() =~= seq!["pros-simulator may not run libraries"@]);
    }
    Halt::Exit { code: 1, diagnostics }
}

/// How far a build has come.
#[derive(Debug, Clone, Copy, PartialEq, Eq, Structural)]
pub enum BuildStage {
    /// The compiler was asked for its version.
    ProbingToolchain,
    /// The installed targets were asked for.
    ProbingTargets,
    /// The target description is being written.
    WritingDescriptor,
    /// The build tool is being started.
    Spawning,
    /// The build tool's output is being read.
    Streaming,
    /// An executable was handed to the caller's handler.
    Handling,
    /// The build is over.
    Finished,
}

/// A build under way.
#[derive(Debug, Clone, PartialEq, Eq)]
pub struct Build {
    pub stage: BuildStage,
    pub request: BuildRequest,
}

/// A [`Build`] as plain sequences.
pub struct BuildView {
    pub stage: BuildStage,
    pub request: BuildRequestView,
}

impl View for Build {
    type V = BuildView;

    open spec fn view(&self) -> BuildView {
        BuildView { stage: self.stage, request: self.request@ }
    }
}

/// What came back from the outside.
#[derive(Debug, Clone, PartialEq, Eq)]
pub enum BuildEvent {
    /// The compiler printed its version; `None` where it could not be run,
    /// or did not print text.
    ToolchainProbed(Option<String>),
    /// The installed targets were listed; `None` where the program that
    /// lists them could not be run.
    TargetsProbed(Option<String>),
    /// The target description was written.
    DescriptorWritten,
    /// The start of the build tool ended.
    Spawned(Spawned),
    /// The build tool printed a line; `None` at the end of its output.
    Line(Option<String>),
    /// The handler is done with the executable.
    Handled,
}

/// A [`BuildEvent`] as plain sequences.
pub enum BuildEventView {
    ToolchainProbed(Option<Seq<char>>),
    TargetsProbed(Option<Seq<char>>),
    DescriptorWritten,
    Spawned(SpawnedView),
    Line(Option<Seq<char>>),
    Handled,
}

impl View for BuildEvent {
    type V = BuildEventView;

    open spec fn view(&self) -> BuildEventView {
        match self {
            BuildEvent::ToolchainProbed(version) => BuildEventView::ToolchainProbed(
                crate::text::text_view(*version),
            ),
            BuildEvent::TargetsProbed(installed) => BuildEventView::TargetsProbed(
                crate::text::text_view(*installed),
            ),
            BuildEvent::DescriptorWritten => BuildEventView::DescriptorWritten,
            BuildEvent::Spawned(spawned) => BuildEventView::Spawned(spawned@),
            BuildEvent::Line(line) => BuildEventView::Line(crate::text::text_view(*line)),
            BuildEvent::Handled => BuildEventView::Handled,
        }
    }
}

/// What to do next.
#[derive(Debug, Clone, PartialEq, Eq)]
pub enum BuildAction {
    /// Ask the compiler for its version.
    ProbeToolchain,
    /// Ask for the list of installed targets.
    ProbeTargets,
    /// Write the target description to `path`, creating the directories
    /// above it.
    WriteDescriptor { path: String },
    /// Start the build tool, with its output piped.
    Spawn(Invocation),
    /// Read the next line of the build tool's output.
    ReadLine,
    /// Hand the executable to the caller's handler.
    Handle { executable: String },
    /// End the command before its work is done.
    Halt(Halt),
    /// The build is over.
    Done,
    /// Nothing: the event answered no request, or the build is over.
    Idle,
}

/// A [`BuildAction`] as plain sequences.
pub enum BuildActionView {
    ProbeToolchain,
    ProbeTargets,
    WriteDescriptor { path: Seq<char> },
    Spawn(InvocationView),
    ReadLine,
    Handle { executable: Seq<char> },
    Halt(HaltView),
    Done,
    Idle,
}

impl View for BuildAction {
    type V = BuildActionView;

    open spec fn view(&self) -> BuildActionView {
        match self {
            BuildAction::ProbeToolchain => BuildActionView::ProbeToolchain,
            BuildAction::ProbeTargets => BuildActionView::ProbeTargets,
            BuildAction::WriteDescriptor { path } => BuildActionView::WriteDescriptor { path: path@ },
            BuildAction::Spawn(command) => BuildActionView::Spawn(command@),
            BuildAction::ReadLine => BuildActionView::ReadLine,
            BuildAction::Handle { executable } => BuildActionView::Handle {
                executable: executable@,
            },
            BuildAction::Halt(halt) => BuildActionView::Halt(halt@),
            BuildAction::Done => BuildActionView::Done,
            BuildAction::Idle => BuildActionView::Idle,
        }
    }
}

/// The state at another stage.
pub open spec fn at_stage(state: BuildView, stage: BuildStage) -> BuildView {
    BuildView { stage, ..state }
}

/// What a build is for, as the caller says it.
pub open spec fn mode_for(for_simulator: bool) -> TargetMode {
    if for_simulator {
        TargetMode::Simulator
    } else {
        TargetMode::Physical
    }
}

/// How a build starts: with the look at the compiler.
pub open spec fn build_model(
    path: Seq<char>,
    args: Seq<Seq<char>>,
    for_simulator: bool,
    cargo: Seq<char>,
) -> (BuildView, BuildActionView) {
    (
        BuildView {
            stage: BuildStage::ProbingToolchain,
            request: BuildRequestView {
                project_root: path,
                extra_args: args,
                target_mode: mode_for(for_simulator),
                cargo,
            },
        },
        BuildActionView::ProbeToolchain,
    )
}

/// The rule of a build.
/// A compiler that is not of the nightly channel ends it, and so does one
/// whose version could not be had; so does, for the
/// simulator, a list of installed targets without the WebAssembly target
/// (a list that could not be had does not). For the brain the target
/// description is written. Then the build tool is started; one that is not
/// found ends the build. Then its output is read line by line to the end,
/// and each executable that a line reports is handed to the handler before
/// the next line is read. An event that answers no pending request changes
/// nothing.
pub open spec fn step_model(state: BuildView, event: BuildEventView) -> (
    BuildView,
    BuildActionView,
) {
    let request = state.request;
    match (state.stage, event) {
        (BuildStage::ProbingToolchain, BuildEventView::ToolchainProbed(version)) => {
            if !nightly_installed(version) {
                (
                    at_stage(state, BuildStage::Finished),
                    BuildActionView::Halt(blocked(Blocking::MissingNightly)),
                )
            } else if request.target_mode == TargetMode::Simulator {
                (at_stage(state, BuildStage::ProbingTargets), BuildActionView::ProbeTargets)
            } else {
                (
                    at_stage(state, BuildStage::WritingDescriptor),
                    BuildActionView::WriteDescriptor { path: descriptor_path(request.project_root) },
                )
            }
        },
        (BuildStage::ProbingTargets, BuildEventView::TargetsProbed(installed)) => {
            if wasm_target_installed(installed) {
                (at_stage(state, BuildStage::Spawning), BuildActionView::Spawn(command_for(request)))
            } else {
                (
                    at_stage(state, BuildStage::Finished),
                    BuildActionView::Halt(blocked(Blocking::MissingWasmTarget)),
                )
            }
        },
        (BuildStage::WritingDescriptor, BuildEventView::DescriptorWritten) => (
            at_stage(state, BuildStage::Spawning),
            BuildActionView::Spawn(command_for(request)),
        ),
        (BuildStage::Spawning, BuildEventView::Spawned(spawned)) => {
            match spawn_outcome(request.cargo, spawned) {
                Ok(()) => (at_stage(state, BuildStage::Streaming), BuildActionView::ReadLine),
                Err(halt) => (at_stage(state, BuildStage::Finished), BuildActionView::Halt(halt)),
            }
        },
        (BuildStage::Streaming, BuildEventView::Line(Some(text))) => {
            match message_of(text) {
                CompilerMessageView::Artifact(executable) => (
                    at_stage(state, BuildStage::Handling),
                    BuildActionView::Handle { executable },
                ),
                CompilerMessageView::Other => (state, BuildActionView::ReadLine),
            }
        },
        (BuildStage::Streaming, BuildEventView::Line(None)) => (
            at_stage(state, BuildStage::Finished),
            BuildActionView::Done,
        ),
        (BuildStage::Handling, BuildEventView::Handled) => (
            at_stage(state, BuildStage::Streaming),
            BuildActionView::ReadLine,
        ),
        _ => (state, BuildActionView::Idle),
    }
}

/// Starts a build of the project at `path`, for the simulator or for the
/// brain, with the build tool `cargo` and the caller's arguments `args`
/// behind the tool's own.
pub fn build(path: String, args: Vec<String>, for_simulator: bool, cargo: String) -> (begun: (
    Build,
    BuildAction,
))
    ensures
        (begun.0@, begun.1@) == build_model(path@, args.deep_view(), for_simulator, cargo@),
{
    let target_mode = if for_simulator {
        TargetMode::Simulator
    } else {
        TargetMode::Physical
    };
    (
        Build {
            stage: BuildStage::ProbingToolchain,
            request: BuildRequest { project_root: path, extra_args: args, target_mode, cargo },
        },
        BuildAction::ProbeToolchain,
    )
}

fn moved(state: Build, stage: BuildStage, action: BuildAction) -> (next: (Build, BuildAction))
    ensures
        next.0@ == at_stage(state@, stage),
        next.1 == action,
{
    (Build { stage, request: state.request }, action)
}

fn halted(blocking: Blocking) -> (action: BuildAction)
    ensures
        action@ == BuildActionView::Halt(blocked(blocking)),
{
    BuildAction::Halt(Halt::Exit { code: 1, diagnostics: blocking.diagnostics() })
}

/// Takes the build one step on: from `state`, with what came back.
pub fn step(state: Build, event: BuildEvent) -> (next: (Build, BuildAction))
    ensures
        (next.0@, next.1@) == step_model(state@, event@),
{
    match (state.stage, event) {
        (BuildStage::ProbingToolchain, BuildEvent::ToolchainProbed(version)) => {
            let nightly = match &version {
                Some(text) => is_nightly_toolchain(Some(text.as_str())),
                None => is_nightly_toolchain(None),
            };
            if !nightly {
                moved(state, BuildStage::Finished, halted(Blocking::MissingNightly))
            } else {
                match state.request.target_mode {
                    TargetMode::Simulator => moved(
                        state,
                        BuildStage::ProbingTargets,
                        BuildAction::ProbeTargets,
                    ),
                    TargetMode::Physical => {
                        let path = join_path(
                            state.request.project_root.as_str(),
                            "target/armv7a-vexos-eabi.json",
                        );
                        moved(
                            state,
                            BuildStage::WritingDescriptor,
                            BuildAction::WriteDescriptor { path },
                        )
                    },
                }
            }
        },
        (BuildStage::ProbingTargets, BuildEvent::TargetsProbed(installed)) => {
            let present = match &installed {
                Some(list) => has_wasm_target(Some(list.as_str())),
                None => has_wasm_target(None),
            };
            if present {
                let command = build_command(&state.request);
                moved(state, BuildStage::Spawning, BuildAction::Spawn(command))
            } else {
                moved(state, BuildStage::Finished, halted(Blocking::MissingWasmTarget))
            }
        },
        (BuildStage::WritingDescriptor, BuildEvent::DescriptorWritten) => {
            let command = build_command(&state.request);
            moved(state, BuildStage::Spawning, BuildAction::Spawn(command))
        },
        (BuildStage::Spawning, BuildEvent::Spawned(spawned)) => {
            match spawn_handling_not_found(state.request.cargo.as_str(), spawned) {
                Ok(()) => moved(state, BuildStage::Streaming, BuildAction::ReadLine),
                Err(halt) => moved(state, BuildStage::Finished, BuildAction::Halt(halt)),
            }
        },
        (BuildStage::Streaming, BuildEvent::Line(Some(text))) => {
            match parse_message(text.as_str()) {
                CompilerMessage::Artifact(executable) => moved(
                    state,
                    BuildStage::Handling,
                    BuildAction::Handle { executable },
                ),
                CompilerMessage::Other => (state, BuildAction::ReadLine),
            }
        },
        (BuildStage::Streaming, BuildEvent::Line(None)) => moved(
            state,
            BuildStage::Finished,
            BuildAction::Done,
        ),
        (BuildStage::Handling, BuildEvent::Handled) => moved(
            state,
            BuildStage::Streaming,
            BuildAction::ReadLine,
        ),
        (_, _) => (state, BuildAction::Idle),
    }
}

/// Where `events` lead from `state`, and the actions that answer them, one
/// for each event.
pub open spec fn run(state: BuildView, events: Seq<BuildEventView>) -> (
    BuildView,
    Seq<BuildActionView>,
)
    decreases events.len(),
{
    if events.len() == 0 {
        (state, Seq::<BuildActionView>::empty())
    } else {
        let (before, actions) = run(state, events.drop_last());
        let (next, action) = step_model(before, events.last());
        (next, actions.push(action))
    }
}

/// The executable that an action hands to the handler, if it hands one.
pub open spec fn handed(action: BuildActionView) -> Option<Seq<char>> {
    match action {
        BuildActionView::Handle { executable } => Some(executable),
        _ => None,
    }
}

/// The executables that `actions` hand to the handler, in their order.
pub open spec fn handled(actions: Seq<BuildActionView>) -> Seq<Seq<char>> {
    actions.filter_map(|action: BuildActionView| handed(action))
}

/// The events of a driver while the build tool prints `lines`: each line as
/// it comes, and behind a line that reports an executable the handler's
/// return.
pub open spec fn answers(lines: Seq<Seq<char>>) -> Seq<BuildEventView>
    decreases lines.len(),
{
    if lines.len() == 0 {
        Seq::<BuildEventView>::empty()
    } else {
        let read = answers(lines.drop_last()).push(BuildEventView::Line(Some(lines.last())));
        if reported(message_of(lines.last())) is Some {
            read.push(BuildEventView::Handled)
        } else {
            read
        }
    }
}

/// One more event at the end of a run.
pub proof fn lemma_run_push(state: BuildView, events: Seq<BuildEventView>, event: BuildEventView)
    ensures
        run(state, events.push(event)) == (
            step_model(run(state, events).0, event).0,
            run(state, events).1.push(step_model(run(state, events).0, event).1),
        ),
{
    assert(events.push(event).drop_last() == events);
}

/// One more action at the end of those handled.
pub proof fn lemma_handled_push(actions: Seq<BuildActionView>, action: BuildActionView)
    ensures
        handled(actions.push(action)) == match handed(action) {
            Some(executable) => handled(actions).push(executable),
            None => handled(actions),
        },
{
    assert(actions.push(action).drop_last() == actions);
}

/// One more line at the end of those read.
pub proof fn lemma_reported_push(lines: Seq<Seq<char>>, line: Seq<char>)
    ensures
        reported_executables(line_messages(lines.push(line))) == match reported(message_of(line)) {
            Some(executable) => reported_executables(line_messages(lines)).push(executable),
            None => reported_executables(line_messages(lines)),
        },
{
    let all = line_messages(lines.push(line));
    assert(all.drop_last() == line_messages(lines));
}

/// While the output is read, the handler gets every executable that a line
/// reports: once for each report, in the order of the lines, and nothing
/// else. When the lines are read the build is where it was, ready for the
/// next line; and the end of the output ends it. A build that reports no
/// executable hands nothing to the handler.
pub proof fn lemma_handler_gets_each_executable(state: BuildView, lines: Seq<Seq<char>>)
    requires
        state.stage == BuildStage::Streaming,
    ensures
        run(state, answers(lines)).0 == state,
        handled(run(state, answers(lines)).1) == reported_executables(line_messages(lines)),
        step_model(state, BuildEventView::Line(None)) == (
            at_stage(state, BuildStage::Finished),
            BuildActionView::Done,
        ),
        (forall|i: int| 0 <= i < lines.len() ==> reported(message_of(#[trigger] lines[i])) is None)
            ==> handled(run(state, answers(lines)).1).len() == 0,
    decreases lines.len(),
{
    if lines.len() > 0 {
        let front = lines.drop_last();
        let line = lines.last();
        lemma_handler_gets_each_executable(state, front);
        let read = BuildEventView::Line(Some(line));
        let (_, actions) = run(state, answers(front));
        lemma_run_push(state, answers(front), read);
        lemma_handled_push(actions, step_model(state, read).1);
        assert(front.push(line) == lines);
        lemma_reported_push(front, line);
        if reported(message_of(line)) is Some {
            let waiting = step_model(state, read).0;
            lemma_run_push(state, answers(front).push(read), BuildEventView::Handled);
            lemma_handled_push(
                actions.push(step_model(state, read).1),
                step_model(waiting, BuildEventView::Handled).1,
            );
        }
        if forall|i: int| 0 <= i < lines.len() ==> reported(message_of(#[trigger] lines[i])) is None {
            assert forall|i: int| 0 <= i < front.len() implies reported(
                message_of(#[trigger] front[i]),
            ) is None by {
                assert(front[i] == lines[i]);
            }
        }
    }
}

/// The look at the toolchain lets a build start exactly when the toolchain
/// is ready for it, and else ends it with the lines for what is missing and
/// status 1. The list of installed targets is asked for only where the
/// build is for the simulator and the compiler is of the nightly channel.
pub proof fn lemma_preflight_gates_the_build(
    state: BuildView,
    version: Option<Seq<char>>,
    installed: Option<Seq<char>>,
)
    requires
        state.stage == BuildStage::ProbingToolchain,
    ensures
        ({
            let ready = crate::toolchain::readiness(state.request.target_mode, version, installed);
            let (probed, first) = step_model(state, BuildEventView::ToolchainProbed(version));
            let second = step_model(probed, BuildEventView::TargetsProbed(installed)).1;
            let written = step_model(probed, BuildEventView::DescriptorWritten).1;
            let start = BuildActionView::Spawn(command_for(state.request));
            &&& ready == Err::<(), Blocking>(Blocking::MissingNightly) <==> first
                == BuildActionView::Halt(blocked(Blocking::MissingNightly))
            &&& first is ProbeTargets <==> state.request.target_mode == TargetMode::Simulator
                && nightly_installed(version)
            &&& first is ProbeTargets ==> (ready == Err::<(), Blocking>(Blocking::MissingWasmTarget)
                <==> second == BuildActionView::Halt(blocked(Blocking::MissingWasmTarget)))
            &&& first is ProbeTargets ==> (ready is Ok <==> second == start)
            &&& first is WriteDescriptor ==> ready is Ok && written == start
            &&& first is ProbeTargets || first is WriteDescriptor || first is Halt
        }),
{
}

} // verus!
