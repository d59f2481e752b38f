//! Looking at the installed toolchain before a build is tried.

use crate::invocation::{Invocation, InvocationView};
use crate::text::{contains, str_contains};
use vstd::prelude::*;

verus! {

/// What a build is for.
#[derive(Debug, Clone, Copy, PartialEq, Eq, Structural)]
pub enum TargetMode {
    /// The robot's brain.
    Physical,
    /// The simulator, which runs WebAssembly.
    Simulator,
}

/// Why no build can be tried.
#[derive(Debug, Clone, Copy, PartialEq, Eq, Structural)]
pub enum Blocking {
    /// The active compiler is not of the nightly channel.
    MissingNightly,
    /// The WebAssembly target is not installed.
    MissingWasmTarget,
}

/// The marker of the nightly channel in the compiler's version text.
pub open spec fn nightly_marker() -> Seq<char> {
    "nightly"@
}

/// The name of the WebAssembly target.
pub open spec fn wasm_target() -> Seq<char> {
    "wasm32-unknown-unknown"@
}

/// What the list of installed targets says of the WebAssembly target. Where
/// the list could not be had, the target is taken to be there.
pub open spec fn wasm_target_installed(installed: Option<Seq<char>>) -> bool {
    match installed {
        Some(list) => contains(list, wasm_target()),
        None => true,
    }
}

/// What the compiler's version text says of the nightly channel. Where the
/// text could not be had (the compiler could not be run, or did not print
/// text), the compiler is taken not to be of that channel.
pub open spec fn nightly_installed(version: Option<Seq<char>>) -> bool {
    match version {
        Some(text) => contains(text, nightly_marker()),
        None => false,
    }
}

/// An optional text as an optional character sequence.
pub open spec fn probe_view(probed: Option<&str>) -> Option<Seq<char>> {
    match probed {
        Some(text) => Some(text@),
        None => None,
    }
}

/// Whether the toolchain is ready for a build in `mode`: the compiler must
/// be of the nightly channel, and a build for the simulator needs the
/// WebAssembly target besides. The compiler is looked at first.
pub open spec fn readiness(
    mode: TargetMode,
    version: Option<Seq<char>>,
    installed: Option<Seq<char>>,
) -> Result<(), Blocking> {
    if !nightly_installed(version) {
        Err(Blocking::MissingNightly)
    } else if mode == TargetMode::Simulator && !wasm_target_installed(installed) {
        Err(Blocking::MissingWasmTarget)
    } else {
        Ok(())
    }
}

/// Whether the compiler that printed `version` is of the nightly channel.
/// `None` stands for a version text that could not be had; the compiler
/// then counts as not of that channel.
pub fn is_nightly_toolchain(version: Option<&str>) -> (nightly: bool)
    ensures
        nightly == nightly_installed(probe_view(version)),
{
    match version {
        Some(text) => str_contains(text, "nightly"),
        None => false,
    }
}

/// Whether the WebAssembly target is among the installed targets that
/// `installed` lists. `None` stands for a list that could not be had; the
/// target is then taken to be there.
pub fn has_wasm_target(installed: Option<&str>) -> (present: bool)
    ensures
        present == wasm_target_installed(probe_view(installed)),
{
    match installed {
        Some(list) => str_contains(list, "wasm32-unknown-unknown"),
        None => true,
    }
}

/// Checks the toolchain for a build in `mode`, from the compiler's version
/// text and the list of installed targets, each `None` where it could not
/// be had.
pub fn check_toolchain_ready(
    mode: TargetMode,
    version: Option<&str>,
    installed: Option<&str>,
) -> (ready: Result<(), Blocking>)
    ensures
        ready == readiness(mode, probe_view(version), probe_view(installed)),
{
    if !is_nightly_toolchain(version) {
        Err(Blocking::MissingNightly)
    } else {
        match mode {
            TargetMode::Simulator => {
                if has_wasm_target(installed) {
                    Ok(())
                } else {
                    Err(Blocking::MissingWasmTarget)
                }
            },
            TargetMode::Physical => Ok(()),
        }
    }
}

impl Blocking {
    /// The lines that tell the user what is missing and how to mend it.
    pub open spec fn diagnostic_lines(self) -> Seq<Seq<char>> {
        match self {
            Blocking::MissingNightly => seq![
                "warn: pros-rs currently requires Nightly Rust features."@,
                "hint: this can be fixed by running `rustup override set nightly`"@,
            ],
            Blocking::MissingWasmTarget => seq![
                "warn: simulation requires the wasm32-unknown-unknown target to be installed"@,
                "hint: this can be fixed by running `rustup target add wasm32-unknown-unknown`"@,
            ],
        }
    }

    /// The lines that tell the user what is missing and how to mend it: the
    /// warning, then the hint.
    pub fn diagnostics(&self) -> (lines: Vec<String>)
        ensures
            lines.deep_view() == self.diagnostic_lines(),
    {
        let mut lines: Vec<String> = Vec::new();
        match self {
            Blocking::MissingNightly => {
                lines.push("warn: pros-rs currently requires Nightly Rust features.".to_string());
                lines.push(
                    "hint: this can be fixed by running `rustup override set nightly`".to_string(),
                );
            },
            Blocking::MissingWasmTarget => {
                lines.push(
                    "warn: simulation requires the wasm32-unknown-unknown target to be installed".to_string(),
                );
                lines.push(
                    "hint: this can be fixed by running `rustup target add wasm32-unknown-unknown`".to_string(),
                );
            },
        }
        lines
    }
}

/// The run that makes the compiler print its version.
pub open spec fn compiler_probe_model() -> InvocationView {
    InvocationView { program: "rustc"@, args: seq!["--version"@], current_dir: None }
}

/// The run that lists the installed targets.
pub open spec fn targets_probe_model() -> InvocationView {
    InvocationView {
        program: "rustup"@,
        args: seq!["target"@, "list"@, "--installed"@],
        current_dir: None,
    }
}

/// The run whose output [`is_nightly_toolchain`] reads.
pub fn compiler_probe() -> (probe: Invocation)
    ensures
        probe@ == compiler_probe_model(),
{
    let mut args: Vec<String> = Vec::new();
    args.push("--version".to_string());
    proof {
        assert(args.deep_view() =~= compiler_probe_model().args);
    }
    Invocation { program: "rustc".to_string(), args, current_dir: None }
}

/// The run whose output [`has_wasm_target`] reads.
pub fn targets_probe() -> (probe: Invocation)
    ensures
        probe@ == targets_probe_model(),
{
    let mut args: Vec<String> = Vec::new();
    args.push("target".to_string());
    args.push("list".to_string());
    args.push("--installed".to_string());
    proof {
        assert(args.deep_view() =~= targets_probe_model().args);
    }
    Invocation { program: "rustup".to_string(), args, current_dir: None }
}

} // verus!
