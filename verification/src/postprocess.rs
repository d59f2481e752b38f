//! Turning a linked ELF executable into an image that can be flashed, with
//! the binary-editing tool `objcopy`.
//!
//! Nothing here runs the tool. What comes out is the list of invocations to
//! run, in order. Each one reads one file and writes another; the artifact
//! itself is only ever read.

use crate::invocation::{invocation_views, Invocation, InvocationView};
use vstd::prelude::*;

verus! {

/// The name under which the tool is looked up when no installation of it
/// was found.
pub open spec fn default_objcopy() -> Seq<char> {
    "arm-none-eabi-objcopy"@
}

/// The directory below which the Arm toolchain installs itself on Windows,
/// one directory for each version.
pub open spec fn windows_install_root() -> Seq<char> {
    "C:\\Program Files (x86)\\Arm GNU Toolchain arm-none-eabi"@
}

/// Where the tool lies in the installation `install`, whose path is
/// written as Windows writes paths: `bin\arm-none-eabi-objcopy.exe` below
/// it, behind a backslash where the path does not end in a separator
/// already.
pub open spec fn windows_objcopy(install: Seq<char>) -> Seq<char> {
    if install.len() == 0 || install.last() == '\\' || install.last() == '/' {
        install + "bin\\arm-none-eabi-objcopy.exe"@
    } else {
        install + "\\bin\\arm-none-eabi-objcopy.exe"@
    }
}

/// The file that the artifact is stripped into.
pub open spec fn stripped_path(artifact: Seq<char>) -> Seq<char> {
    artifact + ".stripped"@
}

/// The file that the image is written to.
pub open spec fn image_path(artifact: Seq<char>) -> Seq<char> {
    artifact + ".bin"@
}

/// The run that removes the symbols the brain must not see: it reads the
/// artifact and writes the stripped file.
pub open spec fn strip_invocation(objcopy: Seq<char>, artifact: Seq<char>) -> InvocationView {
    InvocationView {
        program: objcopy,
        args: seq![
            "--strip-symbol=install_hot_table"@,
            "--strip-symbol=__libc_init_array"@,
            "--strip-symbol=_PROS_COMPILE_DIRECTORY"@,
            "--strip-symbol=_PROS_COMPILE_TIMESTAMP"@,
            "--strip-symbol=_PROS_COMPILE_TIMESTAMP_INT"@,
            artifact,
            stripped_path(artifact),
        ],
        current_dir: None,
    }
}

/// The run that turns the stripped ELF file into a raw image, leaving the
/// section `.hot_init` out: it reads the stripped file and writes the image.
pub open spec fn image_invocation(objcopy: Seq<char>, artifact: Seq<char>) -> InvocationView {
    InvocationView {
        program: objcopy,
        args: seq![
            "-O"@,
            "binary"@,
            "-R"@,
            ".hot_init"@,
            stripped_path(artifact),
            image_path(artifact),
        ],
        current_dir: None,
    }
}

/// The two runs that make an image of `artifact`: strip, then convert.
pub open spec fn strip_plan(objcopy: Seq<char>, artifact: Seq<char>) -> Seq<InvocationView> {
    seq![strip_invocation(objcopy, artifact), image_invocation(objcopy, artifact)]
}

/// What is run for an artifact: the two runs of [`strip_plan`] where
/// stripping is asked for, nothing otherwise.
pub open spec fn postprocess_plan(objcopy: Seq<char>, artifact: Seq<char>, should_strip: bool)
    -> Seq<InvocationView> {
    if should_strip {
        strip_plan(objcopy, artifact)
    } else {
        Seq::<InvocationView>::empty()
    }
}

/// The file that a run of the tool writes: its last argument.
pub open spec fn output_of(invocation: InvocationView) -> Seq<char> {
    invocation.args.last()
}

/// The directory to look into for installations on Windows.
pub fn arm_install_root() -> (root: String)
    ensures
        root@ == windows_install_root(),
{
    "C:\\Program Files (x86)\\Arm GNU Toolchain arm-none-eabi".to_string()
}

/// What the user is told before an artifact is processed: that it is being
/// stripped, where it is; nothing otherwise.
pub open spec fn notice_lines(artifact: Seq<char>, should_strip: bool) -> Seq<Seq<char>> {
    if should_strip {
        seq!["Stripping Binary: "@ + artifact]
    } else {
        Seq::<Seq<char>>::empty()
    }
}

/// The lines to print before the runs of [`postprocess`].
pub fn notices(artifact_path: &str, should_strip: bool) -> (lines: Vec<String>)
    ensures
        lines.deep_view() == notice_lines(artifact_path@, should_strip),
{
    let mut lines: Vec<String> = Vec::new();
    if should_strip {
        let mut line = "Stripping Binary: ".to_string();
        line.append(artifact_path);
        lines.push(line);
    }
    lines
}

/// Where the tool lies on Windows, given the first installation found
/// below [`windows_install_root`], if any was found.
pub fn find_objcopy_path_windows(first_install: Option<String>) -> (found: Option<String>)
    ensures
        crate::text::text_view(found) == match first_install {
            Some(install) => Some(windows_objcopy(install@)),
            None => None,
        },
{
    match first_install {
        Some(install) => {
            let len: usize = install.as_str().unicode_len();
            let mut found = install;
            let parted = len == 0 || found.as_str().get_char(len - 1) == '\\'
                || found.as_str().get_char(len - 1) == '/';
            if parted {
                found.append("bin\\arm-none-eabi-objcopy.exe");
            } else {
                found.append("\\bin\\arm-none-eabi-objcopy.exe");
            }
            Some(found)
        },
        None => None,
    }
}

/// Picks the tool: the installation that was found, where one was; else the
/// tool's bare name, to be looked up on the search path.
pub fn objcopy_path(found: Option<String>) -> (tool: String)
    ensures
        tool@ == match found {
            Some(path) => path@,
            None => default_objcopy(),
        },
{
    match found {
        Some(path) => path,
        None => "arm-none-eabi-objcopy".to_string(),
    }
}

fn with_suffix(artifact: &str, suffix: &str) -> (path: String)
    ensures
        path@ == artifact@ + suffix@,
{
    let mut path = artifact.to_string();
    path.append(suffix);
    path
}

/// The two runs that make a flashable image of the artifact `bin`: the
/// first writes `<bin>.stripped`, the second reads that and writes
/// `<bin>.bin`.
pub fn strip_binary(objcopy: &str, bin: &str) -> (plan: Vec<Invocation>)
    ensures
        invocation_views(plan@) == strip_plan(objcopy@, bin@),
{
    let mut strip: Vec<String> = Vec::new();
    strip.push("--strip-symbol=install_hot_table".to_string());
    strip.push("--strip-symbol=__libc_init_array".to_string());
    strip.push("--strip-symbol=_PROS_COMPILE_DIRECTORY".to_string());
    strip.push("--strip-symbol=_PROS_COMPILE_TIMESTAMP".to_string());
    strip.push("--strip-symbol=_PROS_COMPILE_TIMESTAMP_INT".to_string());
    strip.push(bin.to_string());
    strip.push(with_suffix(bin, ".stripped"));
    let mut image: Vec<String> = Vec::new();
    image.push("-O".to_string());
    image.push("binary".to_string());
    image.push("-R".to_string());
    image.push(".hot_init".to_string());
    image.push(with_suffix(bin, ".stripped"));
    image.push(with_suffix(bin, ".bin"));
    let mut plan: Vec<Invocation> = Vec::new();
    plan.push(Invocation { program: objcopy.to_string(), args: strip, current_dir: None });
    plan.push(Invocation { program: objcopy.to_string(), args: image, current_dir: None });
    proof {
        assert(plan@[0]@.args == strip_invocation(objcopy@, bin@).args);
        assert(plan@[1]@.args == image_invocation(objcopy@, bin@).args);
    }
    plan
}

/// What to run for the artifact at `artifact_path`: the two runs of
/// [`strip_binary`] where `should_strip` is set, nothing otherwise.
pub fn postprocess(objcopy: &str, artifact_path: &str, should_strip: bool) -> (plan: Vec<
    Invocation,
>)
    ensures
        invocation_views(plan@) == postprocess_plan(objcopy@, artifact_path@, should_strip),
{
    if should_strip {
        strip_binary(objcopy, artifact_path)
    } else {
        let plan: Vec<Invocation> = Vec::new();
        plan
    }
}

/// Without stripping nothing is run, so no file is made beside the
/// artifact. With stripping exactly two files are written, `<artifact>.stripped`
/// and `<artifact>.bin`; neither is the artifact, which is read and never
/// written; and the second run reads what the first wrote.
pub proof fn lemma_postprocess_writes_beside(objcopy: Seq<char>, artifact: Seq<char>)
    ensures
        postprocess_plan(objcopy, artifact, false).len() == 0,
        postprocess_plan(objcopy, artifact, true).len() == 2,
        output_of(postprocess_plan(objcopy, artifact, true)[0]) == stripped_path(artifact),
        output_of(postprocess_plan(objcopy, artifact, true)[1]) == image_path(artifact),
        stripped_path(artifact) != artifact,
        image_path(artifact) != artifact,
        stripped_path(artifact) != image_path(artifact),
        postprocess_plan(objcopy, artifact, true)[0].args[5] == artifact,
        postprocess_plan(objcopy, artifact, true)[1].args[4] == stripped_path(artifact),
{
    reveal_strlit(".stripped");
    reveal_strlit(".bin");
}

} // verus!
