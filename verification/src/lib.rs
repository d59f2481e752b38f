//! The rules of a build tool for VEX V5 robots: it drives `cargo` to build a
//! project for the robot's brain or for the simulator, turns the executable
//! into an image that can be flashed, and creates new projects from a
//! template that it fetches, caches and, at the last, carries with it.
//!
//! Nothing here touches the file system, the network or another program.
//! Where a command needs them, its rule is a function from a state and what
//! came back from the outside to the next state and the next thing to do
//! (see [`driver`], [`resolver`] and [`commands::new`]); the program around
//! this library does what is asked and reports back.
//!
//! - [`toolchain`]: is the installed toolchain fit for a build?
//! - [`driver`]: a build, from the look at the toolchain to the last line of
//!   the build tool's output.
//! - [`messages`]: the build tool's output, and the executables it reports.
//! - [`postprocess`]: from an executable to a flashable image.
//! - [`resolver`]: which template archive a new project is made from.
//! - [`template`]: the template, its cache and its remote source.
//! - [`archive`]: where the entries of a template archive are unpacked.
//! - [`commands::new`]: the creation of a new project.
//! - [`paths`], [`text`], [`invocation`], [`errors`]: what the others share.

pub mod archive;
pub mod commands;
pub mod driver;
pub mod errors;
pub mod invocation;
pub mod messages;
pub mod paths;
pub mod postprocess;
pub mod resolver;
pub mod template;
pub mod text;
pub mod toolchain;
