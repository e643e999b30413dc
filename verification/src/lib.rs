//! Detection of the terminal emulator that a host will use to run an
//! interactive program, and of the way to hand a command line to it.
//!
//! A detection walks a fixed cascade of stages and stops at the first that
//! finds an emulator. [`detect`] does so on a host given as plain values;
//! [`Detection`] does so step by step, so that a caller asks of the real
//! surroundings only what the result depends on. [`build_invocation`] turns
//! what was found, and a command, into the process to start.

pub mod cascade;
pub mod catalogue;
pub mod detection;
pub mod emulator;
pub mod host;
pub mod invocation;
pub mod method;
pub mod plan;
pub mod probe;
pub mod stage;
pub mod syntax;
pub mod text;

pub use cascade::DetectionError;
pub use detection::{Detection, Step};
pub use emulator::TerminalEmulator;
pub use host::{detect, Executable, Host};
pub use invocation::{build_command_in_terminal, build_invocation, ProcessSpec};
pub use method::DetectionMethod;
pub use plan::{Platform, StageSet};
pub use probe::{Helper, Probe, Reply, TERMINAL_EMULATOR};
pub use syntax::ExecutionSyntax;
