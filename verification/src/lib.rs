//! Supervisor core for driving a line-oriented coding-agent subprocess.
//!
//! The library builds the child's argument vector from a validated parameter
//! set, folds the child's decoded output lines into a running aggregation
//! state, and turns that state plus the child's exit outcome into one
//! structured result.  Process spawning and stream I/O live outside the
//! library; everything here is pure logic over plain values.

pub mod command;
pub mod events;
pub mod params;
pub mod run;
pub mod text;

pub use command::build_args;
pub use params::CodexParams;
pub use params::SandboxPolicy;
pub use params::default_true;
pub use run::CodexResult;
pub use run::ExitOutcome;
pub use run::RunState;
pub use text::windows_escape;
