//! Reads text aloud through the speech tool of the host: `say` on macOS,
//! PowerShell with the speech API on Windows, `espeak` elsewhere.
//!
//! The library decides; it starts no process and touches no file. It validates
//! the settings, picks the engine for the host, builds the command to run and
//! turns what the tool answered into a result. Running the command is left
//! to the caller, who hands back what the command left behind.
//!
//! - [`config`]: the settings of a run, validated from the parsed command line.
//! - [`tts`]: the speech settings, the three engines and the choice among them.
//! - [`command`]: the command that speaks or lists the voices on each host.
//! - [`script`]: the PowerShell scripts, and the quoting of the text in them.
//! - [`outcome`]: what a command's exit status and output mean.
//! - [`session`]: the decisions of one run, and the lines shown to the user.
//! - [`process`]: commands, and what they leave behind.
//! - [`errors`]: the failures.
//! - [`text`]: decimal numbers, the search for a phrase, captured output.

pub mod command;
pub mod config;
pub mod errors;
pub mod outcome;
pub mod process;
pub mod script;
pub mod session;
pub mod text;
pub mod tts;
