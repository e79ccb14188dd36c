//! A desktop gauge of a coding assistant's token usage for the current five-hour window.
//!
//! The library holds the decisions of the gauge: the configuration and its
//! edits, the mapping from `ccusage blocks --json` output to the display state,
//! the command-line forms it accepts and the window commands it obeys.
//! Reading files, spawning processes and drawing the window stand outside it.

pub mod cli;
pub mod config;
pub mod text;
pub mod usage;
