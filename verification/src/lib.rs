//! Slow-scan ("typewriter") output: text is written unit by unit (byte
//! chunks, lines or characters) with a pause after each unit.
//!
//! The crate holds the rules of such output and does no input or output of
//! its own:
//!
//! - [`config`]: the delays of a run, and the base delay that makes a run
//!   take an expected total time;
//! - [`unit`]: the class of a character (plain, wide or control), which
//!   picks its delay;
//! - [`encode`]: the UTF-8 bytes of a character;
//! - [`pace`]: the pause after each unit and the deadline that it runs to,
//!   kept free of drift, for a writer that performs the writes and the
//!   waits itself;
//! - [`write`]: whole runs, written to a transcript in memory that has a
//!   clock of its own;
//! - [`input`]: the input source that a URI names, and the errors of
//!   opening one;
//! - [`chain`]: reading several sources as one stream, for a host that
//!   performs the reads itself;
//! - [`options`]: a configuration from the texts of the delay options;
//! - [`duration`]: `std::time::Duration` in nanoseconds.

pub mod chain;
pub mod config;
pub mod duration;
pub mod encode;
pub mod input;
pub mod options;
pub mod pace;
pub mod unit;
pub mod write;
