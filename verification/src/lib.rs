//! A logger configured entirely from code.
//!
//! A [`Logger`] holds an ordered list of per-source filters and a default
//! level. For each record it decides whether the record passes, and renders
//! the records that pass into one line of text for the console and the log
//! file. A [`Builder`] collects the configuration fluently, and a
//! [`Registry`] holds the one logger of a process.
//!
//! Every function here is verified against the contract it carries. Writing
//! the rendered lines, opening the log file and hooking into the `log` macros
//! are left to the program around this library.

pub mod builder;
pub mod clock;
pub mod filter;
pub mod level;
pub mod logger;
pub mod rules;
pub mod text;

pub use builder::Builder;
pub use filter::{filter, FilterType};
pub use level::{format_level, get_color, LevelFilter};
pub use logger::{Logger, LoggerError, Registry};
