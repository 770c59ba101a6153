//! Verbosity flags (`--verbose` / `--quiet`) for command-line programs, turned
//! into a `log` level.
//!
//! By default, this will only report errors.
//! - `-q` silences output
//! - `-v` show warnings
//! - `-vv` show info
//! - `-vvv` show debug
//! - `-vvvv` show trace

pub mod filter;
pub mod levels;
pub mod log_level;
pub mod verbosity;

pub use filter::VerbosityFilter;
pub use log_level::{DebugLevel, ErrorLevel, InfoLevel, LogLevel, OffLevel, TraceLevel, WarnLevel};
pub use verbosity::Verbosity;
