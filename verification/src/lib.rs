//! Verified core of a small toolkit for command-line programs: verbosity
//! levels and their log filters, the verbosity flags `-v`/`-q`, the color
//! flags `--color`/`--no-color`, and backtrace levels.

pub mod color;
pub mod setup;
pub mod verbose;
pub mod verbosity;

pub use color::{Choice, Color};
pub use setup::BacktraceLevel;
pub use verbose::{Global, Local, Scope, Verbose};

pub use verbosity::Verbosity;
