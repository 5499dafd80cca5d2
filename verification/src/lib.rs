//! Terminal progress indicators: a configurable progress bar and an animated
//! spinner.
//!
//! Progress amounts are fixed-point values, counted in hundredths of a unit,
//! and elapsed times are counted in milliseconds. Rendering is pure string
//! construction; the actual terminal writes are left to the caller, who sends
//! the rendered text to an output stream.

pub mod arith;
pub mod bar;
pub mod clock;
pub mod config;
pub mod numfmt;
pub mod spinner;
pub mod strutil;
pub mod term;

pub use bar::BasicProgressBar;
pub use config::BarConfig;
pub use spinner::Spinner;
pub use term::finish_line;
pub use term::rewrite_line;
