//! A mock hardware-abstraction layer and the line-oriented command shell that
//! drives it.
//!
//! - [`hal`]: the capabilities of the HAL, the mock behind them, and the
//!   signature check of a module against the mock's manifest.
//! - [`command`]: the commands of the shell and the grammar of a command line.
//! - [`shell`]: what a line of input leads to, and the text that each command
//!   shows.
//! - [`clock`]: the date and the time of day, as text.
//! - [`text`]: comparison of texts and the splitting of a line into words.
//!
//! The library prints nothing and reads nothing: it takes lines and returns
//! texts.

pub mod clock;
pub mod command;
pub mod hal;
pub mod shell;
pub mod text;
