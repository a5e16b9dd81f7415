//! Log levels and their colours.

use crate::text::Color;
use vstd::prelude::*;

verus! {

/// Log levels.
#[derive(Clone, Copy, Debug, PartialEq, Eq, Structural)]
pub enum Level {
    /// Trace log
    Trace,
    /// Debug log, does not show in release
    Debug,
    /// Info log
    Info,
    /// Warning log
    Warn,
    /// Error log
    Error,
}

/// The colour in which a level's name is printed.
pub fn level_color(level: Level) -> (color: Color)
    ensures
        color == match level {
            Level::Debug => Color::Green,
            Level::Error => Color::LightRed,
            Level::Trace => Color::Magenta,
            Level::Info => Color::LightCyan,
            Level::Warn => Color::Yellow,
        },
{
    match level {
        Level::Debug => Color::Green,
        Level::Error => Color::LightRed,
        Level::Trace => Color::Magenta,
        Level::Info => Color::LightCyan,
        Level::Warn => Color::Yellow,
    }
}

/// Whether a message of `level` is shown: a debug message only in a debug
/// build.
pub fn is_shown(level: Level, debug_build: bool) -> (shown: bool)
    ensures
        shown == (debug_build || level != Level::Debug),
{
    match level {
        Level::Debug => debug_build,
        _ => true,
    }
}

} // verus!
