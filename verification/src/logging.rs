use vstd::prelude::*;

verus! {

/// The severity of a log record, from the most to the least severe.
#[derive(Debug, Clone, Copy, PartialEq, Eq, Structural)]
pub enum Level {
    Error,
    Warn,
    Info,
    Debug,
    Trace,
}

/// The rank of a level: 1 for `Error` up to 5 for `Trace`, so that a lower
/// rank is more severe.
pub open spec fn level_rank(level: Level) -> int {
    match level {
        Level::Error => 1,
        Level::Warn => 2,
        Level::Info => 3,
        Level::Debug => 4,
        Level::Trace => 5,
    }
}

/// A logger that prints records of level `Info` and more severe.
#[derive(Debug, Clone, Copy)]
pub struct SimpleLogger;

impl SimpleLogger {
    /// Whether a record of this level is printed: it is at least as severe
    /// as `Info`.
    pub fn enabled(&self, level: Level) -> (r: bool)
        ensures
            r == (level_rank(level) <= level_rank(Level::Info)),
            r <==> (level == Level::Error || level == Level::Warn || level == Level::Info),
    {
        match level {
            Level::Error | Level::Warn | Level::Info => true,
            Level::Debug | Level::Trace => false,
        }
    }
}

} // verus!
