//! The log verbosity that the `-v` and `-q` flags select.

use vstd::prelude::*;

verus! {

/// The most detailed kind of log event that is written.
#[derive(Debug, Clone, Copy, PartialEq, Eq, Structural)]
pub enum LogLevel {
    Error,
    Warn,
    Info,
    Debug,
    Trace,
}

/// The level for `verbose` repetitions of `-v` and `quiet` of `-q`: each
/// `-v` raises the level one step from `Info`, each `-q` lowers it, and
/// the ends saturate at `Error` and `Trace`.
pub open spec fn level_for(verbose: int, quiet: int) -> LogLevel {
    let d = verbose - quiet;
    if d <= -2 {
        LogLevel::Error
    } else if d == -1 {
        LogLevel::Warn
    } else if d == 0 {
        LogLevel::Info
    } else if d == 1 {
        LogLevel::Debug
    } else {
        LogLevel::Trace
    }
}

/// The level selected by the flag counts.
pub fn log_level(verbose: u8, quiet: u8) -> (l: LogLevel)
    ensures
        l == level_for(verbose as int, quiet as int),
{
    let d: i16 = verbose as i16 - quiet as i16;
    if d <= -2 {
        LogLevel::Error
    } else if d == -1 {
        LogLevel::Warn
    } else if d == 0 {
        LogLevel::Info
    } else if d == 1 {
        LogLevel::Debug
    } else {
        LogLevel::Trace
    }
}


/// The level depends only on how many more `-v` than `-q` flags there
/// are: adding one of each changes nothing; equal counts give `Info`, one
/// more `-q` gives `Warn`, one more `-v` gives `Debug`, two or more `-q`
/// beyond the `-v` give `Error` and two or more `-v` beyond the `-q` give
/// `Trace`.
pub proof fn law_level_depends_on_difference(v: nat, q: nat)
    ensures
        level_for(v + 1int, q + 1int) == level_for(v as int, q as int),
        level_for(v as int, v as int) == LogLevel::Info,
        level_for(v as int, v + 1int) == LogLevel::Warn,
        level_for(v + 1int, v as int) == LogLevel::Debug,
        level_for(v as int, v + 2int + q) == LogLevel::Error,
        level_for(v + 2int + q, v as int) == LogLevel::Trace,
{
}

} // verus!
