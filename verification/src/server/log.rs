//! What is worth a line in the log, and where the line goes.

use vstd::prelude::*;
use vstd::std_specs::convert::FromSpecImpl;
use crate::server::error::Error;

verus! {

/// How much a log tells, from the least to the most.
#[derive(Clone, Copy, Debug, PartialEq, Eq, Structural)]
pub enum Verbosity {
    Critical,
    Error,
    Warning,
    Info,
    Debug,
}

impl Verbosity {
    /// The number of a level, from 0 for `Critical` to 4 for `Debug`.
    pub open spec fn rank(self) -> u8 {
        match self {
            Verbosity::Critical => 0,
            Verbosity::Error => 1,
            Verbosity::Warning => 2,
            Verbosity::Info => 3,
            Verbosity::Debug => 4,
        }
    }

    /// The level of a number: every number from 4 on stands for `Debug`.
    pub open spec fn of_rank(value: u8) -> Verbosity {
        if value == 0 {
            Verbosity::Critical
        } else if value == 1 {
            Verbosity::Error
        } else if value == 2 {
            Verbosity::Warning
        } else if value == 3 {
            Verbosity::Info
        } else {
            Verbosity::Debug
        }
    }
}

impl From<u8> for Verbosity {
    fn from(value: u8) -> (r: Verbosity) {
        match value {
            0 => Verbosity::Critical,
            1 => Verbosity::Error,
            2 => Verbosity::Warning,
            3 => Verbosity::Info,
            _ => Verbosity::Debug,
        }
    }
}

impl FromSpecImpl<u8> for Verbosity {
    open spec fn obeys_from_spec() -> bool {
        true
    }

    open spec fn from_spec(value: u8) -> Verbosity {
        Verbosity::of_rank(value)
    }
}

impl From<Verbosity> for u8 {
    fn from(value: Verbosity) -> (r: u8) {
        match value {
            Verbosity::Critical => 0,
            Verbosity::Error => 1,
            Verbosity::Warning => 2,
            Verbosity::Info => 3,
            Verbosity::Debug => 4,
        }
    }
}

impl FromSpecImpl<Verbosity> for u8 {
    open spec fn obeys_from_spec() -> bool {
        true
    }

    open spec fn from_spec(value: Verbosity) -> u8 {
        value.rank()
    }
}

/// A level and its number stand for each other.
pub proof fn lemma_rank_round_trip(lvl: Verbosity)
    ensures
        Verbosity::of_rank(lvl.rank()) == lvl,
{
}

/// Where a line of the log goes.
#[derive(Clone, Copy, Debug, PartialEq, Eq, Structural)]
pub enum Stream {
    Stderr,
    Stdout,
}

/// The log: how much it tells.
#[derive(Clone, Copy, Debug, PartialEq, Eq, Structural)]
pub struct Logger {
    pub level: u8,
}

/// A line to write, and where.
#[derive(Clone, Debug, PartialEq, Eq)]
pub struct LogLine {
    pub stream: Stream,
    pub text: String,
}

/// Where a message of a level goes, if the log tells that much: warnings and
/// worse to the error stream, the rest to the output stream.
pub open spec fn stream_for(level: u8, lvl: Verbosity) -> Option<Stream> {
    if level >= lvl.rank() {
        if lvl.rank() <= Verbosity::Warning.rank() {
            Some(Stream::Stderr)
        } else {
            Some(Stream::Stdout)
        }
    } else {
        None
    }
}

impl Logger {
    /// A log that tells of errors and worse.
    pub fn new() -> (r: Logger)
        ensures
            r.level == Verbosity::Error.rank(),
    {
        Logger { level: 1 }
    }
}

/// Sets how much the log tells.
pub fn set_verbosity(logger: &mut Logger, lvl: Verbosity)
    ensures
        final(logger).level == lvl.rank(),
{
    logger.level = u8::from(lvl);
}

/// The line to write for a message of a level, if the log tells that much.
pub fn log_msg(logger: &Logger, lvl: Verbosity, msg: &str) -> (r: Option<LogLine>)
    ensures
        match stream_for(logger.level, lvl) {
            Some(stream) => r is Some && r.unwrap().stream == stream && r.unwrap().text@ == msg@,
            None => r is None,
        },
{
    let rank = u8::from(lvl);
    if logger.level >= rank {
        if rank <= 2 {
            Some(LogLine { stream: Stream::Stderr, text: String::from_str(msg) })
        } else {
            Some(LogLine { stream: Stream::Stdout, text: String::from_str(msg) })
        }
    } else {
        None
    }
}

/// The line to write for an error, if the log tells of errors: the error's
/// text, to the error stream.
pub fn log_err(logger: &Logger, err: &Error) -> (r: Option<LogLine>)
    ensures
        match stream_for(logger.level, Verbosity::Error) {
            Some(stream) => r is Some && r.unwrap().stream == stream && r.unwrap().text@
                == err@.text(),
            None => r is None,
        },
{
    let text = err.to_text();
    log_msg(logger, Verbosity::Error, text.as_str())
}

} // verus!
