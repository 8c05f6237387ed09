//! A logger that fans messages out to several loggers, each with its own
//! minimum severity.

use vstd::prelude::*;
use crate::logger::Logger;

verus! {

/// A log message's severity.
#[derive(Clone, Copy, Debug, PartialEq, Eq, Structural)]
pub enum LogLevel {
    Debug,
    Info,
    Warning,
    Error,
    Critical,
}

/// A severity's rank: higher means more severe.
pub open spec fn level_rank_spec(level: LogLevel) -> int {
    match level {
        LogLevel::Debug => 0,
        LogLevel::Info => 1,
        LogLevel::Warning => 2,
        LogLevel::Error => 3,
        LogLevel::Critical => 4,
    }
}

/// A severity's rank: higher means more severe.
pub fn level_rank(level: LogLevel) -> (rank: u8)
    ensures
        rank == level_rank_spec(level),
{
    match level {
        LogLevel::Debug => 0,
        LogLevel::Info => 1,
        LogLevel::Warning => 2,
        LogLevel::Error => 3,
        LogLevel::Critical => 4,
    }
}

/// Aggregates several loggers, each with the least severity it wants to
/// see.
pub struct MultiLogger<L: Logger> {
    pub loggers: Vec<L>,
    pub levels: Vec<LogLevel>,
}

impl<L: Logger> MultiLogger<L> {
    /// One minimum severity per registered logger.
    pub open spec fn wf(&self) -> bool {
        self.loggers@.len() == self.levels@.len()
    }

    /// An aggregator with no loggers registered yet.
    pub fn new() -> (multi: MultiLogger<L>)
        ensures
            multi.wf(),
            multi.loggers@.len() == 0,
    {
        MultiLogger { loggers: Vec::new(), levels: Vec::new() }
    }

    /// Registers one more logger, with the least severity it receives.
    pub fn add_logger(&mut self, logger: L, level: LogLevel)
        requires
            old(self).wf(),
        ensures
            final (self).wf(),
            final (self).loggers@ == old(self).loggers@.push(logger),
            final (self).levels@ == old(self).levels@.push(level),
    {
        self.loggers.push(logger);
        self.levels.push(level);
    }

    /// Hands the message to every logger whose minimum severity the
    /// message meets.
    pub fn log(&self, message: &str, level: LogLevel)
        requires
            self.wf(),
    {
        let mut i: usize = 0;
        while i < self.loggers.len()
            invariant
                self.wf(),
                0 <= i <= self.loggers@.len(),
            decreases self.loggers@.len() - i,
        {
            if level_rank(self.levels[i]) <= level_rank(level) {
                match level {
                    LogLevel::Debug => self.loggers[i].debug(message),
                    LogLevel::Info => self.loggers[i].info(message),
                    LogLevel::Warning => self.loggers[i].warning(message),
                    LogLevel::Error => self.loggers[i].error(message),
                    LogLevel::Critical => self.loggers[i].critical(message),
                }
            }
            i = i + 1;
        }
    }
}

impl<L: Logger> Logger for MultiLogger<L> {
    fn debug(&self, message: &str) {
        if self.loggers.len() == self.levels.len() {
            self.log(message, LogLevel::Debug);
        }
    }

    fn info(&self, message: &str) {
        if self.loggers.len() == self.levels.len() {
            self.log(message, LogLevel::Info);
        }
    }

    fn warning(&self, message: &str) {
        if self.loggers.len() == self.levels.len() {
            self.log(message, LogLevel::Warning);
        }
    }

    fn error(&self, message: &str) {
        if self.loggers.len() == self.levels.len() {
            self.log(message, LogLevel::Error);
        }
    }

    fn critical(&self, message: &str) {
        if self.loggers.len() == self.levels.len() {
            self.log(message, LogLevel::Critical);
        }
    }
}

} // verus!
