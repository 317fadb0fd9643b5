//! The logging adapter: what a guest's log call becomes on the host.
//!
//! A guest logs at one of six levels and the host's log has five: `Fatal` is
//! written as an error. The adapter makes the entry; writing it out is left to
//! the host.

use vstd::prelude::*;

verus! {

/// The levels at which a guest logs.
#[derive(Clone, Copy, Debug, PartialEq, Eq, Structural)]
pub enum Level {
    Trace,
    Debug,
    Info,
    Warn,
    Error,
    Fatal,
}

/// The levels of the host's log.
#[derive(Clone, Copy, Debug, PartialEq, Eq, Structural)]
pub enum HostLevel {
    Error,
    Warn,
    Info,
    Debug,
    Trace,
}

/// One entry for the host's log.
#[derive(Debug)]
pub struct Entry {
    pub level: HostLevel,
    pub message: String,
}

/// The host's level for a guest's level: the same, but for `Fatal`, which the
/// host writes as an error.
pub open spec fn host_level(lvl: Level) -> HostLevel {
    match lvl {
        Level::Trace => HostLevel::Trace,
        Level::Debug => HostLevel::Debug,
        Level::Info => HostLevel::Info,
        Level::Warn => HostLevel::Warn,
        Level::Error => HostLevel::Error,
        Level::Fatal => HostLevel::Error,
    }
}

impl HostLevel {
    /// The host's level for a guest's level.
    pub fn from_level(lvl: Level) -> (level: HostLevel)
        ensures
            level == host_level(lvl),
    {
        match lvl {
            Level::Trace => HostLevel::Trace,
            Level::Debug => HostLevel::Debug,
            Level::Info => HostLevel::Info,
            Level::Warn => HostLevel::Warn,
            Level::Error => HostLevel::Error,
            Level::Fatal => HostLevel::Error,
        }
    }
}

/// The logging adapter. It holds nothing.
#[derive(Clone, Copy, Debug)]
pub struct WasiLogger {}

impl WasiLogger {
    /// The entry for a message logged at a given level.
    pub fn log(&mut self, msg: &str, lvl: Level) -> (entry: Entry)
        ensures
            entry.level == host_level(lvl),
            entry.message@ == msg@,
    {
        Entry { level: HostLevel::from_level(lvl), message: msg.to_owned() }
    }

    /// The entry for a message logged at `Trace`.
    pub fn trace(&mut self, msg: &str) -> (entry: Entry)
        ensures
            entry.level == HostLevel::Trace,
            entry.message@ == msg@,
    {
        self.log(msg, Level::Trace)
    }

    /// The entry for a message logged at `Debug`.
    pub fn debug(&mut self, msg: &str) -> (entry: Entry)
        ensures
            entry.level == HostLevel::Debug,
            entry.message@ == msg@,
    {
        self.log(msg, Level::Debug)
    }

    /// The entry for a message logged at `Info`.
    pub fn info(&mut self, msg: &str) -> (entry: Entry)
        ensures
            entry.level == HostLevel::Info,
            entry.message@ == msg@,
    {
        self.log(msg, Level::Info)
    }

    /// The entry for a message logged at `Warn`.
    pub fn warn(&mut self, msg: &str) -> (entry: Entry)
        ensures
            entry.level == HostLevel::Warn,
            entry.message@ == msg@,
    {
        self.log(msg, Level::Warn)
    }

    /// The entry for a message logged at `Error`.
    pub fn error(&mut self, msg: &str) -> (entry: Entry)
        ensures
            entry.level == HostLevel::Error,
            entry.message@ == msg@,
    {
        self.log(msg, Level::Error)
    }

    /// The entry for a message logged at `Fatal`: an error on the host.
    pub fn fatal(&mut self, msg: &str) -> (entry: Entry)
        ensures
            entry.level == HostLevel::Error,
            entry.message@ == msg@,
    {
        self.log(msg, Level::Fatal)
    }
}

} // verus!
