//! Log levels, as the host numbers them.

use vstd::prelude::*;

verus! {

/// The severity of a log line.
///
/// The host knows the levels by the numbers 1 to 5; 0 is no level.
#[derive(Copy, Eq, Debug, Hash)]
pub enum LogLevel {
    Error,
    Warn,
    Info,
    Debug,
    Trace,
}

/// The number that the host knows a level by.
pub open spec fn level_code(level: LogLevel) -> u32 {
    match level {
        LogLevel::Error => 1,
        LogLevel::Warn => 2,
        LogLevel::Info => 3,
        LogLevel::Debug => 4,
        LogLevel::Trace => 5,
    }
}

/// The level that the host knows by a number, where it is one.
pub open spec fn code_level(code: u32) -> Option<LogLevel> {
    if code == 1 {
        Some(LogLevel::Error)
    } else if code == 2 {
        Some(LogLevel::Warn)
    } else if code == 3 {
        Some(LogLevel::Info)
    } else if code == 4 {
        Some(LogLevel::Debug)
    } else if code == 5 {
        Some(LogLevel::Trace)
    } else {
        None
    }
}

/// The numbers of the levels are 1 to 5, one for each level, and no other
/// number is a level.
pub proof fn lemma_level_codes(level: LogLevel, code: u32)
    ensures
        1 <= level_code(level) <= 5,
        code_level(level_code(level)) == Some(level),
        code_level(code) == Some(level) <==> level_code(level) == code,
        code_level(code) is Some <==> 1 <= code <= 5,
        code_level(0) is None,
{
}

impl Clone for LogLevel {
    fn clone(&self) -> (level: LogLevel)
        ensures
            level == *self,
    {
        *self
    }
}

impl PartialEq for LogLevel {
    fn eq(&self, other: &LogLevel) -> (same: bool) {
        self.code() == other.code()
    }
}

impl vstd::std_specs::cmp::PartialEqSpecImpl for LogLevel {
    open spec fn obeys_eq_spec() -> bool {
        true
    }

    open spec fn eq_spec(&self, other: &LogLevel) -> bool {
        level_code(*self) == level_code(*other)
    }
}

impl LogLevel {
    /// The number that the host knows the level by.
    pub fn code(self) -> (code: u32)
        ensures
            code == level_code(self),
            1 <= code <= 5,
    {
        match self {
            LogLevel::Error => 1,
            LogLevel::Warn => 2,
            LogLevel::Info => 3,
            LogLevel::Debug => 4,
            LogLevel::Trace => 5,
        }
    }

    /// The level that the host knows by the number, where it is one.
    pub fn from_code(code: u32) -> (level: Option<LogLevel>)
        ensures
            level == code_level(code),
    {
        if code == 1 {
            Some(LogLevel::Error)
        } else if code == 2 {
            Some(LogLevel::Warn)
        } else if code == 3 {
            Some(LogLevel::Info)
        } else if code == 4 {
            Some(LogLevel::Debug)
        } else if code == 5 {
            Some(LogLevel::Trace)
        } else {
            None
        }
    }
}

} // verus!
