//! Logging levels of the in-app WAF's logging facility.
use vstd::prelude::*;

verus! {

/// Logging levels supported by the WAF.
#[non_exhaustive]
#[derive(Debug, Copy, Clone, PartialEq, Eq, Structural)]
pub enum Level {
    /// Extremely detailed logging.
    Trace,
    /// Detailed logging.
    Debug,
    /// Informational logging.
    Info,
    /// Log only warnings and errors.
    Warn,
    /// Log only errors.
    Error,
    /// Do not log anything.
    Off,
}

/// The raw value the engine uses for each [`Level`].
pub open spec fn raw_level(l: Level) -> u32 {
    match l {
        Level::Trace => 0,
        Level::Debug => 1,
        Level::Info => 2,
        Level::Warn => 3,
        Level::Error => 4,
        Level::Off => 5,
    }
}

/// The [`Level`] a raw value denotes, if any.
pub open spec fn level_of_raw(raw: u32) -> Result<Level, UnknownLogLevelError> {
    if raw == 0 {
        Ok(Level::Trace)
    } else if raw == 1 {
        Ok(Level::Debug)
    } else if raw == 2 {
        Ok(Level::Info)
    } else if raw == 3 {
        Ok(Level::Warn)
    } else if raw == 4 {
        Ok(Level::Error)
    } else if raw == 5 {
        Ok(Level::Off)
    } else {
        Err(UnknownLogLevelError { raw })
    }
}

impl Level {
    /// Returns the raw value the engine uses for this [`Level`].
    pub fn as_raw(self) -> (r: u32)
        ensures
            r == raw_level(self),
    {
        match self {
            Level::Trace => 0,
            Level::Debug => 1,
            Level::Info => 2,
            Level::Warn => 3,
            Level::Error => 4,
            Level::Off => 5,
        }
    }

    /// Returns the name of this [`Level`].
    pub fn as_str(&self) -> (r: &'static str)
        ensures
            r@ == (match *self {
                Level::Trace => "TRACE"@,
                Level::Debug => "DEBUG"@,
                Level::Info => "INFO"@,
                Level::Warn => "WARN"@,
                Level::Error => "ERROR"@,
                Level::Off => "OFF"@,
            }),
    {
        match self {
            Level::Trace => "TRACE",
            Level::Debug => "DEBUG",
            Level::Info => "INFO",
            Level::Warn => "WARN",
            Level::Error => "ERROR",
            Level::Off => "OFF",
        }
    }

    /// The level under which a message the engine reports at `raw` is forwarded: the level that
    /// value denotes, or [`Level::Error`] for a value no level denotes.
    pub fn of_message(raw: u32) -> (r: Level)
        ensures
            r == (match level_of_raw(raw) {
                Ok(l) => l,
                Err(_) => Level::Error,
            }),
    {
        match Level::try_from(raw) {
            Ok(l) => l,
            Err(_) => Level::Error,
        }
    }
}

impl TryFrom<u32> for Level {
    type Error = UnknownLogLevelError;

    fn try_from(raw: u32) -> (r: Result<Level, UnknownLogLevelError>) {
        if raw == 0 {
            Ok(Level::Trace)
        } else if raw == 1 {
            Ok(Level::Debug)
        } else if raw == 2 {
            Ok(Level::Info)
        } else if raw == 3 {
            Ok(Level::Warn)
        } else if raw == 4 {
            Ok(Level::Error)
        } else if raw == 5 {
            Ok(Level::Off)
        } else {
            Err(UnknownLogLevelError { raw })
        }
    }
}

impl vstd::std_specs::convert::TryFromSpecImpl<u32> for Level {
    open spec fn obeys_try_from_spec() -> bool {
        true
    }

    open spec fn try_from_spec(raw: u32) -> Result<Level, UnknownLogLevelError> {
        level_of_raw(raw)
    }
}

/// An error that is produced when encountering an unknown log level value.
#[derive(Debug, Clone, Copy, PartialEq, Eq, Structural)]
pub struct UnknownLogLevelError {
    pub raw: u32,
}

} // verus!
