//! The verbosity of the service's log.
use vstd::prelude::*;
use vstd::string::StringExecFns;
use crate::err::Error;

verus! {

#[derive(PartialEq, Eq, Structural, Clone, Copy, Debug)]
pub enum LogLevel {
    Off,
    Error,
    Warn,
    Info,
    Debug,
    Trace,
}

/// The name of each level.
pub open spec fn level_name(l: LogLevel) -> Seq<char> {
    match l {
        LogLevel::Off => "off"@,
        LogLevel::Error => "error"@,
        LogLevel::Warn => "warn"@,
        LogLevel::Info => "info"@,
        LogLevel::Debug => "debug"@,
        LogLevel::Trace => "trace"@,
    }
}

/// The level a name stands for, if any.
pub open spec fn level_named(s: Seq<char>) -> Option<LogLevel> {
    if s == "off"@ {
        Some(LogLevel::Off)
    } else if s == "error"@ {
        Some(LogLevel::Error)
    } else if s == "warn"@ {
        Some(LogLevel::Warn)
    } else if s == "info"@ {
        Some(LogLevel::Info)
    } else if s == "debug"@ {
        Some(LogLevel::Debug)
    } else if s == "trace"@ {
        Some(LogLevel::Trace)
    } else {
        None
    }
}

/// Whether two strings hold the same characters.
pub fn same_text(a: &str, b: &str) -> (r: bool)
    ensures
        r == (a@ == b@),
{
    a.to_owned() == b.to_owned()
}

impl LogLevel {
    /// Reads a level from its name; any other text is bad input.
    pub fn from_str(s: &str) -> (r: Result<LogLevel, Error>)
        ensures
            level_named(s@).is_some() ==> r == Ok::<LogLevel, Error>(level_named(s@).unwrap()),
            level_named(s@).is_none() ==> (r matches Err(Error::BadInput(m)) && m@
                == "Unknown log level '"@ + s@ + "'"@),
    {
        if same_text(s, "off") {
            Ok(LogLevel::Off)
        } else if same_text(s, "error") {
            Ok(LogLevel::Error)
        } else if same_text(s, "warn") {
            Ok(LogLevel::Warn)
        } else if same_text(s, "info") {
            Ok(LogLevel::Info)
        } else if same_text(s, "debug") {
            Ok(LogLevel::Debug)
        } else if same_text(s, "trace") {
            Ok(LogLevel::Trace)
        } else {
            let mut m = String::from_str("Unknown log level '");
            m.append(s);
            m.append("'");
            Err(Error::BadInput(m))
        }
    }

    /// The name of this level.
    pub fn as_str(&self) -> (r: &'static str)
        ensures
            r@ == level_name(*self),
    {
        match self {
            LogLevel::Off => "off",
            LogLevel::Error => "error",
            LogLevel::Warn => "warn",
            LogLevel::Info => "info",
            LogLevel::Debug => "debug",
            LogLevel::Trace => "trace",
        }
    }

    /// The name of this level, owned.
    pub fn to_string(&self) -> (r: String)
        ensures
            r@ == level_name(*self),
    {
        String::from_str(self.as_str())
    }

    /// The level a service is configured with: a known name other than
    /// "off" selects its level, no setting selects `Error`, and anything
    /// else silences the log.
    pub fn from_param(param: Option<&str>) -> (r: LogLevel)
        ensures
            param.is_none() ==> r == LogLevel::Error,
            param.is_some() ==> r == match level_named(param.unwrap()@) {
                Some(l) => l,
                None => LogLevel::Off,
            },
    {
        match param {
            None => LogLevel::Error,
            Some(s) => match LogLevel::from_str(s) {
                Ok(l) => l,
                Err(_) => LogLevel::Off,
            },
        }
    }
}

impl Default for LogLevel {
    fn default() -> (r: LogLevel)
        ensures
            r == LogLevel::Error,
    {
        LogLevel::Error
    }
}

} // verus!
