//! The library's error type.
use vstd::prelude::*;
use vstd::string::StringExecFns;

verus! {

#[derive(Debug)]
pub enum Error {
    IO(String),
    BadFormat(String),
    BadInput(String),
    ArgParser(String),
    Service(String),
    EventLog(String),
    RegistryKey(String),
}

/// The human-readable form of an error: a heading for its kind, then its
/// detail.
pub open spec fn error_text(e: Error) -> Seq<char> {
    match e {
        Error::IO(s) => "I/O error; "@ + s@,
        Error::BadFormat(s) => "Bad format error; "@ + s@,
        Error::BadInput(s) => "Bad input error; "@ + s@,
        Error::ArgParser(s) => "ArgParser error; "@ + s@,
        Error::Service(s) => "Service error; "@ + s@,
        Error::EventLog(s) => "EventLog error; "@ + s@,
        Error::RegistryKey(s) => "Registry Key error; "@ + s@,
    }
}

impl Error {
    /// The human-readable form of this error.
    pub fn message(&self) -> (r: String)
        ensures
            r@ == error_text(*self),
    {
        let (heading, detail) = match self {
            Error::IO(s) => ("I/O error; ", s),
            Error::BadFormat(s) => ("Bad format error; ", s),
            Error::BadInput(s) => ("Bad input error; ", s),
            Error::ArgParser(s) => ("ArgParser error; ", s),
            Error::Service(s) => ("Service error; ", s),
            Error::EventLog(s) => ("EventLog error; ", s),
            Error::RegistryKey(s) => ("Registry Key error; ", s),
        };
        let mut r = String::from_str(heading);
        r.append(detail.as_str());
        r
    }
}

} // verus!
