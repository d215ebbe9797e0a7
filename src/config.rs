//! The supervision config: what the child is and how it is launched.
use vstd::prelude::*;
use vstd::string::StringExecFns;
use vstd::string::StrSliceExecFns;
use crate::err::Error;
use crate::text::{decimal, decimal_text, parse_port, port_value};

verus! {

/// Seconds of the child's timeout when the configured one cannot be read.
pub const DEFAULT_TIMEOUT_SECS: u64 = 300;

/// The most decimal digits a timeout text may hold. Each span of a duration
/// starts with a digit and the longest unit is a year, so a text within
/// this limit stays far below the seconds at which humantime's sum of
/// spans would overflow.
pub const MAX_TIMEOUT_DIGITS: u64 = 10;

/// The number of ASCII decimal digits in a text.
pub open spec fn digit_count(s: Seq<char>) -> nat
    decreases s.len(),
{
    if s.len() == 0 {
        0
    } else {
        digit_count(s.drop_last()) + if '0' <= s.last() && s.last() <= '9' {
            1nat
        } else {
            0nat
        }
    }
}

/// Counts the ASCII decimal digits in a text.
pub fn count_digits(s: &str) -> (r: u64)
    ensures
        r as nat == digit_count(s@),
{
    let n = s.unicode_len();
    let mut i: usize = 0;
    let mut count: u64 = 0;
    while i < n
        invariant
            i <= n,
            n == s@.len(),
            count as nat == digit_count(s@.subrange(0, i as int)),
            count <= i,
        decreases n - i,
    {
        let c = s.get_char(i);
        assert(s@.subrange(0, i + 1).drop_last() =~= s@.subrange(0, i as int));
        if '0' <= c && c <= '9' {
            count = count + 1;
        }
        i = i + 1;
    }
    assert(s@.subrange(0, n as int) =~= s@);
    count
}

/// The whole seconds of the duration that humantime reads from a text,
/// none when it rejects the text.
pub uninterp spec fn human_duration_secs(s: Seq<char>) -> Option<u64>;

/// Relies on humantime::parse_duration: it reads a duration such as
/// "5min" or "1days", or rejects the text; the result depends on the text
/// alone. Only whole seconds are kept. It panics only when the total
/// reaches the largest count of seconds, which the digit limit rules out.
#[verifier::external_body]
fn parse_human_duration(s: &str) -> (r: Option<u64>)
    requires
        digit_count(s@) <= MAX_TIMEOUT_DIGITS,
    ensures
        r == human_duration_secs(s@),
{
    match humantime::parse_duration(s) {
        Ok(d) => Some(d.as_secs()),
        Err(_) => None,
    }
}

/// The duration a timeout text is read as: none for a text over the digit
/// limit, else what humantime reads.
pub open spec fn timeout_reading(s: Seq<char>) -> Option<u64> {
    if digit_count(s) <= MAX_TIMEOUT_DIGITS {
        human_duration_secs(s)
    } else {
        None
    }
}

/// The timeout used for a duration as read: itself, or the default when
/// it could not be read.
pub open spec fn timeout_choice(parsed: Option<u64>) -> u64 {
    match parsed {
        Some(t) => t,
        None => DEFAULT_TIMEOUT_SECS,
    }
}

/// The timeout used for a duration as read.
pub fn timeout_or_default(parsed: Option<u64>) -> (r: u64)
    ensures
        r == timeout_choice(parsed),
{
    match parsed {
        Some(t) => t,
        None => DEFAULT_TIMEOUT_SECS,
    }
}

/// The timeout a configured text stands for: none without a setting, the
/// default when the setting cannot be read or holds too many digits.
pub fn timeout_from_param(param: Option<&str>) -> (r: Option<u64>)
    ensures
        param.is_none() ==> r.is_none(),
        param.is_some() ==> r == Some(timeout_choice(timeout_reading(param.unwrap()@))),
{
    match param {
        None => None,
        Some(s) => {
            let parsed = if count_digits(s) <= MAX_TIMEOUT_DIGITS {
                parse_human_duration(s)
            } else {
                None
            };
            Some(timeout_or_default(parsed))
        },
    }
}

/// The arguments the child is launched with:
/// `[--port P] [--timeout T] --noauth --anyuser --nosecuritywarn --silent`.
pub open spec fn child_args_of(port: Option<u16>, timeout_secs: Option<u64>) -> Seq<Seq<char>> {
    let p = match port {
        Some(p) => seq!["--port"@, decimal(p as nat)],
        None => Seq::empty(),
    };
    let t = match timeout_secs {
        Some(t) => seq!["--timeout"@, decimal(t as nat)],
        None => Seq::empty(),
    };
    p + t + seq!["--noauth"@, "--anyuser"@, "--nosecuritywarn"@, "--silent"@]
}

/// The characters of each string, in order.
pub open spec fn texts(v: Seq<String>) -> Seq<Seq<char>> {
    v.map_values(|s: String| s@)
}

/// What the supervisor needs to launch the child. It is built once, before
/// supervision starts, and never changes.
pub struct SupervisionConfig {
    /// Path of the executable.
    pub executable: String,
    pub port: Option<u16>,
    /// The child's own timeout, in seconds; the child enforces it.
    pub timeout_secs: Option<u64>,
}

fn push_text(v: &mut Vec<String>, s: String)
    ensures
        texts(final(v)@) == texts(old(v)@).push(s@),
{
    v.push(s);
    assert(texts(final(v)@) =~= texts(old(v)@).push(s@));
}

impl SupervisionConfig {
    /// The child's argument list.
    pub fn child_args(&self) -> (r: Vec<String>)
        ensures
            texts(r@) == child_args_of(self.port, self.timeout_secs),
    {
        let mut v: Vec<String> = Vec::new();
        assert(texts(v@) =~= Seq::<Seq<char>>::empty());
        if let Some(p) = self.port {
            push_text(&mut v, String::from_str("--port"));
            push_text(&mut v, decimal_text(p as u64));
        }
        if let Some(t) = self.timeout_secs {
            push_text(&mut v, String::from_str("--timeout"));
            push_text(&mut v, decimal_text(t));
        }
        push_text(&mut v, String::from_str("--noauth"));
        push_text(&mut v, String::from_str("--anyuser"));
        push_text(&mut v, String::from_str("--nosecuritywarn"));
        push_text(&mut v, String::from_str("--silent"));
        assert(texts(v@) =~= child_args_of(self.port, self.timeout_secs));
        v
    }

    /// Builds the config from the service's stored settings. The executable
    /// is required; a port, if set, must be a port number; a timeout that
    /// cannot be read falls back to the default.
    pub fn from_params(executable: Option<String>, port: Option<&str>, timeout: Option<&str>) -> (r: Result<
        SupervisionConfig,
        Error,
    >)
        ensures
            executable.is_none() ==> r matches Err(Error::BadInput(_)),
            executable.is_some() && port.is_some() && port_value(port.unwrap()@).is_none() ==> r matches Err(
                Error::BadFormat(_),
            ),
            executable.is_some() && (port.is_none() || port_value(port.unwrap()@).is_some()) ==> (r matches Ok(c)
                && c.executable == executable.unwrap() && c.port == (match port {
                Some(p) => port_value(p@),
                None => None,
            }) && c.timeout_secs == (match timeout {
                Some(t) => Some(timeout_choice(timeout_reading(t@))),
                None => None,
            })),
    {
        let executable = match executable {
            Some(e) => e,
            None => {
                return Err(Error::BadInput(String::from_str("Exec parameter is missing")));
            },
        };
        let port = match port {
            None => None,
            Some(p) => match parse_port(p) {
                Some(n) => Some(n),
                None => {
                    let mut m = String::from_str("Port parameter is not a port number: ");
                    m.append(p);
                    return Err(Error::BadFormat(m));
                },
            },
        };
        Ok(SupervisionConfig { executable, port, timeout_secs: timeout_from_param(timeout) })
    }
}

/// The prefix Windows puts before a canonical path that bypasses its
/// path-length limit.
pub open spec fn verbatim_prefix() -> Seq<char> {
    seq!['\\', '\\', '?', '\\']
}

/// A path as the service records it: without the verbatim prefix.
pub open spec fn recorded_path(p: Seq<char>) -> Seq<char> {
    if p.len() >= 4 && p.subrange(0, 4) == verbatim_prefix() {
        p.subrange(4, p.len() as int)
    } else {
        p
    }
}

/// Removes the verbatim prefix from a canonical path, if it has one.
pub fn strip_verbatim_prefix(path: &str) -> (r: String)
    ensures
        r@ == recorded_path(path@),
{
    let n = path.unicode_len();
    if n >= 4 && path.get_char(0) == '\\' && path.get_char(1) == '\\' && path.get_char(2) == '?'
        && path.get_char(3) == '\\' {
        assert(path@.subrange(0, 4) =~= verbatim_prefix());
        path.substring_char(4, n).to_owned()
    } else {
        proof {
            if n >= 4 && path@.subrange(0, 4) == verbatim_prefix() {
                assert(path@[0] == path@.subrange(0, 4)[0]);
                assert(path@[1] == path@.subrange(0, 4)[1]);
                assert(path@[2] == path@.subrange(0, 4)[2]);
                assert(path@[3] == path@.subrange(0, 4)[3]);
            }
        }
        path.to_owned()
    }
}

} // verus!
