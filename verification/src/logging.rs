//! Log levels and the choices that the command-line front ends make when
//! they set up logging.

use vstd::prelude::*;
use crate::text::{chars_of, concat, pad_right, pad_right_str, str_eq};

verus! {

/// A log level, from the least to the most verbose.
#[derive(Debug, Clone, Copy, PartialEq, Eq, Structural)]
pub enum LogLevel {
    Error,
    Warn,
    Info,
    Debug,
    Trace,
}

impl LogLevel {
    /// How verbose the level is: more verbose levels compare greater.
    pub open spec fn spec_verbosity(self) -> nat {
        match self {
            LogLevel::Error => 1,
            LogLevel::Warn => 2,
            LogLevel::Info => 3,
            LogLevel::Debug => 4,
            LogLevel::Trace => 5,
        }
    }

    /// How verbose the level is.
    pub fn verbosity(&self) -> (r: u8)
        ensures
            r == self.spec_verbosity(),
    {
        match self {
            LogLevel::Error => 1,
            LogLevel::Warn => 2,
            LogLevel::Info => 3,
            LogLevel::Debug => 4,
            LogLevel::Trace => 5,
        }
    }

    /// The name that a log line shows.
    pub open spec fn spec_name(self) -> Seq<char> {
        match self {
            LogLevel::Error => "ERROR"@,
            LogLevel::Warn => "WARN"@,
            LogLevel::Info => "INFO"@,
            LogLevel::Debug => "DEBUG"@,
            LogLevel::Trace => "TRACE"@,
        }
    }

    /// The name that a log line shows.
    pub fn name(&self) -> (r: &'static str)
        ensures
            r@ == self.spec_name(),
    {
        match self {
            LogLevel::Error => "ERROR",
            LogLevel::Warn => "WARN",
            LogLevel::Info => "INFO",
            LogLevel::Debug => "DEBUG",
            LogLevel::Trace => "TRACE",
        }
    }
}

/// The level the Helm plugin logs at: the given one, else `INFO`.
pub fn level_or_info(level: Option<LogLevel>) -> (r: LogLevel)
    ensures
        r == match level {
            Some(l) => l,
            None => LogLevel::Info,
        },
{
    match level {
        Some(l) => l,
        None => LogLevel::Info,
    }
}

/// The level the developer tools log at: `DEBUG` when `--verbose` is given,
/// else the chosen level.
pub fn devtools_level(verbose: bool, level: LogLevel) -> (r: LogLevel)
    ensures
        r == if verbose { LogLevel::Debug } else { level },
{
    if verbose {
        LogLevel::Debug
    } else {
        level
    }
}

/// How the developer tools' logger is set up.
#[derive(Debug, Clone, Copy, PartialEq, Eq, Structural)]
pub struct LogSettings {
    /// Whether log lines show where they were emitted.
    pub verbose: bool,
    /// The most verbose level that is shown.
    pub filter: LogLevel,
}

/// The developer tools' logger settings for the `--verbose` flag and the
/// `--log-level` option: lines show their origin when `--verbose` is given
/// or the level is `DEBUG` or more verbose; `--verbose` shows `DEBUG`.
pub fn devtools_log_settings(verbose: bool, level: Option<LogLevel>) -> (r: LogSettings)
    ensures
        ({
            let l = match level {
                Some(l) => l,
                None => LogLevel::Info,
            };
            &&& r.verbose == (verbose || l.spec_verbosity() >= LogLevel::Debug.spec_verbosity())
            &&& r.filter == if verbose { LogLevel::Debug } else { l }
        }),
{
    let l = level_or_info(level);
    let shows_origin = verbose || l.verbosity() >= 4;
    LogSettings { verbose: shows_origin, filter: devtools_level(verbose, l) }
}

/// A log line without colours or timestamps: `[LEVEL] message`, the level
/// padded to five characters.
pub fn plain_log_line(level: LogLevel, message: &str) -> (r: String)
    ensures
        r@ == "["@ + pad_right(level.spec_name(), 5) + "] "@ + message@,
{
    let mut line = concat("[", pad_right_str(level.name(), 5).as_str());
    line.append("] ");
    line.append(message);
    line
}

/// `s` is made of `i` characters only.
pub open spec fn only_i(s: Seq<char>) -> bool {
    forall|k: int| 0 <= k < s.len() ==> s[k] == 'i'
}

/// The values that turn a boolean environment variable on: the whole text
/// matches `^(true|1|si*|y(es|is|us)?)$`.
pub open spec fn spec_is_truthy(s: Seq<char>) -> bool {
    ||| s == "true"@
    ||| s == "1"@
    ||| (s.len() > 0 && s[0] == 's' && only_i(s.drop_first()))
    ||| s == "y"@
    ||| s == "yes"@
    ||| s == "yis"@
    ||| s == "yus"@
}

/// Whether `s` turns a boolean environment variable on.
pub fn is_truthy(s: &str) -> (r: bool)
    ensures
        r == spec_is_truthy(s@),
{
    if str_eq(s, "true") || str_eq(s, "1") || str_eq(s, "y") || str_eq(s, "yes")
        || str_eq(s, "yis") || str_eq(s, "yus") {
        return true;
    }
    let cs = chars_of(s);
    if cs.len() == 0 || cs[0] != 's' {
        return false;
    }
    let mut k: usize = 1;
    while k < cs.len()
        invariant
            cs@ == s@,
            1 <= k <= cs@.len(),
            cs@[0] == 's',
            spec_is_truthy(s@) == only_i(s@.drop_first()),
            forall|t: int| 1 <= t < k ==> cs@[t] == 'i',
        decreases cs@.len() - k,
    {
        if cs[k] != 'i' {
            assert(s@.drop_first()[k - 1] != 'i');
            return false;
        }
        k = k + 1;
    }
    assert forall|t: int| 0 <= t < s@.drop_first().len() implies s@.drop_first()[t] == 'i' by {
        assert(s@.drop_first()[t] == cs@[t + 1]);
    }
    true
}

/// Whether colours are turned off, given the value of `DISABLE_COLOURS`
/// when it is set.
pub fn colors_disabled(value: Option<&str>) -> (r: bool)
    ensures
        r == match value {
            Some(v) => spec_is_truthy(v@),
            None => false,
        },
{
    match value {
        Some(v) => is_truthy(v),
        None => false,
    }
}

} // verus!
