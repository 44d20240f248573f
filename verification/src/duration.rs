//! A span of time with millisecond and humane (`1s`, `15 days`) forms.

use vstd::prelude::*;
use crate::text::{chars_of, push_char, str_eq};

verus! {

/// The error of `humantime::parse_duration`.
#[verifier::external_type_specification]
#[verifier::external_body]
pub struct ExDurationError(humantime::DurationError);

/// What `humantime::parse_duration` makes of a string: the whole seconds and
/// the sub-second nanoseconds of the duration, or `None` when it fails.
pub uninterp spec fn humantime_parse(s: Seq<char>) -> Option<(u64, u32)>;

/// What `humantime::format_duration` displays for a duration of `secs`
/// seconds and `nanos` nanoseconds.
pub uninterp spec fn humantime_format(secs: u64, nanos: u32) -> Seq<char>;

/// Nanoseconds in one second.
pub const NANOS_PER_SEC: u32 = 1_000_000_000;

/// Nanoseconds in one millisecond.
pub const NANOS_PER_MILLI: u32 = 1_000_000;

/// A character that ends the number before it in humantime's grammar: the
/// letters of a unit (ASCII letters and `µ`).
pub open spec fn is_unit_char(c: char) -> bool {
    ('a' <= c && c <= 'z') || ('A' <= c && c <= 'Z') || c == 'µ'
}

/// An ASCII digit.
pub open spec fn is_ascii_digit(c: char) -> bool {
    '0' <= c && c <= '9'
}

/// The value of an ASCII digit.
pub open spec fn digit_value(c: char) -> int {
    (c as int) - ('0' as int)
}

/// Nanoseconds in humantime's longest unit, the year of 365.25 days.
pub const NANOS_PER_YEAR: u128 = 31_557_600_000_000_000;

/// The nanoseconds of the unit that humantime names `u`; a name it does not
/// know counts as its longest unit, the year.
pub open spec fn unit_nanos(u: Seq<char>) -> int {
    if u == "nanos"@ || u == "nsec"@ || u == "ns"@ {
        1
    } else if u == "usec"@ || u == "us"@ || u == "µs"@ {
        1_000
    } else if u == "millis"@ || u == "msec"@ || u == "ms"@ {
        1_000_000
    } else if u == "seconds"@ || u == "second"@ || u == "secs"@ || u == "sec"@ || u == "s"@ {
        1_000_000_000
    } else if u == "minutes"@ || u == "minute"@ || u == "min"@ || u == "mins"@ || u == "m"@ {
        60_000_000_000
    } else if u == "hours"@ || u == "hour"@ || u == "hr"@ || u == "hrs"@ || u == "h"@ {
        3_600_000_000_000
    } else if u == "days"@ || u == "day"@ || u == "d"@ {
        86_400_000_000_000
    } else if u == "weeks"@ || u == "week"@ || u == "wk"@ || u == "wks"@ || u == "w"@ {
        604_800_000_000_000
    } else if u == "months"@ || u == "month"@ || u == "M"@ {
        2_630_016_000_000_000
    } else {
        NANOS_PER_YEAR as int
    }
}

/// Computes `unit_nanos(u@)`.
fn unit_nanos_of(u: &str) -> (r: u128)
    ensures
        r == unit_nanos(u@),
{
    if str_eq(u, "nanos") || str_eq(u, "nsec") || str_eq(u, "ns") {
        1
    } else if str_eq(u, "usec") || str_eq(u, "us") || str_eq(u, "µs") {
        1_000
    } else if str_eq(u, "millis") || str_eq(u, "msec") || str_eq(u, "ms") {
        1_000_000
    } else if str_eq(u, "seconds") || str_eq(u, "second") || str_eq(u, "secs") || str_eq(u, "sec") || str_eq(u, "s") {
        1_000_000_000
    } else if str_eq(u, "minutes") || str_eq(u, "minute") || str_eq(u, "min") || str_eq(u, "mins") || str_eq(u, "m") {
        60_000_000_000
    } else if str_eq(u, "hours") || str_eq(u, "hour") || str_eq(u, "hr") || str_eq(u, "hrs") || str_eq(u, "h") {
        3_600_000_000_000
    } else if str_eq(u, "days") || str_eq(u, "day") || str_eq(u, "d") {
        86_400_000_000_000
    } else if str_eq(u, "weeks") || str_eq(u, "week") || str_eq(u, "wk") || str_eq(u, "wks") || str_eq(u, "w") {
        604_800_000_000_000
    } else if str_eq(u, "months") || str_eq(u, "month") || str_eq(u, "M") {
        2_630_016_000_000_000
    } else {
        NANOS_PER_YEAR
    }
}

/// humantime's units measured against one another: a microsecond is a
/// thousand nanoseconds, a millisecond a thousand microseconds, a second a
/// thousand milliseconds, a minute sixty seconds, an hour sixty minutes, a
/// day twenty-four hours, a week seven days, a month 30.44 days and a year
/// 365.25 days; every other spelling of a unit weighs what its short name
/// weighs, and no name weighs less than a nanosecond or more than a year.
#[verifier::rlimit(60)]
pub proof fn law_unit_lengths()
    ensures
        unit_nanos("ns"@) == 1,
        unit_nanos("us"@) == 1000 * unit_nanos("ns"@),
        unit_nanos("ms"@) == 1000 * unit_nanos("us"@),
        unit_nanos("s"@) == 1000 * unit_nanos("ms"@),
        unit_nanos("m"@) == 60 * unit_nanos("s"@),
        unit_nanos("h"@) == 60 * unit_nanos("m"@),
        unit_nanos("d"@) == 24 * unit_nanos("h"@),
        unit_nanos("w"@) == 7 * unit_nanos("d"@),
        100 * unit_nanos("M"@) == 3044 * unit_nanos("d"@),
        4 * unit_nanos("y"@) == 1461 * unit_nanos("d"@),
        unit_nanos("nanos"@) == unit_nanos("ns"@),
        unit_nanos("nsec"@) == unit_nanos("ns"@),
        unit_nanos("usec"@) == unit_nanos("µs"@),
        unit_nanos("us"@) == unit_nanos("µs"@),
        unit_nanos("millis"@) == unit_nanos("ms"@),
        unit_nanos("msec"@) == unit_nanos("ms"@),
        unit_nanos("seconds"@) == unit_nanos("s"@),
        unit_nanos("second"@) == unit_nanos("s"@),
        unit_nanos("secs"@) == unit_nanos("s"@),
        unit_nanos("sec"@) == unit_nanos("s"@),
        unit_nanos("minutes"@) == unit_nanos("m"@),
        unit_nanos("minute"@) == unit_nanos("m"@),
        unit_nanos("min"@) == unit_nanos("m"@),
        unit_nanos("mins"@) == unit_nanos("m"@),
        unit_nanos("hours"@) == unit_nanos("h"@),
        unit_nanos("hour"@) == unit_nanos("h"@),
        unit_nanos("hr"@) == unit_nanos("h"@),
        unit_nanos("hrs"@) == unit_nanos("h"@),
        unit_nanos("days"@) == unit_nanos("d"@),
        unit_nanos("day"@) == unit_nanos("d"@),
        unit_nanos("weeks"@) == unit_nanos("w"@),
        unit_nanos("week"@) == unit_nanos("w"@),
        unit_nanos("wk"@) == unit_nanos("w"@),
        unit_nanos("wks"@) == unit_nanos("w"@),
        unit_nanos("months"@) == unit_nanos("M"@),
        unit_nanos("month"@) == unit_nanos("M"@),
        unit_nanos("years"@) == unit_nanos("y"@),
        unit_nanos("year"@) == unit_nanos("y"@),
        unit_nanos("yr"@) == unit_nanos("y"@),
        unit_nanos("yrs"@) == unit_nanos("y"@),
        forall|u: Seq<char>| 1 <= #[trigger] unit_nanos(u) <= unit_nanos("y"@),
{
    reveal_strlit("nanos");
    reveal_strlit("nsec");
    reveal_strlit("ns");
    reveal_strlit("usec");
    reveal_strlit("us");
    reveal_strlit("µs");
    reveal_strlit("millis");
    reveal_strlit("msec");
    reveal_strlit("ms");
    reveal_strlit("seconds");
    reveal_strlit("second");
    reveal_strlit("secs");
    reveal_strlit("sec");
    reveal_strlit("s");
    reveal_strlit("minutes");
    reveal_strlit("minute");
    reveal_strlit("min");
    reveal_strlit("mins");
    reveal_strlit("m");
    reveal_strlit("hours");
    reveal_strlit("hour");
    reveal_strlit("hr");
    reveal_strlit("hrs");
    reveal_strlit("h");
    reveal_strlit("days");
    reveal_strlit("day");
    reveal_strlit("d");
    reveal_strlit("weeks");
    reveal_strlit("week");
    reveal_strlit("wk");
    reveal_strlit("wks");
    reveal_strlit("w");
    reveal_strlit("months");
    reveal_strlit("month");
    reveal_strlit("M");
    reveal_strlit("years");
    reveal_strlit("year");
    reveal_strlit("yr");
    reveal_strlit("yrs");
    reveal_strlit("y");
    assert("nanos"@[0] != "hours"@[0]);
    assert("nanos"@[0] != "weeks"@[0]);
    assert("nanos"@[0] != "month"@[0]);
    assert("nanos"@[0] != "years"@[0]);
    assert("nsec"@[0] != "usec"@[0]);
    assert("nsec"@[0] != "msec"@[0]);
    assert("nsec"@[0] != "secs"@[0]);
    assert("nsec"@[0] != "mins"@[0]);
    assert("nsec"@[0] != "hour"@[0]);
    assert("nsec"@[0] != "days"@[0]);
    assert("nsec"@[0] != "week"@[0]);
    assert("nsec"@[0] != "year"@[0]);
    assert("ns"@[0] != "us"@[0]);
    assert("ns"@[0] != "µs"@[0]);
    assert("ns"@[0] != "ms"@[0]);
    assert("ns"@[0] != "hr"@[0]);
    assert("ns"@[0] != "wk"@[0]);
    assert("ns"@[0] != "yr"@[0]);
    assert("usec"@[0] != "msec"@[0]);
    assert("usec"@[0] != "secs"@[0]);
    assert("usec"@[0] != "mins"@[0]);
    assert("usec"@[0] != "hour"@[0]);
    assert("usec"@[0] != "days"@[0]);
    assert("usec"@[0] != "week"@[0]);
    assert("usec"@[0] != "year"@[0]);
    assert("us"@[0] != "µs"@[0]);
    assert("us"@[0] != "ms"@[0]);
    assert("us"@[0] != "hr"@[0]);
    assert("us"@[0] != "wk"@[0]);
    assert("us"@[0] != "yr"@[0]);
    assert("µs"@[0] != "ms"@[0]);
    assert("µs"@[0] != "hr"@[0]);
    assert("µs"@[0] != "wk"@[0]);
    assert("µs"@[0] != "yr"@[0]);
    assert("millis"@[0] != "second"@[0]);
    assert("millis"@[2] != "minute"@[2]);
    assert("millis"@[1] != "months"@[1]);
    assert("msec"@[0] != "secs"@[0]);
    assert("msec"@[1] != "mins"@[1]);
    assert("msec"@[0] != "hour"@[0]);
    assert("msec"@[0] != "days"@[0]);
    assert("msec"@[0] != "week"@[0]);
    assert("msec"@[0] != "year"@[0]);
    assert("ms"@[0] != "hr"@[0]);
    assert("ms"@[0] != "wk"@[0]);
    assert("ms"@[0] != "yr"@[0]);
    assert("seconds"@[0] != "minutes"@[0]);
    assert("second"@[0] != "minute"@[0]);
    assert("second"@[0] != "months"@[0]);
    assert("secs"@[0] != "mins"@[0]);
    assert("secs"@[0] != "hour"@[0]);
    assert("secs"@[0] != "days"@[0]);
    assert("secs"@[0] != "week"@[0]);
    assert("secs"@[0] != "year"@[0]);
    assert("sec"@[0] != "min"@[0]);
    assert("sec"@[0] != "hrs"@[0]);
    assert("sec"@[0] != "day"@[0]);
    assert("sec"@[0] != "wks"@[0]);
    assert("sec"@[0] != "yrs"@[0]);
    assert("s"@[0] != "m"@[0]);
    assert("s"@[0] != "h"@[0]);
    assert("s"@[0] != "d"@[0]);
    assert("s"@[0] != "w"@[0]);
    assert("s"@[0] != "M"@[0]);
    assert("s"@[0] != "y"@[0]);
    assert("minute"@[1] != "months"@[1]);
    assert("min"@[0] != "hrs"@[0]);
    assert("min"@[0] != "day"@[0]);
    assert("min"@[0] != "wks"@[0]);
    assert("min"@[0] != "yrs"@[0]);
    assert("mins"@[0] != "hour"@[0]);
    assert("mins"@[0] != "days"@[0]);
    assert("mins"@[0] != "week"@[0]);
    assert("mins"@[0] != "year"@[0]);
    assert("m"@[0] != "h"@[0]);
    assert("m"@[0] != "d"@[0]);
    assert("m"@[0] != "w"@[0]);
    assert("m"@[0] != "M"@[0]);
    assert("m"@[0] != "y"@[0]);
    assert("hours"@[0] != "weeks"@[0]);
    assert("hours"@[0] != "month"@[0]);
    assert("hours"@[0] != "years"@[0]);
    assert("hour"@[0] != "days"@[0]);
    assert("hour"@[0] != "week"@[0]);
    assert("hour"@[0] != "year"@[0]);
    assert("hr"@[0] != "wk"@[0]);
    assert("hr"@[0] != "yr"@[0]);
    assert("hrs"@[0] != "day"@[0]);
    assert("hrs"@[0] != "wks"@[0]);
    assert("hrs"@[0] != "yrs"@[0]);
    assert("h"@[0] != "d"@[0]);
    assert("h"@[0] != "w"@[0]);
    assert("h"@[0] != "M"@[0]);
    assert("h"@[0] != "y"@[0]);
    assert("days"@[0] != "week"@[0]);
    assert("days"@[0] != "year"@[0]);
    assert("day"@[0] != "wks"@[0]);
    assert("day"@[0] != "yrs"@[0]);
    assert("d"@[0] != "w"@[0]);
    assert("d"@[0] != "M"@[0]);
    assert("d"@[0] != "y"@[0]);
    assert("weeks"@[0] != "month"@[0]);
    assert("weeks"@[0] != "years"@[0]);
    assert("week"@[0] != "year"@[0]);
    assert("wk"@[0] != "yr"@[0]);
    assert("wks"@[0] != "yrs"@[0]);
    assert("w"@[0] != "M"@[0]);
    assert("w"@[0] != "y"@[0]);
    assert("month"@[0] != "years"@[0]);
    assert("M"@[0] != "y"@[0]);
    assert("nanos"@.len() == 5);
    assert("nsec"@.len() == 4);
    assert("ns"@.len() == 2);
    assert("usec"@.len() == 4);
    assert("us"@.len() == 2);
    assert("µs"@.len() == 2);
    assert("millis"@.len() == 6);
    assert("msec"@.len() == 4);
    assert("ms"@.len() == 2);
    assert("seconds"@.len() == 7);
    assert("second"@.len() == 6);
    assert("secs"@.len() == 4);
    assert("sec"@.len() == 3);
    assert("s"@.len() == 1);
    assert("minutes"@.len() == 7);
    assert("minute"@.len() == 6);
    assert("min"@.len() == 3);
    assert("mins"@.len() == 4);
    assert("m"@.len() == 1);
    assert("hours"@.len() == 5);
    assert("hour"@.len() == 4);
    assert("hr"@.len() == 2);
    assert("hrs"@.len() == 3);
    assert("h"@.len() == 1);
    assert("days"@.len() == 4);
    assert("day"@.len() == 3);
    assert("d"@.len() == 1);
    assert("weeks"@.len() == 5);
    assert("week"@.len() == 4);
    assert("wk"@.len() == 2);
    assert("wks"@.len() == 3);
    assert("w"@.len() == 1);
    assert("months"@.len() == 6);
    assert("month"@.len() == 5);
    assert("M"@.len() == 1);
    assert("years"@.len() == 5);
    assert("year"@.len() == 4);
    assert("yr"@.len() == 2);
    assert("yrs"@.len() == 3);
    assert("y"@.len() == 1);
    assert(unit_nanos("ns"@) == 1);
    assert(unit_nanos("us"@) == 1_000);
    assert(unit_nanos("ms"@) == 1_000_000);
    assert(unit_nanos("s"@) == 1_000_000_000);
    assert(unit_nanos("m"@) == 60_000_000_000);
    assert(unit_nanos("h"@) == 3_600_000_000_000);
    assert(unit_nanos("d"@) == 86_400_000_000_000);
    assert(unit_nanos("w"@) == 604_800_000_000_000);
    assert(unit_nanos("M"@) == 2_630_016_000_000_000);
    assert(unit_nanos("y"@) == 31_557_600_000_000_000);
}

/// The state of a scan of a humane duration, split into segments: the
/// weight of the segments closed so far; the value of the digits of the
/// open segment, read as one decimal number whatever stands between them,
/// if it has any; the letters that followed those digits; whether something
/// other than a letter followed those letters; and whether letters came
/// again after that.
pub open spec fn duration_scan(s: Seq<char>) -> (int, Option<int>, Seq<char>, bool, bool)
    decreases s.len(),
{
    if s.len() == 0 {
        (0, None, Seq::empty(), false, false)
    } else {
        let p = duration_scan(s.drop_last());
        let c = s.last();
        if is_ascii_digit(c) {
            if p.2.len() > 0 {
                (p.0 + segment_weight(p.1, p.2, p.4), Some(digit_value(c)), Seq::empty(), false, false)
            } else {
                (p.0, Some(match p.1 {
                    Some(v) => v * 10 + digit_value(c),
                    None => digit_value(c),
                }), p.2, p.3, p.4)
            }
        } else if is_unit_char(c) {
            (p.0, p.1, p.2.push(c), p.3, p.4 || p.3)
        } else {
            (p.0, p.1, p.2, p.3 || p.2.len() > 0, p.4)
        }
    }
}

/// The weight of a segment: its value plus one, in nanoseconds of the unit
/// its letters name, or of a year when letters came again after a gap.
pub open spec fn segment_weight(value: Option<int>, unit: Seq<char>, broken: bool) -> int {
    match value {
        Some(v) => (v + 1) * if broken {
            NANOS_PER_YEAR as int
        } else {
            unit_nanos(unit)
        },
        None => 0,
    }
}

/// The weight of all segments of `s`.
pub open spec fn duration_load(s: Seq<char>) -> int {
    let p = duration_scan(s);
    p.0 + segment_weight(p.1, p.2, p.4)
}

/// What the scan has seen for certain: the closed weight and the open
/// value plus one. It never decreases along the string.
pub open spec fn scan_floor(p: (int, Option<int>, Seq<char>, bool, bool)) -> int {
    p.0 + match p.1 {
        Some(v) => v + 1,
        None => 0,
    }
}

/// The nanoseconds in `2^64` seconds.
pub const MAX_DURATION_LOAD: u128 = 18_446_744_073_709_551_616_000_000_000;

/// The spans of `s` weigh at most `2^64` seconds. Each span that humantime
/// reads (a number, its fraction, a unit) is shorter than its integer part
/// plus one units; that integer part is at most the value of its segment;
/// and its unit is the one its letters name, unless letters come again
/// after a gap, which humantime refuses right after that span and which
/// counts as a year here. So on such a string every sum that humantime
/// makes stays below `2^64` seconds, and the second it carries into
/// `Duration::new` never overflows.
pub open spec fn duration_within_bound(s: Seq<char>) -> bool {
    duration_load(s) <= MAX_DURATION_LOAD
}

/// Parses a humane duration with `humantime::parse_duration`. A
/// `std::time::Duration` always holds fewer than a second of nanoseconds.
/// humantime leaves a sum of exactly one second of nanoseconds to
/// `Duration::new`, which panics when it carries that second into
/// `u64::MAX` seconds; `duration_within_bound` keeps every such input out.
#[verifier::external_body]
fn parse_duration(s: &str) -> (r: Result<(u64, u32), humantime::DurationError>)
    requires
        duration_within_bound(s@),
    ensures
        match r {
            Ok(v) => humantime_parse(s@) == Some(v) && v.1 < NANOS_PER_SEC,
            Err(_) => humantime_parse(s@) is None,
        },
{
    match humantime::parse_duration(s) {
        Ok(d) => Ok((d.as_secs(), d.subsec_nanos())),
        Err(e) => Err(e),
    }
}

/// The value of a string of ASCII digits, read in base ten.
pub open spec fn digits_value(d: Seq<char>) -> int
    decreases d.len(),
{
    if d.len() == 0 {
        0
    } else {
        digits_value(d.drop_last()) * 10 + digit_value(d.last())
    }
}

/// Every character of `s` is an ASCII digit.
pub open spec fn all_digits(s: Seq<char>) -> bool {
    forall|i: int| 0 <= i < s.len() ==> is_ascii_digit(#[trigger] s[i])
}

/// Every character of `s` is a unit letter.
pub open spec fn all_unit_chars(s: Seq<char>) -> bool {
    forall|i: int| 0 <= i < s.len() ==> is_unit_char(#[trigger] s[i])
}

/// The scan of a number is one open segment holding its value.
proof fn lemma_scan_digits(d: Seq<char>)
    requires
        d.len() > 0,
        all_digits(d),
    ensures
        duration_scan(d) == (0int, Some(digits_value(d)), Seq::<char>::empty(), false, false),
    decreases d.len(),
{
    let init = d.drop_last();
    assert(is_ascii_digit(d[d.len() - 1]));
    if init.len() > 0 {
        assert(all_digits(init)) by {
            assert forall|i: int| 0 <= i < init.len() implies is_ascii_digit(#[trigger] init[i]) by {
                assert(init[i] == d[i]);
            }
        }
        lemma_scan_digits(init);
    } else {
        assert(init =~= Seq::<char>::empty());
        assert(digits_value(init) == 0);
        assert(duration_scan(init) == (0int, None::<int>, Seq::<char>::empty(), false, false));
    }
}

/// Characters that are neither digits nor unit letters, such as spaces.
pub open spec fn all_separators(s: Seq<char>) -> bool {
    forall|i: int| 0 <= i < s.len() ==> !is_ascii_digit(#[trigger] s[i]) && !is_unit_char(s[i])
}

/// The scan of a number followed by separators `w.take(k)`.
proof fn lemma_scan_gap(d: Seq<char>, w: Seq<char>, k: int)
    requires
        d.len() > 0,
        all_digits(d),
        all_separators(w),
        0 <= k <= w.len(),
    ensures
        duration_scan(d + w.take(k)) == (0int, Some(digits_value(d)), Seq::<char>::empty(), false, false),
    decreases k,
{
    if k == 0 {
        assert(d + w.take(0) =~= d);
        lemma_scan_digits(d);
    } else {
        lemma_scan_gap(d, w, k - 1);
        assert((d + w.take(k)).drop_last() =~= d + w.take(k - 1));
        assert((d + w.take(k)).last() == w[k - 1]);
        assert(!is_ascii_digit(w[k - 1]) && !is_unit_char(w[k - 1]));
    }
}

/// The scan of a number, separators, and the letters `u.take(k)`.
proof fn lemma_scan_span(d: Seq<char>, w: Seq<char>, u: Seq<char>, k: int)
    requires
        d.len() > 0,
        all_digits(d),
        all_separators(w),
        all_unit_chars(u),
        0 <= k <= u.len(),
    ensures
        duration_scan(d + w + u.take(k)) == (0int, Some(digits_value(d)), u.take(k), false, false),
    decreases k,
{
    if k == 0 {
        assert(d + w + u.take(0) =~= d + w.take(w.len() as int));
        assert(u.take(0) =~= Seq::<char>::empty());
        lemma_scan_gap(d, w, w.len() as int);
    } else {
        lemma_scan_span(d, w, u, k - 1);
        assert((d + w + u.take(k)).drop_last() =~= d + w + u.take(k - 1));
        assert((d + w + u.take(k)).last() == u[k - 1]);
        assert(is_unit_char(u[k - 1]));
        assert(u.take(k - 1).push(u[k - 1]) =~= u.take(k));
    }
}

/// A single span, a number, any separators, and the letters of a unit
/// (as in `15 days`), weighs its number plus one in that unit; so it is
/// read whenever that fits in `2^64` seconds, and refused as too large only
/// when it does not.
pub proof fn law_single_span(d: Seq<char>, w: Seq<char>, u: Seq<char>)
    requires
        d.len() > 0,
        all_digits(d),
        all_separators(w),
        u.len() > 0,
        all_unit_chars(u),
    ensures
        duration_load(d + w + u) == (digits_value(d) + 1) * unit_nanos(u),
        duration_within_bound(d + w + u) <==> (digits_value(d) + 1) * unit_nanos(u) <= MAX_DURATION_LOAD,
{
    lemma_scan_span(d, w, u, u.len() as int);
    assert(u.take(u.len() as int) =~= u);
}

/// Any number of days up to a hundred billion, written as a single span
/// (such as `15 days`), is within the bound, so `from_str` never refuses
/// it as too large.
pub proof fn law_days_within_bound(d: Seq<char>, w: Seq<char>, u: Seq<char>)
    requires
        d.len() > 0,
        all_digits(d),
        all_separators(w),
        u == "days"@ || u == "day"@ || u == "d"@,
        digits_value(d) < 100_000_000_000,
    ensures
        duration_within_bound(d + w + u),
{
    law_unit_lengths();
    reveal_strlit("days");
    reveal_strlit("day");
    reveal_strlit("d");
    assert(all_unit_chars(u));
    law_single_span(d, w, u);
    let v = digits_value(d);
    assert((v + 1) * 86_400_000_000_000 <= MAX_DURATION_LOAD) by (nonlinear_arith)
        requires
            v < 100_000_000_000,
    ;
}

/// The scan's floor only grows along the string, stays below the weight of
/// the whole string, and its parts are never negative.
proof fn lemma_scan_floor(s: Seq<char>, i: int, j: int)
    requires
        0 <= i <= j <= s.len(),
    ensures
        scan_floor(duration_scan(s.take(i))) <= scan_floor(duration_scan(s.take(j))),
        duration_scan(s.take(j)).0 >= 0,
        duration_scan(s.take(j)).1 matches Some(v) ==> v >= 0,
        j == s.len() ==> scan_floor(duration_scan(s.take(j))) <= duration_load(s),
    decreases j,
{
    if j > 0 {
        if i < j {
            lemma_scan_floor(s, i, j - 1);
        } else {
            lemma_scan_floor(s, j - 1, j - 1);
        }
        assert(s.take(j).drop_last() =~= s.take(j - 1));
        let p = duration_scan(s.take(j - 1));
        match p.1 {
            Some(v) => {
                let w = if p.4 { NANOS_PER_YEAR as int } else { unit_nanos(p.2) };
                assert((v + 1) * w >= v + 1) by (nonlinear_arith)
                    requires
                        v >= 0,
                        w >= 1,
                ;
            },
            None => {},
        }
    }
    if j == s.len() {
        assert(s.take(j) =~= s);
        let q = duration_scan(s);
        match q.1 {
            Some(v) => {
                let w = if q.4 { NANOS_PER_YEAR as int } else { unit_nanos(q.2) };
                assert((v + 1) * w >= v + 1) by (nonlinear_arith)
                    requires
                        v >= 0,
                        w >= 1,
                ;
            },
            None => {},
        }
    }
}

/// Adds the weight of a segment to `closed`, or `None` when the sum would
/// pass `MAX_DURATION_LOAD`.
fn add_segment(closed: u128, value: u128, w: u128) -> (r: Option<u128>)
    requires
        closed <= MAX_DURATION_LOAD,
        w >= 1,
    ensures
        match r {
            Some(c) => c == closed + (value + 1) * w && c <= MAX_DURATION_LOAD,
            None => closed + (value + 1) * w > MAX_DURATION_LOAD,
        },
{
    let room = (MAX_DURATION_LOAD - closed) / w;
    if value >= room {
        assert(closed + (value + 1) * w > MAX_DURATION_LOAD) by (nonlinear_arith)
            requires
                room == (MAX_DURATION_LOAD - closed) / (w as int),
                value >= room,
                w >= 1,
                closed <= MAX_DURATION_LOAD,
        ;
        None
    } else {
        assert((value + 1) * w <= MAX_DURATION_LOAD - closed) by (nonlinear_arith)
            requires
                room == (MAX_DURATION_LOAD - closed) / (w as int),
                value < room,
                w >= 1,
                closed <= MAX_DURATION_LOAD,
        ;
        Some(closed + (value + 1) * w)
    }
}

/// Decides `duration_within_bound`.
pub fn within_duration_bound(s: &str) -> (r: bool)
    ensures
        r == duration_within_bound(s@),
{
    let cs = chars_of(s);
    let n = cs.len();
    let mut closed: u128 = 0;
    let mut open: Option<u128> = None;
    let mut unit = String::new();
    let mut gap = false;
    let mut broken = false;
    let mut i: usize = 0;
    proof {
        assert(s@.take(0) =~= Seq::<char>::empty());
    }
    while i < n
        invariant
            n == cs@.len(),
            cs@ == s@,
            i <= n,
            duration_scan(s@.take(i as int)) == (closed as int, match open {
                Some(v) => Some(v as int),
                None => None::<int>,
            }, unit@, gap, broken),
            scan_floor(duration_scan(s@.take(i as int))) <= MAX_DURATION_LOAD,
        decreases n - i,
    {
        let c = cs[i];
        proof {
            assert(s@.take(i + 1).drop_last() =~= s@.take(i as int));
            assert(s@.take(i + 1).last() == c);
            lemma_scan_floor(s@, i + 1, n as int);
            assert(s@.take(n as int) =~= s@);
        }
        if '0' <= c && c <= '9' {
            let d = (c as u128) - ('0' as u128);
            if unit.unicode_len() > 0 {
                let w = if broken { NANOS_PER_YEAR } else { unit_nanos_of(unit.as_str()) };
                let next = match open {
                    Some(v) => add_segment(closed, v, w),
                    None => Some(closed),
                };
                match next {
                    Some(c2) => {
                        if c2 + d + 1 > MAX_DURATION_LOAD {
                            return false;
                        }
                        closed = c2;
                    },
                    None => {
                        return false;
                    },
                }
                open = Some(d);
                unit = String::new();
                gap = false;
                broken = false;
            } else {
                let v = match open {
                    Some(v) => v * 10 + d,
                    None => d,
                };
                if closed + v + 1 > MAX_DURATION_LOAD {
                    return false;
                }
                open = Some(v);
            }
        } else if ('a' <= c && c <= 'z') || ('A' <= c && c <= 'Z') || c == 'µ' {
            push_char(&mut unit, c);
            broken = broken || gap;
        } else {
            gap = gap || unit.unicode_len() > 0;
        }
        i = i + 1;
    }
    proof {
        assert(s@.take(n as int) =~= s@);
    }
    match open {
        Some(v) => {
            let w = if broken { NANOS_PER_YEAR } else { unit_nanos_of(unit.as_str()) };
            add_segment(closed, v, w).is_some()
        },
        None => true,
    }
}

/// Displays a duration with `humantime::format_duration`.
#[verifier::external_body]
fn format_duration(secs: u64, nanos: u32) -> (r: String)
    requires
        nanos < NANOS_PER_SEC,
    ensures
        r@ == humantime_format(secs, nanos),
{
    humantime::format_duration(std::time::Duration::new(secs, nanos)).to_string()
}

/// Why a humane duration was not read.
#[derive(Debug)]
pub enum DurationParseError {
    /// humantime refused the string.
    Invalid(humantime::DurationError),
    /// The numbers of the string could sum past what a duration holds.
    TooLarge,
}

/// The two forms a duration is read from: an integer of milliseconds, or a
/// humane string.
pub enum DurationRepr {
    /// A number of milliseconds.
    Millis(u64),
    /// A humane form such as `1m 30s`.
    Humane(String),
}

/// A span of time, as `std::time::Duration`: whole seconds and the
/// nanoseconds of the last, unfinished second.
#[derive(Debug, Clone, Copy, Hash, PartialEq, Eq, Structural, PartialOrd, Ord)]
pub struct Duration {
    secs: u64,
    nanos: u32,
}

impl Default for Duration {
    fn default() -> (r: Duration)
        ensures
            r.spec_secs() == 0,
            r.spec_nanos() == 0,
    {
        Duration { secs: 0, nanos: 0 }
    }
}

impl Duration {
    /// The whole seconds of the duration.
    pub closed spec fn spec_secs(self) -> u64 {
        self.secs
    }

    /// The nanoseconds beyond the whole seconds.
    pub closed spec fn spec_nanos(self) -> u32 {
        self.nanos
    }

    /// The nanoseconds are fewer than a second.
    pub open spec fn wf(self) -> bool {
        self.spec_nanos() < NANOS_PER_SEC
    }

    /// The whole length of the duration in nanoseconds.
    pub open spec fn total_nanos(self) -> int {
        self.spec_secs() * 1_000_000_000 + self.spec_nanos()
    }

    /// The whole milliseconds of the duration.
    pub open spec fn spec_millis(self) -> int {
        self.spec_secs() * 1000 + (self.spec_nanos() / NANOS_PER_MILLI) as int
    }

    /// Creates a new `Duration` from the specified number of whole seconds.
    pub fn from_secs(secs: u64) -> (r: Duration)
        ensures
            r.spec_secs() == secs,
            r.spec_nanos() == 0,
            r.wf(),
    {
        Duration { secs, nanos: 0 }
    }

    /// Creates a new `Duration` from a number of milliseconds, as
    /// deserialization does for integers.
    pub fn from_millis(millis: u64) -> (r: Duration)
        ensures
            r.spec_secs() == millis / 1000,
            r.spec_nanos() == (millis % 1000) * 1_000_000,
            r.wf(),
            r.total_nanos() == millis * 1_000_000,
    {
        let secs = millis / 1000;
        let rest = (millis % 1000) as u32;
        assert(rest * 1_000_000 < 1_000_000_000) by (nonlinear_arith)
            requires
                rest < 1000,
        ;
        let r = Duration { secs, nanos: rest * NANOS_PER_MILLI };
        assert(secs * 1000 + rest == millis) by (nonlinear_arith)
            requires
                secs == millis / 1000,
                rest == millis % 1000,
        ;
        assert(r.total_nanos() == millis * 1_000_000) by (nonlinear_arith)
            requires
                r.total_nanos() == secs * 1_000_000_000 + rest * 1_000_000,
                secs * 1000 + rest == millis,
        ;
        r
    }

    /// Returns the number of whole seconds.
    pub fn as_secs(&self) -> (r: u64)
        ensures
            r == self.spec_secs(),
    {
        self.secs
    }

    /// Returns the fractional part of the duration, in nanoseconds.
    pub fn subsec_nanos(&self) -> (r: u32)
        ensures
            r == self.spec_nanos(),
    {
        self.nanos
    }

    /// Returns the whole milliseconds, as serialization writes them.
    pub fn as_millis(&self) -> (r: u128)
        ensures
            r == self.spec_millis(),
    {
        (self.secs as u128) * 1000 + ((self.nanos / NANOS_PER_MILLI) as u128)
    }

    /// Parses a humane duration (`1s`, `15 days`, ...) with `humantime`;
    /// a string whose numbers could sum past the seconds that a duration
    /// holds is refused as `TooLarge` before it reaches humantime.
    pub fn from_str(s: &str) -> (r: Result<Duration, DurationParseError>)
        ensures
            match r {
                Ok(d) => duration_within_bound(s@)
                    && humantime_parse(s@) == Some((d.spec_secs(), d.spec_nanos())) && d.wf(),
                Err(DurationParseError::Invalid(_)) => duration_within_bound(s@)
                    && humantime_parse(s@) is None,
                Err(DurationParseError::TooLarge) => !duration_within_bound(s@),
            },
    {
        if !within_duration_bound(s) {
            return Err(DurationParseError::TooLarge);
        }
        match parse_duration(s) {
            Ok((secs, nanos)) => Ok(Duration { secs, nanos }),
            Err(e) => Err(DurationParseError::Invalid(e)),
        }
    }

    /// Reads a duration from either of its serialized forms: milliseconds
    /// become `from_millis`, a string is parsed as `from_str` parses it.
    pub fn from_repr(repr: &DurationRepr) -> (r: Result<Duration, DurationParseError>)
        ensures
            match repr {
                DurationRepr::Millis(m) => r matches Ok(d) && d.spec_secs() == *m / 1000
                    && d.spec_nanos() == (*m % 1000) * 1_000_000 && d.wf(),
                DurationRepr::Humane(s) => match r {
                    Ok(d) => duration_within_bound(s@)
                        && humantime_parse(s@) == Some((d.spec_secs(), d.spec_nanos())) && d.wf(),
                    Err(DurationParseError::Invalid(_)) => duration_within_bound(s@)
                        && humantime_parse(s@) is None,
                    Err(DurationParseError::TooLarge) => !duration_within_bound(s@),
                },
            },
    {
        match repr {
            DurationRepr::Millis(m) => Ok(Duration::from_millis(*m)),
            DurationRepr::Humane(s) => Duration::from_str(s.as_str()),
        }
    }

    /// The humane rendering of this duration, as `Display` writes it.
    pub fn to_string(&self) -> (r: String)
        requires
            self.wf(),
        ensures
            r@ == humantime_format(self.spec_secs(), self.spec_nanos()),
    {
        format_duration(self.secs, self.nanos)
    }
}

/// Reading back the milliseconds of a duration made from milliseconds gives
/// the same number: serialization undoes integer deserialization.
pub proof fn law_millis_roundtrip(millis: u64, d: Duration)
    requires
        d.spec_secs() == millis / 1000,
        d.spec_nanos() == (millis % 1000) * 1_000_000,
    ensures
        d.spec_millis() == millis,
{
    let s = millis / 1000;
    let r = millis % 1000;
    assert((r * 1_000_000) / 1_000_000 == r) by (nonlinear_arith);
    assert(s * 1000 + r == millis) by (nonlinear_arith)
        requires
            s == millis / 1000,
            r == millis % 1000,
    ;
}

} // verus!
