//! Field-level helpers: the level symbol table, the level colour/label
//! table, the provider icon table, and the timestamp normaliser. The first
//! three are fully verified tables; the normaliser parses and formats
//! through chrono behind two trusted wrappers. A malformed timestamp is
//! never fatal: the normaliser returns `None` and the caller drops just
//! that field and goes on with the line.

use std::fmt::Write;
use vstd::prelude::*;
use vstd::string::*;
use crate::ansi::{paint, spec_paint};
use crate::json::{JsonVal, JsonValModel};
use crate::strutil::{pad_right, spec_pad_right, str_eq};

verus! {

pub open spec fn spec_level_symbols(level: Seq<char>) -> Seq<char> {
    if level == "DEBUG"@ {
        "\u{1f41b}"@
    } else if level == "WARNING"@ {
        "\u{26a0}\u{fe0f}"@
    } else if level == "ERROR"@ {
        "\u{1f6a8}"@
    } else if level == "INFO"@ {
        "\u{1f4a1}"@
    } else if level == "FATAL"@ {
        "\u{1f480}"@
    } else {
        "\u{2219}"@
    }
}

/// Replaces the level names DEBUG, WARNING, ERROR, INFO and FATAL by pretty
/// symbols; any other level gets a plain dot.
pub fn level_symbols(level: &str) -> (r: String)
    ensures
        r@ == spec_level_symbols(level@),
{
    if str_eq(level, "DEBUG") {
        String::from_str("\u{1f41b}")
    } else if str_eq(level, "WARNING") {
        String::from_str("\u{26a0}\u{fe0f}")
    } else if str_eq(level, "ERROR") {
        String::from_str("\u{1f6a8}")
    } else if str_eq(level, "INFO") {
        String::from_str("\u{1f4a1}")
    } else if str_eq(level, "FATAL") {
        String::from_str("\u{1f480}")
    } else {
        String::from_str("\u{2219}")
    }
}

/// The level column: a fixed colour and label for each known level, padded
/// so the columns align. An unknown level keeps its own text in the
/// default (info) colour.
pub open spec fn spec_color_by_level(level: Seq<char>, colored: bool) -> Seq<char> {
    if level == "DEBUG"@ {
        spec_pad_right(spec_paint("\u{1b}[38;5;14m"@, "DEBUG"@, colored), 19)
    } else if level == "WARNING"@ {
        spec_pad_right(spec_paint("\u{1b}[38;5;11m"@, "WARN"@, colored), 19)
    } else if level == "ERROR"@ {
        spec_pad_right(spec_paint("\u{1b}[38;5;9m"@, "ERROR"@, colored), 18)
    } else if level == "INFO"@ {
        spec_pad_right(spec_paint("\u{1b}[38;5;10m"@, "INFO"@, colored), 19)
    } else {
        spec_pad_right(spec_paint("\u{1b}[38;5;10m"@, level, colored), 19)
    }
}

pub fn color_by_level(level: &str, colored: bool) -> (r: String)
    ensures
        r@ == spec_color_by_level(level@, colored),
{
    if str_eq(level, "DEBUG") {
        pad_right(paint("\u{1b}[38;5;14m", "DEBUG", colored).as_str(), 19)
    } else if str_eq(level, "WARNING") {
        pad_right(paint("\u{1b}[38;5;11m", "WARN", colored).as_str(), 19)
    } else if str_eq(level, "ERROR") {
        pad_right(paint("\u{1b}[38;5;9m", "ERROR", colored).as_str(), 18)
    } else if str_eq(level, "INFO") {
        pad_right(paint("\u{1b}[38;5;10m", "INFO", colored).as_str(), 19)
    } else {
        pad_right(paint("\u{1b}[38;5;10m", level, colored).as_str(), 19)
    }
}

/// The provider icon table: the providers this tool knows get their glyph;
/// any other provider value passes through unchanged.
pub open spec fn spec_provider_icon(p: Seq<char>) -> Seq<char> {
    if p == "github"@ {
        "\u{f09b} "@
    } else if p == "gitlab"@ {
        "\u{f296} "@
    } else if p == "bitbucket-cloud"@ {
        "\u{f171} "@
    } else if p == "bitbucket-server"@ {
        "\u{f171} Server"@
    } else {
        p
    }
}

pub fn convert_pac_provider_to_fa_icon<'a>(provider: &'a str) -> (r: &'a str)
    ensures
        r@ == spec_provider_icon(provider@),
{
    if str_eq(provider, "github") {
        "\u{f09b} "
    } else if str_eq(provider, "gitlab") {
        "\u{f296} "
    } else if str_eq(provider, "bitbucket-cloud") {
        "\u{f171} "
    } else if str_eq(provider, "bitbucket-server") {
        "\u{f171} Server"
    } else {
        provider
    }
}

/// What parsing a timestamp text in the fixed ISO-8601 layout
/// `%Y-%m-%dT%H:%M:%S.%fZ` yields: epoch seconds and subsecond
/// nanoseconds, or `None` for text not in that layout.
pub uninterp spec fn iso_epoch_of(s: Seq<char>) -> Option<(i64, u32)>;

/// Relies on `chrono::NaiveDateTime::parse_from_str` with the fixed layout
/// `%Y-%m-%dT%H:%M:%S.%fZ`, read out through `and_utc` as epoch seconds and
/// subsecond nanoseconds: success and result are a function of the text
/// alone.
#[verifier::external_body]
fn parse_iso_datetime(s: &str) -> (r: Option<(i64, u32)>)
    ensures
        r == iso_epoch_of(s@),
{
    chrono::NaiveDateTime::parse_from_str(s, "%Y-%m-%dT%H:%M:%S.%fZ")
        .ok()
        .map(|dt| (dt.and_utc().timestamp(), dt.and_utc().timestamp_subsec_nanos()))
}

/// What formatting the given UTC instant under the strftime-style format
/// `fmt` yields; `None` where the instant is out of chrono's range or the
/// format string is invalid.
pub uninterp spec fn strftime_of(secs: i64, nanos: u32, fmt: Seq<char>) -> Option<Seq<char>>;

/// Relies on `chrono::DateTime::from_timestamp` (`None` outside the
/// representable range) and on chrono's strftime-style formatting of the
/// naive UTC date-time (a formatting error for an invalid format string):
/// success and text are a function of the three arguments alone.
#[verifier::external_body]
fn format_epoch(secs: i64, nanos: u32, fmt: &str) -> (r: Option<String>)
    ensures
        r is Some <==> strftime_of(secs, nanos, fmt@) is Some,
        r matches Some(t) ==> strftime_of(secs, nanos, fmt@) == Some(t@),
{
    let dt = match chrono::DateTime::from_timestamp(secs, nanos) {
        Some(d) => d.naive_utc(),
        None => return None,
    };
    let mut out = String::new();
    match write!(&mut out, "{}", dt.format(fmt)) {
        Ok(()) => Some(out),
        Err(_) => None,
    }
}

/// The display text for an ISO-8601 timestamp under `fmt`, when both the
/// parse and the formatting succeed.
pub open spec fn spec_convert_str_to_ts(s: Seq<char>, fmt: Seq<char>) -> Option<Seq<char>> {
    match iso_epoch_of(s) {
        Some(en) => strftime_of(en.0, en.1, fmt),
        None => None,
    }
}

/// Formats an ISO-8601 timestamp text for display. A malformed timestamp
/// yields `None` — the caller drops the field and goes on with the line,
/// rather than aborting the stream.
pub fn convert_str_to_ts(s: &str, time_format: &str) -> (r: Option<String>)
    ensures
        r is Some <==> spec_convert_str_to_ts(s@, time_format@) is Some,
        r matches Some(t) ==> spec_convert_str_to_ts(s@, time_format@) == Some(t@),
{
    match parse_iso_datetime(s) {
        Some(en) => format_epoch(en.0, en.1, time_format),
        None => None,
    }
}

pub open spec fn spec_convert_unix_ts(value: i64, fmt: Seq<char>) -> Option<Seq<char>> {
    strftime_of(value, 0, fmt)
}

/// Formats a Unix epoch (whole seconds) for display.
pub fn convert_unix_ts(value: i64, time_format: &str) -> (r: Option<String>)
    ensures
        r is Some <==> spec_convert_unix_ts(value, time_format@) is Some,
        r matches Some(t) ==> spec_convert_unix_ts(value, time_format@) == Some(t@),
{
    format_epoch(value, 0, time_format)
}

/// The display text for a timestamp field value of either recognised kind:
/// a string is read as ISO-8601 text, an integer as a Unix epoch; any other
/// value has no display text.
pub open spec fn spec_conver_ts_float_or_str(v: JsonValModel, fmt: Seq<char>) -> Option<
    Seq<char>,
> {
    match v {
        JsonValModel::Str(s) => spec_convert_str_to_ts(s, fmt),
        JsonValModel::Int(i) => spec_convert_unix_ts(i, fmt),
        _ => None,
    }
}

pub fn conver_ts_float_or_str(value: &JsonVal, time_format: &str) -> (r: Option<String>)
    ensures
        r is Some <==> spec_conver_ts_float_or_str(value@, time_format@) is Some,
        r matches Some(t) ==> spec_conver_ts_float_or_str(value@, time_format@) == Some(t@),
{
    match value {
        JsonVal::Str(s) => convert_str_to_ts(s.as_str(), time_format),
        JsonVal::Int(i) => convert_unix_ts(*i, time_format),
        _ => None,
    }
}

/// The time normaliser is a pure function of its inputs: the same timestamp
/// text under the same format string always yields the same display text.
pub proof fn lemma_time_normalizer_deterministic(
    s1: Seq<char>,
    f1: Seq<char>,
    s2: Seq<char>,
    f2: Seq<char>,
)
    requires
        s1 == s2,
        f1 == f2,
    ensures
        spec_convert_str_to_ts(s1, f1) == spec_convert_str_to_ts(s2, f2),
{
}

} // verus!
