//! The highlighter/renderer and the per-line driver step. Rendering takes
//! an extracted field map and the configuration, applies the level filter,
//! colourises the level, timestamp and provider columns, highlights the
//! configured patterns inside the message, and assembles the output line.

use vstd::prelude::*;
use vstd::string::*;
use crate::ansi::{paint, spec_paint, spec_reset};
use crate::parse::{FieldMap, getinfo, spec_getinfo, spec_is_empty, SpecFields};
use crate::strutil::{ascii_lower, spec_ascii_lower, spec_trim, str_eq, trim};
use crate::utils::{color_by_level, spec_color_by_level};

verus! {

/// The immutable run configuration: highlight patterns in configured
/// order, the levels to keep (empty keeps all), the timestamp display
/// format, prefix suppression, colour enablement, and the level-symbol
/// option.
pub struct Config {
    pub regexp: Vec<String>,
    pub filter_levels: Vec<String>,
    pub time_format: String,
    pub kail_no_prefix: bool,
    pub colored_output: bool,
    pub level_symbols: bool,
}

/// The mathematical image of a `Config`.
pub struct SpecConfig {
    pub regexp: Seq<Seq<char>>,
    pub filter_levels: Seq<Seq<char>>,
    pub time_format: Seq<char>,
    pub kail_no_prefix: bool,
    pub colored_output: bool,
    pub level_symbols: bool,
}

impl View for Config {
    type V = SpecConfig;

    open spec fn view(&self) -> SpecConfig {
        SpecConfig {
            regexp: self.regexp.deep_view(),
            filter_levels: self.filter_levels.deep_view(),
            time_format: self.time_format@,
            kail_no_prefix: self.kail_no_prefix,
            colored_output: self.colored_output,
            level_symbols: self.level_symbols,
        }
    }
}

/// Whether a pattern compiles as a regular expression: a function of the
/// pattern text alone.
pub uninterp spec fn regex_ok(p: Seq<char>) -> bool;

/// Relies on `regex::Regex::new`: whether a pattern compiles is a function
/// of the pattern text alone.
#[verifier::external_body]
fn regex_valid(p: &str) -> (r: bool)
    ensures
        r == regex_ok(p@),
{
    regex::Regex::new(p).is_ok()
}

/// What replacing every match of the pattern in `text` by the expansion of
/// `rep` yields: a function of the three texts alone.
pub uninterp spec fn regex_replaced(p: Seq<char>, text: Seq<char>, rep: Seq<char>) -> Seq<char>;

/// Relies on `regex::Regex::new` and `regex::Regex::replace_all`: every
/// non-overlapping match of the pattern in `text`, left to right, is
/// replaced by the expansion of `rep`, and the result is a function of the
/// three texts alone.
#[verifier::external_body]
fn regex_replace_all(p: &str, text: &str, rep: &str) -> (r: Option<String>)
    ensures
        r is Some <==> regex_ok(p@),
        r matches Some(t) ==> t@ == regex_replaced(p@, text@, rep@),
{
    regex::Regex::new(p).ok().map(|re| re.replace_all(text, rep).into_owned())
}

/// A configured pattern wrapped in the named capture group the replacement
/// text refers to.
pub open spec fn spec_wrap_pattern(p: Seq<char>) -> Seq<char> {
    "(?P<r>"@ + p + ")"@
}

fn wrap_pattern(p: &str) -> (r: String)
    ensures
        r@ == spec_wrap_pattern(p@),
{
    String::from_str("(?P<r>").concat(p).concat(")")
}

/// Validates the configured highlight patterns before any line is
/// processed: `Err` holds the index of the first pattern that does not
/// compile in its wrapped form.
pub fn validate_regexps(regexps: &Vec<String>) -> (r: Result<(), usize>)
    ensures
        r matches Ok(_) <==> (forall|i: int|
            0 <= i < regexps.deep_view().len() ==> regex_ok(
                #[trigger] spec_wrap_pattern(regexps.deep_view()[i]),
            )),
        r matches Err(i) ==> i < regexps.deep_view().len() && !regex_ok(
            spec_wrap_pattern(regexps.deep_view()[i as int]),
        ),
{
    let n = regexps.len();
    let mut i: usize = 0;
    while i < n
        invariant
            i <= n,
            n == regexps.deep_view().len(),
            forall|j: int|
                0 <= j < i ==> regex_ok(#[trigger] spec_wrap_pattern(regexps.deep_view()[j])),
        decreases n - i,
    {
        let w = wrap_pattern(regexps[i].as_str());
        if !regex_valid(w.as_str()) {
            proof {
                assert(regexps.deep_view()[i as int] == regexps@[i as int]@);
                assert(!regex_ok(spec_wrap_pattern(regexps.deep_view()[i as int])));
            }
            return Err(i);
        }
        i += 1;
    }
    Ok(())
}

/// The last position at or before `i` holding `p`, or `-1`.
pub open spec fn last_index_of(rs: Seq<Seq<char>>, p: Seq<char>, i: int) -> int
    decreases i + 1,
{
    if i < 0 || i >= rs.len() {
        -1
    } else if rs[i] == p {
        i
    } else {
        last_index_of(rs, p, i - 1)
    }
}

/// The palette slot of pattern `i`: the last position holding the same
/// pattern text, cycled through the five palette colours.
pub open spec fn spec_color_index(rs: Seq<Seq<char>>, i: int) -> int {
    last_index_of(rs, rs[i], rs.len() - 1) % 5
}

/// The five-colour highlight palette, by slot.
pub open spec fn spec_palette_prefix(k: int) -> Seq<char> {
    if k == 0 {
        "\u{1b}[33m"@
    } else if k == 1 {
        "\u{1b}[35m"@
    } else if k == 2 {
        "\u{1b}[36m"@
    } else if k == 3 {
        "\u{1b}[31m"@
    } else {
        "\u{1b}[34m"@
    }
}

fn palette_prefix(k: usize) -> (r: &'static str)
    ensures
        r@ == spec_palette_prefix(k as int),
{
    if k == 0 {
        "\u{1b}[33m"
    } else if k == 1 {
        "\u{1b}[35m"
    } else if k == 2 {
        "\u{1b}[36m"
    } else if k == 3 {
        "\u{1b}[31m"
    } else {
        "\u{1b}[34m"
    }
}

proof fn lemma_last_index_of(rs: Seq<Seq<char>>, p: Seq<char>, i: int, k: int)
    requires
        -1 <= k <= i < rs.len(),
        forall|j: int| k < j <= i ==> rs[j] != p,
        k >= 0 ==> rs[k] == p,
    ensures
        last_index_of(rs, p, i) == k,
    decreases i - k,
{
    if k < i {
        lemma_last_index_of(rs, p, i - 1, k);
    }
}

fn color_index(rs: &Vec<String>, i: usize) -> (r: usize)
    requires
        i < rs.deep_view().len(),
    ensures
        r as int == spec_color_index(rs.deep_view(), i as int),
        r < 5,
{
    let n = rs.len();
    let mut j: usize = n - 1;
    while !str_eq(rs[j].as_str(), rs[i].as_str())
        invariant
            i <= j < n,
            n == rs.deep_view().len(),
            forall|t: int| j < t < n ==> rs.deep_view()[t] != rs.deep_view()[i as int],
        decreases j,
    {
        j -= 1;
    }
    proof {
        lemma_last_index_of(rs.deep_view(), rs.deep_view()[i as int], n - 1, j as int);
    }
    j % 5
}

/// One highlighting step: pattern `i`, wrapped in its capture group,
/// recolours its matches; a pattern that does not compile changes nothing.
pub open spec fn spec_hl_step(msg: Seq<char>, rs: Seq<Seq<char>>, i: int) -> Seq<char> {
    let w = spec_wrap_pattern(rs[i]);
    if regex_ok(w) {
        regex_replaced(
            w,
            msg,
            spec_palette_prefix(spec_color_index(rs, i)) + "$r"@ + spec_reset(),
        )
    } else {
        msg
    }
}

pub open spec fn spec_highlight_from(msg: Seq<char>, rs: Seq<Seq<char>>, i: int) -> Seq<char>
    decreases rs.len() - i,
{
    if i < 0 || i >= rs.len() {
        msg
    } else {
        spec_highlight_from(spec_hl_step(msg, rs, i), rs, i + 1)
    }
}

/// Message highlighting: each configured pattern in configured order, each
/// operating on the previous step's output — later patterns see earlier
/// patterns' inserted colour text as plain input, a documented,
/// order-sensitive behaviour. With colour off the message is unchanged
/// (each replacement would be the match itself).
pub open spec fn spec_highlight(msg: Seq<char>, rs: Seq<Seq<char>>, colored: bool) -> Seq<char> {
    if colored {
        spec_highlight_from(msg, rs, 0)
    } else {
        msg
    }
}

pub fn highlight_message(msg: &str, regexps: &Vec<String>, colored: bool) -> (r: String)
    ensures
        r@ == spec_highlight(msg@, regexps.deep_view(), colored),
{
    if !colored {
        return String::from_str(msg);
    }
    let ghost rs = regexps.deep_view();
    let mut themsg = String::from_str(msg);
    let n = regexps.len();
    let mut i: usize = 0;
    while i < n
        invariant
            i <= n,
            n == rs.len(),
            rs == regexps.deep_view(),
            spec_highlight_from(msg@, rs, 0) == spec_highlight_from(themsg@, rs, i as int),
        decreases n - i,
    {
        let w = wrap_pattern(regexps[i].as_str());
        let ci = color_index(regexps, i);
        let rep = String::from_str(palette_prefix(ci)).concat("$r").concat("\u{1b}[0m");
        let ghost before = themsg@;
        match regex_replace_all(w.as_str(), themsg.as_str(), rep.as_str()) {
            Some(t) => {
                themsg = t;
            },
            None => {},
        }
        proof {
            assert(themsg@ == spec_hl_step(before, rs, i as int));
        }
        i += 1;
    }
    themsg
}

/// Whether the level filter suppresses a line with this field map.
pub open spec fn spec_level_filtered(f: SpecFields, c: SpecConfig) -> bool {
    c.filter_levels.len() > 0 && !c.filter_levels.contains(spec_ascii_lower(f.level.unwrap()))
}

fn contains_str(v: &Vec<String>, s: &str) -> (r: bool)
    ensures
        r == v.deep_view().contains(s@),
{
    let n = v.len();
    let mut i: usize = 0;
    while i < n
        invariant
            i <= n,
            n == v.deep_view().len(),
            forall|j: int| 0 <= j < i ==> v.deep_view()[j] != s@,
        decreases n - i,
    {
        if str_eq(v[i].as_str(), s) {
            proof {
                assert(v.deep_view()[i as int] == s@);
            }
            return true;
        }
        i += 1;
    }
    false
}

/// The rendered line for a field map: `None` where the level filter
/// suppresses it, else the padded coloured level column, a space, the
/// coloured timestamp (empty where absent), a space, the provider text
/// with its own leading space (empty where absent), then the highlighted
/// message.
pub open spec fn spec_render(f: SpecFields, c: SpecConfig) -> Option<Seq<char>> {
    if spec_level_filtered(f, c) {
        None
    } else {
        let level_part = spec_color_by_level(f.level.unwrap(), c.colored_output);
        let ts_part = match f.ts {
            Some(t) => spec_paint("\u{1b}[38;5;13m"@, t, c.colored_output),
            None => Seq::empty(),
        };
        let others_part = match f.others {
            Some(o) => " "@ + spec_paint("\u{1b}[3;36m"@, o, c.colored_output),
            None => Seq::empty(),
        };
        let msg_part = spec_highlight(f.msg.unwrap(), c.regexp, c.colored_output);
        Some(level_part + " "@ + ts_part + " "@ + others_part + msg_part)
    }
}

/// Renders one extracted field map. Callers hand it a non-empty map, which
/// always carries a message and a level.
pub fn render_fields(fields: &FieldMap, config: &Config) -> (r: Option<String>)
    requires
        fields@.msg is Some,
        fields@.level is Some,
    ensures
        r is Some <==> !spec_level_filtered(fields@, config@),
        r matches Some(t) ==> spec_render(fields@, config@) == Some(t@),
{
    let level = match fields.level.as_ref() {
        Some(l) => l,
        None => {
            return None;
        },
    };
    let msg = match fields.msg.as_ref() {
        Some(m) => m,
        None => {
            return None;
        },
    };
    if config.filter_levels.len() > 0 {
        let lowered = ascii_lower(level.as_str());
        if !contains_str(&config.filter_levels, lowered.as_str()) {
            return None;
        }
    }
    let level_part = color_by_level(level.as_str(), config.colored_output);
    let ts_part = match fields.ts.as_ref() {
        Some(t) => paint("\u{1b}[38;5;13m", t.as_str(), config.colored_output),
        None => String::new(),
    };
    let others_part = match fields.others.as_ref() {
        Some(o) => String::from_str(" ").concat(
            paint("\u{1b}[3;36m", o.as_str(), config.colored_output).as_str(),
        ),
        None => String::new(),
    };
    let msg_part = highlight_message(msg.as_str(), &config.regexp, config.colored_output);
    let out = level_part.concat(" ").concat(ts_part.as_str()).concat(" ").concat(
        others_part.as_str(),
    ).concat(msg_part.as_str());
    Some(out)
}

/// One step of the stream driver: `None` for a blank or filtered-out line,
/// the raw line itself where no shape matched, else the rendered line.
pub open spec fn spec_process_line(line: Seq<char>, c: SpecConfig) -> Option<Seq<char>> {
    if spec_trim(line).len() == 0 {
        None
    } else {
        let f = spec_getinfo(line, c.kail_no_prefix, c.time_format, c.colored_output);
        if spec_is_empty(f) {
            Some(line)
        } else {
            spec_render(f, c)
        }
    }
}

/// Processes one input line: skips blank lines, passes unrecognised lines
/// through unchanged, filters by level, and renders recognised records.
pub fn process_line(line: &str, config: &Config) -> (r: Option<String>)
    ensures
        r is Some <==> spec_process_line(line@, config@) is Some,
        r matches Some(t) ==> spec_process_line(line@, config@) == Some(t@),
{
    let t = trim(line);
    if t.as_str().is_empty() {
        return None;
    }
    let fields = match getinfo(
        line,
        config.kail_no_prefix,
        Some(config.time_format.as_str()),
        config.colored_output,
    ) {
        Some(f) => f,
        None => {
            return None;
        },
    };
    if fields.is_empty() {
        return Some(String::from_str(line));
    }
    proof {
        crate::parse::lemma_nonempty_has_msg_level(
            line@,
            config@.kail_no_prefix,
            config@.time_format,
            config@.colored_output,
        );
    }
    render_fields(&fields, config)
}

} // verus!
