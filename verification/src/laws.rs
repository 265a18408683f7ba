//! The library's general laws, stated over the same spec functions its
//! public contracts use and proved once and for all.

use vstd::prelude::*;
use crate::json::json_obj_of;
use crate::parse::{spec_getinfo, spec_is_empty, spec_payload, SpecFields};
use crate::render::{spec_level_filtered, spec_process_line, spec_render, SpecConfig};
use crate::strutil::{spec_ascii_lower, spec_ascii_upper, spec_pad_right, spec_spaces, spec_trim};
use crate::ansi::spec_paint;
use crate::utils::spec_color_by_level;

verus! {

/// A non-empty line whose payload is not one whole JSON object matches no
/// record shape: extraction yields the empty field map and the driver
/// emits the line unchanged.
pub proof fn lemma_unstructured_passthrough(line: Seq<char>, c: SpecConfig)
    requires
        spec_trim(line).len() > 0,
        json_obj_of(spec_payload(line)) is None,
    ensures
        spec_is_empty(spec_getinfo(line, c.kail_no_prefix, c.time_format, c.colored_output)),
        spec_process_line(line, c) == Some(line),
{
}

proof fn lemma_upper_info()
    ensures
        spec_ascii_upper("INFO"@) == "INFO"@,
{
    reveal_strlit("INFO");
    assert(spec_ascii_upper("INFO"@) =~= "INFO"@);
}

/// A record whose level field came from the severity value `INFO` renders
/// its level column as the coloured (or, with colour off, plain) token
/// `INFO` padded to the fixed column width.
pub proof fn lemma_info_level_column(f: SpecFields, c: SpecConfig, out: Seq<char>)
    requires
        f.level == Some(spec_ascii_upper("INFO"@)),
        spec_render(f, c) == Some(out),
    ensures
        out.len() >= 19,
        out.subrange(0, 19) == spec_pad_right(
            spec_paint("\u{1b}[38;5;10m"@, "INFO"@, c.colored_output),
            19,
        ),
{
    lemma_upper_info();
    reveal_strlit("INFO");
    reveal_strlit("DEBUG");
    reveal_strlit("WARNING");
    reveal_strlit("ERROR");
    reveal_strlit("\u{1b}[38;5;10m");
    reveal_strlit("\u{1b}[0m");
    let token = spec_color_by_level("INFO"@, c.colored_output);
    assert("INFO"@ != "DEBUG"@ && "INFO"@ != "WARNING"@ && "INFO"@ != "ERROR"@) by {
        assert("INFO"@.len() == 4);
    }
    assert(token.len() == 19);
    assert(out.subrange(0, 19) =~= token);
}

/// No ANSI escape character occurs in the text.
pub open spec fn esc_free(s: Seq<char>) -> bool {
    !s.contains('\u{1b}')
}

proof fn lemma_concat_esc_free(a: Seq<char>, b: Seq<char>)
    requires
        esc_free(a),
        esc_free(b),
    ensures
        esc_free(a + b),
{
    if (a + b).contains('\u{1b}') {
        let i = choose|i: int| 0 <= i < (a + b).len() && (a + b)[i] == '\u{1b}';
        if i < a.len() {
            assert(a[i] == '\u{1b}');
        } else {
            assert(b[i - a.len()] == '\u{1b}');
        }
    }
}

proof fn lemma_spaces_esc_free(n: int)
    ensures
        esc_free(spec_spaces(n)),
{
    if spec_spaces(n).contains('\u{1b}') {
        let i = choose|i: int|
            0 <= i < spec_spaces(n).len() && spec_spaces(n)[i] == '\u{1b}';
        assert(spec_spaces(n)[i] == ' ');
    }
}

proof fn lemma_pad_esc_free(s: Seq<char>, w: int)
    requires
        esc_free(s),
    ensures
        esc_free(spec_pad_right(s, w)),
{
    lemma_spaces_esc_free(w - s.len());
    if s.len() < w {
        lemma_concat_esc_free(s, spec_spaces(w - s.len()));
    }
}

proof fn lemma_strlit_esc_free(s: Seq<char>)
    requires
        forall|i: int| 0 <= i < s.len() ==> s[i] != '\u{1b}',
    ensures
        esc_free(s),
{
}

proof fn lemma_level_token_esc_free(lv: Seq<char>)
    requires
        esc_free(lv),
    ensures
        esc_free(spec_color_by_level(lv, false)),
{
    reveal_strlit("DEBUG");
    reveal_strlit("WARN");
    reveal_strlit("ERROR");
    reveal_strlit("INFO");
    lemma_strlit_esc_free("DEBUG"@);
    lemma_strlit_esc_free("WARN"@);
    lemma_strlit_esc_free("ERROR"@);
    lemma_strlit_esc_free("INFO"@);
    lemma_pad_esc_free("DEBUG"@, 19);
    lemma_pad_esc_free("WARN"@, 19);
    lemma_pad_esc_free("ERROR"@, 18);
    lemma_pad_esc_free("INFO"@, 19);
    lemma_pad_esc_free(lv, 19);
}

/// With colour output disabled the renderer introduces no ANSI escape
/// sequence: a field map whose texts are escape-free renders to an
/// escape-free line.
pub proof fn lemma_no_color_no_escape(f: SpecFields, c: SpecConfig, out: Seq<char>)
    requires
        !c.colored_output,
        spec_render(f, c) == Some(out),
        esc_free(f.level.unwrap()),
        esc_free(f.msg.unwrap()),
        f.ts matches Some(t) ==> esc_free(t),
        f.others matches Some(o) ==> esc_free(o),
    ensures
        esc_free(out),
{
    reveal_strlit(" ");
    lemma_strlit_esc_free(" "@);
    lemma_level_token_esc_free(f.level.unwrap());
    let token = spec_color_by_level(f.level.unwrap(), false);
    let ts_part = match f.ts {
        Some(t) => t,
        None => Seq::<char>::empty(),
    };
    let others_part = match f.others {
        Some(o) => " "@ + o,
        None => Seq::<char>::empty(),
    };
    match f.others {
        Some(o) => lemma_concat_esc_free(" "@, o),
        None => (),
    }
    lemma_concat_esc_free(token, " "@);
    lemma_concat_esc_free(token + " "@, ts_part);
    lemma_concat_esc_free(token + " "@ + ts_part, " "@);
    lemma_concat_esc_free(token + " "@ + ts_part + " "@, others_part);
    lemma_concat_esc_free(token + " "@ + ts_part + " "@ + others_part, f.msg.unwrap());
}

/// Prefix round trip: on a line that carries the orchestration-tool
/// prefix, suppression changes the message alone — with suppression off
/// the message is the (colourised) prefix text, a space, then exactly the
/// message that suppression on yields; every other field is the same
/// either way.
pub proof fn lemma_prefix_round_trip(raw: Seq<char>, fmt: Seq<char>, colored: bool)
    requires
        crate::kail::spec_split_prefix(raw) is Some,
    ensures
        ({
            let p = crate::kail::spec_split_prefix(raw).unwrap();
            let kept = spec_getinfo(raw, false, fmt, colored);
            let stripped = spec_getinfo(raw, true, fmt, colored);
            &&& kept.msg is Some <==> stripped.msg is Some
            &&& kept.msg is Some ==> kept.msg.unwrap() == spec_paint("\u{1b}[34m"@, p.0, colored)
                + " "@ + stripped.msg.unwrap()
            &&& kept.level == stripped.level
            &&& kept.ts == stripped.ts
            &&& kept.others == stripped.others
        }),
{
}

/// A line renders exactly when the level filter allows it: with a
/// non-empty filter set, the lower-cased level must be among the
/// configured levels; with an empty filter set every record renders.
pub proof fn lemma_level_filtering(f: SpecFields, c: SpecConfig)
    ensures
        spec_render(f, c) is Some <==> !(c.filter_levels.len() > 0 && !c.filter_levels.contains(
            spec_ascii_lower(f.level.unwrap()),
        )),
        spec_level_filtered(f, c) ==> spec_render(f, c) is None,
{
}

} // verus!
