//! The record extractor. A raw line is stripped of an optional
//! orchestration-tool prefix, its payload is parsed as a JSON object, and
//! the two recognised record shapes are tried in turn: the severity-style
//! shape (`severity`/`timestamp`/`caller`/`message`), then the level-style
//! shape (`level`/`msg`, optional `ts`), whose fields overwrite the first
//! shape's where the keys coincide. The stripped prefix is re-injected at
//! the front of the message unless suppressed.

use vstd::prelude::*;
use vstd::string::*;
use crate::ansi::spec_paint;
use crate::ansi::paint;
use crate::json::{JsonVal, JsonValModel, fields_view, json_obj_of, lookup, parse_object,
    spec_lookup};
use crate::kail::{spec_split_prefix, split_prefix};
use crate::strutil::{ascii_upper, spec_ascii_upper, spec_trim, trim};
use crate::utils::{conver_ts_float_or_str, convert_pac_provider_to_fa_icon, convert_str_to_ts,
    spec_conver_ts_float_or_str, spec_convert_str_to_ts, spec_provider_icon};

verus! {

/// The normalised fields extracted from one line. An absent field does not
/// apply to that line; a map with every field absent means no recognised
/// shape matched.
pub struct FieldMap {
    pub msg: Option<String>,
    pub level: Option<String>,
    pub ts: Option<String>,
    pub others: Option<String>,
}

/// The mathematical image of a `FieldMap`.
#[verifier::ext_equal]
pub struct SpecFields {
    pub msg: Option<Seq<char>>,
    pub level: Option<Seq<char>>,
    pub ts: Option<Seq<char>>,
    pub others: Option<Seq<char>>,
}

impl View for FieldMap {
    type V = SpecFields;

    open spec fn view(&self) -> SpecFields {
        SpecFields {
            msg: match self.msg {
                Some(s) => Some(s@),
                None => None,
            },
            level: match self.level {
                Some(s) => Some(s@),
                None => None,
            },
            ts: match self.ts {
                Some(s) => Some(s@),
                None => None,
            },
            others: match self.others {
                Some(s) => Some(s@),
                None => None,
            },
        }
    }
}

pub open spec fn spec_empty_fields() -> SpecFields {
    SpecFields { msg: None, level: None, ts: None, others: None }
}

pub open spec fn spec_is_empty(f: SpecFields) -> bool {
    f.msg is None && f.level is None && f.ts is None && f.others is None
}

impl FieldMap {
    /// Whether no recognised shape populated any field.
    pub fn is_empty(&self) -> (r: bool)
        ensures
            r == spec_is_empty(self@),
    {
        self.msg.is_none() && self.level.is_none() && self.ts.is_none() && self.others.is_none()
    }
}

/// The payload handed to the JSON parse: the line after the prefix, or the
/// whole line where no prefix is present.
pub open spec fn spec_payload(raw: Seq<char>) -> Seq<char> {
    match spec_split_prefix(raw) {
        Some(p) => p.1,
        None => raw,
    }
}

/// The severity-style patch: where the object has string fields
/// `severity`, `timestamp`, `caller` and `message`, it sets the trimmed
/// message, the upper-cased severity as level, the normalised timestamp
/// (dropped when malformed), and the provider icon text when a string
/// `provider` field is present.
pub open spec fn spec_apply_shape_a(
    f: SpecFields,
    m: Seq<(Seq<char>, JsonValModel)>,
    fmt: Seq<char>,
) -> SpecFields {
    match (
        spec_lookup(m, "severity"@),
        spec_lookup(m, "timestamp"@),
        spec_lookup(m, "caller"@),
        spec_lookup(m, "message"@),
    ) {
        (
            Some(JsonValModel::Str(sev)),
            Some(JsonValModel::Str(tsv)),
            Some(JsonValModel::Str(_)),
            Some(JsonValModel::Str(mv)),
        ) => SpecFields {
            msg: Some(spec_trim(mv)),
            level: Some(spec_ascii_upper(sev)),
            ts: match spec_convert_str_to_ts(tsv, fmt) {
                Some(t) => Some(t),
                None => f.ts,
            },
            others: match spec_lookup(m, "provider"@) {
                Some(JsonValModel::Str(p)) => Some(spec_provider_icon(p) + " "@),
                _ => f.others,
            },
        },
        _ => f,
    }
}

/// The level-style patch: where the object has string fields `level` and
/// `msg`, it overwrites message and level, and overwrites the timestamp
/// where a `ts` field holds an epoch number or a timestamp string that
/// normalises (dropped when malformed).
pub open spec fn spec_apply_shape_b(
    f: SpecFields,
    m: Seq<(Seq<char>, JsonValModel)>,
    fmt: Seq<char>,
) -> SpecFields {
    match (spec_lookup(m, "level"@), spec_lookup(m, "msg"@)) {
        (Some(JsonValModel::Str(lv)), Some(JsonValModel::Str(mv))) => SpecFields {
            msg: Some(spec_trim(mv)),
            level: Some(spec_ascii_upper(lv)),
            ts: match spec_lookup(m, "ts"@) {
                Some(v) => match spec_conver_ts_float_or_str(v, fmt) {
                    Some(t) => Some(t),
                    None => f.ts,
                },
                None => f.ts,
            },
            others: f.others,
        },
        _ => f,
    }
}

/// The prefix re-injection: where the line carried a prefix, a message was
/// extracted, and suppression is off, the message becomes the colourised
/// prefix text, a space, then the message.
pub open spec fn spec_apply_prefix(
    f: SpecFields,
    raw: Seq<char>,
    kail_no_prefix: bool,
    colored: bool,
) -> SpecFields {
    match spec_split_prefix(raw) {
        Some(p) => match f.msg {
            Some(mg) => if !kail_no_prefix {
                SpecFields {
                    msg: Some(spec_paint("\u{1b}[34m"@, p.0, colored) + " "@ + mg),
                    level: f.level,
                    ts: f.ts,
                    others: f.others,
                }
            } else {
                f
            },
            None => f,
        },
        None => f,
    }
}

/// Everything `getinfo` returns: the severity-style patch, then the
/// level-style patch over it, then the prefix re-injection.
pub open spec fn spec_getinfo(
    raw: Seq<char>,
    kail_no_prefix: bool,
    fmt: Seq<char>,
    colored: bool,
) -> SpecFields {
    let base = match json_obj_of(spec_payload(raw)) {
        Some(m) => spec_apply_shape_b(spec_apply_shape_a(spec_empty_fields(), m, fmt), m, fmt),
        None => spec_empty_fields(),
    };
    spec_apply_prefix(base, raw, kail_no_prefix, colored)
}

/// The string payload of a field value, where the value is a string.
fn as_str_ref<'a>(o: Option<&'a JsonVal>) -> (r: Option<&'a String>)
    ensures
        match r {
            Some(s) => o matches Some(v) && v@ == JsonValModel::Str(s@),
            None => !(o matches Some(v) && v@ is Str),
        },
{
    match o {
        Some(JsonVal::Str(s)) => Some(s),
        _ => None,
    }
}

/// Extracts the normalised fields from one raw line. `kail_no_prefix`
/// suppresses prefix re-injection, `time_format` is the display format for
/// timestamps, and `colored` enables the colourised prefix. The result is
/// always `Some`; a map with no fields set means no shape matched and the
/// caller passes the raw line through.
pub fn getinfo(
    rawline: &str,
    kail_no_prefix: bool,
    time_format: Option<&str>,
    colored: bool,
) -> (r: Option<FieldMap>)
    requires
        time_format is Some,
    ensures
        r matches Some(f) && f@ == spec_getinfo(
            rawline@,
            kail_no_prefix,
            time_format.unwrap()@,
            colored,
        ),
{
    let fmt = time_format.unwrap();
    let mut msg: Option<String> = None;
    let mut level: Option<String> = None;
    let mut ts: Option<String> = None;
    let mut others: Option<String> = None;

    let pre = split_prefix(rawline);
    let sample: String = match &pre {
        Some(p) => p.1.clone(),
        None => String::from_str(rawline),
    };
    proof {
        assert(sample@ == spec_payload(rawline@));
    }

    let parsed = parse_object(sample.as_str());
    match &parsed {
        Some(fields) => {
            let ghost m = fields_view(fields@);
            let sev = as_str_ref(lookup(fields, "severity"));
            let tsv = as_str_ref(lookup(fields, "timestamp"));
            let cal = as_str_ref(lookup(fields, "caller"));
            let mv = as_str_ref(lookup(fields, "message"));
            match (sev, tsv, cal, mv) {
                (Some(sev), Some(tsv), Some(_cal), Some(mv)) => {
                    msg = Some(trim(mv.as_str()));
                    level = Some(ascii_upper(sev.as_str()));
                    match convert_str_to_ts(tsv.as_str(), fmt) {
                        Some(t) => {
                            ts = Some(t);
                        },
                        None => {},
                    }
                    match as_str_ref(lookup(fields, "provider")) {
                        Some(p) => {
                            let icon = convert_pac_provider_to_fa_icon(p.as_str());
                            others = Some(String::from_str(icon).concat(" "));
                        },
                        None => {},
                    }
                },
                _ => {},
            }
            let ghost after_a = spec_apply_shape_a(spec_empty_fields(), m, fmt@);
            proof {
                assert(FieldMap { msg, level, ts, others }@ =~= after_a);
            }

            let lv = as_str_ref(lookup(fields, "level"));
            let bmv = as_str_ref(lookup(fields, "msg"));
            match (lv, bmv) {
                (Some(lv), Some(bmv)) => {
                    msg = Some(trim(bmv.as_str()));
                    level = Some(ascii_upper(lv.as_str()));
                    match lookup(fields, "ts") {
                        Some(v) => {
                            match conver_ts_float_or_str(v, fmt) {
                                Some(t) => {
                                    ts = Some(t);
                                },
                                None => {},
                            }
                        },
                        None => {},
                    }
                },
                _ => {},
            }
            proof {
                assert(FieldMap { msg, level, ts, others }@ =~= spec_apply_shape_b(
                    after_a,
                    m,
                    fmt@,
                ));
            }
        },
        None => {},
    }

    match &pre {
        Some(p) => {
            if !kail_no_prefix {
                match msg {
                    Some(mg) => {
                        let painted = paint("\u{1b}[34m", p.0.as_str(), colored);
                        msg = Some(painted.concat(" ").concat(mg.as_str()));
                    },
                    None => {
                        msg = None;
                    },
                }
            }
        },
        None => {},
    }

    let f = FieldMap { msg, level, ts, others };
    proof {
        assert(f@ =~= spec_getinfo(rawline@, kail_no_prefix, fmt@, colored));
    }
    Some(f)
}

/// A field map from a recognised shape always carries both a message and a
/// level: only the two shape patches set any field, and each sets both.
pub proof fn lemma_nonempty_has_msg_level(
    raw: Seq<char>,
    kail_no_prefix: bool,
    fmt: Seq<char>,
    colored: bool,
)
    ensures
        !spec_is_empty(spec_getinfo(raw, kail_no_prefix, fmt, colored)) ==> spec_getinfo(
            raw,
            kail_no_prefix,
            fmt,
            colored,
        ).msg is Some && spec_getinfo(raw, kail_no_prefix, fmt, colored).level is Some,
{
}

} // verus!
