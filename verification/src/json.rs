//! The JSON side of record recognition. A line's payload is parsed as one
//! JSON object whose field values are reduced to the scalar forms the record
//! shapes read; everything else is opaque. The parse itself is serde_json's
//! work behind one trusted wrapper; every field lookup is verified.

use vstd::prelude::*;
use crate::strutil::str_eq;

verus! {

/// What the extractor reads out of one JSON value: the scalar forms the
/// record shapes use; every other value (arrays, objects, non-integer
/// numbers) is `Other`.
pub enum JsonVal {
    Null,
    Bool(bool),
    Int(i64),
    Str(String),
    Other,
}

/// The mathematical image of a `JsonVal`.
pub enum JsonValModel {
    Null,
    Bool(bool),
    Int(i64),
    Str(Seq<char>),
    Other,
}

impl View for JsonVal {
    type V = JsonValModel;

    open spec fn view(&self) -> JsonValModel {
        match self {
            JsonVal::Null => JsonValModel::Null,
            JsonVal::Bool(b) => JsonValModel::Bool(*b),
            JsonVal::Int(i) => JsonValModel::Int(*i),
            JsonVal::Str(s) => JsonValModel::Str(s@),
            JsonVal::Other => JsonValModel::Other,
        }
    }
}

pub open spec fn fields_view(v: Seq<(String, JsonVal)>) -> Seq<(Seq<char>, JsonValModel)> {
    v.map_values(|p: (String, JsonVal)| (p.0@, p.1@))
}

/// What parsing the text as one whole JSON object yields: `None` where the
/// text is not a single JSON object, else the key/value fields in the
/// deterministic order serde_json's map hands them out.
pub uninterp spec fn json_obj_of(s: Seq<char>) -> Option<Seq<(Seq<char>, JsonValModel)>>;

/// Relies on `serde_json::from_str::<serde_json::Map<String, serde_json::Value>>`:
/// it succeeds exactly on text that is one whole JSON object, the result is a
/// function of the text alone (the map is ordered, not hashed), and each field
/// value crosses one for one — numbers with an `i64` value as `Int`, strings
/// as `Str`, every other value by its kind.
#[verifier::external_body]
pub(crate) fn parse_object(s: &str) -> (r: Option<Vec<(String, JsonVal)>>)
    ensures
        r is Some <==> json_obj_of(s@) is Some,
        r matches Some(v) ==> json_obj_of(s@) == Some(fields_view(v@)),
{
    let parsed: Result<serde_json::Map<String, serde_json::Value>, _> = serde_json::from_str(s);
    parsed.ok().map(|m| m.into_iter().map(|(k, v)| (k, match v {
        serde_json::Value::Null => JsonVal::Null,
        serde_json::Value::Bool(b) => JsonVal::Bool(b),
        serde_json::Value::Number(n) => n.as_i64().map_or(JsonVal::Other, JsonVal::Int),
        serde_json::Value::String(t) => JsonVal::Str(t),
        _ => JsonVal::Other,
    })).collect())
}

/// The value of the first field named `k`, if any.
pub open spec fn spec_lookup(m: Seq<(Seq<char>, JsonValModel)>, k: Seq<char>) -> Option<
    JsonValModel,
>
    decreases m.len(),
{
    if m.len() == 0 {
        None
    } else if m[0].0 == k {
        Some(m[0].1)
    } else {
        spec_lookup(m.drop_first(), k)
    }
}

proof fn lemma_lookup_skip(m: Seq<(Seq<char>, JsonValModel)>, k: Seq<char>, i: int)
    requires
        0 <= i <= m.len(),
        forall|j: int| 0 <= j < i ==> m[j].0 != k,
    ensures
        spec_lookup(m, k) == spec_lookup(m.skip(i), k),
    decreases i,
{
    if i > 0 {
        lemma_lookup_skip(m, k, i - 1);
        assert(m.skip(i - 1).len() > 0);
        assert(m.skip(i - 1)[0] == m[i - 1]);
        assert(m.skip(i - 1).drop_first() =~= m.skip(i));
    } else {
        assert(m.skip(0) =~= m);
    }
}

pub fn lookup<'a>(m: &'a Vec<(String, JsonVal)>, k: &str) -> (r: Option<&'a JsonVal>)
    ensures
        match r {
            Some(v) => spec_lookup(fields_view(m@), k@) == Some(v@),
            None => spec_lookup(fields_view(m@), k@) is None,
        },
{
    let n = m.len();
    let mut i: usize = 0;
    while i < n
        invariant
            i <= n,
            n == m@.len(),
            forall|j: int| 0 <= j < i ==> #[trigger] fields_view(m@)[j].0 != k@,
        decreases n - i,
    {
        let kv = &m[i];
        if str_eq(kv.0.as_str(), k) {
            proof {
                lemma_lookup_skip(fields_view(m@), k@, i as int);
                assert(fields_view(m@).skip(i as int)[0] == fields_view(m@)[i as int]);
            }
            return Some(&kv.1);
        }
        i += 1;
    }
    proof {
        lemma_lookup_skip(fields_view(m@), k@, n as int);
        assert(fields_view(m@).skip(n as int).len() == 0);
    }
    None
}

} // verus!
