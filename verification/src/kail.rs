//! The orchestration-tool prefix detector. A line may begin with
//! `namespace/pod[container]: `; the detector recognises that shape —
//! namespace runs to the first `/`, pod to the first `[` after it,
//! container to the first `]` after that, and `: ` must follow — and
//! splits the line into the prefix text (without its trailing `: `) and
//! the payload that remains.

use vstd::prelude::*;
use vstd::string::*;
use crate::strutil::{find_char, find_from};

verus! {

/// `Some((prefix, payload))` where `prefix` is `namespace/pod[container]`
/// and `payload` the rest of the line after `]: `; `None` where the line
/// does not carry the prefix shape.
pub open spec fn spec_split_prefix(s: Seq<char>) -> Option<(Seq<char>, Seq<char>)> {
    let i = find_from(s, 0, '/');
    let j = find_from(s, i + 1, '[');
    let k = find_from(s, j + 1, ']');
    if i < s.len() && j < s.len() && k + 2 < s.len() && s[k + 1] == ':' && s[k + 2] == ' ' {
        Some((s.subrange(0, k + 1), s.subrange(k + 3, s.len() as int)))
    } else {
        None
    }
}

pub fn split_prefix(s: &str) -> (r: Option<(String, String)>)
    ensures
        match r {
            Some(p) => spec_split_prefix(s@) == Some((p.0@, p.1@)),
            None => spec_split_prefix(s@) is None,
        },
{
    let n = s.unicode_len();
    let i = find_char(s, 0, '/');
    if i == n {
        return None;
    }
    let j = find_char(s, i + 1, '[');
    if j == n {
        return None;
    }
    let k = find_char(s, j + 1, ']');
    if n - k < 3 {
        return None;
    }
    if s.get_char(k + 1) != ':' || s.get_char(k + 2) != ' ' {
        return None;
    }
    let prefix = s.substring_char(0, k + 1).to_owned();
    let payload = s.substring_char(k + 3, n).to_owned();
    Some((prefix, payload))
}

} // verus!
