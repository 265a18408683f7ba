//! Verified character and string helpers: whitespace trimming, ASCII case
//! mapping, character search, and right padding, each with an exact
//! mathematical specification over `Seq<char>`.

use vstd::prelude::*;
use vstd::string::*;

verus! {

/// The Unicode `White_Space` characters, as `char::is_whitespace` lists them.
pub open spec fn is_space_char(c: char) -> bool {
    c == ' ' || c == '\t' || c == '\n' || c == '\u{b}' || c == '\u{c}' || c == '\r'
        || c == '\u{85}' || c == '\u{a0}' || c == '\u{1680}'
        || ('\u{2000}' <= c && c <= '\u{200a}')
        || c == '\u{2028}' || c == '\u{2029}' || c == '\u{202f}' || c == '\u{205f}'
        || c == '\u{3000}'
}

pub fn is_space(c: char) -> (r: bool)
    ensures
        r == is_space_char(c),
{
    c == ' ' || c == '\t' || c == '\n' || c == '\u{b}' || c == '\u{c}' || c == '\r'
        || c == '\u{85}' || c == '\u{a0}' || c == '\u{1680}'
        || ('\u{2000}' <= c && c <= '\u{200a}')
        || c == '\u{2028}' || c == '\u{2029}' || c == '\u{202f}' || c == '\u{205f}'
        || c == '\u{3000}'
}

/// Index of the first non-space character at or after `i`, or `s.len()`.
pub open spec fn first_non_space(s: Seq<char>, i: int) -> int
    decreases s.len() - i,
{
    if i < 0 || i >= s.len() {
        s.len() as int
    } else if !is_space_char(s[i]) {
        i
    } else {
        first_non_space(s, i + 1)
    }
}

/// Index of the last non-space character at or before `i`, or `-1`.
pub open spec fn last_non_space(s: Seq<char>, i: int) -> int
    decreases i + 1,
{
    if i < 0 || i >= s.len() {
        -1
    } else if !is_space_char(s[i]) {
        i
    } else {
        last_non_space(s, i - 1)
    }
}

/// What `str::trim` returns: the input without leading and trailing spaces.
pub open spec fn spec_trim(s: Seq<char>) -> Seq<char> {
    let a = first_non_space(s, 0);
    let b = last_non_space(s, s.len() - 1);
    if a >= s.len() {
        Seq::empty()
    } else {
        s.subrange(a, b + 1)
    }
}

proof fn lemma_first_non_space(s: Seq<char>, i: int, k: int)
    requires
        0 <= i <= k <= s.len(),
        forall|j: int| i <= j < k ==> is_space_char(s[j]),
        k < s.len() ==> !is_space_char(s[k]),
    ensures
        first_non_space(s, i) == if k < s.len() { k } else { s.len() as int },
    decreases k - i,
{
    if i < k {
        lemma_first_non_space(s, i + 1, k);
    }
}

proof fn lemma_last_non_space(s: Seq<char>, i: int, k: int)
    requires
        -1 <= k <= i < s.len(),
        forall|j: int| k < j <= i ==> is_space_char(s[j]),
        k >= 0 ==> !is_space_char(s[k]),
    ensures
        last_non_space(s, i) == k,
    decreases i - k,
{
    if k < i {
        lemma_last_non_space(s, i - 1, k);
    }
}

/// Removes leading and trailing whitespace, exactly as `spec_trim` states.
pub fn trim(s: &str) -> (r: String)
    ensures
        r@ == spec_trim(s@),
{
    let n = s.unicode_len();
    let mut a: usize = 0;
    while a < n && is_space(s.get_char(a))
        invariant
            a <= n,
            n == s@.len(),
            forall|j: int| 0 <= j < a ==> is_space_char(s@[j]),
        decreases n - a,
    {
        a += 1;
    }
    if a == n {
        proof {
            lemma_first_non_space(s@, 0, n as int);
        }
        return String::new();
    }
    proof {
        lemma_first_non_space(s@, 0, a as int);
    }
    let mut b: usize = n - 1;
    while is_space(s.get_char(b))
        invariant
            a <= b < n,
            n == s@.len(),
            !is_space_char(s@[a as int]),
            forall|j: int| b < j < n ==> is_space_char(s@[j]),
        decreases b,
    {
        b -= 1;
    }
    proof {
        lemma_last_non_space(s@, n - 1, b as int);
    }
    s.substring_char(a, b + 1).to_owned()
}

/// Maps an ASCII lower-case letter to its upper-case form; leaves every
/// other character unchanged.
pub open spec fn upper_char(c: char) -> char {
    if 'a' <= c && c <= 'z' {
        ((c as u32) - 32) as char
    } else {
        c
    }
}

/// Maps an ASCII upper-case letter to its lower-case form; leaves every
/// other character unchanged.
pub open spec fn lower_char(c: char) -> char {
    if 'A' <= c && c <= 'Z' {
        ((c as u32) + 32) as char
    } else {
        c
    }
}

pub open spec fn spec_ascii_upper(s: Seq<char>) -> Seq<char> {
    s.map_values(|c: char| upper_char(c))
}

pub open spec fn spec_ascii_lower(s: Seq<char>) -> Seq<char> {
    s.map_values(|c: char| lower_char(c))
}

/// Relies on std's `char::from_u32`: `Some` of the character with code point
/// `v` for every valid Unicode scalar value, `None` for surrogates and for
/// values above the code-point range.
pub assume_specification[ char::from_u32 ](v: u32) -> (r: Option<char>)
    ensures
        (0xD800 <= v < 0xE000) || v > 0x10FFFF ==> r is None,
        !((0xD800 <= v < 0xE000) || v > 0x10FFFF) ==> r == Some(v as char),
;

/// Relies on std's `String::push`: appends exactly the one character `c`.
#[verifier::external_body]
pub(crate) fn push_char(s: &mut String, c: char)
    ensures
        final(s)@ == old(s)@.push(c),
{
    s.push(c)
}

fn upper_char_exec(c: char) -> (r: char)
    ensures
        r == upper_char(c),
{
    if 'a' <= c && c <= 'z' {
        proof {
            assert(97 <= c as u32 <= 122);
        }
        char::from_u32((c as u32) - 32).unwrap()
    } else {
        c
    }
}

fn lower_char_exec(c: char) -> (r: char)
    ensures
        r == lower_char(c),
{
    if 'A' <= c && c <= 'Z' {
        proof {
            assert(65 <= c as u32 <= 90);
        }
        char::from_u32((c as u32) + 32).unwrap()
    } else {
        c
    }
}

pub fn ascii_upper(s: &str) -> (r: String)
    ensures
        r@ == spec_ascii_upper(s@),
{
    let n = s.unicode_len();
    let mut out = String::new();
    let mut i: usize = 0;
    while i < n
        invariant
            i <= n,
            n == s@.len(),
            out@ == spec_ascii_upper(s@.subrange(0, i as int)),
        decreases n - i,
    {
        let c = s.get_char(i);
        let u = upper_char_exec(c);
        push_char(&mut out, u);
        i += 1;
        proof {
            assert(out@ =~= spec_ascii_upper(s@.subrange(0, i as int)));
        }
    }
    proof {
        assert(s@.subrange(0, n as int) =~= s@);
    }
    out
}

pub fn ascii_lower(s: &str) -> (r: String)
    ensures
        r@ == spec_ascii_lower(s@),
{
    let n = s.unicode_len();
    let mut out = String::new();
    let mut i: usize = 0;
    while i < n
        invariant
            i <= n,
            n == s@.len(),
            out@ == spec_ascii_lower(s@.subrange(0, i as int)),
        decreases n - i,
    {
        let c = s.get_char(i);
        let u = lower_char_exec(c);
        push_char(&mut out, u);
        i += 1;
        proof {
            assert(out@ =~= spec_ascii_lower(s@.subrange(0, i as int)));
        }
    }
    proof {
        assert(s@.subrange(0, n as int) =~= s@);
    }
    out
}

pub open spec fn spec_spaces(n: int) -> Seq<char> {
    Seq::new(n as nat, |i: int| ' ')
}

/// The input followed by as many spaces as bring its length up to `w`;
/// an input already at least `w` long is returned unchanged.
pub open spec fn spec_pad_right(s: Seq<char>, w: int) -> Seq<char> {
    if s.len() >= w {
        s
    } else {
        s + spec_spaces(w - s.len())
    }
}

pub fn pad_right(s: &str, w: usize) -> (r: String)
    ensures
        r@ == spec_pad_right(s@, w as int),
{
    let n = s.unicode_len();
    let mut out = String::from_str(s);
    let mut i: usize = n;
    proof {
        assert(out@ =~= s@ + spec_spaces(0));
    }
    while i < w
        invariant
            n == s@.len(),
            i >= n,
            i <= w || i == n,
            out@ == s@ + spec_spaces(i - n),
        decreases w - i,
    {
        push_char(&mut out, ' ');
        i += 1;
        proof {
            assert(out@ =~= s@ + spec_spaces(i - n));
        }
    }
    proof {
        if n >= w {
            assert(out@ =~= s@);
        }
    }
    out
}

/// Whether the two slices hold the same characters.
pub fn str_eq(a: &str, b: &str) -> (r: bool)
    ensures
        r == (a@ == b@),
{
    let sa = String::from_str(a);
    let sb = String::from_str(b);
    sa == sb
}

/// Index of the first occurrence of `c` at or after `i`, or `s.len()`.
pub open spec fn find_from(s: Seq<char>, i: int, c: char) -> int
    decreases s.len() - i,
{
    if i < 0 || i >= s.len() {
        s.len() as int
    } else if s[i] == c {
        i
    } else {
        find_from(s, i + 1, c)
    }
}

proof fn lemma_find_from(s: Seq<char>, i: int, k: int, c: char)
    requires
        0 <= i <= k <= s.len(),
        forall|j: int| i <= j < k ==> s[j] != c,
        k < s.len() ==> s[k] == c,
    ensures
        find_from(s, i, c) == if k < s.len() { k } else { s.len() as int },
    decreases k - i,
{
    if i < k {
        lemma_find_from(s, i + 1, k, c);
    }
}

pub fn find_char(s: &str, from: usize, c: char) -> (r: usize)
    requires
        from <= s@.len(),
    ensures
        r as int == find_from(s@, from as int, c),
        from <= r <= s@.len(),
        r < s@.len() ==> s@[r as int] == c,
        forall|j: int| from <= j < r ==> s@[j] != c,
{
    let n = s.unicode_len();
    let mut i: usize = from;
    while i < n
        invariant
            from <= i <= n,
            n == s@.len(),
            forall|j: int| from <= j < i ==> s@[j] != c,
        decreases n - i,
    {
        if s.get_char(i) == c {
            proof {
                lemma_find_from(s@, from as int, i as int, c);
            }
            return i;
        }
        i += 1;
    }
    proof {
        lemma_find_from(s@, from as int, n as int, c);
    }
    n
}

} // verus!
