//! Verified text utilities: display-name validation, whitespace trimming
//! and token extraction for command lines.
//!
//! Whitespace here is ASCII whitespace; the protocol's commands and names
//! are ASCII-oriented, and every boundary this module decides is drawn at
//! these characters.

use vstd::prelude::*;
use vstd::string::*;

verus! {

/// A character that may appear in a display name: ASCII letters, digits,
/// underscore and hyphen.
pub open spec fn is_name_char(c: char) -> bool {
    (97 <= c as u32 && c as u32 <= 122)  // 'a'..='z'
    || (65 <= c as u32 && c as u32 <= 90)  // 'A'..='Z'
    || (48 <= c as u32 && c as u32 <= 57)  // '0'..='9'
    || c == '_'
    || c == '-'
}

/// A valid display name: non-empty and made of name characters only.
pub open spec fn valid_name(s: Seq<char>) -> bool {
    s.len() > 0 && forall|i: int| 0 <= i < s.len() ==> is_name_char(s[i])
}

/// Decides `valid_name` for a candidate display name.
pub fn check_name(s: &str) -> (ok: bool)
    ensures
        ok == valid_name(s@),
{
    let len = s.unicode_len();
    if len == 0 {
        return false;
    }
    let mut i: usize = 0;
    while i < len
        invariant
            i <= len,
            len == s@.len(),
            forall|j: int| 0 <= j < i ==> is_name_char(s@[j]),
        decreases len - i,
    {
        let c = s.get_char(i);
        let u = c as u32;
        let is_letter = (97 <= u && u <= 122) || (65 <= u && u <= 90);
        let is_digit = 48 <= u && u <= 57;
        if !(is_letter || is_digit || c == '_' || c == '-') {
            return false;
        }
        i += 1;
    }
    true
}

/// ASCII whitespace.
pub open spec fn is_space(c: char) -> bool {
    c == ' ' || c == '\t' || c == '\n' || c == '\r' || c == '\u{b}' || c == '\u{c}'
}

/// Decides `is_space`.
pub fn check_space(c: char) -> (r: bool)
    ensures
        r == is_space(c),
{
    c == ' ' || c == '\t' || c == '\n' || c == '\r' || c == '\u{b}' || c == '\u{c}'
}

/// The sequence with every trailing whitespace character removed.
pub open spec fn trim_end_spec(s: Seq<char>) -> Seq<char>
    decreases s.len(),
{
    if s.len() > 0 && is_space(s.last()) {
        trim_end_spec(s.drop_last())
    } else {
        s
    }
}

/// The sequence with every leading whitespace character removed.
pub open spec fn trim_start_spec(s: Seq<char>) -> Seq<char>
    decreases s.len(),
{
    if s.len() > 0 && is_space(s[0]) {
        trim_start_spec(s.subrange(1, s.len() as int))
    } else {
        s
    }
}

/// The sequence with whitespace removed at both ends.
pub open spec fn trim_spec(s: Seq<char>) -> Seq<char> {
    trim_start_spec(trim_end_spec(s))
}

proof fn lemma_trim_end_at(s: Seq<char>, e: int)
    requires
        0 <= e <= s.len(),
        forall|j: int| e <= j < s.len() ==> is_space(s[j]),
        e == 0 || !is_space(s[e - 1]),
    ensures
        trim_end_spec(s) == s.subrange(0, e),
    decreases s.len() - e,
{
    if e == s.len() {
        if s.len() > 0 && is_space(s.last()) {
            assert(!is_space(s[e - 1]));
            assert(false);
        }
        assert(s.subrange(0, e) =~= s);
    } else {
        assert(is_space(s.last()));
        assert(s.drop_last() =~= s.subrange(0, s.len() - 1));
        lemma_trim_end_at(s.drop_last(), e);
        assert(s.drop_last().subrange(0, e) =~= s.subrange(0, e));
    }
}

proof fn lemma_trim_start_at(s: Seq<char>, a: int)
    requires
        0 <= a <= s.len(),
        forall|j: int| 0 <= j < a ==> is_space(s[j]),
        a == s.len() || !is_space(s[a]),
    ensures
        trim_start_spec(s) == s.subrange(a, s.len() as int),
    decreases a,
{
    if a == 0 {
        if s.len() > 0 && is_space(s[0]) {
            assert(false);
        }
        assert(s.subrange(0, s.len() as int) =~= s);
    } else {
        assert(is_space(s[0]));
        let t = s.subrange(1, s.len() as int);
        lemma_trim_start_at(t, a - 1);
        assert(t.subrange(a - 1, t.len() as int) =~= s.subrange(a, s.len() as int));
    }
}

/// Removes trailing whitespace, as `trim_end_spec` describes.
pub fn trim_end_str<'a>(s: &'a str) -> (r: &'a str)
    ensures
        r@ == trim_end_spec(s@),
{
    let len = s.unicode_len();
    let mut e: usize = len;
    while e > 0 && check_space(s.get_char(e - 1))
        invariant
            e <= len,
            len == s@.len(),
            forall|j: int| e <= j < s@.len() ==> is_space(s@[j]),
        decreases e,
    {
        e = e - 1;
    }
    proof {
        lemma_trim_end_at(s@, e as int);
    }
    s.substring_char(0, e)
}

/// Removes whitespace at both ends, as `trim_spec` describes.
pub fn trim_str<'a>(s: &'a str) -> (r: &'a str)
    ensures
        r@ == trim_spec(s@),
{
    let t = trim_end_str(s);
    let tlen = t.unicode_len();
    let mut a: usize = 0;
    while a < tlen && check_space(t.get_char(a))
        invariant
            a <= tlen,
            tlen == t@.len(),
            forall|j: int| 0 <= j < a ==> is_space(t@[j]),
        decreases tlen - a,
    {
        a = a + 1;
    }
    proof {
        lemma_trim_start_at(t@, a as int);
    }
    t.substring_char(a, tlen)
}

/// The first index at or after `i` that does not hold whitespace.
pub open spec fn skip_spaces(s: Seq<char>, i: int) -> int
    decreases s.len() - i,
{
    if i < s.len() && is_space(s[i]) {
        skip_spaces(s, i + 1)
    } else {
        i
    }
}

/// The first index at or after `i` that holds whitespace, or the end.
pub open spec fn skip_token(s: Seq<char>, i: int) -> int
    decreases s.len() - i,
{
    if i < s.len() && !is_space(s[i]) {
        skip_token(s, i + 1)
    } else {
        i
    }
}

/// The first whitespace-separated token of `s`, empty if there is none.
pub open spec fn first_token(s: Seq<char>) -> Seq<char> {
    let a = skip_spaces(s, 0);
    s.subrange(a, skip_token(s, a))
}

/// The second whitespace-separated token of `s`, empty if there is none.
pub open spec fn second_token(s: Seq<char>) -> Seq<char> {
    let a = skip_token(s, skip_spaces(s, 0));
    let b = skip_spaces(s, a);
    s.subrange(b, skip_token(s, b))
}

fn advance_spaces(s: &str, len: usize, from: usize) -> (r: usize)
    requires
        len == s@.len(),
        from <= len,
    ensures
        r == skip_spaces(s@, from as int),
        from <= r <= len,
{
    let mut i: usize = from;
    while i < len && check_space(s.get_char(i))
        invariant
            from <= i <= len,
            len == s@.len(),
            skip_spaces(s@, from as int) == skip_spaces(s@, i as int),
        decreases len - i,
    {
        i = i + 1;
    }
    i
}

fn advance_token(s: &str, len: usize, from: usize) -> (r: usize)
    requires
        len == s@.len(),
        from <= len,
    ensures
        r == skip_token(s@, from as int),
        from <= r <= len,
{
    let mut i: usize = from;
    while i < len && !check_space(s.get_char(i))
        invariant
            from <= i <= len,
            len == s@.len(),
            skip_token(s@, from as int) == skip_token(s@, i as int),
        decreases len - i,
    {
        i = i + 1;
    }
    i
}

/// Extracts the first two whitespace-separated tokens of `s`; a missing
/// token comes back empty.
pub fn split_two(s: &str) -> (r: (String, String))
    ensures
        r.0@ == first_token(s@),
        r.1@ == second_token(s@),
{
    let len = s.unicode_len();
    let a0 = advance_spaces(s, len, 0);
    let a1 = advance_token(s, len, a0);
    let b0 = advance_spaces(s, len, a1);
    let b1 = advance_token(s, len, b0);
    let t1 = s.substring_char(a0, a1);
    let t2 = s.substring_char(b0, b1);
    (String::from_str(t1), String::from_str(t2))
}

/// True of a line that opens with the command prefix `/`.
pub open spec fn starts_command(s: Seq<char>) -> bool {
    s.len() > 0 && s[0] == '/'
}

/// Decides `starts_command`.
pub fn check_command_prefix(s: &str) -> (r: bool)
    ensures
        r == starts_command(s@),
{
    s.unicode_len() > 0 && s.get_char(0) == '/'
}

} // verus!
