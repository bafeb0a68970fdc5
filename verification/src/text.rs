use vstd::prelude::*;
use vstd::string::*;
use vstd::utf8::{decode_utf8, valid_utf8};

verus! {

broadcast use vstd::string::group_string_axioms;

/// What `str::to_uppercase` returns for a text: its Unicode upper-case mapping.
pub uninterp spec fn unicode_upper(s: Seq<char>) -> Seq<char>;

/// What `String::from_utf8_lossy` returns for some bytes: their UTF-8 decoding
/// with each invalid sequence replaced by U+FFFD.
pub uninterp spec fn utf8_lossy(bytes: Seq<u8>) -> Seq<char>;

pub open spec fn is_ascii_char(c: char) -> bool {
    (c as u32) < 128
}

/// ASCII upper-casing of one character; other characters are left as they are.
pub open spec fn ascii_upper(c: char) -> char {
    if 'a' <= c && c <= 'z' {
        ((c as u32) - 32) as char
    } else {
        c
    }
}

/// ASCII lower-casing of one character; other characters are left as they are.
pub open spec fn ascii_lower(c: char) -> char {
    if 'A' <= c && c <= 'Z' {
        ((c as u32) + 32) as char
    } else {
        c
    }
}

/// The Unicode `White_Space` characters, which `char::is_whitespace` accepts.
pub open spec fn is_unicode_whitespace(c: char) -> bool {
    ||| ('\u{9}' <= c && c <= '\u{d}')
    ||| c == ' '
    ||| c == '\u{85}'
    ||| c == '\u{a0}'
    ||| c == '\u{1680}'
    ||| ('\u{2000}' <= c && c <= '\u{200a}')
    ||| c == '\u{2028}'
    ||| c == '\u{2029}'
    ||| c == '\u{202f}'
    ||| c == '\u{205f}'
    ||| c == '\u{3000}'
}

/// `s` without the characters satisfying `p` at its start.
pub open spec fn trim_start_where(s: Seq<char>, p: spec_fn(char) -> bool) -> Seq<char>
    decreases s.len(),
{
    if s.len() > 0 && p(s[0]) {
        trim_start_where(s.drop_first(), p)
    } else {
        s
    }
}

/// `s` without the characters satisfying `p` at its end.
pub open spec fn trim_end_where(s: Seq<char>, p: spec_fn(char) -> bool) -> Seq<char>
    decreases s.len(),
{
    if s.len() > 0 && p(s.last()) {
        trim_end_where(s.drop_last(), p)
    } else {
        s
    }
}

/// `s` without the characters satisfying `p` at either end.
pub open spec fn trim_where(s: Seq<char>, p: spec_fn(char) -> bool) -> Seq<char> {
    trim_end_where(trim_start_where(s, p), p)
}

/// The characters that trimming removes: NUL alone, or all white space.
pub open spec fn trim_pred(nul_only: bool) -> spec_fn(char) -> bool {
    if nul_only {
        |c: char| c == '\0'
    } else {
        |c: char| is_unicode_whitespace(c)
    }
}

/// `str::trim`: leading and trailing white space removed.
pub open spec fn spec_trim(s: Seq<char>) -> Seq<char> {
    trim_where(s, trim_pred(false))
}

/// `str::trim_matches('\0')`: leading and trailing NUL characters removed.
pub open spec fn spec_trim_nul(s: Seq<char>) -> Seq<char> {
    trim_where(s, trim_pred(true))
}

/// Appends one character to a string.
#[verifier::external_body]
pub(crate) fn push_char(s: &mut String, c: char)
    ensures
        final(s)@ == old(s)@.push(c),
{
    s.push(c);
}

/// Removes and returns the last character of a string, if there is one.
#[verifier::external_body]
pub(crate) fn pop_char(s: &mut String) -> (r: Option<char>)
    ensures
        old(s)@.len() == 0 ==> r is None && final(s)@ == old(s)@,
        old(s)@.len() > 0 ==> r == Some(old(s)@.last()) && final(s)@ == old(s)@.drop_last(),
{
    s.pop()
}

/// Upper-cases a text with `str::to_uppercase`; the result is named `unicode_upper`.
#[verifier::external_body]
pub(crate) fn to_uppercase(s: &str) -> (r: String)
    ensures
        r@ == unicode_upper(s@),
{
    s.to_uppercase()
}

/// Decodes bytes with `String::from_utf8_lossy`; the result is named
/// `utf8_lossy`, and on valid UTF-8 it is the plain decoding, as the
/// documentation of that function says.
#[verifier::external_body]
pub(crate) fn decode_lossy(bytes: &[u8]) -> (r: String)
    ensures
        r@ == utf8_lossy(bytes@),
        valid_utf8(bytes@) ==> r@ == decode_utf8(bytes@),
{
    String::from_utf8_lossy(bytes).into_owned()
}

pub fn char_is_ascii(c: char) -> (r: bool)
    ensures
        r == is_ascii_char(c),
{
    (c as u32) < 128
}

pub fn upper_char(c: char) -> (r: char)
    ensures
        r == ascii_upper(c),
{
    if 'a' <= c && c <= 'z' {
        ((c as u8) - 32) as char
    } else {
        c
    }
}

pub fn is_whitespace_char(c: char) -> (r: bool)
    ensures
        r == is_unicode_whitespace(c),
{
    ('\u{9}' <= c && c <= '\u{d}') || c == ' ' || c == '\u{85}' || c == '\u{a0}' || c == '\u{1680}'
        || ('\u{2000}' <= c && c <= '\u{200a}') || c == '\u{2028}' || c == '\u{2029}' || c
        == '\u{202f}' || c == '\u{205f}' || c == '\u{3000}'
}

/// Whether a string holds exactly the given text.
pub fn string_is(s: &String, lit: &str) -> (r: bool)
    ensures
        r == (s@ == lit@),
{
    *s == String::from_str(lit)
}

/// Whether two texts are equal.
pub fn str_is(s: &str, lit: &str) -> (r: bool)
    ensures
        r == (s@ == lit@),
{
    String::from_str(s) == String::from_str(lit)
}

/// The characters of a text.
pub fn chars_of(s: &str) -> (v: Vec<char>)
    ensures
        v@ == s@,
{
    let mut v: Vec<char> = Vec::new();
    for c in it: s.chars()
        invariant
            it.seq() == s@,
            v@ == s@.take(it.index() as int),
    {
        v.push(c);
        proof {
            assert(s@.take(it.index() + 1) =~= v@);
        }
    }
    proof {
        assert(s@.take(s@.len() as int) =~= s@);
    }
    v
}

/// The string made of `chars[from..to]`.
pub fn string_of_range(chars: &Vec<char>, from: usize, to: usize) -> (r: String)
    requires
        from <= to <= chars@.len(),
    ensures
        r@ == chars@.subrange(from as int, to as int),
{
    let mut r = String::new();
    let mut i = from;
    while i < to
        invariant
            from <= i <= to <= chars@.len(),
            r@ == chars@.subrange(from as int, i as int),
        decreases to - i,
    {
        push_char(&mut r, chars[i]);
        proof {
            assert(chars@.subrange(from as int, i + 1) =~= chars@.subrange(from as int, i as int).push(chars@[i as int]));
        }
        i = i + 1;
    }
    r
}

/// Trimming from the front skips exactly the leading run of matching characters.
proof fn lemma_trim_start_skip(s: Seq<char>, p: spec_fn(char) -> bool, i: int)
    requires
        0 <= i <= s.len(),
        forall|j: int| 0 <= j < i ==> p(#[trigger] s[j]),
    ensures
        trim_start_where(s, p) == trim_start_where(s.subrange(i, s.len() as int), p),
    decreases i,
{
    if i > 0 {
        lemma_trim_start_skip(s.drop_first(), p, i - 1);
        assert(s.drop_first().subrange(i - 1, s.drop_first().len() as int) =~= s.subrange(i, s.len() as int));
    } else {
        assert(s.subrange(0, s.len() as int) =~= s);
    }
}

/// Trimming from the back skips exactly the trailing run of matching characters.
proof fn lemma_trim_end_skip(s: Seq<char>, p: spec_fn(char) -> bool, k: int)
    requires
        0 <= k <= s.len(),
        forall|j: int| k <= j < s.len() ==> p(#[trigger] s[j]),
    ensures
        trim_end_where(s, p) == trim_end_where(s.subrange(0, k), p),
    decreases s.len() - k,
{
    if k < s.len() {
        lemma_trim_end_skip(s.drop_last(), p, k);
        assert(s.drop_last().subrange(0, k) =~= s.subrange(0, k));
    } else {
        assert(s.subrange(0, k) =~= s);
    }
}

fn is_trimmed(c: char, nul_only: bool) -> (r: bool)
    ensures
        r == trim_pred(nul_only)(c),
{
    if nul_only {
        c == '\0'
    } else {
        is_whitespace_char(c)
    }
}

/// The bounds of `chars` with the leading and trailing characters that
/// `trim_pred(nul_only)` accepts left out.
fn trim_range(chars: &Vec<char>, nul_only: bool) -> (r: (usize, usize))
    ensures
        r.0 <= r.1 <= chars@.len(),
        chars@.subrange(r.0 as int, r.1 as int) == trim_where(chars@, trim_pred(nul_only)),
{
    let ghost p = trim_pred(nul_only);
    let n = chars.len();
    let mut start: usize = 0;
    while start < n && is_trimmed(chars[start], nul_only)
        invariant
            start <= n == chars@.len(),
            p == trim_pred(nul_only),
            forall|j: int| 0 <= j < start ==> p(#[trigger] chars@[j]),
        decreases n - start,
    {
        start = start + 1;
    }
    let ghost rest = chars@.subrange(start as int, n as int);
    proof {
        lemma_trim_start_skip(chars@, p, start as int);
        assert(trim_start_where(rest, p) == rest);
    }
    let mut end: usize = n;
    while end > start && is_trimmed(chars[end - 1], nul_only)
        invariant
            start <= end <= n == chars@.len(),
            rest == chars@.subrange(start as int, n as int),
            p == trim_pred(nul_only),
            forall|j: int| end <= j < n ==> p(#[trigger] chars@[j]),
        decreases end,
    {
        end = end - 1;
    }
    proof {
        assert forall|j: int| (end - start) <= j < rest.len() implies p(#[trigger] rest[j]) by {
            assert(rest[j] == chars@[start + j]);
        }
        lemma_trim_end_skip(rest, p, end - start);
        assert(rest.subrange(0, end - start) =~= chars@.subrange(start as int, end as int));
        let kept = chars@.subrange(start as int, end as int);
        if kept.len() > 0 {
            assert(kept.last() == chars@[end - 1]);
        }
    }
    (start, end)
}

/// `str::trim`: the text without leading and trailing white space.
pub fn trim(s: &str) -> (r: String)
    ensures
        r@ == spec_trim(s@),
{
    let chars = chars_of(s);
    let (start, end) = trim_range(&chars, false);
    string_of_range(&chars, start, end)
}

/// `str::trim_matches('\0')`: the text without leading and trailing NUL characters.
pub fn trim_nul(s: &str) -> (r: String)
    ensures
        r@ == spec_trim_nul(s@),
{
    let chars = chars_of(s);
    let (start, end) = trim_range(&chars, true);
    string_of_range(&chars, start, end)
}

/// Trimming the front leaves a suffix that does not start with a trimmed character.
proof fn lemma_trim_start_suffix(s: Seq<char>, p: spec_fn(char) -> bool) -> (i: int)
    ensures
        0 <= i <= s.len(),
        trim_start_where(s, p) == s.subrange(i, s.len() as int),
        trim_start_where(s, p).len() > 0 ==> !p(trim_start_where(s, p)[0]),
    decreases s.len(),
{
    if s.len() > 0 && p(s[0]) {
        let j = lemma_trim_start_suffix(s.drop_first(), p);
        assert(s.drop_first().subrange(j, s.drop_first().len() as int) =~= s.subrange(j + 1, s.len() as int));
        j + 1
    } else {
        assert(s.subrange(0, s.len() as int) =~= s);
        0
    }
}

/// Trimming the back leaves a prefix that does not end with a trimmed character.
proof fn lemma_trim_end_prefix(s: Seq<char>, p: spec_fn(char) -> bool) -> (k: int)
    ensures
        0 <= k <= s.len(),
        trim_end_where(s, p) == s.subrange(0, k),
        trim_end_where(s, p).len() > 0 ==> !p(trim_end_where(s, p).last()),
    decreases s.len(),
{
    if s.len() > 0 && p(s.last()) {
        let j = lemma_trim_end_prefix(s.drop_last(), p);
        assert(s.drop_last().subrange(0, j) =~= s.subrange(0, j));
        j
    } else {
        assert(s.subrange(0, s.len() as int) =~= s);
        s.len() as int
    }
}

/// A trimmed text neither starts nor ends with a character that trimming
/// removes, and trimming it again changes nothing.
pub proof fn law_trim_idempotent(s: Seq<char>, nul_only: bool)
    ensures
        ({
            let t = trim_where(s, trim_pred(nul_only));
            &&& t.len() > 0 ==> !trim_pred(nul_only)(t[0]) && !trim_pred(nul_only)(t.last())
            &&& trim_where(t, trim_pred(nul_only)) == t
        }),
{
    let p = trim_pred(nul_only);
    let u = trim_start_where(s, p);
    lemma_trim_start_suffix(s, p);
    let t = trim_end_where(u, p);
    let k = lemma_trim_end_prefix(u, p);
    if t.len() > 0 {
        assert(t[0] == u[0]);
    }
    assert(trim_start_where(t, p) == t);
    lemma_trim_end_prefix(t, p);
    assert(trim_end_where(t, p) == t);
}

} // verus!
