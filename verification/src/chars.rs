use vstd::prelude::*;
use vstd::string::StrSliceExecFns;

verus! {

/// Whether a character has the Unicode `White_Space` property, as
/// `char::is_whitespace` decides it.
pub uninterp spec fn unicode_whitespace(c: char) -> bool;

/// Whether a character counts as alphanumeric under Unicode, as
/// `char::is_alphanumeric` decides it.
pub uninterp spec fn unicode_alphanumeric(c: char) -> bool;

/// Relies on `char::is_whitespace`: true exactly for the characters with
/// the Unicode `White_Space` property; among the ASCII characters these
/// are space, tab, line feed, vertical tab, form feed and carriage return.
#[verifier::external_body]
pub fn is_whitespace_char(c: char) -> (r: bool)
    ensures
        r == unicode_whitespace(c),
        (c as u32) < 128 ==> (r <==> (c == ' ' || c == '\t' || c == '\n' || (c as u32) == 11
            || (c as u32) == 12 || c == '\r')),
{
    c.is_whitespace()
}

/// Relies on `char::is_alphanumeric`: true exactly for characters that are
/// alphabetic or numeric under Unicode; among the ASCII characters these
/// are the letters and the digits.
#[verifier::external_body]
pub fn is_alphanumeric_char(c: char) -> (r: bool)
    ensures
        r == unicode_alphanumeric(c),
        (c as u32) < 128 ==> (r <==> (97 <= c as u32 && c as u32 <= 122) || (65 <= c as u32
            && c as u32 <= 90) || (48 <= c as u32 && c as u32 <= 57)),
{
    c.is_alphanumeric()
}

/// The ASCII lowercasing of a character: uppercase ASCII letters move down
/// by 32 code points, every other character stays as it is.
pub open spec fn ascii_lower(c: char) -> char {
    if 65 <= c as u32 && c as u32 <= 90 {
        ((c as u32 + 32) as u8) as char
    } else {
        c
    }
}

/// The Unicode lowercase mapping of a character, one or more characters
/// long, as `char::to_lowercase` yields it.
pub uninterp spec fn unicode_lower(c: char) -> Seq<char>;

/// Relies on `char::to_lowercase`: yields the Unicode lowercase mapping
/// of the character, one or more characters; a character without a
/// lowercase mapping comes back alone and unchanged. Among the ASCII
/// characters only the uppercase letters have a mapping, each to the
/// lowercase letter 32 code points up.
#[verifier::external_body]
pub fn lower_chars(c: char) -> (r: Vec<char>)
    ensures
        r@ == unicode_lower(c),
        65 <= c as u32 && c as u32 <= 90 ==> r@ == seq![ascii_lower(c)],
        (c as u32) < 128 && !(65 <= c as u32 && c as u32 <= 90) ==> r@ == seq![c],
{
    c.to_lowercase().collect()
}

/// The characters of a string slice, in order, as a vector.
pub fn str_chars(s: &str) -> (v: Vec<char>)
    ensures
        v@ == s@,
{
    let n = s.unicode_len();
    let mut v: Vec<char> = Vec::new();
    let mut i: usize = 0;
    while i < n
        invariant
            i <= n,
            n == s@.len(),
            v@ == s@.take(i as int),
        decreases n - i,
    {
        let c = s.get_char(i);
        v.push(c);
        assert(s@.take(i + 1 as int) =~= s@.take(i as int).push(s@[i as int]));
        i = i + 1;
    }
    assert(s@.take(n as int) =~= s@);
    v
}

/// Append `src[from..to]` at the end of `out`.
pub fn push_range(out: &mut Vec<char>, src: &Vec<char>, from: usize, to: usize)
    requires
        from <= to <= src@.len(),
    ensures
        final(out)@ == old(out)@ + src@.subrange(from as int, to as int),
{
    let mut i: usize = from;
    while i < to
        invariant
            from <= i <= to <= src@.len(),
            out@ == old(out)@ + src@.subrange(from as int, i as int),
        decreases to - i,
    {
        out.push(src[i]);
        assert(src@.subrange(from as int, i + 1 as int) =~= src@.subrange(
            from as int,
            i as int,
        ).push(src@[i as int]));
        i = i + 1;
    }
}

/// Relies on `String::push`: appends one character at the end of the string.
#[verifier::external_body]
pub fn push_char(s: &mut String, c: char)
    ensures
        final(s)@ == old(s)@.push(c),
{
    s.push(c)
}

/// The characters of a vector, in order, as a freshly built string.
pub fn chars_to_string(v: &Vec<char>) -> (s: String)
    ensures
        s@ == v@,
{
    let mut s = String::new();
    let mut i: usize = 0;
    while i < v.len()
        invariant
            i <= v@.len(),
            s@ == v@.take(i as int),
        decreases v@.len() - i,
    {
        push_char(&mut s, v[i]);
        assert(v@.take(i + 1 as int) =~= v@.take(i as int).push(v@[i as int]));
        i = i + 1;
    }
    assert(v@.take(v@.len() as int) =~= v@);
    s
}

} // verus!
