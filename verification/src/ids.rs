use vstd::prelude::*;

use crate::chars::{
    chars_to_string, is_alphanumeric_char, is_whitespace_char, lower_chars, push_range,
    str_chars, unicode_alphanumeric, unicode_lower, unicode_whitespace,
};

verus! {

/// What normalization keeps of one character: alphanumeric characters,
/// `_` and `-` stay, case-folded to their Unicode lowercase mapping,
/// whitespace becomes `-`, anything else is dropped.
pub open spec fn normalize_char(c: char) -> Seq<char> {
    if unicode_alphanumeric(c) || c == '_' || c == '-' {
        unicode_lower(c)
    } else if unicode_whitespace(c) {
        seq!['-']
    } else {
        Seq::empty()
    }
}

/// A whole sequence normalized character by character, survivors kept in
/// their original order.
pub open spec fn normalize_seq(s: Seq<char>) -> Seq<char>
    decreases s.len(),
{
    if s.len() == 0 {
        Seq::empty()
    } else {
        normalize_seq(s.drop_last()) + normalize_char(s.last())
    }
}

fn normalize_chars(s: &Vec<char>) -> (out: Vec<char>)
    ensures
        out@ == normalize_seq(s@),
{
    let mut out: Vec<char> = Vec::new();
    let mut i: usize = 0;
    while i < s.len()
        invariant
            i <= s@.len(),
            out@ == normalize_seq(s@.take(i as int)),
        decreases s@.len() - i,
    {
        let c = s[i];
        assert(s@.take(i + 1 as int).drop_last() =~= s@.take(i as int));
        assert(s@.take(i + 1 as int).last() == s@[i as int]);
        if is_alphanumeric_char(c) || c == '_' || c == '-' {
            let low = lower_chars(c);
            push_range(&mut out, &low, 0, low.len());
            assert(low@.subrange(0, low@.len() as int) =~= low@);
        } else if is_whitespace_char(c) {
            out.push('-');
        }
        i = i + 1;
    }
    assert(s@.take(s@.len() as int) =~= s@);
    out
}

/// Convert a string to a valid HTML element id: alphanumeric characters,
/// `_` and `-` are kept and lowercased where lowercasing is meaningful,
/// whitespace becomes `-`, and every other character is dropped.
pub fn normalize_id(content: &str) -> (r: String)
    ensures
        r@ == normalize_seq(content@),
{
    let chars = str_chars(content);
    let normalized = normalize_chars(&chars);
    chars_to_string(&normalized)
}

/// A sequence with every occurrence of a non-empty pattern removed,
/// scanning left to right over non-overlapping matches.
pub open spec fn remove_all(s: Seq<char>, p: Seq<char>) -> Seq<char>
    decreases s.len(),
{
    if p.len() == 0 || s.len() < p.len() {
        s
    } else if s.take(p.len() as int) == p {
        remove_all(s.skip(p.len() as int), p)
    } else {
        seq![s[0]] + remove_all(s.skip(1), p)
    }
}

fn match_at(s: &Vec<char>, p: &Vec<char>, i: usize) -> (r: bool)
    requires
        i + p@.len() <= s@.len(),
    ensures
        r == (s@.subrange(i as int, i as int + p@.len() as int) == p@),
{
    let ghost sub = s@.subrange(i as int, i as int + p@.len() as int);
    let n = s.len();
    let m = p.len();
    let mut j: usize = 0;
    while j < m
        invariant
            j <= m,
            m == p@.len(),
            n == s@.len(),
            i + m <= n,
            sub == s@.subrange(i as int, i as int + p@.len() as int),
            forall|t: int| 0 <= t < j ==> s@[i + t] == p@[t],
        decreases p@.len() - j,
    {
        if s[i + j] != p[j] {
            assert(sub[j as int] != p@[j as int]);
            return false;
        }
        j = j + 1;
    }
    assert(sub =~= p@);
    true
}

fn remove_all_chars(s: &Vec<char>, p: &Vec<char>) -> (out: Vec<char>)
    requires
        p@.len() > 0,
    ensures
        out@ == remove_all(s@, p@),
{
    let n = s.len();
    let m = p.len();
    let mut out: Vec<char> = Vec::new();
    let mut i: usize = 0;
    proof {
        assert(s@.skip(0) =~= s@);
        assert(Seq::<char>::empty() + remove_all(s@, p@) =~= remove_all(s@, p@));
    }
    while i < n
        invariant
            i <= n,
            n == s@.len(),
            m == p@.len(),
            m > 0,
            remove_all(s@, p@) == out@ + remove_all(s@.skip(i as int), p@),
        decreases n - i,
    {
        let ghost rest = s@.skip(i as int);
        if n - i >= m && match_at(s, p, i) {
            proof {
                assert(rest.take(m as int) =~= s@.subrange(i as int, i as int + m as int));
                assert(rest.skip(m as int) =~= s@.skip(i as int + m as int));
            }
            i = i + m;
        } else {
            proof {
                if n - i >= m {
                    assert(rest.take(m as int) =~= s@.subrange(i as int, i as int + m as int));
                }
                assert(rest.skip(1) =~= s@.skip(i as int + 1));
                assert(remove_all(rest, p@) == seq![s@[i as int]] + remove_all(
                    s@.skip(i as int + 1),
                    p@,
                ));
                assert((out@ + remove_all(rest, p@)) =~= (out@.push(s@[i as int]) + remove_all(
                    s@.skip(i as int + 1),
                    p@,
                )));
            }
            out.push(s[i]);
            i = i + 1;
        }
    }
    proof {
        assert(s@.skip(n as int) =~= Seq::<char>::empty());
        assert(out@ + Seq::<char>::empty() =~= out@);
    }
    out
}

/// The prefix of whitespace characters removed.
pub open spec fn trim_start_ws(s: Seq<char>) -> Seq<char>
    decreases s.len(),
{
    if s.len() > 0 && unicode_whitespace(s[0]) {
        trim_start_ws(s.skip(1))
    } else {
        s
    }
}

/// The suffix of whitespace characters removed.
pub open spec fn trim_end_ws(s: Seq<char>) -> Seq<char>
    decreases s.len(),
{
    if s.len() > 0 && unicode_whitespace(s.last()) {
        trim_end_ws(s.drop_last())
    } else {
        s
    }
}

/// Surrounding whitespace removed from both ends.
pub open spec fn trim_ws(s: Seq<char>) -> Seq<char> {
    trim_end_ws(trim_start_ws(s))
}

/// The prefix of `#` characters removed.
pub open spec fn trim_start_hashes(s: Seq<char>) -> Seq<char>
    decreases s.len(),
{
    if s.len() > 0 && s[0] == '#' {
        trim_start_hashes(s.skip(1))
    } else {
        s
    }
}

fn trim_ws_chars(s: &Vec<char>) -> (out: Vec<char>)
    ensures
        out@ == trim_ws(s@),
{
    let n = s.len();
    let mut a: usize = 0;
    proof {
        assert(s@.skip(0) =~= s@);
    }
    while a < n && is_whitespace_char(s[a])
        invariant
            a <= n,
            n == s@.len(),
            trim_start_ws(s@) == trim_start_ws(s@.skip(a as int)),
        decreases n - a,
    {
        assert(s@.skip(a as int).skip(1) =~= s@.skip(a as int + 1));
        a = a + 1;
    }
    if a == n {
        assert(s@.skip(n as int) =~= Seq::<char>::empty());
    }
    assert(trim_start_ws(s@) == s@.skip(a as int));
    let mut b: usize = n;
    while b > a && is_whitespace_char(s[b - 1])
        invariant
            a <= b <= n,
            n == s@.len(),
            trim_start_ws(s@) == s@.skip(a as int),
            trim_end_ws(s@.skip(a as int)) == trim_end_ws(s@.subrange(a as int, b as int)),
        decreases b,
    {
        assert(s@.subrange(a as int, b as int).drop_last() =~= s@.subrange(
            a as int,
            b as int - 1,
        ));
        assert(s@.subrange(a as int, b as int).last() == s@[b - 1]);
        b = b - 1;
    }
    assert(s@.skip(a as int) =~= s@.subrange(a as int, n as int));
    assert(trim_end_ws(s@.subrange(a as int, b as int)) == s@.subrange(a as int, b as int));
    let mut out: Vec<char> = Vec::new();
    push_range(&mut out, s, a, b);
    assert(out@ =~= s@.subrange(a as int, b as int));
    out
}

fn trim_hashes_chars(s: &Vec<char>) -> (out: Vec<char>)
    ensures
        out@ == trim_start_hashes(s@),
{
    let n = s.len();
    let mut a: usize = 0;
    proof {
        assert(s@.skip(0) =~= s@);
    }
    while a < n && s[a] == '#'
        invariant
            a <= n,
            n == s@.len(),
            trim_start_hashes(s@) == trim_start_hashes(s@.skip(a as int)),
        decreases n - a,
    {
        assert(s@.skip(a as int).skip(1) =~= s@.skip(a as int + 1));
        a = a + 1;
    }
    if a == n {
        assert(s@.skip(n as int) =~= Seq::<char>::empty());
    }
    assert(trim_start_hashes(s@) == s@.skip(a as int));
    let mut out: Vec<char> = Vec::new();
    push_range(&mut out, s, a, n);
    assert(out@ =~= s@.skip(a as int));
    out
}

/// The fixed inline-markup substrings that heading content is cleared of
/// before normalization: emphasis, code and strong tags, and the common
/// HTML entity escapes.
pub open spec fn markup_stripped(s: Seq<char>) -> Seq<char> {
    let s = remove_all(s, "<em>"@);
    let s = remove_all(s, "</em>"@);
    let s = remove_all(s, "<code>"@);
    let s = remove_all(s, "</code>"@);
    let s = remove_all(s, "<strong>"@);
    let s = remove_all(s, "</strong>"@);
    let s = remove_all(s, "&lt;"@);
    let s = remove_all(s, "&gt;"@);
    let s = remove_all(s, "&amp;"@);
    let s = remove_all(s, "&#39;"@);
    let s = remove_all(s, "&quot;"@);
    s
}

fn strip_one_markup(s: &Vec<char>, pat: &str) -> (out: Vec<char>)
    requires
        pat@.len() > 0,
    ensures
        out@ == remove_all(s@, pat@),
{
    let p = str_chars(pat);
    remove_all_chars(s, &p)
}

/// Derive an anchor id from raw heading content: inline-markup tags and
/// common HTML entities are removed verbatim, surrounding whitespace and
/// then leading `#` markers are trimmed, and the rest is normalized as
/// `normalize_id` does.
pub fn id_from_content(content: &str) -> (r: String)
    ensures
        r@ == normalize_seq(trim_ws(trim_start_hashes(trim_ws(markup_stripped(content@))))),
{
    proof {
        reveal_strlit("<em>");
        reveal_strlit("</em>");
        reveal_strlit("<code>");
        reveal_strlit("</code>");
        reveal_strlit("<strong>");
        reveal_strlit("</strong>");
        reveal_strlit("&lt;");
        reveal_strlit("&gt;");
        reveal_strlit("&amp;");
        reveal_strlit("&#39;");
        reveal_strlit("&quot;");
    }
    let mut s = str_chars(content);
    s = strip_one_markup(&s, "<em>");
    s = strip_one_markup(&s, "</em>");
    s = strip_one_markup(&s, "<code>");
    s = strip_one_markup(&s, "</code>");
    s = strip_one_markup(&s, "<strong>");
    s = strip_one_markup(&s, "</strong>");
    s = strip_one_markup(&s, "&lt;");
    s = strip_one_markup(&s, "&gt;");
    s = strip_one_markup(&s, "&amp;");
    s = strip_one_markup(&s, "&#39;");
    s = strip_one_markup(&s, "&quot;");
    let trimmed = trim_ws_chars(&s);
    let unhashed = trim_hashes_chars(&trimmed);
    let retrimmed = trim_ws_chars(&unhashed);
    let normalized = normalize_chars(&retrimmed);
    chars_to_string(&normalized)
}

/// Where one or more whitespace characters stand in a row, what replaces
/// the one at position `i`: the first of such a run of two or more
/// becomes a single space, the rest of the run disappears, and a lone
/// whitespace character or any other character stays as it is.
pub open spec fn collapse_at(s: Seq<char>, i: int) -> Seq<char> {
    if !unicode_whitespace(s[i]) {
        seq![s[i]]
    } else if i > 0 && unicode_whitespace(s[i - 1]) {
        Seq::empty()
    } else if i + 1 < s.len() && unicode_whitespace(s[i + 1]) {
        seq![' ']
    } else {
        seq![s[i]]
    }
}

/// The collapsed tail of a sequence from position `i` on.
pub open spec fn collapse_from(s: Seq<char>, i: int) -> Seq<char>
    decreases s.len() - i,
{
    if i < 0 || i >= s.len() {
        Seq::empty()
    } else {
        collapse_at(s, i) + collapse_from(s, i + 1)
    }
}

/// A sequence with every run of two or more whitespace characters
/// replaced by one space; a single whitespace character stays as it is.
pub open spec fn collapse_ws(s: Seq<char>) -> Seq<char> {
    collapse_from(s, 0)
}

/// Replace every run of two or more consecutive whitespace characters
/// with a single space character.
pub fn collapse_whitespace(text: &str) -> (r: String)
    ensures
        r@ == collapse_ws(text@),
{
    let chars = str_chars(text);
    let n = chars.len();
    let mut out: Vec<char> = Vec::new();
    let mut i: usize = 0;
    while i < n
        invariant
            i <= n,
            n == chars@.len(),
            chars@ == text@,
            collapse_ws(text@) == out@ + collapse_from(text@, i as int),
        decreases n - i,
    {
        let ghost before = out@;
        let c = chars[i];
        if !is_whitespace_char(c) {
            out.push(c);
        } else if i > 0 && is_whitespace_char(chars[i - 1]) {
            // a continuation of a whitespace run: dropped
        } else if i + 1 < n && is_whitespace_char(chars[i + 1]) {
            out.push(' ');
        } else {
            out.push(c);
        }
        proof {
            assert(out@ =~= before + collapse_at(text@, i as int));
            assert((before + collapse_at(text@, i as int)) + collapse_from(text@, i as int + 1)
                =~= before + (collapse_at(text@, i as int) + collapse_from(
                text@,
                i as int + 1,
            )));
        }
        i = i + 1;
    }
    assert(collapse_from(text@, n as int) =~= Seq::<char>::empty());
    assert(out@ =~= collapse_ws(text@));
    chars_to_string(&out)
}

} // verus!
