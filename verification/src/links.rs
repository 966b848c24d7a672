use vstd::prelude::*;

use crate::chars::{chars_to_string, push_range, str_chars};
use crate::events::{EvSpec, MdEvent, MdTag, TagSpec};

verus! {

/// A character allowed after the first one in a URI scheme: an ASCII
/// letter, an ASCII digit, `+`, `.` or `-`.
pub open spec fn scheme_char(c: char) -> bool {
    (97 <= c as u32 && c as u32 <= 122) || (65 <= c as u32 && c as u32 <= 90) || (48 <= c as u32
        && c as u32 <= 57) || c == '+' || c == '.' || c == '-'
}

/// An ASCII letter, the only characters a URI scheme may start with.
pub open spec fn ascii_letter(c: char) -> bool {
    (97 <= c as u32 && c as u32 <= 122) || (65 <= c as u32 && c as u32 <= 90)
}

/// Whether a destination starts with a URI scheme: an ASCII letter,
/// then any run of scheme characters, then a colon.
pub open spec fn is_scheme_link(s: Seq<char>) -> bool {
    &&& s.len() > 0
    &&& ascii_letter(s[0])
    &&& exists|k: int|
        1 <= k < s.len() && #[trigger] s[k] == ':' && (forall|j: int|
            1 <= j < k ==> scheme_char(#[trigger] s[j]))
}

/// Whether position `i` of `s` carries a `.md` extension that stands
/// immediately before the end or before a `#` fragment.
pub open spec fn md_split_ok(s: Seq<char>, i: int) -> bool {
    &&& 0 <= i
    &&& i + 3 <= s.len()
    &&& s[i] == '.'
    &&& s[i + 1] == 'm'
    &&& s[i + 2] == 'd'
    &&& (i + 3 == s.len() || s[i + 3] == '#')
}

/// The rightmost position at most `i` where `s` splits around a `.md`
/// extension, or -1 where there is none.
pub open spec fn md_index_from(s: Seq<char>, i: int) -> int
    decreases i + 1,
{
    if i < 0 {
        -1
    } else if md_split_ok(s, i) {
        i
    } else {
        md_index_from(s, i - 1)
    }
}

/// The rightmost position where `s` splits around a `.md` extension, or
/// -1 where there is none.
pub open spec fn md_index(s: Seq<char>) -> int {
    md_index_from(s, s.len() - 3)
}

/// The replacement extension, as a character sequence.
pub open spec fn html_suffix() -> Seq<char> {
    seq!['.', 'h', 't', 'm', 'l']
}

/// Replace a trailing `.md` extension (possibly followed by a `#`
/// fragment, which is kept verbatim) with `.html`; a destination without
/// such an extension is left unchanged.
pub open spec fn md_rewrite(s: Seq<char>) -> Seq<char> {
    if md_index(s) >= 0 {
        s.take(md_index(s)) + html_suffix() + s.skip(md_index(s) + 3)
    } else {
        s
    }
}

/// The path prefix put before a relative destination: the base followed
/// by a slash, or nothing where the base is empty.
pub open spec fn base_prefix(base: Seq<char>) -> Seq<char> {
    if base.len() == 0 {
        Seq::empty()
    } else {
        base + seq!['/']
    }
}

/// What the link rewriter makes of a destination: a scheme-prefixed
/// destination is kept byte for byte; a relative one is prefixed with the
/// base and has a `.md` extension rewritten to `.html`.
pub open spec fn fix_dest(dest: Seq<char>, base: Seq<char>) -> Seq<char> {
    if is_scheme_link(dest) {
        dest
    } else {
        base_prefix(base) + md_rewrite(dest)
    }
}

/// `md_index_from` falls through a stretch that holds no split.
proof fn lemma_md_index_from_skip(s: Seq<char>, hi: int, k: int)
    requires
        k <= hi,
        forall|i: int| k < i <= hi ==> !md_split_ok(s, i),
    ensures
        md_index_from(s, hi) == md_index_from(s, k),
    decreases hi - k,
{
    if k < hi {
        lemma_md_index_from_skip(s, hi - 1, k);
    }
}

/// Extension rewrite, no fragment: a scheme-free destination that ends
/// in `.md` becomes the prefixed body with `.html`, whatever the base.
pub proof fn lemma_extension_rewrite(body: Seq<char>, base: Seq<char>)
    requires
        !is_scheme_link(body + seq!['.', 'm', 'd']),
    ensures
        fix_dest(body + seq!['.', 'm', 'd'], base) == base_prefix(base) + body + html_suffix(),
{
    let d = body + seq!['.', 'm', 'd'];
    assert(md_split_ok(d, body.len() as int)) by {
        assert(d[body.len() as int] == '.');
        assert(d[body.len() as int + 1] == 'm');
        assert(d[body.len() as int + 2] == 'd');
    }
    assert(md_index(d) == body.len() as int);
    assert(d.take(body.len() as int) =~= body);
    assert(d.skip(body.len() as int + 3) =~= Seq::<char>::empty());
    assert(fix_dest(d, base) =~= base_prefix(base) + body + html_suffix());
}

/// Extension rewrite with a fragment: where the named `.md` is the
/// rightmost one standing before the end or a `#`, the `#` fragment is
/// kept verbatim after the `.html`.
pub proof fn lemma_extension_rewrite_fragment(body: Seq<char>, frag: Seq<char>, base: Seq<char>)
    requires
        !is_scheme_link(body + seq!['.', 'm', 'd', '#'] + frag),
        forall|i: int|
            body.len() < i ==> !md_split_ok(body + seq!['.', 'm', 'd', '#'] + frag, i),
    ensures
        fix_dest(body + seq!['.', 'm', 'd', '#'] + frag, base) == base_prefix(base) + body
            + html_suffix() + seq!['#'] + frag,
{
    let d = body + seq!['.', 'm', 'd', '#'] + frag;
    assert(d.len() == body.len() + 4 + frag.len());
    assert(md_split_ok(d, body.len() as int)) by {
        assert(d[body.len() as int] == '.');
        assert(d[body.len() as int + 1] == 'm');
        assert(d[body.len() as int + 2] == 'd');
        assert(d[body.len() as int + 3] == '#');
    }
    lemma_md_index_from_skip(d, d.len() - 3, body.len() as int);
    assert(md_index(d) == body.len() as int);
    assert(d.take(body.len() as int) =~= body);
    assert(d.skip(body.len() as int + 3) =~= seq!['#'] + frag);
    assert(fix_dest(d, base) =~= base_prefix(base) + body + html_suffix() + seq!['#'] + frag);
}

fn scheme_char_exec(c: char) -> (r: bool)
    ensures
        r == scheme_char(c),
{
    let u = c as u32;
    (97 <= u && u <= 122) || (65 <= u && u <= 90) || (48 <= u && u <= 57) || c == '+' || c == '.'
        || c == '-'
}

fn scheme_prefix(chars: &Vec<char>) -> (r: bool)
    ensures
        r == is_scheme_link(chars@),
{
    let ghost s = chars@;
    if chars.len() == 0 {
        return false;
    }
    let c0 = chars[0] as u32;
    if !((97 <= c0 && c0 <= 122) || (65 <= c0 && c0 <= 90)) {
        return false;
    }
    let mut i: usize = 1;
    while i < chars.len()
        invariant
            1 <= i <= s.len(),
            s == chars@,
            s.len() > 0,
            ascii_letter(s[0]),
            forall|j: int| 1 <= j < i ==> scheme_char(#[trigger] s[j]),
            forall|j: int| 1 <= j < i ==> s[j] != ':',
        decreases s.len() - i,
    {
        let c = chars[i];
        if c == ':' {
            assert(is_scheme_link(s)) by {
                assert(1 <= i < s.len() && s[i as int] == ':' && (forall|j: int|
                    1 <= j < i ==> scheme_char(#[trigger] s[j])));
            }
            return true;
        }
        if !scheme_char_exec(c) {
            assert(!is_scheme_link(s)) by {
                if is_scheme_link(s) {
                    let k = choose|k: int|
                        1 <= k < s.len() && #[trigger] s[k] == ':' && (forall|j: int|
                            1 <= j < k ==> scheme_char(#[trigger] s[j]));
                    assert(k != i && !(k < i) && !(k > i));
                }
            }
            return false;
        }
        i = i + 1;
    }
    assert(!is_scheme_link(s)) by {
        if is_scheme_link(s) {
            let k = choose|k: int|
                1 <= k < s.len() && #[trigger] s[k] == ':' && (forall|j: int|
                    1 <= j < k ==> scheme_char(#[trigger] s[j]));
        }
    }
    false
}

fn md_rewrite_exec(src: &Vec<char>) -> (out: Vec<char>)
    ensures
        out@ == md_rewrite(src@),
{
    let ghost s = src@;
    let n = src.len();
    if n >= 3 {
        let mut j: usize = n - 2;
        while j > 0
            invariant
                s == src@,
                n == s.len(),
                3 <= n,
                j <= n - 2,
                md_index(s) == md_index_from(s, j as int - 1),
            decreases j,
        {
            let i = j - 1;
            if src[i] == '.' && src[i + 1] == 'm' && src[i + 2] == 'd' && (i + 3 == n || src[i
                + 3] == '#') {
                assert(md_split_ok(s, i as int));
                assert(md_index(s) == i as int);
                let mut out: Vec<char> = Vec::new();
                push_range(&mut out, src, 0, i);
                out.push('.');
                out.push('h');
                out.push('t');
                out.push('m');
                out.push('l');
                let ghost mid = out@;
                push_range(&mut out, src, i + 3, n);
                assert(out@ =~= s.take(i as int) + html_suffix() + s.skip(i + 3 as int)) by {
                    assert(s.take(i as int) =~= s.subrange(0, i as int));
                    assert(s.skip(i + 3 as int) =~= s.subrange(i + 3 as int, n as int));
                    assert(mid =~= s.subrange(0, i as int) + html_suffix());
                }
                return out;
            }
            assert(!md_split_ok(s, i as int));
            j = j - 1;
        }
    } else {
        assert(md_index_from(s, n as int - 3) == -1);
    }
    assert(md_index(s) < 0);
    let mut out: Vec<char> = Vec::new();
    push_range(&mut out, src, 0, n);
    assert(out@ =~= s);
    out
}

/// Rewrite one link or image destination against a base path.
///
/// A destination with a URI scheme comes back byte-identical, whatever
/// the base. Any other destination is taken as a path into the book: it
/// is prefixed with `base` and a slash where `base` is non-empty, and a
/// final `.md` extension (an optional `#` fragment after it is kept
/// verbatim) is turned into `.html`.
pub fn rewrite_destination(dest: &str, base: &str) -> (r: String)
    ensures
        r@ == fix_dest(dest@, base@),
        is_scheme_link(dest@) ==> r@ == dest@,
{
    let dchars = str_chars(dest);
    if scheme_prefix(&dchars) {
        return chars_to_string(&dchars);
    }
    let bchars = str_chars(base);
    let mut out: Vec<char> = Vec::new();
    if bchars.len() > 0 {
        push_range(&mut out, &bchars, 0, bchars.len());
        out.push('/');
        assert(out@ =~= base_prefix(base@));
    } else {
        assert(out@ =~= base_prefix(base@));
    }
    let ghost prefix = out@;
    let rewritten = md_rewrite_exec(&dchars);
    push_range(&mut out, &rewritten, 0, rewritten.len());
    assert(out@ =~= prefix + md_rewrite(dest@)) by {
        assert(rewritten@.subrange(0, rewritten@.len() as int) =~= rewritten@);
    }
    chars_to_string(&out)
}

/// What the link rewriter makes of one event: only the destination of a
/// link or image start tag changes, every other event passes through.
pub open spec fn adjust_event_spec(e: EvSpec, base: Seq<char>) -> EvSpec {
    match e {
        EvSpec::Start(TagSpec::Link(k, d, t)) => EvSpec::Start(
            TagSpec::Link(k, fix_dest(d, base), t),
        ),
        EvSpec::Start(TagSpec::Image(k, d, t)) => EvSpec::Start(
            TagSpec::Image(k, fix_dest(d, base), t),
        ),
        _ => e,
    }
}

/// Rewrite the destination of a link or image start event so it resolves
/// in the rendered output; every other event passes through unchanged.
pub fn adjust_links(event: MdEvent, with_base: &str) -> (r: MdEvent)
    ensures
        r@ == adjust_event_spec(event@, with_base@),
{
    match event {
        MdEvent::Start(MdTag::Link(k, d, t)) => MdEvent::Start(
            MdTag::Link(k, rewrite_destination(d.as_str(), with_base), t),
        ),
        MdEvent::Start(MdTag::Image(k, d, t)) => MdEvent::Start(
            MdTag::Image(k, rewrite_destination(d.as_str(), with_base), t),
        ),
        e => e,
    }
}

} // verus!
