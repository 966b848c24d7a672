use vstd::prelude::*;

use crate::chars::{chars_to_string, is_whitespace_char, str_chars, unicode_whitespace};
use crate::events::{EvSpec, MdEvent, MdTag, TagSpec};

verus! {

/// A sequence with every whitespace character removed; all other
/// characters keep their order, commas and the like included.
pub open spec fn strip_ws_seq(s: Seq<char>) -> Seq<char>
    decreases s.len(),
{
    if s.len() == 0 {
        Seq::empty()
    } else if unicode_whitespace(s.last()) {
        strip_ws_seq(s.drop_last())
    } else {
        strip_ws_seq(s.drop_last()).push(s.last())
    }
}

fn strip_ws_chars(s: &Vec<char>) -> (out: Vec<char>)
    ensures
        out@ == strip_ws_seq(s@),
{
    let mut out: Vec<char> = Vec::new();
    let mut i: usize = 0;
    while i < s.len()
        invariant
            i <= s@.len(),
            out@ == strip_ws_seq(s@.take(i as int)),
        decreases s@.len() - i,
    {
        let c = s[i];
        assert(s@.take(i + 1 as int).drop_last() =~= s@.take(i as int));
        assert(s@.take(i + 1 as int).last() == s@[i as int]);
        if !is_whitespace_char(c) {
            out.push(c);
        }
        i = i + 1;
    }
    assert(s@.take(s@.len() as int) =~= s@);
    out
}

/// Remove every whitespace character from a fence's info string,
/// preserving all other characters and their order.
pub fn clean_info_string(info: &str) -> (r: String)
    ensures
        r@ == strip_ws_seq(info@),
{
    let chars = str_chars(info);
    let cleaned = strip_ws_chars(&chars);
    chars_to_string(&cleaned)
}

/// What the fence normalizer makes of one event: only the info string of
/// a code block start tag is stripped of whitespace; everything else,
/// the matching end tag included, passes through with its payload intact.
pub open spec fn clean_event_spec(e: EvSpec) -> EvSpec {
    match e {
        EvSpec::Start(TagSpec::CodeBlock(info)) => EvSpec::Start(
            TagSpec::CodeBlock(strip_ws_seq(info)),
        ),
        _ => e,
    }
}

/// Strip whitespace from the info string of a code block start event so
/// it becomes a clean CSS class list downstream; every other event passes
/// through unchanged.
pub fn clean_codeblock_headers(event: MdEvent) -> (r: MdEvent)
    ensures
        r@ == clean_event_spec(event@),
{
    match event {
        MdEvent::Start(MdTag::CodeBlock(info)) => MdEvent::Start(
            MdTag::CodeBlock(clean_info_string(info.as_str())),
        ),
        e => e,
    }
}

} // verus!
