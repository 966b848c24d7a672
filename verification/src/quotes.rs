use vstd::prelude::*;

use crate::chars::{chars_to_string, is_whitespace_char, str_chars, unicode_whitespace};
use crate::events::{EvSpec, MdEvent, MdTag, TagSpec};

verus! {

/// The curly replacement for one character: a straight quote becomes an
/// opening curly quote after whitespace (or at the very start) and a
/// closing one otherwise; any other character stays as it is.
pub open spec fn curl_char(c: char, after_ws: bool) -> char {
    if c == '\'' {
        if after_ws {
            '\u{2018}'
        } else {
            '\u{2019}'
        }
    } else if c == '"' {
        if after_ws {
            '\u{201c}'
        } else {
            '\u{201d}'
        }
    } else {
        c
    }
}

/// Whether position `i` of a text run counts as preceded by whitespace:
/// the start of the run does, and so does any position right after a
/// whitespace character.
pub open spec fn preceded_ws(s: Seq<char>, i: int) -> bool {
    i == 0 || unicode_whitespace(s[i - 1])
}

/// A whole text run with its straight quotes curled, character by
/// character; the whitespace cursor restarts at every run.
pub open spec fn curl_seq(s: Seq<char>) -> Seq<char> {
    Seq::new(s.len(), |i: int| curl_char(s[i], preceded_ws(s, i)))
}

/// Replace straight single and double quotes in a text run by their
/// directional curly equivalents. The run's start counts as preceded by
/// whitespace, and each later character looks only at the one before it.
pub fn convert_quotes_to_curly(original_text: &str) -> (r: String)
    ensures
        r@ == curl_seq(original_text@),
{
    let chars = str_chars(original_text);
    let mut out: Vec<char> = Vec::new();
    let mut preceded_by_whitespace = true;
    let mut i: usize = 0;
    while i < chars.len()
        invariant
            i <= chars@.len(),
            chars@ == original_text@,
            out@.len() == i,
            forall|j: int|
                0 <= j < i ==> out@[j] == curl_char(chars@[j], preceded_ws(chars@, j)),
            preceded_by_whitespace == preceded_ws(chars@, i as int),
        decreases chars@.len() - i,
    {
        let c = chars[i];
        let converted = if c == '\'' {
            if preceded_by_whitespace {
                '\u{2018}'
            } else {
                '\u{2019}'
            }
        } else if c == '"' {
            if preceded_by_whitespace {
                '\u{201c}'
            } else {
                '\u{201d}'
            }
        } else {
            c
        };
        preceded_by_whitespace = is_whitespace_char(c);
        out.push(converted);
        i = i + 1;
    }
    assert(out@ =~= curl_seq(original_text@));
    chars_to_string(&out)
}

/// Curling a run without straight quote characters changes nothing.
pub proof fn lemma_curl_no_quotes(s: Seq<char>)
    requires
        forall|i: int| 0 <= i < s.len() ==> s[i] != '\'' && s[i] != '"',
    ensures
        curl_seq(s) == s,
{
    assert(curl_seq(s) =~= s);
}

/// The converter's suppression state after one event: a code block start
/// turns text conversion off, the matching end turns it back on, and
/// every other event leaves it alone.
pub open spec fn quote_state_step(state: bool, e: EvSpec) -> bool {
    match e {
        EvSpec::Start(TagSpec::CodeBlock(_)) => false,
        EvSpec::End(TagSpec::CodeBlock(_)) => true,
        _ => state,
    }
}

/// What the enabled converter makes of one event: a text run is curled
/// while conversion is on, and everything else passes through unchanged.
pub open spec fn quote_convert_spec(e: EvSpec, state: bool) -> EvSpec {
    if state {
        match e {
            EvSpec::Text(t) => EvSpec::Text(curl_seq(t)),
            _ => e,
        }
    } else {
        e
    }
}

/// The stateful quote-curling pass over a render event stream: it curls
/// straight quotes in text runs, except between the start and end of a
/// code block, and does nothing at all when disabled.
pub struct EventQuoteConverter {
    pub enabled: bool,
    pub convert_text: bool,
}

impl EventQuoteConverter {
    pub fn new(enabled: bool) -> (c: EventQuoteConverter)
        ensures
            c.enabled == enabled,
            c.convert_text == true,
    {
        EventQuoteConverter { enabled, convert_text: true }
    }

    pub fn convert(&mut self, event: MdEvent) -> (r: MdEvent)
        ensures
            final(self).enabled == old(self).enabled,
            !old(self).enabled ==> final(self).convert_text == old(self).convert_text && r@
                == event@,
            old(self).enabled ==> final(self).convert_text == quote_state_step(
                old(self).convert_text,
                event@,
            ),
            old(self).enabled ==> r@ == quote_convert_spec(event@, old(self).convert_text),
    {
        if !self.enabled {
            return event;
        }
        match event {
            MdEvent::Start(MdTag::CodeBlock(info)) => {
                self.convert_text = false;
                MdEvent::Start(MdTag::CodeBlock(info))
            },
            MdEvent::End(MdTag::CodeBlock(info)) => {
                self.convert_text = true;
                MdEvent::End(MdTag::CodeBlock(info))
            },
            MdEvent::Text(text) => {
                if self.convert_text {
                    MdEvent::Text(convert_quotes_to_curly(text.as_str()))
                } else {
                    MdEvent::Text(text)
                }
            },
            e => e,
        }
    }
}

} // verus!
