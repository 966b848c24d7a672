use vstd::prelude::*;

use crate::cmark::{events_to_html, html_of, parse_markdown_events, parse_of};
use crate::events::{models, EvSpec, MdEvent, TagSpec};
use crate::fences::{clean_codeblock_headers, clean_event_spec};
use crate::links::{adjust_event_spec, adjust_links};
use crate::quotes::{
    lemma_curl_no_quotes, quote_convert_spec, quote_state_step, EventQuoteConverter,
};

verus! {

/// The quote converter's suppression state just before event `i`: true
/// at the start of the stream, then flipped by every code block start
/// and end seen so far.
pub open spec fn convert_text_at(evs: Seq<EvSpec>, i: int) -> bool
    decreases i,
{
    if i <= 0 {
        true
    } else {
        quote_state_step(convert_text_at(evs, i - 1), evs[i - 1])
    }
}

/// What the whole pipeline makes of one event: fence info normalization,
/// then link rewriting, then quote curling under the given state.
pub open spec fn pipeline_event(e: EvSpec, base: Seq<char>, curly: bool, state: bool) -> EvSpec {
    let adjusted = adjust_event_spec(clean_event_spec(e), base);
    if curly {
        quote_convert_spec(adjusted, state)
    } else {
        adjusted
    }
}

/// What the whole pipeline makes of an event stream.
pub open spec fn pipeline_seq(evs: Seq<EvSpec>, curly: bool, base: Seq<char>) -> Seq<EvSpec> {
    Seq::new(evs.len(), |i: int| pipeline_event(evs[i], base, curly, convert_text_at(evs, i)))
}

/// Fence normalization and link rewriting never change whether an event
/// starts or ends a code block, so the quote converter sees its state
/// transitions unchanged through them.
proof fn lemma_state_step_stable(e: EvSpec, base: Seq<char>, state: bool)
    ensures
        quote_state_step(state, adjust_event_spec(clean_event_spec(e), base)) == quote_state_step(
            state,
            e,
        ),
{
}

/// Run the three transformation stages over a whole event stream, in
/// their fixed order: code-fence info normalization, then link and image
/// destination rewriting against `base`, then quote curling (a no-op
/// unless `curly_quotes` is set) with its suppression state threaded
/// through the stream.
pub fn transform_events(events: Vec<MdEvent>, curly_quotes: bool, base: &str) -> (out: Vec<
    MdEvent,
>)
    ensures
        models(out@) == pipeline_seq(models(events@), curly_quotes, base@),
{
    let ghost evs = models(events@);
    let mut events = events;
    let mut out: Vec<MdEvent> = Vec::new();
    let mut converter = EventQuoteConverter::new(curly_quotes);
    proof {
        assert(models(events@) =~= evs.skip(0));
    }
    while events.len() > 0
        invariant
            out@.len() <= evs.len(),
            models(events@) =~= evs.skip(out@.len() as int),
            forall|j: int|
                0 <= j < out@.len() ==> models(out@)[j] == pipeline_event(
                    evs[j],
                    base@,
                    curly_quotes,
                    convert_text_at(evs, j),
                ),
            converter.enabled == curly_quotes,
            curly_quotes ==> converter.convert_text == convert_text_at(evs, out@.len() as int),
            !curly_quotes ==> converter.convert_text == true,
        decreases events@.len(),
    {
        let ghost i = out@.len() as int;
        let ghost state = converter.convert_text;
        assert(evs.skip(i).len() == evs.len() - i);
        let ghost pre = events@;
        let e = events.remove(0);
        proof {
            assert(models(pre)[0] == pre[0]@);
            assert(e@ == evs.skip(i)[0]);
            assert(e@ == evs[i]);
            assert(events@ =~= pre.skip(1));
            assert(models(events@) =~= evs.skip(i + 1)) by {
                assert(models(events@).len() == evs.skip(i + 1).len());
                assert forall|j: int| 0 <= j < events@.len() implies models(events@)[j]
                    == evs.skip(i + 1)[j] by {
                    assert(models(events@)[j] == events@[j]@);
                    assert(events@[j] == pre[j + 1]);
                    assert(models(pre)[j + 1] == pre[j + 1]@);
                    assert(models(pre)[j + 1] == evs.skip(i)[j + 1]);
                    assert(evs.skip(i)[j + 1] == evs[i + j + 1]);
                    assert(evs.skip(i + 1)[j] == evs[i + 1 + j]);
                }
            }
        }
        let e1 = clean_codeblock_headers(e);
        let e2 = adjust_links(e1, base);
        let e3 = converter.convert(e2);
        proof {
            lemma_state_step_stable(evs[i], base@, state);
            assert(convert_text_at(evs, i + 1) == quote_state_step(convert_text_at(evs, i), evs[i]));
            assert(e3@ == pipeline_event(evs[i], base@, curly_quotes, convert_text_at(evs, i)));
        }
        let ghost prev_out = out@;
        out.push(e3);
        proof {
            assert(models(out@).len() == out@.len());
            assert(models(out@)[i] == e3@);
            assert forall|j: int| 0 <= j < i implies models(out@)[j] == pipeline_event(
                evs[j],
                base@,
                curly_quotes,
                convert_text_at(evs, j),
            ) by {
                assert(out@[j] == prev_out[j]);
                assert(models(out@)[j] == out@[j]@);
                assert(models(prev_out)[j] == prev_out[j]@);
            }
        }
    }
    proof {
        assert(evs.skip(evs.len() as int).len() == 0);
        assert(out@.len() == evs.len());
        assert(models(out@) =~= pipeline_seq(evs, curly_quotes, base@));
    }
    out
}

/// Render markdown to an HTML fragment against a base path: the text is
/// parsed with the fixed extension set, the three transformation stages
/// run over the events in order, and the external serializer writes the
/// result.
pub fn render_markdown_with_base(text: &str, curly_quotes: bool, base: &str) -> (r: String)
    ensures
        r@ == html_of(pipeline_seq(parse_of(text@), curly_quotes, base@)),
{
    let events = parse_markdown_events(text);
    let transformed = transform_events(events, curly_quotes, base);
    events_to_html(&transformed)
}

/// Render markdown to an HTML fragment with no base-path prefix.
pub fn render_markdown(text: &str, curly_quotes: bool) -> (r: String)
    ensures
        r@ == html_of(pipeline_seq(parse_of(text@), curly_quotes, Seq::<char>::empty())),
{
    proof {
        reveal_strlit("");
        assert(""@ =~= Seq::<char>::empty());
    }
    render_markdown_with_base(text, curly_quotes, "")
}

/// Whether a text run holds no straight quote character.
pub open spec fn no_quotes(t: Seq<char>) -> bool {
    forall|j: int| 0 <= j < t.len() ==> t[j] != '\'' && t[j] != '"'
}

/// Whether an event is one the pipeline can only pass through: it does
/// not start a code block, a link or an image, and a text run in it
/// holds no straight quotes.
pub open spec fn passthrough_event(e: EvSpec) -> bool {
    match e {
        EvSpec::Start(TagSpec::CodeBlock(_)) => false,
        EvSpec::Start(TagSpec::Link(_, _, _)) => false,
        EvSpec::Start(TagSpec::Image(_, _, _)) => false,
        EvSpec::Text(t) => no_quotes(t),
        _ => true,
    }
}

/// Round-trip safety: a stream with no code fence starts, no link or
/// image starts, and no straight quotes in its text runs comes out of
/// the pipeline exactly as it went in, whatever the flag and the base —
/// so the rendered HTML equals the serializer's output on the raw
/// parse.
pub proof fn lemma_pipeline_identity(evs: Seq<EvSpec>, curly: bool, base: Seq<char>)
    requires
        forall|i: int| 0 <= i < evs.len() ==> passthrough_event(#[trigger] evs[i]),
    ensures
        pipeline_seq(evs, curly, base) == evs,
{
    assert forall|i: int| 0 <= i < evs.len() implies pipeline_seq(evs, curly, base)[i] == evs[i] by {
        let e = evs[i];
        assert(passthrough_event(e));
        assert(clean_event_spec(e) == e);
        assert(adjust_event_spec(e, base) == e);
        match e {
            EvSpec::Text(t) => lemma_curl_no_quotes(t),
            _ => (),
        }
    }
    assert(pipeline_seq(evs, curly, base) =~= evs);
}

} // verus!
