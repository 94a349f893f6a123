use vstd::prelude::*;
use crate::lines::{
    law_partial_line_has_no_newline, law_split_point_does_not_matter, lemma_split_lines_without_newline,
    line_texts, split_lines, SseLineBuffer, NEWLINE,
};
use crate::sse::{claude_event, openai_event, parse_claude_sse_line, parse_openai_sse_line, SseEvent, SseEventView};

verus! {

/// What prefixes the message of an error reported inside the stream.
pub const STREAM_ERROR_PREFIX: &'static str = "LLM streaming error: ";

/// How the answer stream stands after a chunk of bytes.
#[derive(Debug, PartialEq)]
pub enum StreamOutcome {
    /// More bytes are awaited.
    Continue,
    /// The stream announced its end; the full answer text.
    Done(String),
    /// The stream reported an error; the message to return.
    Failed(String),
}

/// The mathematical value of a [`StreamOutcome`].
pub enum OutcomeView {
    Continue,
    Done(Seq<char>),
    Failed(Seq<char>),
}

impl View for StreamOutcome {
    type V = OutcomeView;

    open spec fn view(&self) -> OutcomeView {
        match self {
            StreamOutcome::Continue => OutcomeView::Continue,
            StreamOutcome::Done(s) => OutcomeView::Done(s@),
            StreamOutcome::Failed(s) => OutcomeView::Failed(s@),
        }
    }
}

/// What one chunk of bytes produced: the text fragments to hand on, in
/// order, and how the stream stands.
pub struct StreamStep {
    pub deltas: Vec<String>,
    pub outcome: StreamOutcome,
}

/// The mathematical value of a [`StreamStep`], with the answer text so far.
pub struct StepView {
    pub deltas: Seq<Seq<char>>,
    pub text: Seq<char>,
    pub outcome: OutcomeView,
}

/// The event of one line for the chosen provider format.
pub open spec fn line_event(is_claude: bool, line: Seq<char>) -> SseEventView {
    if is_claude {
        claude_event(line)
    } else {
        openai_event(line)
    }
}

/// Reads lines in order from the answer text so far: fragments are added to
/// the text and handed on, the end marker stops with the text, an error
/// stops with its message, and the rest is skipped.
pub open spec fn run_lines(is_claude: bool, text: Seq<char>, lines: Seq<Seq<char>>) -> StepView
    decreases lines.len(),
{
    if lines.len() == 0 {
        StepView { deltas: Seq::empty(), text, outcome: OutcomeView::Continue }
    } else {
        match line_event(is_claude, lines[0]) {
            SseEventView::Delta(d) => {
                let rest = run_lines(is_claude, text + d, lines.drop_first());
                StepView { deltas: seq![d] + rest.deltas, text: rest.text, outcome: rest.outcome }
            },
            SseEventView::Done => StepView {
                deltas: Seq::empty(),
                text,
                outcome: OutcomeView::Done(text),
            },
            SseEventView::Error(m) => StepView {
                deltas: Seq::empty(),
                text,
                outcome: OutcomeView::Failed(STREAM_ERROR_PREFIX@ + m),
            },
            SseEventView::Ignore => run_lines(is_claude, text, lines.drop_first()),
        }
    }
}

/// Each line is read with its provider's own parser, unchanged, and its
/// event decides what happens next: a fragment is added to the answer and
/// handed on, the end marker ends the stream with the answer so far, an
/// error ends it with "LLM streaming error: " and the error's message, and
/// anything else is skipped.
pub proof fn law_lines_are_read_by_their_format(
    is_claude: bool,
    text: Seq<char>,
    line: Seq<char>,
    rest: Seq<Seq<char>>,
)
    ensures
        line_event(false, line) == openai_event(line),
        line_event(true, line) == claude_event(line),
        ({
            let event = if is_claude { claude_event(line) } else { openai_event(line) };
            let r = run_lines(is_claude, text, seq![line] + rest);
            match event {
                SseEventView::Delta(d) => r == (StepView {
                    deltas: seq![d] + run_lines(is_claude, text + d, rest).deltas,
                    text: run_lines(is_claude, text + d, rest).text,
                    outcome: run_lines(is_claude, text + d, rest).outcome,
                }),
                SseEventView::Done => r == (StepView {
                    deltas: Seq::empty(),
                    text,
                    outcome: OutcomeView::Done(text),
                }),
                SseEventView::Error(m) => r == (StepView {
                    deltas: Seq::empty(),
                    text,
                    outcome: OutcomeView::Failed(STREAM_ERROR_PREFIX@ + m),
                }),
                SseEventView::Ignore => r == run_lines(is_claude, text, rest),
            }
        }),
{
    let lines = seq![line] + rest;
    assert(lines[0] == line);
    assert(lines.drop_first() =~= rest);
}

/// All characters of a sequence of fragments, in order.
pub open spec fn concat_text(parts: Seq<Seq<char>>) -> Seq<char>
    decreases parts.len(),
{
    if parts.len() == 0 {
        Seq::empty()
    } else {
        parts[0] + concat_text(parts.drop_first())
    }
}

/// Decoder of a streamed chat answer: splits the bytes into lines, reads
/// each as an event of the provider's format and accumulates the answer.
pub struct StreamDecoder {
    lines: SseLineBuffer,
    text: String,
    is_claude: bool,
}

/// The mathematical value of a [`StreamDecoder`].
pub struct DecoderView {
    pub is_claude: bool,
    pub pending: Seq<u8>,
    pub text: Seq<char>,
}

impl View for StreamDecoder {
    type V = DecoderView;

    closed spec fn view(&self) -> DecoderView {
        DecoderView { is_claude: self.is_claude, pending: self.lines@, text: self.text@ }
    }
}

/// The lines completed by a chunk, given the bytes held back before it.
pub open spec fn chunk_lines(pending: Seq<u8>, bytes: Seq<u8>) -> Seq<Seq<char>> {
    line_texts(split_lines(pending + bytes).0)
}

/// The effect of a chunk on a decoder.
pub open spec fn chunk_step(d: DecoderView, bytes: Seq<u8>) -> StepView {
    run_lines(d.is_claude, d.text, chunk_lines(d.pending, bytes))
}

fn line_event_exec(is_claude: bool, line: &str) -> (r: SseEvent)
    ensures
        r@ == line_event(is_claude, line@),
{
    if is_claude {
        parse_claude_sse_line(line)
    } else {
        parse_openai_sse_line(line)
    }
}

/// The views of a sequence of strings.
pub open spec fn strings_view(v: Seq<String>) -> Seq<Seq<char>> {
    v.map_values(|s: String| s@)
}

/// A step preceded by fragments already handed on.
pub open spec fn after_deltas(done: Seq<Seq<char>>, step: StepView) -> StepView {
    StepView { deltas: done + step.deltas, text: step.text, outcome: step.outcome }
}

/// The answer text is the text it started from followed by every fragment
/// handed on, in order; when the end marker stops the stream, the answer it
/// gives is that text.
pub proof fn law_text_is_the_fragments_handed_on(
    is_claude: bool,
    text: Seq<char>,
    lines: Seq<Seq<char>>,
)
    ensures
        run_lines(is_claude, text, lines).text == text + concat_text(
            run_lines(is_claude, text, lines).deltas,
        ),
        run_lines(is_claude, text, lines).outcome matches OutcomeView::Done(full) ==> full
            == run_lines(is_claude, text, lines).text,
    decreases lines.len(),
{
    if lines.len() > 0 {
        law_text_is_the_fragments_handed_on(is_claude, text, lines.drop_first());
        match line_event(is_claude, lines[0]) {
            SseEventView::Delta(d) => {
                let rest = run_lines(is_claude, text + d, lines.drop_first());
                law_text_is_the_fragments_handed_on(is_claude, text + d, lines.drop_first());
                assert((seq![d] + rest.deltas).drop_first() =~= rest.deltas);
                assert(text + d + concat_text(rest.deltas) =~= text + (d + concat_text(
                    rest.deltas,
                )));
            },
            SseEventView::Done => {
                assert(text + concat_text(Seq::<Seq<char>>::empty()) =~= text);
            },
            SseEventView::Error(m) => {
                assert(text + concat_text(Seq::<Seq<char>>::empty()) =~= text);
            },
            SseEventView::Ignore => {},
        }
    }
}

/// Reading `a` then `b` is reading `a`, then, if `a` left the stream open,
/// reading `b` from where `a` left the text.
proof fn lemma_run_lines_append(
    is_claude: bool,
    text: Seq<char>,
    a: Seq<Seq<char>>,
    b: Seq<Seq<char>>,
)
    ensures
        run_lines(is_claude, text, a).outcome is Continue ==> run_lines(is_claude, text, a + b)
            == after_deltas(
            run_lines(is_claude, text, a).deltas,
            run_lines(is_claude, run_lines(is_claude, text, a).text, b),
        ),
        !(run_lines(is_claude, text, a).outcome is Continue) ==> run_lines(is_claude, text, a + b)
            == run_lines(is_claude, text, a),
    decreases a.len(),
{
    if a.len() == 0 {
        assert(a + b =~= b);
        assert(Seq::<Seq<char>>::empty() + run_lines(is_claude, text, b).deltas =~= run_lines(
            is_claude,
            text,
            b,
        ).deltas);
    } else {
        assert((a + b)[0] == a[0]);
        assert((a + b).drop_first() =~= a.drop_first() + b);
        match line_event(is_claude, a[0]) {
            SseEventView::Delta(d) => {
                lemma_run_lines_append(is_claude, text + d, a.drop_first(), b);
                let r1 = run_lines(is_claude, text + d, a.drop_first());
                let r2 = run_lines(is_claude, r1.text, b);
                assert(seq![d] + (r1.deltas + r2.deltas) =~= (seq![d] + r1.deltas) + r2.deltas);
            },
            SseEventView::Ignore => {
                lemma_run_lines_append(is_claude, text, a.drop_first(), b);
            },
            _ => {},
        }
    }
}

/// Where the network splits the answer stream does not change what is
/// handed on, the answer text or how the stream ends: a chunk that leaves the
/// stream open, followed by another, acts as the two sent as one chunk.
pub proof fn law_chunk_split_does_not_change_the_answer(
    d: DecoderView,
    first: Seq<u8>,
    second: Seq<u8>,
)
    requires
        chunk_step(d, first).outcome is Continue,
    ensures
        chunk_step(d, first + second) == after_deltas(
            chunk_step(d, first).deltas,
            chunk_step(
                DecoderView {
                    is_claude: d.is_claude,
                    pending: split_lines(d.pending + first).1,
                    text: chunk_step(d, first).text,
                },
                second,
            ),
        ),
{
    law_split_point_does_not_matter(d.pending, first, second);
    assert(d.pending + first + second =~= d.pending + (first + second));
    lemma_run_lines_append(
        d.is_claude,
        d.text,
        chunk_lines(d.pending, first),
        chunk_lines(split_lines(d.pending + first).1, second),
    );
}

/// A decoder after one chunk of bytes.
pub open spec fn after_chunk(d: DecoderView, bytes: Seq<u8>) -> DecoderView {
    DecoderView {
        is_claude: d.is_claude,
        pending: split_lines(d.pending + bytes).1,
        text: chunk_step(d, bytes).text,
    }
}

/// Feeding a decoder chunk after chunk, as the streaming loop does: each
/// chunk's fragments are handed on, and the first chunk that ends the stream
/// (end marker or error) stops it.
pub open spec fn feed_chunks(d: DecoderView, chunks: Seq<Seq<u8>>) -> StepView
    decreases chunks.len(),
{
    if chunks.len() == 0 {
        StepView { deltas: Seq::empty(), text: d.text, outcome: OutcomeView::Continue }
    } else {
        let step = chunk_step(d, chunks[0]);
        if step.outcome is Continue {
            after_deltas(step.deltas, feed_chunks(after_chunk(d, chunks[0]), chunks.drop_first()))
        } else {
            step
        }
    }
}

/// All the bytes of a sequence of chunks, in order.
pub open spec fn concat_chunks(chunks: Seq<Seq<u8>>) -> Seq<u8>
    decreases chunks.len(),
{
    if chunks.len() == 0 {
        Seq::empty()
    } else {
        chunks[0] + concat_chunks(chunks.drop_first())
    }
}

/// A chunk that ends the stream hides whatever bytes follow it.
proof fn lemma_stop_ignores_the_rest(d: DecoderView, first: Seq<u8>, rest: Seq<u8>)
    requires
        !(chunk_step(d, first).outcome is Continue),
    ensures
        chunk_step(d, first + rest) == chunk_step(d, first),
{
    law_split_point_does_not_matter(d.pending, first, rest);
    assert(d.pending + first + rest =~= d.pending + (first + rest));
    lemma_run_lines_append(
        d.is_claude,
        d.text,
        chunk_lines(d.pending, first),
        chunk_lines(split_lines(d.pending + first).1, rest),
    );
}

/// An empty chunk changes nothing when no complete line is held back.
proof fn lemma_empty_chunk(d: DecoderView)
    requires
        !d.pending.contains(NEWLINE),
    ensures
        chunk_step(d, Seq::empty()) == (StepView {
            deltas: Seq::empty(),
            text: d.text,
            outcome: OutcomeView::Continue,
        }),
{
    assert(d.pending + Seq::<u8>::empty() =~= d.pending);
    lemma_split_lines_without_newline(d.pending);
    assert(line_texts(Seq::<Seq<u8>>::empty()) =~= Seq::<Seq<char>>::empty());
}

/// Feeding chunk after chunk gives the fragments, the answer text and the
/// ending of feeding all their bytes as one chunk.
pub proof fn law_chunks_act_as_their_bytes(d: DecoderView, chunks: Seq<Seq<u8>>)
    requires
        !d.pending.contains(NEWLINE),
    ensures
        feed_chunks(d, chunks) == chunk_step(d, concat_chunks(chunks)),
    decreases chunks.len(),
{
    if chunks.len() == 0 {
        lemma_empty_chunk(d);
    } else {
        let first = chunks[0];
        let rest = concat_chunks(chunks.drop_first());
        if chunk_step(d, first).outcome is Continue {
            law_chunk_split_does_not_change_the_answer(d, first, rest);
            law_partial_line_has_no_newline(d.pending + first);
            law_chunks_act_as_their_bytes(after_chunk(d, first), chunks.drop_first());
        } else {
            lemma_stop_ignores_the_rest(d, first, rest);
        }
    }
}

/// Any two ways of cutting the same bytes into chunks give the same
/// fragments, in the same order, the same answer text and the same ending:
/// where the network splits the stream does not matter.
pub proof fn law_any_chunking_gives_the_same_answer(
    d: DecoderView,
    chunks: Seq<Seq<u8>>,
    other_chunks: Seq<Seq<u8>>,
)
    requires
        !d.pending.contains(NEWLINE),
        concat_chunks(chunks) == concat_chunks(other_chunks),
    ensures
        feed_chunks(d, chunks) == feed_chunks(d, other_chunks),
{
    law_chunks_act_as_their_bytes(d, chunks);
    law_chunks_act_as_their_bytes(d, other_chunks);
}

impl StreamDecoder {
    /// A decoder with no text and nothing held back, for Anthropic's event
    /// format when `is_claude` holds and for the OpenAI-compatible one
    /// otherwise.
    pub fn new(is_claude: bool) -> (r: Self)
        ensures
            r@.is_claude == is_claude,
            r@.pending == Seq::<u8>::empty(),
            r@.text == Seq::<char>::empty(),
    {
        StreamDecoder { lines: SseLineBuffer::new(), text: String::new(), is_claude }
    }

    /// Feeds one chunk of network bytes: every line it completes is read in
    /// order until the end marker or an error.
    pub fn on_bytes(&mut self, bytes: &[u8]) -> (r: StreamStep)
        ensures
            final(self)@.is_claude == old(self)@.is_claude,
            final(self)@.pending == split_lines(old(self)@.pending + bytes@).1,
            final(self)@.text == chunk_step(old(self)@, bytes@).text,
            final(self)@ == after_chunk(old(self)@, bytes@),
            !final(self)@.pending.contains(NEWLINE),
            strings_view(r.deltas@) == chunk_step(old(self)@, bytes@).deltas,
            r.outcome@ == chunk_step(old(self)@, bytes@).outcome,
    {
        let ghost start = self@;
        proof {
            law_partial_line_has_no_newline(start.pending + bytes@);
        }
        let lines = self.lines.push(bytes);
        let ghost all = chunk_lines(start.pending, bytes@);
        assert(lines@.len() == all.len());
        assert forall|k: int| 0 <= k < all.len() implies #[trigger] all[k] == lines@[k]@ by {}
        let mut deltas: Vec<String> = Vec::new();
        let n = lines.len();
        assert(all.skip(0) =~= all);
        assert(strings_view(deltas@) + run_lines(start.is_claude, start.text, all).deltas
            =~= run_lines(start.is_claude, start.text, all).deltas);
        for i in 0..n
            invariant
                n == lines@.len(),
                n == all.len(),
                start == old(self)@,
                all == chunk_lines(start.pending, bytes@),
                forall|k: int| 0 <= k < n ==> #[trigger] all[k] == lines@[k]@,
                self@.is_claude == start.is_claude,
                self@.pending == split_lines(start.pending + bytes@).1,
                !split_lines(start.pending + bytes@).1.contains(NEWLINE),
                run_lines(start.is_claude, start.text, all) == after_deltas(
                    strings_view(deltas@),
                    run_lines(start.is_claude, self@.text, all.skip(i as int)),
                ),
        {
            let ghost tail = all.skip(i as int);
            assert(tail[0] == all[i as int]);
            assert(tail.drop_first() =~= all.skip(i + 1));
            let event = line_event_exec(self.is_claude, lines[i].as_str());
            let ghost done = strings_view(deltas@);
            let ghost rest = run_lines(start.is_claude, self@.text, tail);
            match event {
                SseEvent::Delta(d) => {
                    let ghost next = run_lines(start.is_claude, self@.text + d@, all.skip(i + 1));
                    assert(rest == after_deltas(seq![d@], next));
                    self.text.append(d.as_str());
                    deltas.push(d);
                    assert(strings_view(deltas@) =~= done.push(d@));
                    assert(done + (seq![d@] + next.deltas) =~= done.push(d@) + next.deltas);
                },
                SseEvent::Done => {
                    assert(done + rest.deltas =~= done);
                    let full = self.text.clone();
                    return StreamStep { deltas, outcome: StreamOutcome::Done(full) };
                },
                SseEvent::Error(m) => {
                    assert(done + rest.deltas =~= done);
                    let mut message = String::from_str(STREAM_ERROR_PREFIX);
                    message.append(m.as_str());
                    return StreamStep { deltas, outcome: StreamOutcome::Failed(message) };
                },
                SseEvent::Ignore => {
                    assert(rest == run_lines(start.is_claude, self@.text, all.skip(i + 1)));
                },
            }
        }
        assert(all.skip(n as int) =~= Seq::<Seq<char>>::empty());
        assert(strings_view(deltas@) + Seq::<Seq<char>>::empty() =~= strings_view(deltas@));
        StreamStep { deltas, outcome: StreamOutcome::Continue }
    }

    /// The answer text gathered so far; what the stream gave when it closed
    /// without an end marker.
    pub fn full_text(&self) -> (r: String)
        ensures
            r@ == self@.text,
    {
        self.text.clone()
    }
}

} // verus!
