use vstd::prelude::*;
use vstd::utf8::{
    decode_utf8, decode_utf8_split, is_char_boundary_iff_not_is_continuation_byte,
    length_of_first_scalar, pop_first_scalar, valid_first_scalar, valid_utf8, valid_utf8_concat,
    valid_utf8_split,
};
use crate::text::{trim_end_line_breaks, trim_end_line_breaks_str};

verus! {

/// The byte that ends a line.
pub const NEWLINE: u8 = 10u8;

/// `String::from_utf8_lossy`: the characters of `bytes`, with each invalid
/// UTF-8 sequence replaced by U+FFFD.
pub uninterp spec fn utf8_lossy(bytes: Seq<u8>) -> Seq<char>;

/// Splits a byte stream into its complete lines, each still ending with its
/// newline byte, and the partial line after the last newline.
pub open spec fn split_lines(s: Seq<u8>) -> (Seq<Seq<u8>>, Seq<u8>)
    decreases s.len(),
{
    if s.len() == 0 {
        (Seq::empty(), Seq::empty())
    } else {
        let (done, partial) = split_lines(s.drop_last());
        if s.last() == NEWLINE {
            (done.push(partial.push(NEWLINE)), Seq::empty())
        } else {
            (done, partial.push(s.last()))
        }
    }
}

/// The text of one complete line: its bytes before the newline byte
/// decoded as `from_utf8_lossy` does, without the line breaks (`'\r'`) left
/// at their end.
pub open spec fn line_text(segment: Seq<u8>) -> Seq<char> {
    trim_end_line_breaks(utf8_lossy(segment.drop_last()))
}

/// The texts of a sequence of complete lines.
pub open spec fn line_texts(segments: Seq<Seq<u8>>) -> Seq<Seq<char>> {
    segments.map_values(|seg: Seq<u8>| line_text(seg))
}

/// All the bytes of a sequence of byte strings, in order.
pub open spec fn concat_all(segments: Seq<Seq<u8>>) -> Seq<u8>
    decreases segments.len(),
{
    if segments.len() == 0 {
        Seq::empty()
    } else {
        concat_all(segments.drop_last()) + segments.last()
    }
}

/// A byte string without a newline is all partial line.
pub(crate) proof fn lemma_split_lines_without_newline(p: Seq<u8>)
    requires
        !p.contains(NEWLINE),
    ensures
        split_lines(p) == (Seq::<Seq<u8>>::empty(), p),
    decreases p.len(),
{
    if p.len() > 0 {
        assert(!p.drop_last().contains(NEWLINE)) by {
            if p.drop_last().contains(NEWLINE) {
                let k = choose|k: int| 0 <= k < p.drop_last().len() && p.drop_last()[k] == NEWLINE;
                assert(p[k] == NEWLINE);
            }
        }
        lemma_split_lines_without_newline(p.drop_last());
        assert(p.last() != NEWLINE) by {
            if p.last() == NEWLINE {
                assert(p[p.len() - 1] == NEWLINE);
            }
        }
        assert(p.drop_last().push(p.last()) =~= p);
    }
}

/// The bytes held back after a split never hold a newline.
pub proof fn law_partial_line_has_no_newline(s: Seq<u8>)
    ensures
        !split_lines(s).1.contains(NEWLINE),
    decreases s.len(),
{
    if s.len() > 0 {
        law_partial_line_has_no_newline(s.drop_last());
        let partial = split_lines(s.drop_last()).1;
        if s.last() != NEWLINE {
            assert(!partial.push(s.last()).contains(NEWLINE)) by {
                if partial.push(s.last()).contains(NEWLINE) {
                    let k = choose|k: int|
                        0 <= k < partial.push(s.last()).len() && partial.push(s.last())[k]
                            == NEWLINE;
                    if k < partial.len() {
                        assert(partial[k] == NEWLINE);
                    }
                }
            }
        }
    }
}

/// Every complete line ends with a newline and holds no other one.
pub proof fn law_complete_lines_end_at_their_only_newline(s: Seq<u8>, i: int)
    requires
        0 <= i < split_lines(s).0.len(),
    ensures
        split_lines(s).0[i].len() > 0,
        split_lines(s).0[i].last() == NEWLINE,
        !split_lines(s).0[i].drop_last().contains(NEWLINE),
    decreases s.len(),
{
    if s.len() > 0 {
        let (done, partial) = split_lines(s.drop_last());
        if i < done.len() {
            law_complete_lines_end_at_their_only_newline(s.drop_last(), i);
        } else {
            law_partial_line_has_no_newline(s.drop_last());
            assert(partial.push(NEWLINE).drop_last() =~= partial);
        }
    }
}

/// Splitting loses and adds no byte: the complete lines followed by the
/// partial line give back the input.
pub proof fn law_split_lines_keeps_every_byte(s: Seq<u8>)
    ensures
        concat_all(split_lines(s).0) + split_lines(s).1 == s,
    decreases s.len(),
{
    if s.len() == 0 {
        assert(concat_all(Seq::<Seq<u8>>::empty()) + Seq::<u8>::empty() =~= s);
    } else {
        law_split_lines_keeps_every_byte(s.drop_last());
        let (done, partial) = split_lines(s.drop_last());
        if s.last() == NEWLINE {
            assert(done.push(partial.push(NEWLINE)).drop_last() =~= done);
            assert(concat_all(done) + partial.push(NEWLINE) + Seq::<u8>::empty()
                =~= (concat_all(done) + partial).push(s.last()));
        } else {
            assert(concat_all(done) + partial.push(s.last())
                =~= (concat_all(done) + partial).push(s.last()));
        }
        assert(s.drop_last().push(s.last()) =~= s);
    }
}

/// Splitting `a + b` is splitting `a`, then splitting what `a` held back
/// followed by `b`.
proof fn lemma_split_lines_append(a: Seq<u8>, b: Seq<u8>)
    ensures
        split_lines(a + b).0 == split_lines(a).0 + split_lines(split_lines(a).1 + b).0,
        split_lines(a + b).1 == split_lines(split_lines(a).1 + b).1,
    decreases b.len(),
{
    let p = split_lines(a).1;
    if b.len() == 0 {
        assert(a + b =~= a);
        assert(p + b =~= p);
        law_partial_line_has_no_newline(a);
        lemma_split_lines_without_newline(p);
        assert(split_lines(a).0 + Seq::<Seq<u8>>::empty() =~= split_lines(a).0);
    } else {
        let b1 = b.drop_last();
        lemma_split_lines_append(a, b1);
        assert((a + b).drop_last() =~= a + b1);
        assert((p + b).drop_last() =~= p + b1);
        assert((a + b).last() == b.last());
        assert((p + b).last() == b.last());
        let (s1, r1) = split_lines(p + b1);
        if b.last() == NEWLINE {
            assert((split_lines(a).0 + s1).push(r1.push(NEWLINE)) =~= split_lines(a).0 + s1.push(
                r1.push(NEWLINE),
            ));
        }
    }
}

/// Feeding a byte stream to the buffer in two pieces yields the same lines,
/// in the same order, and holds back the same partial line, as feeding it at
/// once: where the network splits the stream does not matter.
pub proof fn law_split_point_does_not_matter(held: Seq<u8>, first: Seq<u8>, second: Seq<u8>)
    ensures
        split_lines(held + first).0 + split_lines(split_lines(held + first).1 + second).0
            == split_lines(held + first + second).0,
        split_lines(split_lines(held + first).1 + second).1 == split_lines(
            held + first + second,
        ).1,
        line_texts(split_lines(held + first).0) + line_texts(
            split_lines(split_lines(held + first).1 + second).0,
        ) == line_texts(split_lines(held + first + second).0),
{
    lemma_split_lines_append(held + first, second);
    let x = split_lines(held + first).0;
    let y = split_lines(split_lines(held + first).1 + second).0;
    assert(line_texts(x) + line_texts(y) =~= line_texts(x + y));
}

/// Splitting on the newline byte is safe for UTF-8: when the stream is
/// valid UTF-8, every complete line and the held-back partial line are
/// valid UTF-8 too, so no character is ever cut in two.
pub proof fn law_lines_of_valid_utf8_are_valid(s: Seq<u8>)
    requires
        valid_utf8(s),
    ensures
        forall|i: int|
            0 <= i < split_lines(s).0.len() ==> valid_utf8(#[trigger] split_lines(s).0[i]),
        valid_utf8(split_lines(s).1),
    decreases s.len(),
{
    s.index_of_first_ensures(NEWLINE);
    match s.index_of_first(NEWLINE) {
        None => {
            lemma_split_lines_without_newline(s);
        },
        Some(j) => {
            let a = s.subrange(0, j + 1);
            let b = s.subrange(j + 1, s.len() as int);
            let p = s.subrange(0, j);
            let t = s.subrange(j, s.len() as int);
            assert(s =~= a + b);
            assert(!p.contains(NEWLINE)) by {
                if p.contains(NEWLINE) {
                    let k = choose|k: int| 0 <= k < p.len() && p[k] == NEWLINE;
                    assert(s[k] == NEWLINE);
                }
            }
            lemma_split_lines_without_newline(p);
            assert(a.drop_last() =~= p);
            assert(p.push(NEWLINE) =~= a);
            lemma_split_lines_append(a, b);
            assert(Seq::<u8>::empty() + b =~= b);
            is_char_boundary_iff_not_is_continuation_byte(s, j);
            valid_utf8_split(s, j);
            assert(t[0] == NEWLINE);
            assert(valid_first_scalar(t) && valid_utf8(pop_first_scalar(t)));
            assert(length_of_first_scalar(t) == 1);
            assert(pop_first_scalar(t) =~= b);
            let nl = seq![NEWLINE];
            assert(valid_utf8(nl)) by {
                assert(pop_first_scalar(nl) =~= Seq::<u8>::empty());
                reveal_with_fuel(valid_utf8, 2);
            }
            valid_utf8_concat(p, nl);
            assert(p + nl =~= a);
            law_lines_of_valid_utf8_are_valid(b);
            assert forall|i: int|
                0 <= i < split_lines(s).0.len() implies valid_utf8(#[trigger] split_lines(s).0[i]) by {
                if i > 0 {
                    assert(split_lines(s).0[i] == split_lines(b).0[i - 1]);
                }
            }
        },
    }
}

/// A line break trimmed away leaves a prefix of the text.
proof fn lemma_trim_line_breaks_is_prefix(s: Seq<char>)
    ensures
        trim_end_line_breaks(s).len() <= s.len(),
        trim_end_line_breaks(s) == s.subrange(0, trim_end_line_breaks(s).len() as int),
    decreases s.len(),
{
    if s.len() > 0 && (s.last() == '\n' || s.last() == '\r') {
        lemma_trim_line_breaks_is_prefix(s.drop_last());
        assert(s.drop_last().subrange(0, trim_end_line_breaks(s).len() as int) =~= s.subrange(
            0,
            trim_end_line_breaks(s).len() as int,
        ));
    } else {
        assert(s.subrange(0, s.len() as int) =~= s);
    }
}

/// A valid line decodes to the decoding of its bytes before the newline,
/// followed by the newline, which trimming drops.
proof fn lemma_valid_line(seg: Seq<u8>)
    requires
        valid_utf8(seg),
        seg.len() > 0,
        seg.last() == NEWLINE,
    ensures
        valid_utf8(seg.drop_last()),
        trim_end_line_breaks(decode_utf8(seg)) == trim_end_line_breaks(decode_utf8(seg.drop_last())),
{
    let j = seg.len() - 1;
    is_char_boundary_iff_not_is_continuation_byte(seg, j);
    valid_utf8_split(seg, j);
    decode_utf8_split(seg, j);
    let p = seg.subrange(0, j);
    let t = seg.subrange(j, seg.len() as int);
    assert(p =~= seg.drop_last());
    assert(t =~= seq![NEWLINE]);
    assert(pop_first_scalar(t) =~= Seq::<u8>::empty());
    assert(decode_utf8(t) =~= seq!['\n']) by {
        assert(NEWLINE & 0x7Fu8 == 10u8) by (bit_vector);
        assert(decode_utf8(pop_first_scalar(t)) =~= Seq::<char>::empty());
        assert((10u32 as char) == '\n');
        reveal_with_fuel(decode_utf8, 2);
    }
    assert((decode_utf8(p) + seq!['\n']).drop_last() =~= decode_utf8(p));
}

/// Decodes bytes with `String::from_utf8_lossy`. Valid UTF-8 decodes as it
/// is; each invalid sequence becomes U+FFFD, so bytes without a newline
/// byte give text without a newline.
#[verifier::external_body]
fn utf8_lossy_string(bytes: &[u8]) -> (r: String)
    ensures
        r@ == utf8_lossy(bytes@),
        valid_utf8(bytes@) ==> r@ == decode_utf8(bytes@),
        !bytes@.contains(NEWLINE) ==> !r@.contains('\n'),
{
    String::from_utf8_lossy(bytes).into_owned()
}

/// Accumulates raw network bytes and yields complete lines. SSE `data:`
/// lines can be split across network chunks, so partial lines stay buffered.
/// Lines are split on the newline byte, which never occurs inside a
/// multi-byte UTF-8 character.
pub struct SseLineBuffer {
    buf: Vec<u8>,
}

impl View for SseLineBuffer {
    type V = Seq<u8>;

    /// The bytes of the partial line held back so far.
    closed spec fn view(&self) -> Seq<u8> {
        self.buf@
    }
}

impl SseLineBuffer {
    /// An empty buffer.
    pub fn new() -> (r: Self)
        ensures
            r@ == Seq::<u8>::empty(),
    {
        SseLineBuffer { buf: Vec::new() }
    }

    /// Appends `bytes` and returns, in order, the text of every line that is
    /// now complete, without its line breaks; the bytes after the last
    /// newline stay buffered.
    pub fn push(&mut self, bytes: &[u8]) -> (lines: Vec<String>)
        ensures
            final(self)@ == split_lines(old(self)@ + bytes@).1,
            lines@.len() == split_lines(old(self)@ + bytes@).0.len(),
            forall|i: int|
                0 <= i < lines@.len() ==> #[trigger] lines@[i]@ == line_text(
                    split_lines(old(self)@ + bytes@).0[i],
                ),
            forall|i: int|
                0 <= i < lines@.len() && valid_utf8(split_lines(old(self)@ + bytes@).0[i])
                    ==> #[trigger] lines@[i]@ == trim_end_line_breaks(
                    decode_utf8(split_lines(old(self)@ + bytes@).0[i]),
                ),
            forall|i: int| 0 <= i < lines@.len() ==> !(#[trigger] lines@[i]@).contains('\n'),
    {
        let mut data: Vec<u8> = Vec::new();
        std::mem::swap(&mut data, &mut self.buf);
        let ghost held = data@;
        let m = bytes.len();
        for j in 0..m
            invariant
                m == bytes@.len(),
                held == old(self)@,
                data@ == held + bytes@.take(j as int),
        {
            assert(bytes@.take(j + 1) =~= bytes@.take(j as int).push(bytes@[j as int]));
            data.push(bytes[j]);
        }
        assert(bytes@.take(m as int) =~= bytes@);
        let ghost input = data@;
        let mut lines: Vec<String> = Vec::new();
        let mut current: Vec<u8> = Vec::new();
        let n = data.len();
        assert(input.take(0) =~= Seq::<u8>::empty());
        for i in 0..n
            invariant
                n == data@.len(),
                input == data@,
                current@ == split_lines(input.take(i as int)).1,
                lines@.len() == split_lines(input.take(i as int)).0.len(),
                forall|k: int|
                    0 <= k < lines@.len() ==> #[trigger] lines@[k]@ == line_text(
                        split_lines(input.take(i as int)).0[k],
                    ),
                forall|k: int|
                    0 <= k < lines@.len() && valid_utf8(split_lines(input.take(i as int)).0[k])
                        ==> #[trigger] lines@[k]@ == trim_end_line_breaks(
                        decode_utf8(split_lines(input.take(i as int)).0[k]),
                    ),
                forall|k: int| 0 <= k < lines@.len() ==> !(#[trigger] lines@[k]@).contains('\n'),
        {
            let b = data[i];
            assert(input.take(i + 1).drop_last() =~= input.take(i as int));
            proof {
                law_partial_line_has_no_newline(input.take(i as int));
            }
            if b == NEWLINE {
                let ghost seg = current@.push(NEWLINE);
                assert(seg.drop_last() =~= current@);
                let decoded = utf8_lossy_string(current.as_slice());
                let line = String::from_str(trim_end_line_breaks_str(decoded.as_str()));
                proof {
                    lemma_trim_line_breaks_is_prefix(decoded@);
                    if line@.contains('\n') {
                        let q = choose|q: int| 0 <= q < line@.len() && line@[q] == '\n';
                        assert(decoded@[q] == '\n');
                    }
                    if valid_utf8(seg) {
                        lemma_valid_line(seg);
                    }
                }
                lines.push(line);
                current = Vec::new();
            } else {
                current.push(b);
            }
        }
        assert(input.take(n as int) =~= input);
        self.buf = current;
        lines
    }
}

} // verus!
