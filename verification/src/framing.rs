//! Newline framing of streamed bodies: how lines are laid out one after
//! another, and how a reader splits a body back into its lines.
use vstd::prelude::*;

verus! {

/// The byte that ends each line of a streamed body.
pub const NEWLINE: u8 = 10u8;

/// A payload that can stand on one line: it holds no newline byte.
pub open spec fn single_line(payload: Seq<u8>) -> bool {
    forall|i: int| 0 <= i < payload.len() ==> #[trigger] payload[i] != NEWLINE
}

/// One line of a streamed body: the payload followed by a newline.
pub open spec fn frame_line(payload: Seq<u8>) -> Seq<u8> {
    payload.push(NEWLINE)
}

/// A line is never empty, and its only newline is its last byte.
pub proof fn lemma_line_ends_with_its_only_newline(payload: Seq<u8>)
    requires
        single_line(payload),
    ensures
        frame_line(payload).len() == payload.len() + 1,
        frame_line(payload).last() == NEWLINE,
        forall|i: int| 0 <= i < payload.len() ==> #[trigger] frame_line(payload)[i] != NEWLINE,
{
    assert forall|i: int| 0 <= i < payload.len() implies #[trigger] frame_line(payload)[i] != NEWLINE by {
        assert(frame_line(payload)[i] == payload[i]);
    }
}

/// The lines of the given payloads, one after another, in order.
pub open spec fn frame_lines(payloads: Seq<Seq<u8>>) -> Seq<u8>
    decreases payloads.len(),
{
    if payloads.len() == 0 {
        Seq::empty()
    } else {
        frame_line(payloads[0]) + frame_lines(payloads.drop_first())
    }
}

/// Chunks sent one after another, as a reader receives them.
pub open spec fn concat_chunks(chunks: Seq<Seq<u8>>) -> Seq<u8>
    decreases chunks.len(),
{
    if chunks.len() == 0 {
        Seq::empty()
    } else {
        chunks[0] + concat_chunks(chunks.drop_first())
    }
}

/// The lines of two runs of payloads are the lines of the first run
/// followed by the lines of the second.
pub proof fn lemma_frame_lines_append(first: Seq<Seq<u8>>, second: Seq<Seq<u8>>)
    ensures
        frame_lines(first + second) == frame_lines(first) + frame_lines(second),
    decreases first.len(),
{
    if first.len() == 0 {
        assert(first + second =~= second);
        assert(frame_lines(first) + frame_lines(second) =~= frame_lines(second));
    } else {
        lemma_frame_lines_append(first.drop_first(), second);
        assert((first + second).drop_first() =~= first.drop_first() + second);
        assert((first + second)[0] == first[0]);
        assert(frame_line(first[0]) + (frame_lines(first.drop_first()) + frame_lines(second))
            =~= (frame_line(first[0]) + frame_lines(first.drop_first())) + frame_lines(second));
    }
}

/// Chunks that are each the line of the matching payload make up the lines
/// of all the payloads.
pub proof fn lemma_chunks_are_frame_lines(chunks: Seq<Seq<u8>>, payloads: Seq<Seq<u8>>)
    requires
        chunks.len() == payloads.len(),
        forall|i: int| 0 <= i < chunks.len() ==> #[trigger] chunks[i] == frame_line(payloads[i]),
    ensures
        concat_chunks(chunks) == frame_lines(payloads),
    decreases chunks.len(),
{
    if chunks.len() > 0 {
        let ct = chunks.drop_first();
        let pt = payloads.drop_first();
        assert forall|i: int| 0 <= i < ct.len() implies #[trigger] ct[i] == frame_line(pt[i]) by {
            assert(ct[i] == chunks[i + 1]);
            assert(pt[i] == payloads[i + 1]);
        }
        lemma_chunks_are_frame_lines(ct, pt);
        assert(chunks[0] == frame_line(payloads[0]));
    }
}

/// Index of the first newline byte in `s`, or `s.len()` where it has none.
pub open spec fn first_newline(s: Seq<u8>) -> int
    decreases s.len(),
{
    if s.len() == 0 {
        0
    } else if s[0] == NEWLINE {
        0
    } else {
        1 + first_newline(s.drop_first())
    }
}

/// What a reader sees when it splits `body` at each newline: every line
/// without its newline, in order; bytes after the last newline, if any,
/// form a last line of their own.
pub open spec fn split_lines(body: Seq<u8>) -> Seq<Seq<u8>>
    decreases body.len(),
{
    if body.len() == 0 {
        Seq::empty()
    } else {
        let i = first_newline(body);
        if 0 <= i < body.len() {
            seq![body.take(i)] + split_lines(body.skip(i + 1))
        } else {
            seq![body]
        }
    }
}

/// The first newline of a framed line followed by anything comes right
/// after the line's payload.
pub proof fn lemma_first_newline_of_line(payload: Seq<u8>, rest: Seq<u8>)
    requires
        single_line(payload),
    ensures
        first_newline(frame_line(payload) + rest) == payload.len(),
    decreases payload.len(),
{
    let body = frame_line(payload) + rest;
    if payload.len() == 0 {
        assert(body[0] == NEWLINE);
    } else {
        assert(body[0] == payload[0]);
        let tail = payload.drop_first();
        assert(single_line(tail)) by {
            assert forall|i: int| 0 <= i < tail.len() implies #[trigger] tail[i] != NEWLINE by {
                assert(tail[i] == payload[i + 1]);
            }
        }
        lemma_first_newline_of_line(tail, rest);
        assert(body.drop_first() =~= frame_line(tail) + rest);
    }
}

/// Splitting a framed line followed by anything gives the line's payload,
/// then the lines of the rest.
pub proof fn lemma_split_after_line(payload: Seq<u8>, rest: Seq<u8>)
    requires
        single_line(payload),
    ensures
        split_lines(frame_line(payload) + rest) == seq![payload] + split_lines(rest),
{
    let body = frame_line(payload) + rest;
    lemma_first_newline_of_line(payload, rest);
    assert(body.take(payload.len() as int) =~= payload);
    assert(body.skip(payload.len() + 1int) =~= rest);
}

/// Splitting the lines of single-line payloads gives back the payloads.
pub proof fn lemma_split_frame_lines(payloads: Seq<Seq<u8>>)
    requires
        forall|i: int| 0 <= i < payloads.len() ==> single_line(#[trigger] payloads[i]),
    ensures
        split_lines(frame_lines(payloads)) == payloads,
    decreases payloads.len(),
{
    if payloads.len() == 0 {
        assert(split_lines(frame_lines(payloads)) =~= payloads);
    } else {
        let tail = payloads.drop_first();
        assert forall|i: int| 0 <= i < tail.len() implies single_line(#[trigger] tail[i]) by {
            assert(tail[i] == payloads[i + 1]);
        }
        lemma_split_frame_lines(tail);
        assert(single_line(payloads[0]));
        lemma_split_after_line(payloads[0], frame_lines(tail));
        assert(seq![payloads[0]] + tail =~= payloads);
    }
}

} // verus!
