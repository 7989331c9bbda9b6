//! Laws of the framing machine: how a connection behaves over whole runs of
//! reads, independently of how the bytes were chunked.

use vstd::prelude::*;
use crate::conn::{read_step, ActionModel, ConnModel, Decision, decide};
use crate::frame::{frame_incomplete, frame_malformed, frame_request, request_cseq, request_segments};

verus! {

/// The bytes of `chunks` laid end to end.
pub open spec fn concat_chunks(chunks: Seq<Seq<u8>>) -> Seq<u8>
    decreases chunks.len(),
{
    if chunks.len() == 0 {
        Seq::empty()
    } else {
        concat_chunks(chunks.drop_last()) + chunks.last()
    }
}

/// A run of reads: feed `chunks` one by one into a connection whose buffer
/// holds `buf`, stepping only while it is still reading.
pub open spec fn run_reads(buf: Seq<u8>, chunks: Seq<Seq<u8>>) -> (ConnModel, ActionModel)
    decreases chunks.len(),
{
    if chunks.len() == 0 {
        ((ConnModel::Reading { buf: buf }), ActionModel::KeepReading)
    } else {
        let prev = run_reads(buf, chunks.drop_last());
        if prev.0 is Reading {
            read_step(prev.0->Reading_buf, chunks.last())
        } else {
            prev
        }
    }
}

/// Framing does not depend on the chunking. As long as every proper prefix
/// of the gathered bytes still framed as incomplete, feeding the chunks one
/// by one ends in the same state, with the same action, as feeding all their
/// bytes in one piece.
pub proof fn lemma_chunking_irrelevant(buf: Seq<u8>, chunks: Seq<Seq<u8>>)
    requires
        chunks.len() > 0,
        forall|i: int|
            0 < i < chunks.len() ==> frame_incomplete(buf + concat_chunks(#[trigger] chunks.take(i))),
    ensures
        run_reads(buf, chunks) == read_step(buf, concat_chunks(chunks)),
    decreases chunks.len(),
{
    if chunks.len() == 1 {
        assert(chunks.drop_last().len() == 0);
        assert(concat_chunks(chunks.drop_last()) == Seq::<u8>::empty());
        assert(concat_chunks(chunks) =~= chunks.last());
        assert(run_reads(buf, chunks.drop_last()) == (
            (ConnModel::Reading { buf: buf }),
            ActionModel::KeepReading,
        ));
        assert(run_reads(buf, chunks) == read_step(buf, chunks.last()));
    } else {
        let front = chunks.drop_last();
        assert forall|i: int|
            0 < i < front.len() implies frame_incomplete(
            buf + concat_chunks(#[trigger] front.take(i)),
        ) by {
            assert(front.take(i) =~= chunks.take(i));
            assert(frame_incomplete(buf + concat_chunks(chunks.take(i))));
        }
        lemma_chunking_irrelevant(buf, front);
        assert(chunks.take(chunks.len() - 1) =~= front);
        assert(frame_incomplete(buf + concat_chunks(front)));
        assert(decide(buf + concat_chunks(front)) is Wait);
        assert(run_reads(buf, front) == (
            (ConnModel::Reading { buf: buf + concat_chunks(front) }),
            ActionModel::KeepReading,
        ));
        assert((buf + concat_chunks(front)) + chunks.last() =~= buf + concat_chunks(chunks));
        assert(run_reads(buf, chunks) == read_step(buf + concat_chunks(front), chunks.last()));
    }
}

/// A strict prefix that still frames as incomplete draws no reply and loses
/// no bytes: the step buffers the prefix whole and keeps reading, and the
/// step on the remaining bytes ends exactly as if the whole message had
/// arrived at once.
pub proof fn lemma_prefix_then_rest(prefix: Seq<u8>, rest: Seq<u8>)
    requires
        frame_incomplete(prefix),
    ensures
        read_step(Seq::empty(), prefix) == (
            (ConnModel::Reading { buf: prefix }),
            ActionModel::KeepReading,
        ),
        read_step(prefix, rest) == read_step(Seq::empty(), prefix + rest),
{
    assert(Seq::<u8>::empty() + prefix =~= prefix);
    assert(Seq::<u8>::empty() + (prefix + rest) =~= prefix + rest);
}

/// A complete request that lacks a sequence-number header, or whose target
/// URI is missing or has fewer than three path segments, closes the
/// connection with no reply.
pub proof fn lemma_missing_fields_no_reply(buf: Seq<u8>, chunk: Seq<u8>)
    requires
        frame_request(buf + chunk),
        !frame_incomplete(buf + chunk),
        !frame_malformed(buf + chunk),
        request_cseq(buf + chunk) is None || request_segments(buf + chunk) is None || (
        request_segments(buf + chunk) matches Some(segs) && segs.len() < 3),
    ensures
        read_step(buf, chunk) == (ConnModel::Done, ActionModel::Close),
{
}

/// Bytes that can never form a valid message, or a complete message that is
/// not a request, close the connection with no reply.
pub proof fn lemma_unusable_bytes_close(buf: Seq<u8>, chunk: Seq<u8>)
    requires
        !frame_incomplete(buf + chunk),
        frame_malformed(buf + chunk) || !frame_request(buf + chunk),
    ensures
        read_step(buf, chunk) == (ConnModel::Done, ActionModel::Close),
{
}

} // verus!
