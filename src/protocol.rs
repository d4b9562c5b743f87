use vstd::prelude::*;

verus! {

/// One unit handed from the download side to the upload side.
#[derive(Debug)]
pub enum Message {
    /// A chunk of the download's body.
    Bytes(Vec<u8>),
    /// One raw response header line of the download.
    HeaderLine(String),
    /// The end of the download's headers; its body follows.
    EndOfHeaders,
    /// The download's body is complete; the closing boundary follows.
    PrepareToFinish,
    /// The end of the stream.
    Stop,
}

/// Header phase: only header lines so far.
pub open spec fn phase_headers() -> nat {
    0
}

/// Body phase: the headers have ended.
pub open spec fn phase_body() -> nat {
    1
}

/// Finishing phase: the body has ended.
pub open spec fn phase_finishing() -> nat {
    2
}

/// The stream has stopped.
pub open spec fn phase_stopped() -> nat {
    3
}

/// The phase after one more message, or `None` when the message is out of place in
/// `HeaderLine* EndOfHeaders Bytes* PrepareToFinish Stop`.
pub open spec fn next_phase(p: nat, m: Message) -> Option<nat> {
    match m {
        Message::HeaderLine(_) => if p == phase_headers() {
            Some(phase_headers())
        } else {
            None
        },
        Message::EndOfHeaders => if p == phase_headers() {
            Some(phase_body())
        } else {
            None
        },
        Message::Bytes(_) => if p == phase_body() {
            Some(phase_body())
        } else {
            None
        },
        Message::PrepareToFinish => if p == phase_body() {
            Some(phase_finishing())
        } else {
            None
        },
        Message::Stop => if p == phase_finishing() {
            Some(phase_stopped())
        } else {
            None
        },
    }
}

/// The phase a message sequence leaves the stream in, or `None` when it is not a prefix of
/// `HeaderLine* EndOfHeaders Bytes* PrepareToFinish Stop`.
pub open spec fn phase_after(h: Seq<Message>) -> Option<nat>
    decreases h.len(),
{
    if h.len() == 0 {
        Some(phase_headers())
    } else {
        match phase_after(h.drop_last()) {
            Some(p) => next_phase(p, h.last()),
            None => None,
        }
    }
}

/// The body bytes a message sequence carries, concatenated in order.
pub open spec fn payload_bytes(h: Seq<Message>) -> Seq<u8>
    decreases h.len(),
{
    if h.len() == 0 {
        Seq::empty()
    } else {
        match h.last() {
            Message::Bytes(d) => payload_bytes(h.drop_last()) + d@,
            _ => payload_bytes(h.drop_last()),
        }
    }
}

/// The number of `Bytes` messages in a sequence.
pub open spec fn count_bytes(h: Seq<Message>) -> nat
    decreases h.len(),
{
    if h.len() == 0 {
        0
    } else {
        count_bytes(h.drop_last()) + if h.last() is Bytes {
            1nat
        } else {
            0nat
        }
    }
}

/// The number of `EndOfHeaders` messages in a sequence.
pub open spec fn count_end_of_headers(h: Seq<Message>) -> nat
    decreases h.len(),
{
    if h.len() == 0 {
        0
    } else {
        count_end_of_headers(h.drop_last()) + if h.last() is EndOfHeaders {
            1nat
        } else {
            0nat
        }
    }
}

/// A message sequence in which nothing follows `Stop` and every kind stands in its place.
pub open spec fn is_complete(h: Seq<Message>) -> bool {
    phase_after(h) == Some(phase_stopped())
}

/// A sequence without `Bytes` carries no body bytes.
pub proof fn lemma_no_bytes_no_payload(h: Seq<Message>)
    requires
        count_bytes(h) == 0,
    ensures
        payload_bytes(h) == Seq::<u8>::empty(),
    decreases h.len(),
{
    if h.len() > 0 {
        lemma_no_bytes_no_payload(h.drop_last());
    }
}

/// How each measure of a message sequence changes when one message is added.
pub proof fn lemma_push(h: Seq<Message>, m: Message)
    ensures
        phase_after(h.push(m)) == match phase_after(h) {
            Some(p) => next_phase(p, m),
            None => None,
        },
        payload_bytes(h.push(m)) == match m {
            Message::Bytes(d) => payload_bytes(h) + d@,
            _ => payload_bytes(h),
        },
        count_bytes(h.push(m)) == count_bytes(h) + if m is Bytes {
            1nat
        } else {
            0nat
        },
        count_end_of_headers(h.push(m)) == count_end_of_headers(h) + if m is EndOfHeaders {
            1nat
        } else {
            0nat
        },
{
    assert(h.push(m).drop_last() =~= h);
}

/// What each phase says of a sequence that reaches it.
proof fn lemma_phase_shape(h: Seq<Message>)
    requires
        phase_after(h) is Some,
    ensures
        ({
            let p = phase_after(h)->0;
            &&& count_end_of_headers(h) == if p == phase_headers() {
                0nat
            } else {
                1nat
            }
            &&& p == phase_headers() ==> forall|i: int| 0 <= i < h.len() ==> #[trigger] h[i] is HeaderLine
            &&& forall|i: int, j: int|
                0 <= i < h.len() && 0 <= j < h.len() && #[trigger] h[i] is Bytes
                    && #[trigger] h[j] is EndOfHeaders ==> j < i
            &&& p <= phase_body() ==> forall|i: int|
                0 <= i < h.len() ==> !(#[trigger] h[i] is PrepareToFinish) && !(h[i] is Stop)
            &&& p == phase_finishing() ==> h.last() is PrepareToFinish && forall|i: int|
                0 <= i < h.len() - 1 ==> !(#[trigger] h[i] is PrepareToFinish) && !(h[i] is Stop)
            &&& p == phase_stopped() ==> h.len() >= 2 && h[h.len() - 2] is PrepareToFinish
                && h.last() is Stop && forall|i: int|
                0 <= i < h.len() - 2 ==> !(#[trigger] h[i] is PrepareToFinish) && !(h[i] is Stop)
        }),
    decreases h.len(),
{
    if h.len() > 0 {
        let h0 = h.drop_last();
        lemma_phase_shape(h0);
        lemma_push(h0, h.last());
        assert(h0.push(h.last()) =~= h);
        assert(forall|i: int| 0 <= i < h0.len() ==> h[i] == h0[i]);
    }
}

/// The headers end exactly once, and before the first body chunk, in every sequence the
/// upload side accepts, whatever the number of header lines before them.
pub proof fn lemma_end_of_headers_once_before_bytes(h: Seq<Message>)
    requires
        phase_after(h) is Some,
        phase_after(h) != Some(phase_headers()),
    ensures
        count_end_of_headers(h) == 1,
        forall|i: int, j: int|
            0 <= i < h.len() && 0 <= j < h.len() && #[trigger] h[i] is Bytes
                && #[trigger] h[j] is EndOfHeaders ==> j < i,
{
    lemma_phase_shape(h);
}

/// A complete sequence ends with `PrepareToFinish` then `Stop`, and neither stands anywhere
/// else.
pub proof fn lemma_finish_signals_last(h: Seq<Message>)
    requires
        is_complete(h),
    ensures
        h.len() >= 2,
        h[h.len() - 2] is PrepareToFinish,
        h[h.len() - 1] is Stop,
        forall|i: int|
            0 <= i < h.len() - 2 ==> !(#[trigger] h[i] is PrepareToFinish) && !(h[i] is Stop),
{
    lemma_phase_shape(h);
}

/// Relaying keeps every body byte in order: the bytes of a sequence cut in two are those of
/// the first part followed by those of the second.
pub proof fn lemma_payload_concat(h1: Seq<Message>, h2: Seq<Message>)
    ensures
        payload_bytes(h1 + h2) == payload_bytes(h1) + payload_bytes(h2),
    decreases h2.len(),
{
    if h2.len() == 0 {
        assert(h1 + h2 =~= h1);
        assert(payload_bytes(h1) + payload_bytes(h2) =~= payload_bytes(h1));
    } else {
        let h2p = h2.drop_last();
        lemma_payload_concat(h1, h2p);
        assert((h1 + h2).drop_last() =~= h1 + h2p);
        assert((h1 + h2).last() == h2.last());
        match h2.last() {
            Message::Bytes(d) => {
                assert(payload_bytes(h1) + payload_bytes(h2p) + d@ =~= payload_bytes(h1) + (
                payload_bytes(h2p) + d@));
            },
            _ => {},
        }
    }
}

/// Every prefix of an admitted sequence is admitted too: the upload side accepts each
/// message of a complete stream in turn, whatever the download's outcome was.
pub proof fn lemma_prefixes_admitted(h: Seq<Message>, n: int)
    requires
        phase_after(h) is Some,
        0 <= n <= h.len(),
    ensures
        phase_after(h.subrange(0, n)) is Some,
    decreases h.len(),
{
    if n < h.len() {
        lemma_prefixes_admitted(h.drop_last(), n);
        assert(h.drop_last().subrange(0, n) =~= h.subrange(0, n));
    } else {
        assert(h.subrange(0, n) =~= h);
    }
}

/// The chunks that a sequence of `Bytes` messages carries.
pub open spec fn chunks_of(h: Seq<Message>) -> Seq<Seq<u8>> {
    h.map_values(|m: Message| m->Bytes_0@)
}

/// Streaming is lossless and keeps order for any chunking: the body bytes of a run of
/// `Bytes` messages are their chunks joined end to end.
pub proof fn lemma_chunks_relay_losslessly(h: Seq<Message>)
    requires
        forall|i: int| 0 <= i < h.len() ==> #[trigger] h[i] is Bytes,
    ensures
        payload_bytes(h) == chunks_of(h).flatten(),
    decreases h.len(),
{
    if h.len() > 0 {
        let h0 = h.drop_last();
        lemma_chunks_relay_losslessly(h0);
        assert(chunks_of(h) =~= chunks_of(h0).push(h.last()->Bytes_0@));
        chunks_of(h0).lemma_flatten_push(h.last()->Bytes_0@);
    }
}

} // verus!
