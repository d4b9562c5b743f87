use vstd::prelude::*;
use vstd::string::*;

use crate::protocol::{
    is_complete, payload_bytes, phase_after, phase_body, phase_finishing, phase_headers, phase_stopped, Message,
};

verus! {

/// The download side of the pipe: turns the transfer's header lines, body chunks and
/// completion into the messages the upload side reads.
pub struct DownloadSession {
    headers_ended: bool,
    finished: bool,
    sent: Ghost<Seq<Message>>,
}

impl DownloadSession {
    /// The messages handed out so far, in order.
    pub closed spec fn sent(&self) -> Seq<Message> {
        self.sent@
    }

    pub closed spec fn headers_ended(&self) -> bool {
        self.headers_ended
    }

    pub closed spec fn finished(&self) -> bool {
        self.finished
    }

    /// The messages handed out so far follow the grammar, in the phase the flags record.
    pub closed spec fn wf(&self) -> bool {
        &&& phase_after(self.sent@) == Some(
            if self.finished {
                phase_stopped()
            } else if self.headers_ended {
                phase_body()
            } else {
                phase_headers()
            },
        )
        &&& self.finished ==> self.headers_ended
    }

    pub fn new() -> (r: DownloadSession)
        ensures
            r.wf(),
            r.sent() == Seq::<Message>::empty(),
            !r.headers_ended(),
            !r.finished(),
    {
        DownloadSession { headers_ended: false, finished: false, sent: Ghost(Seq::empty()) }
    }

    /// Handles one raw response header line. The blank line that ends the headers becomes
    /// `EndOfHeaders`, any other line a `HeaderLine`; lines after the headers ended (a later
    /// header block) are dropped.
    pub fn on_header_line(&mut self, line: String) -> (r: Vec<Message>)
        requires
            old(self).wf(),
            !old(self).finished(),
        ensures
            final(self).wf(),
            !final(self).finished(),
            final(self).sent() == old(self).sent() + r@,
            payload_bytes(final(self).sent()) == payload_bytes(old(self).sent()),
            old(self).headers_ended() ==> r@.len() == 0 && final(self).headers_ended(),
            !old(self).headers_ended() && line@ == "\r\n"@ ==> r@ =~= seq![Message::EndOfHeaders]
                && final(self).headers_ended(),
            !old(self).headers_ended() && line@ != "\r\n"@ ==> r@.len() == 1
                && !final(self).headers_ended() && (r@[0] matches Message::HeaderLine(l) && l@
                == line@),
    {
        let mut r: Vec<Message> = Vec::new();
        if self.headers_ended {
            return r;
        }
        let blank = String::from_str("\r\n");
        if line == blank {
            r.push(Message::EndOfHeaders);
            self.headers_ended = true;
        } else {
            r.push(Message::HeaderLine(line));
        }
        proof {
            let h = self.sent@ + r@;
            assert(h.drop_last() =~= self.sent@);
            self.sent@ = h;
        }
        r
    }

    /// Handles one body chunk, copied out of the transfer's buffer. Should the body come
    /// before the headers ended, `EndOfHeaders` is handed out first.
    pub fn on_body_chunk(&mut self, data: &[u8]) -> (r: Vec<Message>)
        requires
            old(self).wf(),
            !old(self).finished(),
        ensures
            final(self).wf(),
            !final(self).finished(),
            final(self).headers_ended(),
            final(self).sent() == old(self).sent() + r@,
            payload_bytes(final(self).sent()) == payload_bytes(old(self).sent()) + data@,
            r@.len() == if old(self).headers_ended() {
                1int
            } else {
                2int
            },
            !old(self).headers_ended() ==> r@[0] is EndOfHeaders,
            r@.last() matches Message::Bytes(d) && d@ == data@,
    {
        let mut r: Vec<Message> = Vec::new();
        let ghost h0 = self.sent@;
        if !self.headers_ended {
            r.push(Message::EndOfHeaders);
            self.headers_ended = true;
        }
        let ghost h1 = h0 + r@;
        proof {
            if r@.len() == 1 {
                assert(h1.drop_last() =~= h0);
                assert(h1.last() is EndOfHeaders);
            } else {
                assert(h1 =~= h0);
            }
            assert(phase_after(h1) == Some(phase_body()));
            assert(payload_bytes(h1) == payload_bytes(h0));
        }
        let copied = vstd::slice::slice_to_vec(data);
        r.push(Message::Bytes(copied));
        proof {
            let h = h0 + r@;
            assert(h =~= h1.push(r@.last()));
            assert(h.drop_last() =~= h1);
            self.sent@ = h;
        }
        r
    }

    /// Ends the stream, whether the transfer succeeded or not: `PrepareToFinish` then
    /// `Stop`, preceded by `EndOfHeaders` when the headers never ended.
    pub fn finish(&mut self) -> (r: Vec<Message>)
        requires
            old(self).wf(),
            !old(self).finished(),
        ensures
            final(self).wf(),
            final(self).finished(),
            final(self).sent() == old(self).sent() + r@,
            is_complete(final(self).sent()),
            payload_bytes(final(self).sent()) == payload_bytes(old(self).sent()),
            old(self).headers_ended() ==> r@ =~= seq![Message::PrepareToFinish, Message::Stop],
            !old(self).headers_ended() ==> r@ =~= seq![
                Message::EndOfHeaders,
                Message::PrepareToFinish,
                Message::Stop,
            ],
    {
        let mut r: Vec<Message> = Vec::new();
        let ghost h0 = self.sent@;
        if !self.headers_ended {
            r.push(Message::EndOfHeaders);
            self.headers_ended = true;
        }
        r.push(Message::PrepareToFinish);
        r.push(Message::Stop);
        self.finished = true;
        proof {
            let h = h0 + r@;
            let n = r@.len();
            let h1 = h0 + r@.subrange(0, n - 2);
            if n == 3 {
                assert(h1.drop_last() =~= h0);
            } else {
                assert(h1 =~= h0);
            }
            assert(phase_after(h1) == Some(phase_body()));
            assert(payload_bytes(h1) == payload_bytes(h0));
            let h2 = h1.push(Message::PrepareToFinish);
            assert(h2.drop_last() =~= h1);
            assert(h =~= h2.push(Message::Stop));
            assert(h.drop_last() =~= h2);
            assert(phase_after(h2) == Some(phase_finishing()));
            assert(phase_after(h) == Some(phase_stopped()));
            assert(payload_bytes(h2) == payload_bytes(h1));
            self.sent@ = h;
        }
        r
    }
}

} // verus!
