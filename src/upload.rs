use vstd::prelude::*;
use vstd::string::*;
use vstd::utf8::encode_utf8;

use crate::header::{content_type_of_header_line, header_content_type};
use crate::multipart::{
    build_epilogue, build_field_entries, build_preamble, epilogue, field_entries, fields_view,
    file_preamble,
};
use crate::options::{
    options_view, resolve_upload_options, resolved_settings, ManagerUploadOption,
    ManagerUploadRequestType, ResolvedUpload,
};
use crate::protocol::{
    count_bytes, lemma_no_bytes_no_payload, lemma_push, payload_bytes, phase_after, phase_body, phase_finishing, phase_headers,
    phase_stopped, Message,
};

verus! {

/// The content type that the last `Content-Type` header line of a message sequence declares.
pub open spec fn headers_content_type(h: Seq<Message>) -> Option<Seq<char>>
    decreases h.len(),
{
    if h.len() == 0 {
        None
    } else {
        match h.last() {
            Message::HeaderLine(l) => match header_content_type(l@) {
                Some(t) => Some(t),
                None => headers_content_type(h.drop_last()),
            },
            _ => headers_content_type(h.drop_last()),
        }
    }
}

/// Everything written before the streamed file content: the plain form fields, then the
/// headers of the file part.
pub open spec fn body_preamble(
    download_url: Seq<char>,
    options: Seq<crate::options::UploadOptionView>,
    fields: Seq<(Seq<char>, Seq<char>)>,
    boundary: Seq<char>,
    header_content_type: Option<Seq<char>>,
) -> Seq<char> {
    let s = resolved_settings(options, header_content_type, download_url);
    field_entries(boundary, fields) + file_preamble(
        boundary,
        s.field_name,
        s.file_name,
        s.content_type,
    )
}

/// The request body owed for a message sequence: nothing until the first body chunk or the
/// end of the body, then the preamble and the body bytes, and the closing boundary once
/// the body has ended.
pub open spec fn body_owed(preamble: Seq<u8>, closing: Seq<u8>, h: Seq<Message>) -> Seq<u8> {
    match phase_after(h) {
        Some(p) => if p == phase_headers() || (p == phase_body() && count_bytes(h) == 0) {
            Seq::empty()
        } else if p == phase_body() {
            preamble + payload_bytes(h)
        } else {
            preamble + payload_bytes(h) + closing
        },
        None => Seq::empty(),
    }
}

/// A message out of its place in `HeaderLine* EndOfHeaders Bytes* PrepareToFinish Stop`.
#[derive(Debug, PartialEq, Eq, Structural)]
pub enum ProtocolViolation {
    UnexpectedMessage,
}

/// The upload side of the pipe: reads messages, resolves the upload's settings once the
/// download's headers have ended, and hands out the request body in pieces.
pub struct UploadSession {
    download_url: String,
    options: Vec<ManagerUploadOption>,
    form_fields: Vec<(String, String)>,
    boundary: String,
    header_content_type: Option<String>,
    settings: Option<ResolvedUpload>,
    preamble: Vec<u8>,
    closing: Vec<u8>,
    pending: Vec<u8>,
    phase: u8,
    body_started: bool,
    received: Ghost<Seq<Message>>,
    sent: Ghost<Seq<u8>>,
}

proof fn lemma_push_content_type(h: Seq<Message>, m: Message)
    ensures
        headers_content_type(h.push(m)) == match m {
            Message::HeaderLine(l) => match header_content_type(l@) {
                Some(t) => Some(t),
                None => headers_content_type(h),
            },
            _ => headers_content_type(h),
        },
{
    assert(h.push(m).drop_last() =~= h);
}

fn copy_text(o: &Option<String>) -> (r: Option<String>)
    ensures
        opt_view(r) == opt_view(*o),
{
    match o {
        Some(t) => Some(t.clone()),
        None => None,
    }
}

fn text_ref(o: &Option<String>) -> (r: Option<&str>)
    ensures
        match r {
            Some(t) => Some(t@),
            None => None,
        } == opt_view(*o),
{
    match o {
        Some(t) => Some(t.as_str()),
        None => None,
    }
}

pub open spec fn opt_view(o: Option<String>) -> Option<Seq<char>> {
    match o {
        Some(s) => Some(s@),
        None => None,
    }
}

impl UploadSession {
    pub closed spec fn download_url(&self) -> Seq<char> {
        self.download_url@
    }

    pub closed spec fn options(&self) -> Seq<crate::options::UploadOptionView> {
        options_view(self.options@)
    }

    pub closed spec fn form_fields(&self) -> Seq<(Seq<char>, Seq<char>)> {
        fields_view(self.form_fields@)
    }

    pub closed spec fn boundary(&self) -> Seq<char> {
        self.boundary@
    }

    /// The messages read so far, in order.
    pub closed spec fn received(&self) -> Seq<Message> {
        self.received@
    }

    /// The body bytes handed out so far, in order.
    pub closed spec fn sent(&self) -> Seq<u8> {
        self.sent@
    }

    /// The body bytes read but not yet handed out.
    pub closed spec fn pending(&self) -> Seq<u8> {
        self.pending@
    }

    /// The bytes written before the file content, as the headers received so far decide.
    pub open spec fn preamble_bytes(&self) -> Seq<u8> {
        encode_utf8(
            body_preamble(
                self.download_url(),
                self.options(),
                self.form_fields(),
                self.boundary(),
                headers_content_type(self.received()),
            ),
        )
    }

    /// The bytes written after the file content.
    pub open spec fn closing_bytes(&self) -> Seq<u8> {
        encode_utf8(epilogue(self.boundary()))
    }

    /// What has been handed out and what waits are together the body owed for the messages
    /// read so far.
    pub open spec fn accounts_for_body(&self) -> bool {
        self.sent() + self.pending() == body_owed(
            self.preamble_bytes(),
            self.closing_bytes(),
            self.received(),
        )
    }

    pub closed spec fn wf(&self) -> bool {
        &&& self.phase <= 3
        &&& phase_after(self.received@) == Some(self.phase as nat)
        &&& opt_view(self.header_content_type) == headers_content_type(self.received@)
        &&& self.phase >= 1 ==> (self.settings matches Some(s) && s@ == resolved_settings(
            self.options(),
            headers_content_type(self.received@),
            self.download_url@,
        )) && self.preamble@ == self.preamble_bytes()
        &&& self.closing@ == self.closing_bytes()
        &&& self.phase == 0 ==> count_bytes(self.received@) == 0
        &&& self.body_started == (self.phase >= 2 || (self.phase == 1 && count_bytes(
            self.received@,
        ) > 0))
        &&& self.sent@ + self.pending@ == body_owed(
            self.preamble_bytes(),
            self.closing_bytes(),
            self.received@,
        )
    }

    /// Whether the stream has stopped and every byte of the body has been handed out.
    pub open spec fn finished(&self) -> bool {
        self.phase_is_stopped() && self.pending().len() == 0
    }

    /// The settings of the upload, known once the headers have ended.
    pub open spec fn resolved(&self) -> Option<crate::options::UploadSettings> {
        if phase_after(self.received()) is Some && phase_after(self.received()) != Some(
            phase_headers(),
        ) {
            Some(
                resolved_settings(
                    self.options(),
                    headers_content_type(self.received()),
                    self.download_url(),
                ),
            )
        } else {
            None
        }
    }

    /// Reads one message. One out of its place in the stream is refused and leaves the
    /// session as it was.
    pub fn accept(&mut self, m: Message) -> (r: Result<(), ProtocolViolation>)
        requires
            old(self).wf(),
        ensures
            final(self).wf(),
            final(self).accounts_for_body(),
            r is Ok <==> phase_after(old(self).received().push(m)) is Some,
            r is Ok ==> final(self).received() == old(self).received().push(m),
            r is Err ==> final(self).received() == old(self).received() && final(self).pending()
                == old(self).pending(),
            final(self).sent() == old(self).sent(),
            final(self).download_url() == old(self).download_url(),
            final(self).options() == old(self).options(),
            final(self).form_fields() == old(self).form_fields(),
            final(self).boundary() == old(self).boundary(),
    {
        let ghost h0 = self.received@;
        let ghost m0 = m;
        let ghost pre = self.preamble_bytes();
        proof {
            lemma_push(h0, m0);
            lemma_push_content_type(h0, m0);
            if count_bytes(h0) == 0 {
                lemma_no_bytes_no_payload(h0);
            }
        }
        match m {
            Message::HeaderLine(line) => {
                if self.phase != 0 {
                    return Err(ProtocolViolation::UnexpectedMessage);
                }
                match content_type_of_header_line(&line) {
                    Some(t) => {
                        self.header_content_type = Some(t);
                    },
                    None => {},
                }
            },
            Message::EndOfHeaders => {
                if self.phase != 0 {
                    return Err(ProtocolViolation::UnexpectedMessage);
                }
                let settings = resolve_upload_options(
                    &self.options,
                    copy_text(&self.header_content_type),
                    &self.download_url,
                );
                let mut text = build_field_entries(self.boundary.as_str(), &self.form_fields);
                let file_part = build_preamble(
                    self.boundary.as_str(),
                    settings.field_name.as_str(),
                    settings.file_name.as_str(),
                    text_ref(&settings.content_type),
                );
                text.append(file_part.as_str());
                self.preamble = vstd::slice::slice_to_vec(text.as_str().as_bytes());
                self.settings = Some(settings);
                self.phase = 1;
            },
            Message::Bytes(d) => {
                if self.phase != 1 {
                    return Err(ProtocolViolation::UnexpectedMessage);
                }
                if !self.body_started {
                    let mut p = vstd::slice::slice_to_vec(self.preamble.as_slice());
                    self.pending.append(&mut p);
                    self.body_started = true;
                }
                let mut d = d;
                let ghost dv = d@;
                self.pending.append(&mut d);
                proof {
                    assert(self.sent@ + self.pending@ =~= pre + payload_bytes(h0) + dv);
                }
            },
            Message::PrepareToFinish => {
                if self.phase != 1 {
                    return Err(ProtocolViolation::UnexpectedMessage);
                }
                if !self.body_started {
                    let mut p = vstd::slice::slice_to_vec(self.preamble.as_slice());
                    self.pending.append(&mut p);
                    self.body_started = true;
                }
                let mut c = vstd::slice::slice_to_vec(self.closing.as_slice());
                self.pending.append(&mut c);
                self.phase = 2;
                proof {
                    assert(self.sent@ + self.pending@ =~= pre + payload_bytes(h0)
                        + self.closing_bytes());
                }
            },
            Message::Stop => {
                if self.phase != 2 {
                    return Err(ProtocolViolation::UnexpectedMessage);
                }
                self.phase = 3;
            },
        }
        proof {
            self.received@ = h0.push(m0);
            assert(self.sent@ + self.pending@ =~= body_owed(
                self.preamble_bytes(),
                self.closing_bytes(),
                self.received@,
            ));
        }
        Ok(())
    }

    /// Hands out the next at most `max` bytes of the request body. An empty result with
    /// `max > 0` comes only when a message must be read first, or at the end of the body.
    pub fn take(&mut self, max: usize) -> (r: Vec<u8>)
        requires
            old(self).wf(),
        ensures
            final(self).wf(),
            final(self).accounts_for_body(),
            r@ == old(self).pending().take(
                if max < old(self).pending().len() {
                    max as int
                } else {
                    old(self).pending().len() as int
                },
            ),
            final(self).pending() == old(self).pending().skip(r@.len() as int),
            final(self).sent() == old(self).sent() + r@,
            final(self).received() == old(self).received(),
            final(self).finished() == (old(self).finished() || (old(self).phase_is_stopped()
                && final(self).pending().len() == 0)),
            final(self).download_url() == old(self).download_url(),
            final(self).options() == old(self).options(),
            final(self).form_fields() == old(self).form_fields(),
            final(self).boundary() == old(self).boundary(),
    {
        let n: usize = if max < self.pending.len() {
            max
        } else {
            self.pending.len()
        };
        let mut out = self.pending.split_off(n);
        std::mem::swap(&mut out, &mut self.pending);
        proof {
            self.sent@ = self.sent@ + out@;
            assert(self.sent@ + self.pending@ =~= old(self).sent@ + old(self).pending@);
        }
        out
    }

    /// Whether the stream read so far has reached its `Stop`.
    pub open spec fn phase_is_stopped(&self) -> bool {
        phase_after(self.received()) == Some(phase_stopped())
    }

    /// Whether the next piece of the body needs another message first.
    pub fn needs_message(&self) -> (r: bool)
        requires
            self.wf(),
        ensures
            r == (self.pending().len() == 0 && !self.phase_is_stopped()),
    {
        self.pending.len() == 0 && self.phase != 3
    }

    /// Whether the stream has stopped and the whole body has been handed out.
    pub fn is_finished(&self) -> (r: bool)
        requires
            self.wf(),
        ensures
            r == self.finished(),
    {
        self.pending.len() == 0 && self.phase == 3
    }

    /// Whether the download's headers have ended, so that the settings are known.
    pub fn headers_done(&self) -> (r: bool)
        requires
            self.wf(),
        ensures
            r == self.resolved() is Some,
    {
        self.phase >= 1
    }

    /// The HTTP method of the upload, known once the headers have ended.
    pub fn request_type(&self) -> (r: Option<ManagerUploadRequestType>)
        requires
            self.wf(),
        ensures
            match self.resolved() {
                Some(s) => r == Some(s.request_type),
                None => r is None,
            },
    {
        match &self.settings {
            Some(s) => if self.phase >= 1 {
                Some(s.request_type)
            } else {
                None
            },
            None => None,
        }
    }

    pub fn new(
        download_url: String,
        options: Vec<ManagerUploadOption>,
        form_fields: Vec<(String, String)>,
        boundary: String,
    ) -> (r: UploadSession)
        ensures
            r.wf(),
            r.accounts_for_body(),
            r.download_url() == download_url@,
            r.options() == options_view(options@),
            r.form_fields() == fields_view(form_fields@),
            r.boundary() == boundary@,
            r.received() == Seq::<Message>::empty(),
            r.sent() == Seq::<u8>::empty(),
            r.pending() == Seq::<u8>::empty(),
    {
        let closing_text = build_epilogue(boundary.as_str());
        let closing = vstd::slice::slice_to_vec(closing_text.as_str().as_bytes());
        UploadSession {
            download_url,
            options,
            form_fields,
            boundary,
            header_content_type: None,
            settings: None,
            preamble: Vec::new(),
            closing,
            pending: Vec::new(),
            phase: 0,
            body_started: false,
            received: Ghost(Seq::empty()),
            sent: Ghost(Seq::empty()),
        }
    }
}

/// A session that has read a whole stream and handed out every byte has sent the preamble,
/// every body byte it read in the order read, and the closing boundary.
pub proof fn lemma_finished_session_sent_whole_body(s: &UploadSession)
    requires
        s.wf(),
        s.finished(),
    ensures
        s.sent() == s.preamble_bytes() + payload_bytes(s.received()) + s.closing_bytes(),
{
    assert(s.sent@ + s.pending@ =~= s.sent@);
}

} // verus!
