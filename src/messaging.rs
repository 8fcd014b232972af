use vstd::prelude::*;
use crate::auth::random_token;
use crate::config::HeaderWriteConfig;
use crate::error::Error;
use crate::message::{ContentType, Header, Method, NamedHeader, RequestGenerator, SipMessage, Uri, ViaHeader};

verus! {

/// One successful `write_message`: from `pre` to `post`, producing `msg`.
pub open spec fn message_step(
    pre: MessageWriter,
    post: MessageWriter,
    msg: SipMessage,
    body: Seq<u8>,
    dest: Uri,
    via: ViaHeader,
    cfg: HeaderWriteConfig,
) -> bool {
    &&& post.spec_seq() == pre.spec_seq() + 1
    &&& post.spec_account() == pre.spec_account()
    &&& post.spec_call_id() == pre.spec_call_id()
    &&& pre.is_message_request(msg, post.spec_seq(), body, dest, via, cfg)
}

/// Messaging state of one account: the sequence counter of its MESSAGE
/// requests, apart from that of its registrations.
pub struct MessageWriter {
    account_uri: Uri,
    cseq_counter: u32,
    call_id: String,
}

impl MessageWriter {
    pub closed spec fn spec_account(&self) -> Uri {
        self.account_uri
    }

    /// The sequence number of the last message written; 0 before the first.
    pub closed spec fn spec_seq(&self) -> u32 {
        self.cseq_counter
    }

    pub closed spec fn spec_call_id(&self) -> String {
        self.call_id
    }

    /// The headers of a MESSAGE with sequence number `seq` to `dest` and a body
    /// of `len` bytes, before the configured ones.
    pub open spec fn base_headers(&self, seq: u32, dest: Uri, via: ViaHeader, len: nat) -> Seq<
        Header,
    > {
        seq![
            Header::To(NamedHeader { display_name: None, uri: dest }),
            Header::From(NamedHeader { display_name: None, uri: self.spec_account() }),
            Header::CallId(self.spec_call_id()),
            Header::CSeq(seq, Method::Message),
            Header::ContentType(ContentType::PlainText),
            Header::ContentLength(len as usize),
            Header::Via(via),
        ]
    }

    /// `msg` is the MESSAGE request with sequence number `seq`.
    pub open spec fn is_message_request(
        &self,
        msg: SipMessage,
        seq: u32,
        body: Seq<u8>,
        dest: Uri,
        via: ViaHeader,
        cfg: HeaderWriteConfig,
    ) -> bool {
        match msg {
            SipMessage::Request { method, uri, headers, body: b } => {
                &&& method == Method::Message
                &&& uri == dest
                &&& b@ == body
                &&& cfg.writes(self.base_headers(seq, dest, via, body.len()), headers@)
            },
            _ => false,
        }
    }

    /// A writer with the given call id, before any message.
    pub fn with_call_id(account_uri: Uri, call_id: String) -> (r: MessageWriter)
        ensures
            r.spec_account() == account_uri,
            r.spec_seq() == 0,
            r.spec_call_id() == call_id,
    {
        MessageWriter { account_uri, cseq_counter: 0, call_id }
    }

    /// A writer with a fresh random call id.
    pub fn new(account_uri: Uri) -> (r: MessageWriter)
        ensures
            r.spec_account() == account_uri,
            r.spec_seq() == 0,
    {
        MessageWriter::with_call_id(account_uri, random_token())
    }

    /// The sequence number of the last message written; 0 before the first.
    pub fn seq_counter(&self) -> (r: u32)
        ensures
            r == self.spec_seq(),
    {
        self.cseq_counter
    }

    pub fn call_id(&self) -> (r: &String)
        ensures
            *r == self.spec_call_id(),
    {
        &self.call_id
    }

    pub fn account_uri(&self) -> (r: &Uri)
        ensures
            *r == self.spec_account(),
    {
        &self.account_uri
    }

    /// Builds a MESSAGE to `uri` carrying `body`: the sequence counter goes up
    /// by one and the request carries its new value, the Content-Length of
    /// the body, the given Via header and the headers of `cfg`. Fails, and
    /// changes nothing, only when the sequence space is used up.
    pub fn write_message(
        &mut self,
        body: Vec<u8>,
        uri: Uri,
        via: ViaHeader,
        cfg: &HeaderWriteConfig,
    ) -> (r: Result<SipMessage, Error>)
        ensures
            r is Ok <==> old(self).spec_seq() < u32::MAX,
            r is Err ==> r == Err::<SipMessage, Error>(Error::Serialization) && *final(self)
                == *old(self),
            r matches Ok(m) ==> message_step(*old(self), *final(self), m, body@, uri, via, *cfg),
            final(self).spec_account() == old(self).spec_account(),
            final(self).spec_call_id() == old(self).spec_call_id(),
    {
        if self.cseq_counter == u32::MAX {
            return Err(Error::Serialization);
        }
        self.cseq_counter = self.cseq_counter + 1;
        let mut headers: Vec<Header> = Vec::new();
        headers.push(Header::To(NamedHeader::new(uri.duplicate())));
        headers.push(Header::From(NamedHeader::new(self.account_uri.duplicate())));
        headers.push(Header::CallId(self.call_id.clone()));
        headers.push(Header::CSeq(self.cseq_counter, Method::Message));
        headers.push(Header::ContentType(ContentType::PlainText));
        headers.push(Header::ContentLength(body.len()));
        headers.push(Header::Via(via));
        assert(headers@ =~= self.base_headers(self.cseq_counter, uri, via, body@.len()));
        cfg.write_headers_vec(&mut headers);
        let built = RequestGenerator::new().method(Method::Message).uri(uri).headers(headers).body(
            body,
        ).build();
        match built {
            Ok(m) => Ok(m),
            Err(e) => Err(Error::Build(e)),
        }
    }
}

} // verus!
