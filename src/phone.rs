use vstd::prelude::*;
use crate::config::{agent_text, default_methods, HeaderWriteConfig, LIBRARY_VERSION};
use crate::error::Error;
use crate::message::{is_dialog_header, Header, Headers, ResponseGenerator, SipMessage, Uri};
use crate::messaging::{message_step, MessageWriter};
use crate::registration::{read_challenge, register_step, RegistrationManager};

verus! {

/// The headers of `hs` whose kind a response to a CANCEL keeps, in order.
pub open spec fn dialog_headers(hs: Seq<Header>) -> Seq<Header>
    decreases hs.len(),
{
    if hs.len() == 0 {
        Seq::empty()
    } else {
        let kept = dialog_headers(hs.drop_last());
        if is_dialog_header(hs.last()) {
            kept.push(hs.last())
        } else {
            kept
        }
    }
}

/// The sequence number, call id, From, To and Via headers of `headers`, in
/// their order; every other header is left out.
pub fn dialog_headers_of(headers: &Headers) -> (r: Vec<Header>)
    ensures
        r@ == dialog_headers(headers@),
{
    let hs = &headers.items;
    let mut out: Vec<Header> = Vec::new();
    let mut i: usize = 0;
    while i < hs.len()
        invariant
            i <= hs@.len(),
            out@ == dialog_headers(hs@.subrange(0, i as int)),
        decreases hs@.len() - i,
    {
        match &hs[i] {
            Header::CSeq(a, b) => out.push(Header::CSeq(*a, *b)),
            Header::CallId(call) => out.push(Header::CallId(call.clone())),
            Header::From(from) => out.push(Header::From(from.duplicate())),
            Header::To(to) => out.push(Header::To(to.duplicate())),
            Header::Via(via) => out.push(Header::Via(via.duplicate())),
            _ => {},
        }
        assert(hs@.subrange(0, i + 1).drop_last() =~= hs@.subrange(0, i as int));
        i = i + 1;
    }
    assert(hs@.subrange(0, i as int) =~= hs@);
    out
}

/// The pair of responses to a CANCEL whose headers were `hs`: 200 for the
/// CANCEL itself, then 487 for the request it cancels.
pub open spec fn is_cancel_pair(pair: (SipMessage, SipMessage), hs: Seq<Header>) -> bool {
    let kept = dialog_headers(hs).push(Header::ContentLength(0));
    &&& pair.0.is_response_of(200, kept, Seq::empty())
    &&& pair.1.is_response_of(487, kept, Seq::empty())
}

/// How many of `kinds` are `true`.
pub open spec fn count_true(kinds: Seq<bool>) -> nat
    decreases kinds.len(),
{
    if kinds.len() == 0 {
        0
    } else {
        count_true(kinds.drop_last()) + if kinds.last() { 1nat } else { 0nat }
    }
}

/// One successful call on a client: a REGISTER request where `register`
/// holds, else a MESSAGE. Each moves its own counter and leaves the other
/// component as it was.
pub open spec fn phone_step(pre: SoftPhone, post: SoftPhone, register: bool) -> bool {
    if register {
        &&& post.spec_reg().spec_seq() == pre.spec_reg().spec_seq() + 1
        &&& post.spec_msg() == pre.spec_msg()
    } else {
        &&& post.spec_msg().spec_seq() == pre.spec_msg().spec_seq() + 1
        &&& post.spec_reg() == pre.spec_reg()
    }
}

/// The registration and message counters of a client evolve apart: over any
/// interleaving of successful REGISTER and MESSAGE requests, each counter
/// moved by the number of requests of its own kind.
pub proof fn lemma_counters_independent(phones: Seq<SoftPhone>, kinds: Seq<bool>)
    requires
        phones.len() == kinds.len() + 1,
        forall|i: int| 0 <= i < kinds.len() ==> #[trigger] phone_step(phones[i], phones[i + 1], kinds[i]),
    ensures
        phones.last().spec_reg().spec_seq() == phones[0].spec_reg().spec_seq() + count_true(kinds),
        phones.last().spec_msg().spec_seq() == phones[0].spec_msg().spec_seq() + kinds.len() - count_true(kinds),
    decreases kinds.len(),
{
    if kinds.len() > 0 {
        let n = kinds.len() - 1;
        let first = phones.drop_last();
        assert forall|i: int| 0 <= i < kinds.drop_last().len() implies #[trigger] phone_step(
            first[i],
            first[i + 1],
            kinds.drop_last()[i],
        ) by {
            assert(phone_step(phones[i], phones[i + 1], kinds[i]));
        }
        lemma_counters_independent(first, kinds.drop_last());
        assert(phone_step(phones[n], phones[n + 1], kinds[n]));
        lemma_count_true_bound(kinds.drop_last());
    }
}

proof fn lemma_count_true_bound(kinds: Seq<bool>)
    ensures
        count_true(kinds) <= kinds.len(),
    decreases kinds.len(),
{
    if kinds.len() > 0 {
        lemma_count_true_bound(kinds.drop_last());
    }
}

/// A SIP client for one account: registration and text messages, sharing
/// one header policy.
pub struct SoftPhone {
    header_cfg: HeaderWriteConfig,
    msg: MessageWriter,
    reg: RegistrationManager,
}

impl SoftPhone {
    pub closed spec fn spec_cfg(&self) -> HeaderWriteConfig {
        self.header_cfg
    }

    pub closed spec fn spec_msg(&self) -> MessageWriter {
        self.msg
    }

    pub closed spec fn spec_reg(&self) -> RegistrationManager {
        self.reg
    }

    /// A client that listens on `local_uri` for the account `account_uri`,
    /// with the default header policy.
    pub fn new(local_uri: Uri, account_uri: Uri) -> (r: SoftPhone)
        ensures
            r.spec_reg().spec_account() == account_uri,
            r.spec_reg().spec_local() == local_uri,
            r.spec_reg().spec_seq() == 0,
            r.spec_reg().spec_challenge().is_none(),
            r.spec_reg().spec_username().is_none(),
            r.spec_reg().spec_password().is_none(),
            r.spec_msg().spec_account() == account_uri,
            r.spec_msg().spec_seq() == 0,
            r.spec_cfg().user_agent matches Some(ua) && ua@ == agent_text(LIBRARY_VERSION@),
            r.spec_cfg().allowed_methods matches Some(ms) && ms@ == default_methods(),
    {
        SoftPhone {
            header_cfg: HeaderWriteConfig::default(),
            msg: MessageWriter::new(account_uri.duplicate()),
            reg: RegistrationManager::new(account_uri, local_uri),
        }
    }

    /// The registration manager.
    pub fn registry(&self) -> (r: &RegistrationManager)
        ensures
            *r == self.spec_reg(),
    {
        &self.reg
    }

    /// The registration manager, to change.
    pub fn registry_mut(&mut self) -> (r: &mut RegistrationManager)
        ensures
            *r == old(self).spec_reg(),
            final(self).spec_reg() == *final(r),
            final(self).spec_msg() == old(self).spec_msg(),
            final(self).spec_cfg() == old(self).spec_cfg(),
    {
        &mut self.reg
    }

    /// The message writer.
    pub fn messaging(&self) -> (r: &MessageWriter)
        ensures
            *r == self.spec_msg(),
    {
        &self.msg
    }

    /// The message writer, to change.
    pub fn messaging_mut(&mut self) -> (r: &mut MessageWriter)
        ensures
            *r == old(self).spec_msg(),
            final(self).spec_msg() == *final(r),
            final(self).spec_reg() == old(self).spec_reg(),
            final(self).spec_cfg() == old(self).spec_cfg(),
    {
        &mut self.msg
    }

    /// The header policy.
    pub fn header_cfg(&self) -> (r: &HeaderWriteConfig)
        ensures
            *r == self.spec_cfg(),
    {
        &self.header_cfg
    }

    /// The header policy, to change.
    pub fn header_cfg_mut(&mut self) -> (r: &mut HeaderWriteConfig)
        ensures
            *r == old(self).spec_cfg(),
            final(self).spec_cfg() == *final(r),
            final(self).spec_msg() == old(self).spec_msg(),
            final(self).spec_reg() == old(self).spec_reg(),
    {
        &mut self.header_cfg
    }

    /// The next REGISTER request, under this client's header policy.
    pub fn get_register_request(&mut self) -> (r: Result<SipMessage, Error>)
        ensures
            r is Ok <==> old(self).spec_reg().request_fault().is_none(),
            old(self).spec_reg().request_fault() matches Some(e) ==> r == Err::<SipMessage, Error>(e)
                && *final(self) == *old(self),
            r is Ok ==> phone_step(*old(self), *final(self), true),
            r matches Ok(m) ==> register_step(
                old(self).spec_reg(),
                final(self).spec_reg(),
                m,
                old(self).spec_cfg(),
            ),
            final(self).spec_reg().same_but_seq(old(self).spec_reg()),
            final(self).spec_msg() == old(self).spec_msg(),
            final(self).spec_cfg() == old(self).spec_cfg(),
    {
        self.reg.get_request(&self.header_cfg)
    }

    /// Stores the challenge that the response `c` carries.
    pub fn set_register_challenge(&mut self, c: SipMessage) -> (r: Result<(), Error>)
        ensures
            r is Ok <==> read_challenge(c) is Ok,
            read_challenge(c) matches Err(f) ==> r == Err::<(), Error>(Error::Challenge(f))
                && *final(self) == *old(self),
            read_challenge(c) matches Ok(ch) ==> final(self).spec_reg().spec_challenge() == Some(ch)
                && final(self).spec_reg().spec_seq() == old(self).spec_reg().spec_seq(),
            final(self).spec_reg().spec_call_id() == old(self).spec_reg().spec_call_id(),
            final(self).spec_msg() == old(self).spec_msg(),
            final(self).spec_cfg() == old(self).spec_cfg(),
    {
        self.reg.set_challenge(c)
    }

    /// A MESSAGE to `uri` carrying `b`, routed by the registration's Via
    /// binding.
    pub fn write_message(&mut self, b: Vec<u8>, uri: Uri) -> (r: Result<SipMessage, Error>)
        ensures
            r is Ok <==> old(self).spec_msg().spec_seq() < u32::MAX,
            r is Err ==> r == Err::<SipMessage, Error>(Error::Serialization) && *final(self)
                == *old(self),
            r is Ok ==> phone_step(*old(self), *final(self), false),
            r matches Ok(m) ==> message_step(
                old(self).spec_msg(),
                final(self).spec_msg(),
                m,
                b@,
                uri,
                old(self).spec_reg().spec_via(),
                old(self).spec_cfg(),
            ),
            final(self).spec_reg() == old(self).spec_reg(),
            final(self).spec_cfg() == old(self).spec_cfg(),
    {
        let via = self.reg.via_header();
        self.msg.write_message(b, uri, via, &self.header_cfg)
    }

    /// The 200 and 487 responses to a CANCEL with the given headers. Both keep
    /// the request's sequence number, call id, From, To and Via headers, in
    /// order, and add a zero Content-Length; a CANCEL without any of them
    /// still gets both responses.
    pub fn cancel_response(&mut self, headers: &Headers) -> (r: Result<(SipMessage, SipMessage), Error>)
        ensures
            r matches Ok(pair) && is_cancel_pair(pair, headers@),
            *final(self) == *old(self),
    {
        let ok = ResponseGenerator::new().code(200).headers(dialog_headers_of(headers)).header(
            Header::ContentLength(0),
        ).build();
        let terminated = ResponseGenerator::new().code(487).headers(dialog_headers_of(headers)).header(
            Header::ContentLength(0),
        ).build();
        match (ok, terminated) {
            (Ok(a), Ok(b)) => Ok((a, b)),
            (Err(e), _) => Err(Error::Build(e)),
            (_, Err(e)) => Err(Error::Build(e)),
        }
    }
}

} // verus!
