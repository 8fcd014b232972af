use vstd::prelude::*;
use crate::auth::{digest_answer, digest_response, random_token};
use crate::config::HeaderWriteConfig;
use crate::error::{ChallengeFault, Error};
use crate::message::{
    copy_string_opt, uri_text, AuthChallenge, AuthResponse, Header, Method, NamedHeader,
    RequestGenerator, SipMessage, Uri, ViaHeader,
};

verus! {

/// A challenge that a server sent, with the fields that an answer needs.
#[derive(Clone, Debug, PartialEq, Eq)]
pub struct DigestChallenge {
    pub realm: String,
    pub nonce: String,
    pub algorithm: Option<String>,
}

/// The first authentication challenge among `hs`, if any.
pub open spec fn first_challenge(hs: Seq<Header>) -> Option<AuthChallenge>
    decreases hs.len(),
{
    if hs.len() == 0 {
        None
    } else {
        match hs[0] {
            Header::WwwAuthenticate(c) => Some(c),
            _ => first_challenge(hs.drop_first()),
        }
    }
}

/// The challenge that `msg` carries: the first one of a response, which must
/// name a realm and a nonce.
pub open spec fn read_challenge(msg: SipMessage) -> Result<DigestChallenge, ChallengeFault> {
    match msg {
        SipMessage::Request { .. } => Err(ChallengeFault::NotAResponse),
        SipMessage::Response { headers, .. } => match first_challenge(headers@) {
            None => Err(ChallengeFault::NoChallenge),
            Some(c) => if c.realm.is_none() {
                Err(ChallengeFault::MissingRealm)
            } else if c.nonce.is_none() {
                Err(ChallengeFault::MissingNonce)
            } else {
                Ok(
                    DigestChallenge {
                        realm: c.realm.unwrap(),
                        nonce: c.nonce.unwrap(),
                        algorithm: c.algorithm,
                    },
                )
            },
        },
    }
}

/// Reads the challenge that `msg` carries.
pub fn challenge_of(msg: &SipMessage) -> (r: Result<DigestChallenge, ChallengeFault>)
    ensures
        r == read_challenge(*msg),
{
    match msg {
        SipMessage::Request { .. } => Err(ChallengeFault::NotAResponse),
        SipMessage::Response { headers, .. } => {
            let hs = &headers.items;
            let mut i: usize = 0;
            assert(hs@.subrange(0, hs@.len() as int) =~= hs@);
            while i < hs.len()
                invariant
                    i <= hs@.len(),
                    hs@ == headers@,
                    *msg matches SipMessage::Response { .. },
                    msg.spec_headers() == hs@,
                    first_challenge(hs@) == first_challenge(hs@.subrange(i as int, hs@.len() as int)),
                decreases hs@.len() - i,
            {
                if let Header::WwwAuthenticate(c) = &hs[i] {
                    assert(hs@.subrange(i as int, hs@.len() as int)[0] == hs@[i as int]);
                    assert(first_challenge(hs@) == Some(*c));
                    assert(headers.items@ == hs@);
                    assert(headers.view() == headers.items@);
                    return match (&c.realm, &c.nonce) {
                        (None, _) => Err(ChallengeFault::MissingRealm),
                        (Some(_), None) => Err(ChallengeFault::MissingNonce),
                        (Some(realm), Some(nonce)) => Ok(
                            DigestChallenge {
                                realm: realm.clone(),
                                nonce: nonce.clone(),
                                algorithm: copy_string_opt(&c.algorithm),
                            },
                        ),
                    };
                }
                assert(hs@.subrange(i as int, hs@.len() as int).drop_first() =~= hs@.subrange(
                    i + 1,
                    hs@.len() as int,
                ));
                i = i + 1;
            }
            assert(hs@.subrange(i as int, hs@.len() as int).len() == 0);
            Err(ChallengeFault::NoChallenge)
        },
    }
}

/// One successful `get_request`: from `pre` to `post`, producing `msg`.
pub open spec fn register_step(
    pre: RegistrationManager,
    post: RegistrationManager,
    msg: SipMessage,
    cfg: HeaderWriteConfig,
) -> bool {
    &&& post.spec_seq() == pre.spec_seq() + 1
    &&& post.same_but_seq(pre)
    &&& pre.is_register_request(msg, post.spec_seq(), cfg)
}

/// Registration state of one account: the sequence counter of its REGISTER
/// requests, the call id that ties them together, and the last challenge.
pub struct RegistrationManager {
    account_uri: Uri,
    local_uri: Uri,
    username: Option<String>,
    password: Option<String>,
    cseq_counter: u32,
    call_id: String,
    branch: String,
    challenge: Option<DigestChallenge>,
}

impl RegistrationManager {
    pub closed spec fn spec_account(&self) -> Uri {
        self.account_uri
    }

    pub closed spec fn spec_local(&self) -> Uri {
        self.local_uri
    }

    pub closed spec fn spec_username(&self) -> Option<String> {
        self.username
    }

    pub closed spec fn spec_password(&self) -> Option<String> {
        self.password
    }

    /// The sequence number of the last request made; 0 before the first.
    pub closed spec fn spec_seq(&self) -> u32 {
        self.cseq_counter
    }

    pub closed spec fn spec_call_id(&self) -> String {
        self.call_id
    }

    pub closed spec fn spec_branch(&self) -> String {
        self.branch
    }

    pub closed spec fn spec_challenge(&self) -> Option<DigestChallenge> {
        self.challenge
    }

    /// Everything but the sequence counter agrees.
    pub open spec fn same_but_seq(&self, o: RegistrationManager) -> bool {
        &&& self.spec_account() == o.spec_account()
        &&& self.spec_local() == o.spec_local()
        &&& self.spec_username() == o.spec_username()
        &&& self.spec_password() == o.spec_password()
        &&& self.spec_call_id() == o.spec_call_id()
        &&& self.spec_branch() == o.spec_branch()
        &&& self.spec_challenge() == o.spec_challenge()
    }

    pub open spec fn spec_via(&self) -> ViaHeader {
        ViaHeader { uri: self.spec_local(), branch: self.spec_branch() }
    }

    /// The target of the REGISTER requests: the account without its user part.
    pub open spec fn spec_target(&self) -> Uri {
        Uri { user: None, host: self.spec_account().host }
    }

    /// The headers of a REGISTER request with sequence number `seq`, before the
    /// configured ones and after the answer to a stored challenge.
    pub open spec fn base_headers(&self, seq: u32) -> Seq<Header> {
        seq![
            Header::ContentLength(0),
            Header::To(NamedHeader { display_name: None, uri: self.spec_account() }),
            Header::From(NamedHeader { display_name: None, uri: self.spec_account() }),
            Header::Contact(NamedHeader { display_name: None, uri: self.spec_local() }),
            Header::CSeq(seq, Method::Register),
            Header::CallId(self.spec_call_id()),
            Header::Via(self.spec_via()),
        ]
    }

    /// `h` answers the stored challenge with the stored credentials.
    pub open spec fn answers(&self, h: Header) -> bool {
        match (self.spec_challenge(), self.spec_username(), self.spec_password()) {
            (Some(c), Some(user), Some(pass)) => match h {
                Header::Authorization(a) => {
                    &&& a.username == user
                    &&& a.realm == c.realm
                    &&& a.nonce == c.nonce
                    &&& a.algorithm == c.algorithm
                    &&& a.uri@ == uri_text(self.spec_target())
                    &&& a.response@ == digest_response(
                        user@,
                        pass@,
                        c.realm@,
                        c.nonce@,
                        Method::Register,
                        uri_text(self.spec_target()),
                    )
                },
                _ => false,
            },
            _ => false,
        }
    }

    /// `msg` is the REGISTER request with sequence number `seq` under `cfg`.
    pub open spec fn is_register_request(
        &self,
        msg: SipMessage,
        seq: u32,
        cfg: HeaderWriteConfig,
    ) -> bool {
        match msg {
            SipMessage::Request { method, uri, headers, body } => {
                &&& method == Method::Register
                &&& uri == self.spec_target()
                &&& body@.len() == 0
                &&& if self.spec_challenge().is_some() {
                    &&& headers@.len() > 0
                    &&& self.answers(headers@[0])
                    &&& cfg.writes(self.base_headers(seq), headers@.drop_first())
                } else {
                    cfg.writes(self.base_headers(seq), headers@)
                }
            },
            _ => false,
        }
    }

    /// Why the next request cannot be made, if it cannot.
    pub open spec fn request_fault(&self) -> Option<Error> {
        if self.spec_challenge().is_some() && (self.spec_username().is_none()
            || self.spec_password().is_none()) {
            Some(Error::Challenge(ChallengeFault::NoCredentials))
        } else if self.spec_seq() == u32::MAX {
            Some(Error::Serialization)
        } else {
            None
        }
    }

    /// A manager with the given call id and via branch, before any request.
    pub fn with_tokens(account_uri: Uri, local_uri: Uri, call_id: String, branch: String) -> (r:
        RegistrationManager)
        ensures
            r.spec_account() == account_uri,
            r.spec_local() == local_uri,
            r.spec_username().is_none(),
            r.spec_password().is_none(),
            r.spec_seq() == 0,
            r.spec_call_id() == call_id,
            r.spec_branch() == branch,
            r.spec_challenge().is_none(),
    {
        RegistrationManager {
            account_uri,
            local_uri,
            username: None,
            password: None,
            cseq_counter: 0,
            call_id,
            branch,
            challenge: None,
        }
    }

    /// A manager with a fresh random call id and via branch.
    pub fn new(account_uri: Uri, local_uri: Uri) -> (r: RegistrationManager)
        ensures
            r.spec_account() == account_uri,
            r.spec_local() == local_uri,
            r.spec_username().is_none(),
            r.spec_password().is_none(),
            r.spec_seq() == 0,
            r.spec_challenge().is_none(),
    {
        let call_id = random_token();
        let branch = random_token();
        RegistrationManager::with_tokens(account_uri, local_uri, call_id, branch)
    }

    pub fn set_username(&mut self, user: String)
        ensures
            final(self).spec_username() == Some(user),
            final(self).spec_password() == old(self).spec_password(),
            final(self).spec_account() == old(self).spec_account(),
            final(self).spec_local() == old(self).spec_local(),
            final(self).spec_seq() == old(self).spec_seq(),
            final(self).spec_call_id() == old(self).spec_call_id(),
            final(self).spec_branch() == old(self).spec_branch(),
            final(self).spec_challenge() == old(self).spec_challenge(),
    {
        self.username = Some(user);
    }

    pub fn set_password(&mut self, pass: String)
        ensures
            final(self).spec_password() == Some(pass),
            final(self).spec_username() == old(self).spec_username(),
            final(self).spec_account() == old(self).spec_account(),
            final(self).spec_local() == old(self).spec_local(),
            final(self).spec_seq() == old(self).spec_seq(),
            final(self).spec_call_id() == old(self).spec_call_id(),
            final(self).spec_branch() == old(self).spec_branch(),
            final(self).spec_challenge() == old(self).spec_challenge(),
    {
        self.password = Some(pass);
    }

    /// The sequence number of the last request made; 0 before the first.
    pub fn seq_counter(&self) -> (r: u32)
        ensures
            r == self.spec_seq(),
    {
        self.cseq_counter
    }

    pub fn call_id(&self) -> (r: &String)
        ensures
            *r == self.spec_call_id(),
    {
        &self.call_id
    }

    pub fn challenge(&self) -> (r: &Option<DigestChallenge>)
        ensures
            *r == self.spec_challenge(),
    {
        &self.challenge
    }

    pub fn account_uri(&self) -> (r: &Uri)
        ensures
            *r == self.spec_account(),
    {
        &self.account_uri
    }

    pub fn local_uri(&self) -> (r: &Uri)
        ensures
            *r == self.spec_local(),
    {
        &self.local_uri
    }

    /// The Via header of this registration's local binding.
    pub fn via_header(&self) -> (r: ViaHeader)
        ensures
            r == self.spec_via(),
    {
        ViaHeader { uri: self.local_uri.duplicate(), branch: self.branch.clone() }
    }

    /// Stores the challenge that `msg` carries, in place of any earlier one.
    /// On an error nothing changes.
    pub fn set_challenge(&mut self, msg: SipMessage) -> (r: Result<(), Error>)
        ensures
            r is Ok <==> read_challenge(msg) is Ok,
            read_challenge(msg) matches Err(f) ==> r == Err::<(), Error>(Error::Challenge(f))
                && *final(self) == *old(self),
            read_challenge(msg) matches Ok(c) ==> final(self).spec_challenge() == Some(c)
                && final(self).spec_seq() == old(self).spec_seq(),
            final(self).spec_account() == old(self).spec_account(),
            final(self).spec_local() == old(self).spec_local(),
            final(self).spec_username() == old(self).spec_username(),
            final(self).spec_password() == old(self).spec_password(),
            final(self).spec_call_id() == old(self).spec_call_id(),
            final(self).spec_branch() == old(self).spec_branch(),
    {
        match challenge_of(&msg) {
            Ok(c) => {
                self.challenge = Some(c);
                Ok(())
            },
            Err(f) => Err(Error::Challenge(f)),
        }
    }

    /// Builds the next REGISTER request: the sequence counter goes up by one
    /// and the request carries its new value, the call id, the Via binding,
    /// an answer to the stored challenge if there is one, and the headers of
    /// `cfg`. On an error nothing changes.
    pub fn get_request(&mut self, cfg: &HeaderWriteConfig) -> (r: Result<SipMessage, Error>)
        ensures
            r is Ok <==> old(self).request_fault().is_none(),
            old(self).request_fault() matches Some(e) ==> r == Err::<SipMessage, Error>(e)
                && *final(self) == *old(self),
            r matches Ok(m) ==> register_step(*old(self), *final(self), m, *cfg),
            final(self).same_but_seq(*old(self)),
    {
        if self.challenge.is_some() && (self.username.is_none() || self.password.is_none()) {
            return Err(Error::Challenge(ChallengeFault::NoCredentials));
        }
        if self.cseq_counter == u32::MAX {
            return Err(Error::Serialization);
        }
        self.cseq_counter = self.cseq_counter + 1;
        let target = self.account_uri.authless();
        assert(target == self.spec_target());
        let mut headers: Vec<Header> = Vec::new();
        if let Some(c) = &self.challenge {
            if let Some(user) = &self.username {
                if let Some(pass) = &self.password {
                    let uri = target.to_text();
                    let response = digest_answer(
                        user.as_str(),
                        pass.as_str(),
                        c.realm.as_str(),
                        c.nonce.as_str(),
                        Method::Register,
                        uri.as_str(),
                    );
                    headers.push(
                        Header::Authorization(
                            AuthResponse {
                                username: user.clone(),
                                realm: c.realm.clone(),
                                nonce: c.nonce.clone(),
                                uri,
                                response,
                                algorithm: copy_string_opt(&c.algorithm),
                            },
                        ),
                    );
                }
            }
        }
        let ghost prefix = headers@;
        headers.push(Header::ContentLength(0));
        headers.push(Header::To(NamedHeader::new(self.account_uri.duplicate())));
        headers.push(Header::From(NamedHeader::new(self.account_uri.duplicate())));
        headers.push(Header::Contact(NamedHeader::new(self.local_uri.duplicate())));
        headers.push(Header::CSeq(self.cseq_counter, Method::Register));
        headers.push(Header::CallId(self.call_id.clone()));
        headers.push(Header::Via(self.via_header()));
        let ghost with_base = headers@;
        assert(with_base =~= prefix + self.base_headers(self.cseq_counter));
        cfg.write_headers_vec(&mut headers);
        proof {
            if prefix.len() == 1 {
                let all = headers@;
                let base = self.base_headers(self.cseq_counter);
                assert(all.subrange(0, with_base.len() as int) == with_base);
                assert forall|k: int| 0 <= k < base.len() implies all.drop_first()[k] == base[k] by {
                    assert(all.drop_first()[k] == all[k + 1]);
                    assert(all[k + 1] == all.subrange(0, with_base.len() as int)[k + 1]);
                    assert(with_base[k + 1] == base[k]);
                }
                assert(all.drop_first().subrange(0, base.len() as int) =~= base);
                assert(all[0] == with_base[0]);
                assert(with_base[0] == prefix[0]);
                assert(self.answers(all[0]));
            } else {
                assert(prefix.len() == 0);
                assert(with_base =~= self.base_headers(self.cseq_counter));
            }
        }
        let built = RequestGenerator::new().method(Method::Register).uri(target).headers(
            headers,
        ).build();
        match built {
            Ok(m) => Ok(m),
            Err(e) => Err(Error::Build(e)),
        }
    }
}

/// `msg` carries the header `h`.
pub open spec fn carries(msg: SipMessage, h: Header) -> bool {
    msg.spec_headers().contains(h)
}

/// A REGISTER request carries its sequence number and the manager's call id.
pub proof fn lemma_register_request_fields(
    pre: RegistrationManager,
    msg: SipMessage,
    seq: u32,
    cfg: HeaderWriteConfig,
)
    requires
        pre.is_register_request(msg, seq, cfg),
    ensures
        carries(msg, Header::CSeq(seq, Method::Register)),
        carries(msg, Header::CallId(pre.spec_call_id())),
{
    let hs = msg.spec_headers();
    let base = pre.base_headers(seq);
    let off: int = if pre.spec_challenge().is_some() { 1 } else { 0 };
    let rest = hs.subrange(off, hs.len() as int);
    if off == 1 {
        assert(rest =~= hs.drop_first());
    } else {
        assert(rest =~= hs);
    }
    assert(rest.subrange(0, base.len() as int) == base);
    assert(rest.subrange(0, base.len() as int)[4] == rest[4]);
    assert(rest.subrange(0, base.len() as int)[5] == rest[5]);
    assert(hs[off + 4] == rest[4]);
    assert(hs[off + 5] == rest[5]);
}

/// Over successive successful `get_request` calls on one manager, the i-th
/// request (counting from 1) carries the sequence number of the start plus i,
/// and every request carries the call id of the start.
pub proof fn lemma_register_sequence(
    states: Seq<RegistrationManager>,
    msgs: Seq<SipMessage>,
    cfg: HeaderWriteConfig,
)
    requires
        states.len() == msgs.len() + 1,
        forall|i: int|
            0 <= i < msgs.len() ==> #[trigger] register_step(states[i], states[i + 1], msgs[i], cfg),
    ensures
        forall|i: int|
            0 <= i < msgs.len() ==> #[trigger] states[i + 1].spec_seq() == states[0].spec_seq() + i + 1
                && carries(msgs[i], Header::CSeq(states[i + 1].spec_seq(), Method::Register))
                && carries(msgs[i], Header::CallId(states[0].spec_call_id())),
        forall|i: int| 0 <= i < states.len() ==> #[trigger] states[i].spec_call_id() == states[0].spec_call_id(),
{
    lemma_register_prefix(states, msgs, cfg, msgs.len() as int);
    assert forall|i: int| 0 <= i < states.len() implies #[trigger] states[i].spec_call_id()
        == states[0].spec_call_id() by {
        assert(states[i].spec_seq() == states[0].spec_seq() + i);
    }
    assert forall|i: int| 0 <= i < msgs.len() implies #[trigger] states[i + 1].spec_seq() == states[0].spec_seq() + i + 1
        && carries(msgs[i], Header::CSeq(states[i + 1].spec_seq(), Method::Register))
        && carries(msgs[i], Header::CallId(states[0].spec_call_id())) by {
        assert(register_step(states[i], states[i + 1], msgs[i], cfg));
        lemma_register_request_fields(states[i], msgs[i], states[i + 1].spec_seq(), cfg);
    }
}

proof fn lemma_register_prefix(
    states: Seq<RegistrationManager>,
    msgs: Seq<SipMessage>,
    cfg: HeaderWriteConfig,
    n: int,
)
    requires
        states.len() == msgs.len() + 1,
        0 <= n <= msgs.len(),
        forall|i: int|
            0 <= i < msgs.len() ==> #[trigger] register_step(states[i], states[i + 1], msgs[i], cfg),
    ensures
        forall|i: int| 0 <= i <= n ==> #[trigger] states[i].spec_seq() == states[0].spec_seq() + i
            && states[i].spec_call_id() == states[0].spec_call_id(),
    decreases n,
{
    if n > 0 {
        lemma_register_prefix(states, msgs, cfg, n - 1);
        let k = n - 1;
        assert(register_step(states[k], states[k + 1], msgs[k], cfg));
        assert(k + 1 == n);
    }
}

/// Once a challenge read from `resp` is stored, the next REGISTER request
/// opens with an answer that echoes the challenge's realm, nonce and algorithm
/// and whose digest is computed from them.
pub proof fn lemma_challenge_answered(
    resp: SipMessage,
    stored: RegistrationManager,
    post: RegistrationManager,
    req: SipMessage,
    cfg: HeaderWriteConfig,
)
    requires
        read_challenge(resp) is Ok,
        stored.spec_challenge() == Some(read_challenge(resp)->Ok_0),
        register_step(stored, post, req, cfg),
    ensures
        ({
            let c = read_challenge(resp)->Ok_0;
            &&& stored.spec_username() is Some
            &&& stored.spec_password() is Some
            &&& req.spec_headers().len() > 0
            &&& req.spec_headers()[0] matches Header::Authorization(a) && a.realm == c.realm && a.nonce
                == c.nonce && a.algorithm == c.algorithm && a.response@ == digest_response(
                stored.spec_username()->Some_0@,
                stored.spec_password()->Some_0@,
                c.realm@,
                c.nonce@,
                Method::Register,
                uri_text(stored.spec_target()),
            )
        }),
{
}

/// A response without any authentication challenge header is refused as
/// carrying no challenge; `set_challenge` then fails and changes nothing.
pub proof fn lemma_no_challenge_header(resp: SipMessage)
    requires
        resp is Response,
        forall|i: int|
            0 <= i < resp.spec_headers().len() ==> !(#[trigger] resp.spec_headers()[i] is WwwAuthenticate),
    ensures
        read_challenge(resp) == Err::<DigestChallenge, ChallengeFault>(ChallengeFault::NoChallenge),
{
    lemma_first_challenge_none(resp.spec_headers());
}

proof fn lemma_first_challenge_none(hs: Seq<Header>)
    requires
        forall|i: int| 0 <= i < hs.len() ==> !(#[trigger] hs[i] is WwwAuthenticate),
    ensures
        first_challenge(hs) is None,
    decreases hs.len(),
{
    if hs.len() > 0 {
        assert(!(hs[0] is WwwAuthenticate));
        assert forall|i: int| 0 <= i < hs.drop_first().len() implies !(
        #[trigger] hs.drop_first()[i] is WwwAuthenticate) by {
            assert(!(hs[i + 1] is WwwAuthenticate));
        }
        lemma_first_challenge_none(hs.drop_first());
    }
}

} // verus!
