use vstd::prelude::*;

verus! {

/// A SIP request method.
#[derive(Clone, Copy, Debug, PartialEq, Eq, Structural)]
pub enum Method {
    Invite,
    Ack,
    Bye,
    Cancel,
    Register,
    Options,
    Message,
}

/// The method's name as it stands on the wire.
pub open spec fn method_text(m: Method) -> Seq<char> {
    match m {
        Method::Invite => seq!['I', 'N', 'V', 'I', 'T', 'E'],
        Method::Ack => seq!['A', 'C', 'K'],
        Method::Bye => seq!['B', 'Y', 'E'],
        Method::Cancel => seq!['C', 'A', 'N', 'C', 'E', 'L'],
        Method::Register => seq!['R', 'E', 'G', 'I', 'S', 'T', 'E', 'R'],
        Method::Options => seq!['O', 'P', 'T', 'I', 'O', 'N', 'S'],
        Method::Message => seq!['M', 'E', 'S', 'S', 'A', 'G', 'E'],
    }
}

impl Method {
    pub fn name(&self) -> (r: &'static str)
        ensures
            r@ == method_text(*self),
    {
        match self {
            Method::Invite => {
                proof { reveal_strlit("INVITE"); }
                "INVITE"
            },
            Method::Ack => {
                proof { reveal_strlit("ACK"); }
                "ACK"
            },
            Method::Bye => {
                proof { reveal_strlit("BYE"); }
                "BYE"
            },
            Method::Cancel => {
                proof { reveal_strlit("CANCEL"); }
                "CANCEL"
            },
            Method::Register => {
                proof { reveal_strlit("REGISTER"); }
                "REGISTER"
            },
            Method::Options => {
                proof { reveal_strlit("OPTIONS"); }
                "OPTIONS"
            },
            Method::Message => {
                proof { reveal_strlit("MESSAGE"); }
                "MESSAGE"
            },
        }
    }
}

/// A copy of an optional text.
pub fn copy_string_opt(s: &Option<String>) -> (r: Option<String>)
    ensures
        r == *s,
{
    match s {
        Some(v) => Some(v.clone()),
        None => None,
    }
}

/// An addressable SIP identity: `sip:user@host`, where the host may carry a port.
#[derive(Clone, Debug, PartialEq, Eq)]
pub struct Uri {
    pub user: Option<String>,
    pub host: String,
}

/// The textual form of a URI, as used in digest computations.
pub open spec fn uri_text(u: Uri) -> Seq<char> {
    let user_part = match u.user {
        Some(name) => name@ + seq!['@'],
        None => Seq::empty(),
    };
    seq!['s', 'i', 'p', ':'] + user_part + u.host@
}

impl Uri {
    pub fn new(host: String) -> (r: Uri)
        ensures
            r.user.is_none(),
            r.host == host,
    {
        Uri { user: None, host }
    }

    /// The same URI with `user` as its user part.
    pub fn with_user(self, user: String) -> (r: Uri)
        ensures
            r.user == Some(user),
            r.host == self.host,
    {
        Uri { user: Some(user), host: self.host }
    }

    /// The same URI without a user part.
    pub fn authless(&self) -> (r: Uri)
        ensures
            r.user.is_none(),
            r.host == self.host,
    {
        Uri { user: None, host: self.host.clone() }
    }

    pub fn duplicate(&self) -> (r: Uri)
        ensures
            r == *self,
    {
        Uri { user: copy_string_opt(&self.user), host: self.host.clone() }
    }

    pub fn to_text(&self) -> (r: String)
        ensures
            r@ == uri_text(*self),
    {
        let mut r = String::from_str("sip:");
        proof { reveal_strlit("sip:"); }
        match &self.user {
            Some(name) => {
                r.append(name.as_str());
                r.append("@");
                proof { reveal_strlit("@"); }
            },
            None => {},
        }
        r.append(self.host.as_str());
        r
    }
}

/// A display name together with a URI (From, To and Contact headers).
#[derive(Clone, Debug, PartialEq, Eq)]
pub struct NamedHeader {
    pub display_name: Option<String>,
    pub uri: Uri,
}

impl NamedHeader {
    /// A named header without display name.
    pub fn new(uri: Uri) -> (r: NamedHeader)
        ensures
            r.display_name.is_none(),
            r.uri == uri,
    {
        NamedHeader { display_name: None, uri }
    }

    /// A named header with a display name.
    pub fn named(uri: Uri, name: String) -> (r: NamedHeader)
        ensures
            r.display_name == Some(name),
            r.uri == uri,
    {
        NamedHeader { display_name: Some(name), uri }
    }

    pub fn duplicate(&self) -> (r: NamedHeader)
        ensures
            r == *self,
    {
        NamedHeader { display_name: copy_string_opt(&self.display_name), uri: self.uri.duplicate() }
    }
}

/// The transport binding of a request: where responses are routed, and the
/// branch that names the transaction.
#[derive(Clone, Debug, PartialEq, Eq)]
pub struct ViaHeader {
    pub uri: Uri,
    pub branch: String,
}

impl ViaHeader {
    pub fn duplicate(&self) -> (r: ViaHeader)
        ensures
            r == *self,
    {
        ViaHeader { uri: self.uri.duplicate(), branch: self.branch.clone() }
    }
}

/// The parameters of an authentication challenge, as a server sent them.
#[derive(Clone, Debug, PartialEq, Eq)]
pub struct AuthChallenge {
    pub realm: Option<String>,
    pub nonce: Option<String>,
    pub algorithm: Option<String>,
}

/// The parameters of a digest answer to a challenge.
#[derive(Clone, Debug, PartialEq, Eq)]
pub struct AuthResponse {
    pub username: String,
    pub realm: String,
    pub nonce: String,
    pub uri: String,
    pub response: String,
    pub algorithm: Option<String>,
}

/// The media type of a message body.
#[derive(Clone, Debug, PartialEq, Eq)]
pub enum ContentType {
    PlainText,
    Sdp,
    Other(String),
}

/// One header of a SIP message.
#[derive(Clone, Debug, PartialEq, Eq)]
pub enum Header {
    CSeq(u32, Method),
    CallId(String),
    From(NamedHeader),
    To(NamedHeader),
    Contact(NamedHeader),
    Via(ViaHeader),
    ContentLength(usize),
    ContentType(ContentType),
    UserAgent(String),
    Allow(Vec<Method>),
    WwwAuthenticate(AuthChallenge),
    Authorization(AuthResponse),
    Other(String, String),
}

/// The header kinds that a response to a CANCEL keeps from its request.
pub open spec fn is_dialog_header(h: Header) -> bool {
    match h {
        Header::CSeq(_, _) | Header::CallId(_) | Header::From(_) | Header::To(_) | Header::Via(_) => true,
        _ => false,
    }
}

/// An ordered header collection; duplicates are allowed.
#[derive(Clone, Debug, PartialEq, Eq)]
pub struct Headers {
    pub items: Vec<Header>,
}

impl View for Headers {
    type V = Seq<Header>;

    open spec fn view(&self) -> Seq<Header> {
        self.items@
    }
}

impl Headers {
    pub fn new() -> (r: Headers)
        ensures
            r@ == Seq::<Header>::empty(),
    {
        Headers { items: Vec::new() }
    }

    pub fn from_vec(items: Vec<Header>) -> (r: Headers)
        ensures
            r@ == items@,
    {
        Headers { items }
    }

    pub fn push(&mut self, h: Header)
        ensures
            final(self)@ == old(self)@.push(h),
    {
        self.items.push(h);
    }

    pub fn len(&self) -> (r: usize)
        ensures
            r == self@.len(),
    {
        self.items.len()
    }

    pub fn get(&self, i: usize) -> (r: &Header)
        requires
            i < self@.len(),
        ensures
            *r == self@[i as int],
    {
        &self.items[i]
    }
}

/// A SIP request or response.
#[derive(Clone, Debug, PartialEq, Eq)]
pub enum SipMessage {
    Request { method: Method, uri: Uri, headers: Headers, body: Vec<u8> },
    Response { code: u32, headers: Headers, body: Vec<u8> },
}

impl SipMessage {
    /// This message is the request with the given parts.
    pub open spec fn is_request_of(&self, m: Method, u: Uri, hs: Seq<Header>, b: Seq<u8>) -> bool {
        match self {
            SipMessage::Request { method, uri, headers, body } =>
                *method == m && *uri == u && headers@ == hs && body@ == b,
            _ => false,
        }
    }

    /// This message is the response with the given parts.
    pub open spec fn is_response_of(&self, c: u32, hs: Seq<Header>, b: Seq<u8>) -> bool {
        match self {
            SipMessage::Response { code, headers, body } => *code == c && headers@ == hs && body@ == b,
            _ => false,
        }
    }

    pub open spec fn spec_headers(&self) -> Seq<Header> {
        match self {
            SipMessage::Request { headers, .. } => headers@,
            SipMessage::Response { headers, .. } => headers@,
        }
    }

    /// The message's headers, in order.
    pub fn headers(&self) -> (r: &Headers)
        ensures
            r@ == self.spec_headers(),
    {
        match self {
            SipMessage::Request { headers, .. } => headers,
            SipMessage::Response { headers, .. } => headers,
        }
    }
}

/// A field that a message builder needs and was not given.
#[derive(Clone, Copy, Debug, PartialEq, Eq, Structural)]
pub enum MissingField {
    Method,
    Uri,
    Code,
}

/// Assembles a request; `build` fails on a missing method or URI.
pub struct RequestGenerator {
    pub method: Option<Method>,
    pub uri: Option<Uri>,
    pub headers: Vec<Header>,
    pub body: Vec<u8>,
}

impl RequestGenerator {
    pub fn new() -> (r: RequestGenerator)
        ensures
            r.method.is_none(),
            r.uri.is_none(),
            r.headers@ == Seq::<Header>::empty(),
            r.body@ == Seq::<u8>::empty(),
    {
        RequestGenerator { method: None, uri: None, headers: Vec::new(), body: Vec::new() }
    }

    pub fn method(self, m: Method) -> (r: RequestGenerator)
        ensures
            r.method == Some(m),
            r.uri == self.uri,
            r.headers@ == self.headers@,
            r.body@ == self.body@,
    {
        RequestGenerator { method: Some(m), ..self }
    }

    pub fn uri(self, u: Uri) -> (r: RequestGenerator)
        ensures
            r.method == self.method,
            r.uri == Some(u),
            r.headers@ == self.headers@,
            r.body@ == self.body@,
    {
        RequestGenerator { uri: Some(u), ..self }
    }

    /// Appends the given headers, in order.
    pub fn headers(self, hs: Vec<Header>) -> (r: RequestGenerator)
        ensures
            r.method == self.method,
            r.uri == self.uri,
            r.headers@ == self.headers@ + hs@,
            r.body@ == self.body@,
    {
        let mut s = self;
        let mut hs = hs;
        s.headers.append(&mut hs);
        s
    }

    pub fn header(self, h: Header) -> (r: RequestGenerator)
        ensures
            r.method == self.method,
            r.uri == self.uri,
            r.headers@ == self.headers@.push(h),
            r.body@ == self.body@,
    {
        let mut s = self;
        s.headers.push(h);
        s
    }

    pub fn body(self, b: Vec<u8>) -> (r: RequestGenerator)
        ensures
            r.method == self.method,
            r.uri == self.uri,
            r.headers@ == self.headers@,
            r.body@ == b@,
    {
        RequestGenerator { body: b, ..self }
    }

    pub fn build(self) -> (r: Result<SipMessage, MissingField>)
        ensures
            self.method.is_none() ==> r == Err::<SipMessage, MissingField>(MissingField::Method),
            self.method.is_some() && self.uri.is_none() ==> r == Err::<SipMessage, MissingField>(MissingField::Uri),
            self.method.is_some() && self.uri.is_some() ==> (r matches Ok(m)
                && m.is_request_of(self.method.unwrap(), self.uri.unwrap(), self.headers@, self.body@)),
    {
        match self.method {
            None => Err(MissingField::Method),
            Some(method) => match self.uri {
                None => Err(MissingField::Uri),
                Some(uri) => Ok(SipMessage::Request { method, uri, headers: Headers { items: self.headers }, body: self.body }),
            },
        }
    }
}

/// Assembles a response; `build` fails on a missing status code.
pub struct ResponseGenerator {
    pub code: Option<u32>,
    pub headers: Vec<Header>,
    pub body: Vec<u8>,
}

impl ResponseGenerator {
    pub fn new() -> (r: ResponseGenerator)
        ensures
            r.code.is_none(),
            r.headers@ == Seq::<Header>::empty(),
            r.body@ == Seq::<u8>::empty(),
    {
        ResponseGenerator { code: None, headers: Vec::new(), body: Vec::new() }
    }

    pub fn code(self, c: u32) -> (r: ResponseGenerator)
        ensures
            r.code == Some(c),
            r.headers@ == self.headers@,
            r.body@ == self.body@,
    {
        ResponseGenerator { code: Some(c), ..self }
    }

    /// Appends the given headers, in order.
    pub fn headers(self, hs: Vec<Header>) -> (r: ResponseGenerator)
        ensures
            r.code == self.code,
            r.headers@ == self.headers@ + hs@,
            r.body@ == self.body@,
    {
        let mut s = self;
        let mut hs = hs;
        s.headers.append(&mut hs);
        s
    }

    pub fn header(self, h: Header) -> (r: ResponseGenerator)
        ensures
            r.code == self.code,
            r.headers@ == self.headers@.push(h),
            r.body@ == self.body@,
    {
        let mut s = self;
        s.headers.push(h);
        s
    }

    pub fn body(self, b: Vec<u8>) -> (r: ResponseGenerator)
        ensures
            r.code == self.code,
            r.headers@ == self.headers@,
            r.body@ == b@,
    {
        ResponseGenerator { body: b, ..self }
    }

    pub fn build(self) -> (r: Result<SipMessage, MissingField>)
        ensures
            self.code.is_none() ==> r == Err::<SipMessage, MissingField>(MissingField::Code),
            self.code.is_some() ==> (r matches Ok(m)
                && m.is_response_of(self.code.unwrap(), self.headers@, self.body@)),
    {
        match self.code {
            None => Err(MissingField::Code),
            Some(code) => Ok(SipMessage::Response { code, headers: Headers { items: self.headers }, body: self.body }),
        }
    }
}

} // verus!
