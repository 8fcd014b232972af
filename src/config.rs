use vstd::prelude::*;
use crate::message::{Header, Headers, Method};

verus! {

/// Which optional headers are stamped onto every outgoing request.
pub struct HeaderWriteConfig {
    pub user_agent: Option<String>,
    pub allowed_methods: Option<Vec<Method>>,
}

/// The methods that a default configuration advertises.
pub open spec fn default_methods() -> Seq<Method> {
    seq![Method::Invite, Method::Cancel, Method::Bye, Method::Message]
}

/// The user agent of a default configuration: the library's name, a space and
/// the version.
pub open spec fn agent_text(version: Seq<char>) -> Seq<char> {
    seq!['s', 'i', 'p', '_', 'c', 'l', 'i', 'e', 'n', 't', ' '] + version
}

/// The version that `default` puts in the user agent.
pub const LIBRARY_VERSION: &'static str = "0.1.0";

/// A copy of a method list.
pub fn copy_methods(v: &Vec<Method>) -> (r: Vec<Method>)
    ensures
        r@ == v@,
{
    let mut r: Vec<Method> = Vec::new();
    let mut i: usize = 0;
    while i < v.len()
        invariant
            i <= v@.len(),
            r@ == v@.subrange(0, i as int),
        decreases v@.len() - i,
    {
        r.push(v[i]);
        i = i + 1;
    }
    assert(r@ =~= v@);
    r
}

impl HeaderWriteConfig {
    /// How many headers `write_headers` appends.
    pub open spec fn header_count(&self) -> nat {
        (if self.user_agent.is_some() { 1nat } else { 0nat }) + (if self.allowed_methods.is_some() {
            1nat
        } else {
            0nat
        })
    }

    /// `after` is `before` with this configuration's headers appended: the user
    /// agent first, then the allowed methods, each only where configured.
    pub open spec fn writes(&self, before: Seq<Header>, after: Seq<Header>) -> bool {
        &&& after.len() == before.len() + self.header_count()
        &&& after.subrange(0, before.len() as int) == before
        &&& (self.user_agent matches Some(ua) ==> after[before.len() as int] == Header::UserAgent(ua))
        &&& (self.allowed_methods matches Some(ms) ==> (after[after.len() - 1] matches Header::Allow(
            w,
        ) && w@ == ms@))
    }

    /// The default configuration, with `version` in the user agent.
    pub fn with_version(version: &str) -> (r: HeaderWriteConfig)
        ensures
            r.user_agent matches Some(ua) && ua@ == agent_text(version@),
            r.allowed_methods matches Some(ms) && ms@ == default_methods(),
    {
        let mut ua = String::from_str("sip_client ");
        proof { reveal_strlit("sip_client "); }
        ua.append(version);
        let ms = vec![Method::Invite, Method::Cancel, Method::Bye, Method::Message];
        assert(ms@ =~= default_methods());
        HeaderWriteConfig { user_agent: Some(ua), allowed_methods: Some(ms) }
    }

    pub fn write_headers_vec(&self, m: &mut Vec<Header>)
        ensures
            self.writes(old(m)@, final(m)@),
    {
        if let Some(agent) = &self.user_agent {
            m.push(Header::UserAgent(agent.clone()));
        }
        if let Some(allowed) = &self.allowed_methods {
            m.push(Header::Allow(copy_methods(allowed)));
        }
        assert(final(m)@.subrange(0, old(m)@.len() as int) =~= old(m)@);
    }

    pub fn write_headers(&self, m: &mut Headers)
        ensures
            self.writes(old(m)@, final(m)@),
    {
        if let Some(agent) = &self.user_agent {
            m.push(Header::UserAgent(agent.clone()));
        }
        if let Some(allowed) = &self.allowed_methods {
            m.push(Header::Allow(copy_methods(allowed)));
        }
        assert(final(m)@.subrange(0, old(m)@.len() as int) =~= old(m)@);
    }
}

impl Default for HeaderWriteConfig {
    fn default() -> (r: HeaderWriteConfig)
        ensures
            r.user_agent matches Some(ua) && ua@ == agent_text(LIBRARY_VERSION@),
            r.allowed_methods matches Some(ms) && ms@ == default_methods(),
    {
        HeaderWriteConfig::with_version(LIBRARY_VERSION)
    }
}

} // verus!
