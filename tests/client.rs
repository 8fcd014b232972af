use sip_client::{
    challenge_of, digest_answer, dialog_headers_of, AuthChallenge, ChallengeFault, ContentType,
    DigestChallenge, Error, Header, HeaderWriteConfig, Headers, MessageWriter, Method,
    MissingField, NamedHeader, RegistrationManager, RequestGenerator, ResponseGenerator,
    SipMessage, SoftPhone, Uri, ViaHeader,
};

fn account() -> Uri {
    Uri::new("example.com".to_string()).with_user("alice".to_string())
}

fn local() -> Uri {
    Uri::new("192.168.0.10:5060".to_string())
}

fn cseq_of(m: &SipMessage) -> Option<(u32, Method)> {
    m.headers().items.iter().find_map(|h| match h {
        Header::CSeq(n, meth) => Some((*n, *meth)),
        _ => None,
    })
}

fn call_id_of(m: &SipMessage) -> Option<String> {
    m.headers().items.iter().find_map(|h| match h {
        Header::CallId(c) => Some(c.clone()),
        _ => None,
    })
}

fn content_length_of(m: &SipMessage) -> Option<usize> {
    m.headers().items.iter().find_map(|h| match h {
        Header::ContentLength(n) => Some(*n),
        _ => None,
    })
}

fn challenge_response(realm: Option<&str>, nonce: Option<&str>) -> SipMessage {
    let challenge = AuthChallenge {
        realm: realm.map(|s| s.to_string()),
        nonce: nonce.map(|s| s.to_string()),
        algorithm: Some("MD5".to_string()),
    };
    ResponseGenerator::new()
        .code(401)
        .header(Header::ContentLength(0))
        .header(Header::WwwAuthenticate(challenge))
        .build()
        .unwrap()
}

fn dialog_set() -> Vec<Header> {
    vec![
        Header::CSeq(1, Method::Invite),
        Header::CallId("abc".to_string()),
        Header::From(NamedHeader::new(Uri::new("a.example".to_string()))),
        Header::To(NamedHeader::new(Uri::new("b.example".to_string()))),
        Header::Via(ViaHeader { uri: Uri::new("v.example".to_string()), branch: "z9hG4bK1".to_string() }),
    ]
}

#[test]
fn register_sequence_numbers_count_up() {
    let mut reg = RegistrationManager::new(account(), local());
    let cfg = HeaderWriteConfig::default();
    let mut ids = vec![];
    for i in 1..=5u32 {
        let m = reg.get_request(&cfg).unwrap();
        assert_eq!(cseq_of(&m), Some((i, Method::Register)));
        ids.push(call_id_of(&m).unwrap());
        assert_eq!(reg.seq_counter(), i);
    }
    assert!(ids.iter().all(|c| c == &ids[0]));
    assert_eq!(&ids[0], reg.call_id());
    assert_eq!(ids[0].len(), 16);
    assert!(ids[0].chars().all(|c| c.is_ascii_hexdigit()));
}

#[test]
fn register_request_layout() {
    let mut reg =
        RegistrationManager::with_tokens(account(), local(), "cid".to_string(), "z9hG4bKb".to_string());
    let cfg = HeaderWriteConfig { user_agent: None, allowed_methods: None };
    let m = reg.get_request(&cfg).unwrap();
    match m {
        SipMessage::Request { method, uri, headers, body } => {
            assert_eq!(method, Method::Register);
            assert_eq!(uri, Uri::new("example.com".to_string()));
            assert!(body.is_empty());
            assert_eq!(
                headers.items,
                vec![
                    Header::ContentLength(0),
                    Header::To(NamedHeader::new(account())),
                    Header::From(NamedHeader::new(account())),
                    Header::Contact(NamedHeader::new(local())),
                    Header::CSeq(1, Method::Register),
                    Header::CallId("cid".to_string()),
                    Header::Via(ViaHeader { uri: local(), branch: "z9hG4bKb".to_string() }),
                ]
            );
        }
        _ => panic!("expected a request"),
    }
}

#[test]
fn set_challenge_without_challenge_header_fails() {
    let mut reg = RegistrationManager::new(account(), local());
    let cfg = HeaderWriteConfig::default();
    reg.get_request(&cfg).unwrap();
    let plain = ResponseGenerator::new().code(200).header(Header::ContentLength(0)).build().unwrap();
    assert_eq!(reg.set_challenge(plain), Err(Error::Challenge(ChallengeFault::NoChallenge)));
    assert_eq!(reg.challenge(), &None);
    assert_eq!(reg.seq_counter(), 1);
}

#[test]
fn failed_challenge_keeps_the_stored_one() {
    let mut reg = RegistrationManager::new(account(), local());
    reg.set_challenge(challenge_response(Some("example.com"), Some("n1"))).unwrap();
    let stored = reg.challenge().clone();
    let plain = ResponseGenerator::new().code(401).build().unwrap();
    assert_eq!(reg.set_challenge(plain), Err(Error::Challenge(ChallengeFault::NoChallenge)));
    assert_eq!(reg.challenge(), &stored);
}

#[test]
fn set_challenge_faults() {
    let mut reg = RegistrationManager::new(account(), local());
    let request = RequestGenerator::new().method(Method::Invite).uri(account()).build().unwrap();
    assert_eq!(reg.set_challenge(request), Err(Error::Challenge(ChallengeFault::NotAResponse)));
    assert_eq!(
        reg.set_challenge(challenge_response(None, Some("n"))),
        Err(Error::Challenge(ChallengeFault::MissingRealm))
    );
    assert_eq!(
        reg.set_challenge(challenge_response(Some("r"), None)),
        Err(Error::Challenge(ChallengeFault::MissingNonce))
    );
    assert_eq!(reg.challenge(), &None);
}

#[test]
fn challenge_is_stored_and_overwritten() {
    let mut reg = RegistrationManager::new(account(), local());
    reg.set_challenge(challenge_response(Some("r1"), Some("n1"))).unwrap();
    reg.set_challenge(challenge_response(Some("r2"), Some("n2"))).unwrap();
    assert_eq!(
        reg.challenge(),
        &Some(DigestChallenge {
            realm: "r2".to_string(),
            nonce: "n2".to_string(),
            algorithm: Some("MD5".to_string()),
        })
    );
}

#[test]
fn challenge_of_reads_first_challenge() {
    let first = AuthChallenge { realm: Some("a".to_string()), nonce: Some("1".to_string()), algorithm: None };
    let second = AuthChallenge { realm: Some("b".to_string()), nonce: Some("2".to_string()), algorithm: None };
    let m = ResponseGenerator::new()
        .code(407)
        .header(Header::WwwAuthenticate(first))
        .header(Header::WwwAuthenticate(second))
        .build()
        .unwrap();
    assert_eq!(
        challenge_of(&m),
        Ok(DigestChallenge { realm: "a".to_string(), nonce: "1".to_string(), algorithm: None })
    );
}

#[test]
fn authenticated_retry_answers_challenge() {
    let mut reg = RegistrationManager::new(account(), local());
    reg.set_username("alice".to_string());
    reg.set_password("secret".to_string());
    let cfg = HeaderWriteConfig::default();
    reg.get_request(&cfg).unwrap();
    reg.set_challenge(challenge_response(Some("example.com"), Some("abc123"))).unwrap();
    let retry = reg.get_request(&cfg).unwrap();
    assert_eq!(cseq_of(&retry), Some((2, Method::Register)));
    match &retry.headers().items[0] {
        Header::Authorization(a) => {
            assert_eq!(a.username, "alice");
            assert_eq!(a.realm, "example.com");
            assert_eq!(a.nonce, "abc123");
            assert_eq!(a.uri, "sip:example.com");
            assert_eq!(a.algorithm, Some("MD5".to_string()));
            assert_eq!(a.response, "d1d211daa2e0d7f43de25792410f5057");
        }
        other => panic!("expected an authorization header, got {:?}", other),
    }
}

#[test]
fn challenge_without_credentials_fails() {
    let mut reg = RegistrationManager::new(account(), local());
    reg.set_challenge(challenge_response(Some("example.com"), Some("abc123"))).unwrap();
    let cfg = HeaderWriteConfig::default();
    assert_eq!(reg.get_request(&cfg), Err(Error::Challenge(ChallengeFault::NoCredentials)));
    assert_eq!(reg.seq_counter(), 0);
    reg.set_username("alice".to_string());
    assert_eq!(reg.get_request(&cfg), Err(Error::Challenge(ChallengeFault::NoCredentials)));
}

#[test]
fn digest_answer_known_value() {
    let r = digest_answer("alice", "secret", "example.com", "abc123", Method::Register, "sip:example.com");
    assert_eq!(r, "d1d211daa2e0d7f43de25792410f5057");
}

#[test]
fn cancel_response_keeps_dialog_headers() {
    let mut phone = SoftPhone::new(local(), account());
    let mut input = dialog_set();
    input.push(Header::ContentType(ContentType::PlainText));
    let (ok, terminated) = phone.cancel_response(&Headers::from_vec(input)).unwrap();
    let mut expected = dialog_set();
    expected.push(Header::ContentLength(0));
    match (&ok, &terminated) {
        (
            SipMessage::Response { code: c1, headers: h1, body: b1 },
            SipMessage::Response { code: c2, headers: h2, body: b2 },
        ) => {
            assert_eq!(*c1, 200);
            assert_eq!(*c2, 487);
            assert_eq!(h1.items, expected);
            assert_eq!(h2.items, expected);
            assert!(b1.is_empty() && b2.is_empty());
        }
        _ => panic!("expected two responses"),
    }
}

#[test]
fn cancel_response_without_dialog_headers() {
    let mut phone = SoftPhone::new(local(), account());
    let input = Headers::from_vec(vec![
        Header::ContentType(ContentType::Sdp),
        Header::UserAgent("x".to_string()),
    ]);
    let (ok, terminated) = phone.cancel_response(&input).unwrap();
    assert_eq!(ok.headers().items, vec![Header::ContentLength(0)]);
    assert_eq!(terminated.headers().items, vec![Header::ContentLength(0)]);
}

#[test]
fn dialog_headers_keep_order_and_duplicates() {
    let v = ViaHeader { uri: Uri::new("v".to_string()), branch: "b".to_string() };
    let input = Headers::from_vec(vec![
        Header::Via(v.clone()),
        Header::ContentLength(3),
        Header::CallId("c".to_string()),
        Header::Via(v.clone()),
        Header::Other("X".to_string(), "y".to_string()),
    ]);
    assert_eq!(
        dialog_headers_of(&input),
        vec![Header::Via(v.clone()), Header::CallId("c".to_string()), Header::Via(v)]
    );
}

#[test]
fn write_message_content_length() {
    let mut phone = SoftPhone::new(local(), account());
    let dest = Uri::new("example.org".to_string()).with_user("bob".to_string());
    let empty = phone.write_message(vec![], dest.clone()).unwrap();
    assert_eq!(content_length_of(&empty), Some(0));
    for k in [1usize, 5, 1000] {
        let m = phone.write_message(vec![b'x'; k], dest.clone()).unwrap();
        assert_eq!(content_length_of(&m), Some(k));
        match m {
            SipMessage::Request { method, uri, body, .. } => {
                assert_eq!(method, Method::Message);
                assert_eq!(uri, dest);
                assert_eq!(body.len(), k);
            }
            _ => panic!("expected a request"),
        }
    }
}

#[test]
fn write_message_uses_registration_via() {
    let mut phone = SoftPhone::new(local(), account());
    let via = phone.registry().via_header();
    let m = phone.write_message(b"hi".to_vec(), account()).unwrap();
    assert!(m.headers().items.contains(&Header::Via(via)));
    assert_eq!(cseq_of(&m), Some((1, Method::Message)));
}

#[test]
fn default_config_writes_two_headers() {
    let cfg = HeaderWriteConfig::default();
    let mut hs = Headers::new();
    cfg.write_headers(&mut hs);
    assert_eq!(
        hs.items,
        vec![
            Header::UserAgent("sip_client 0.1.0".to_string()),
            Header::Allow(vec![Method::Invite, Method::Cancel, Method::Bye, Method::Message]),
        ]
    );
}

#[test]
fn config_appends_after_existing_headers() {
    let cfg = HeaderWriteConfig::with_version("9.9");
    let mut v = vec![Header::CallId("c".to_string())];
    cfg.write_headers_vec(&mut v);
    assert_eq!(v.len(), 3);
    assert_eq!(v[0], Header::CallId("c".to_string()));
    assert_eq!(v[1], Header::UserAgent("sip_client 9.9".to_string()));
    let partial = HeaderWriteConfig { user_agent: None, allowed_methods: Some(vec![Method::Bye]) };
    let mut w = vec![];
    partial.write_headers_vec(&mut w);
    assert_eq!(w, vec![Header::Allow(vec![Method::Bye])]);
}

#[test]
fn counters_are_independent() {
    let mut phone = SoftPhone::new(local(), account());
    phone.get_register_request().unwrap();
    phone.get_register_request().unwrap();
    phone.write_message(b"a".to_vec(), account()).unwrap();
    phone.get_register_request().unwrap();
    assert_eq!(phone.registry().seq_counter(), 3);
    assert_eq!(phone.messaging().seq_counter(), 1);

    let mut reg = RegistrationManager::new(account(), local());
    let mut msg = MessageWriter::new(account());
    let cfg = HeaderWriteConfig::default();
    let via = reg.via_header();
    msg.write_message(vec![], account(), via.clone(), &cfg).unwrap();
    msg.write_message(vec![], account(), via, &cfg).unwrap();
    let r = reg.get_request(&cfg).unwrap();
    assert_eq!(cseq_of(&r), Some((1, Method::Register)));
    assert_eq!(msg.seq_counter(), 2);
}

#[test]
fn phone_accessors() {
    let mut phone = SoftPhone::new(local(), account());
    phone.header_cfg_mut().user_agent = None;
    assert_eq!(phone.header_cfg().user_agent, None);
    phone.registry_mut().set_username("alice".to_string());
    phone.registry_mut().set_password("secret".to_string());
    phone.set_register_challenge(challenge_response(Some("example.com"), Some("abc123"))).unwrap();
    let m = phone.get_register_request().unwrap();
    assert!(matches!(m.headers().items[0], Header::Authorization(_)));
    assert_eq!(phone.registry().account_uri(), &account());
    assert_eq!(phone.registry().local_uri(), &local());
    assert_eq!(phone.messaging().account_uri(), &account());
    assert_eq!(phone.messaging_mut().seq_counter(), 0);
}

#[test]
fn builders_report_missing_fields() {
    assert_eq!(RequestGenerator::new().uri(account()).build(), Err(MissingField::Method));
    assert_eq!(RequestGenerator::new().method(Method::Bye).build(), Err(MissingField::Uri));
    assert_eq!(ResponseGenerator::new().build(), Err(MissingField::Code));
}

#[test]
fn uri_text_and_method_names() {
    assert_eq!(account().to_text(), "sip:alice@example.com");
    assert_eq!(local().to_text(), "sip:192.168.0.10:5060");
    assert_eq!(Method::Register.name(), "REGISTER");
    assert_eq!(Method::Cancel.name(), "CANCEL");
}
