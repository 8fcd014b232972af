use vstd::prelude::*;
use crate::message::{method_text, Method};

verus! {

/// The MD5 digest of the UTF-8 encoding of a text, as 32 lower-case hex digits.
pub uninterp spec fn md5_hex_of(s: Seq<char>) -> Seq<char>;

/// Relies on `md5::compute` over the text's bytes, printed through the
/// digest's `LowerHex` impl: the result depends on the text alone and has two
/// hex digits for each of the sixteen digest bytes.
#[verifier::external_body]
fn md5_hex(s: &str) -> (r: String)
    ensures
        r@ == md5_hex_of(s@),
        r@.len() == 32,
{
    format!("{:x}", md5::compute(s.as_bytes()))
}

/// Relies on `rand::random` for a fresh `u64`, printed as sixteen hex digits
/// (zero-padded): nothing else is known of the text, which serves as an
/// identifier that is hard to guess.
#[verifier::external_body]
pub(crate) fn random_token() -> (r: String)
    ensures
        r@.len() == 16,
{
    format!("{:016x}", rand::random::<u64>())
}

/// `a:b`
pub open spec fn colon_join(a: Seq<char>, b: Seq<char>) -> Seq<char> {
    a + seq![':'] + b
}

/// The digest answer to a challenge (RFC 2617 without quality of protection):
/// `H(H(user:realm:password):nonce:H(method:uri))`, with `H` the MD5 digest in hex.
pub open spec fn digest_response(
    user: Seq<char>,
    password: Seq<char>,
    realm: Seq<char>,
    nonce: Seq<char>,
    method: Method,
    uri: Seq<char>,
) -> Seq<char> {
    let ha1 = md5_hex_of(colon_join(colon_join(user, realm), password));
    let ha2 = md5_hex_of(colon_join(method_text(method), uri));
    md5_hex_of(colon_join(colon_join(ha1, nonce), ha2))
}

/// Computes the digest answer for `method` on `uri`.
pub fn digest_answer(
    user: &str,
    password: &str,
    realm: &str,
    nonce: &str,
    method: Method,
    uri: &str,
) -> (r: String)
    ensures
        r@ == digest_response(user@, password@, realm@, nonce@, method, uri@),
{
    proof { reveal_strlit(":"); }
    let mut a1 = String::from_str(user);
    a1.append(":");
    a1.append(realm);
    a1.append(":");
    a1.append(password);
    assert(a1@ =~= colon_join(colon_join(user@, realm@), password@));
    let ha1 = md5_hex(a1.as_str());
    let mut a2 = String::from_str(method.name());
    a2.append(":");
    a2.append(uri);
    assert(a2@ =~= colon_join(method_text(method), uri@));
    let ha2 = md5_hex(a2.as_str());
    let mut a3 = ha1.clone();
    a3.append(":");
    a3.append(nonce);
    a3.append(":");
    a3.append(ha2.as_str());
    assert(a3@ =~= colon_join(colon_join(ha1@, nonce@), ha2@));
    md5_hex(a3.as_str())
}

} // verus!
