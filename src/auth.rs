//! The `Authorization` headers of the two endpoints.
use vstd::prelude::*;
use vstd::utf8::encode_utf8;

verus! {

/// The standard, padded base64 text of `bytes`.
pub uninterp spec fn base64_of(bytes: Seq<u8>) -> Seq<char>;

/// Relies on `base64::encode`: the standard alphabet with padding, a text
/// that depends on the bytes alone.
#[verifier::external_body]
fn encode_base64(bytes: &[u8]) -> (r: String)
    ensures
        r@ == base64_of(bytes@),
{
    base64::encode(bytes)
}

/// `Basic ` followed by a space.
pub open spec fn basic_prefix() -> Seq<char> {
    seq!['B', 'a', 's', 'i', 'c', ' ']
}

/// `Bearer ` followed by a space.
pub open spec fn bearer_prefix() -> Seq<char> {
    seq!['B', 'e', 'a', 'r', 'e', 'r', ' ']
}

/// The pair `key:secret` that Basic authentication encodes.
pub open spec fn credential_pair(key: Seq<char>, secret: Seq<char>) -> Seq<char> {
    key + seq![':'] + secret
}

/// The Basic header for credentials whose pair encodes to `encoded`.
pub open spec fn basic_header_of(encoded: Seq<char>) -> Seq<char> {
    basic_prefix() + encoded
}

/// The Basic header of the token request for `key` and `secret`.
pub open spec fn basic_header_for(key: Seq<char>, secret: Seq<char>) -> Seq<char> {
    basic_header_of(base64_of(encode_utf8(credential_pair(key, secret))))
}

/// The Bearer header that presents `access_token`.
pub open spec fn bearer_header_of(access_token: Seq<char>) -> Seq<char> {
    bearer_prefix() + access_token
}

/// The Basic header around already encoded credentials.
pub fn basic_authorization(encoded: &str) -> (r: String)
    ensures
        r@ == basic_header_of(encoded@),
{
    let mut h = String::from_str("Basic ");
    proof {
        reveal_strlit("Basic ");
    }
    h.append(encoded);
    h
}

/// The Basic header of the token request: the base64 text of the UTF-8
/// bytes of `key:secret`, after `Basic `.
pub fn basic_credentials(key: &str, secret: &str) -> (r: String)
    ensures
        r@ == basic_header_for(key@, secret@),
{
    let mut pair = String::from_str(key);
    pair.append(":");
    proof {
        reveal_strlit(":");
    }
    pair.append(secret);
    assert(pair@ =~= credential_pair(key@, secret@));
    let text = pair.as_str();
    let bytes = text.as_bytes();
    assert(bytes@ == encode_utf8(credential_pair(key@, secret@)));
    let encoded = encode_base64(bytes);
    basic_authorization(encoded.as_str())
}

/// The Bearer header that presents `access_token` to the device endpoint.
pub fn bearer_authorization(access_token: &str) -> (r: String)
    ensures
        r@ == bearer_header_of(access_token@),
{
    let mut h = String::from_str("Bearer ");
    proof {
        reveal_strlit("Bearer ");
    }
    h.append(access_token);
    h
}

} // verus!
