//! WireGuard keys in their base64 text form, through `wireguard_keys`.

use vstd::prelude::*;
use crate::error::ErrorKind;

verus! {

#[verifier::external_type_specification]
#[verifier::external_body]
pub struct ExParseError(wireguard_keys::ParseError);

/// The 32 key bytes that `wireguard_keys::Privkey::from_base64` reads from
/// a text, where it reads any.
pub uninterp spec fn base64_key_bytes(s: Seq<char>) -> Option<Seq<u8>>;

/// The X25519 public key that `wireguard_keys::Privkey::pubkey` gives for a
/// private key.
pub uninterp spec fn x25519_public_key(private_key: Seq<u8>) -> Seq<u8>;

/// The base64 text that `wireguard_keys::Pubkey::to_base64` gives for a key.
pub uninterp spec fn public_key_base64(public_key: Seq<u8>) -> Seq<char>;

/// Relies on `wireguard_keys::Privkey::from_base64`: standard base64, and
/// exactly 32 decoded bytes, else an error.
#[verifier::external_body]
fn privkey_from_base64(s: &str) -> (r: Result<[u8; 32], wireguard_keys::ParseError>)
    ensures
        r is Ok <==> base64_key_bytes(s@) is Some,
        r is Ok ==> r->Ok_0@ == base64_key_bytes(s@)->Some_0,
{
    wireguard_keys::Privkey::from_base64(s).map(|k| *k)
}

/// Relies on `wireguard_keys::Privkey::pubkey`: the public key of a private
/// key, which depends on its bytes alone.
#[verifier::external_body]
fn privkey_pubkey(private_key: [u8; 32]) -> (r: [u8; 32])
    ensures
        r@ == x25519_public_key(private_key@),
{
    *wireguard_keys::Privkey::new(private_key).pubkey()
}

/// Relies on `wireguard_keys::Pubkey::to_base64`: the key's bytes in
/// standard base64.
#[verifier::external_body]
fn pubkey_to_base64(public_key: [u8; 32]) -> (r: String)
    ensures
        r@ == public_key_base64(public_key@),
{
    wireguard_keys::Pubkey::new(public_key).to_base64()
}

/// Reads a private key from its base64 text.
pub fn decode_private_key(text: &str) -> (r: Result<[u8; 32], ErrorKind>)
    ensures
        match base64_key_bytes(text@) {
            Some(k) => r is Ok && r->Ok_0@ == k,
            None => r == Err::<[u8; 32], ErrorKind>(ErrorKind::KeyLoadError),
        },
{
    match privkey_from_base64(text) {
        Ok(k) => Ok(k),
        Err(_) => Err(ErrorKind::KeyLoadError),
    }
}

/// The base64 text of the public key that belongs to the private key given
/// in base64 text.
pub fn public_key_text(private_text: &str) -> (r: Result<String, ErrorKind>)
    ensures
        match base64_key_bytes(private_text@) {
            Some(k) => r is Ok && r->Ok_0@ == public_key_base64(x25519_public_key(k)),
            None => r == Err::<String, ErrorKind>(ErrorKind::KeyLoadError),
        },
{
    let sk = decode_private_key(private_text)?;
    let pk = privkey_pubkey(sk);
    Ok(pubkey_to_base64(pk))
}

} // verus!
