//! ECDSA signing on secp256k1, through the `secp256k1` crate.
use vstd::prelude::*;

use crate::Error;

verus! {

/// The order of the secp256k1 group.
pub open spec fn curve_order() -> int {
    let w: int = 0x1_0000_0000_0000_0000;
    ((0xFFFF_FFFF_FFFF_FFFF * w + 0xFFFF_FFFF_FFFF_FFFE) * w + 0xBAAE_DCE6_AF48_A03B) * w
        + 0xBFD2_5E8C_D036_4141
}

/// The number that bytes stand for, most significant first.
pub open spec fn be_value(s: Seq<u8>) -> int
    decreases s.len(),
{
    if s.len() == 0 {
        0
    } else {
        be_value(s.drop_last()) * 256 + s.last() as int
    }
}

/// 32 bytes that stand for a number from 1 to the group order, exclusive.
pub open spec fn valid_secret_key(sk: Seq<u8>) -> bool {
    sk.len() == 32 && 0 < be_value(sk) < curve_order()
}

/// The DER encoding of the low-S ECDSA signature of a 32-byte digest, with
/// the RFC 6979 nonce.
pub uninterp spec fn ecdsa_der_of(secret_key: Seq<u8>, digest: Seq<u8>) -> Seq<u8>;

/// The 65-byte uncompressed public key of a secret key.
pub uninterp spec fn public_key_of(secret_key: Seq<u8>) -> Seq<u8>;

/// Relies on `SecretKey::from_slice`, `Message::from_digest_slice`,
/// `Secp256k1::sign_ecdsa` and `Signature::serialize_der` of `secp256k1`:
/// the key is accepted exactly when it is valid, and the signature is
/// deterministic (RFC 6979) and low-S.
#[verifier::external_body]
fn sign_der(secret_key: &[u8], digest: &[u8]) -> (r: Option<Vec<u8>>)
    requires
        digest@.len() == 32,
    ensures
        r is Some <==> valid_secret_key(secret_key@),
        r is Some ==> r->0@ == ecdsa_der_of(secret_key@, digest@),
{
    let sk = secp256k1::SecretKey::from_slice(secret_key).ok()?;
    let msg = secp256k1::Message::from_digest_slice(digest).ok()?;
    let secp = secp256k1::Secp256k1::signing_only();
    Some(secp.sign_ecdsa(&msg, &sk).serialize_der().to_vec())
}

/// Relies on `SecretKey::from_slice`, `PublicKey::from_secret_key` and
/// `PublicKey::serialize_uncompressed` of `secp256k1`: the key is accepted
/// exactly when it is valid, and its public key is 65 bytes.
#[verifier::external_body]
pub(crate) fn derive_public_key(secret_key: &[u8]) -> (r: Option<Vec<u8>>)
    ensures
        r is Some <==> valid_secret_key(secret_key@),
        r is Some ==> r->0@ == public_key_of(secret_key@) && r->0@.len() == 65,
{
    let sk = secp256k1::SecretKey::from_slice(secret_key).ok()?;
    let secp = secp256k1::Secp256k1::signing_only();
    Some(secp256k1::PublicKey::from_secret_key(&secp, &sk).serialize_uncompressed().to_vec())
}

/// Relies on `SecretKey::new` of `secp256k1` with the operating system's
/// random source: it draws until the key is valid.
#[verifier::external_body]
pub(crate) fn random_secret_key() -> (r: Vec<u8>)
    ensures
        valid_secret_key(r@),
{
    secp256k1::SecretKey::new(&mut rand::rngs::OsRng).secret_bytes().to_vec()
}

/// A DER signature has the shape this library accepts: from 8 to 72 bytes.
pub open spec fn acceptable_der(sig: Seq<u8>) -> bool {
    8 <= sig.len() <= 72
}

/// The signature of `digest` under `secret_key`, tagged with the flag byte.
pub open spec fn signature_spec(secret_key: Seq<u8>, digest: Seq<u8>, sighash_type: u32) -> Result<Seq<u8>, Error> {
    if valid_secret_key(secret_key) && acceptable_der(ecdsa_der_of(secret_key, digest)) {
        Ok(ecdsa_der_of(secret_key, digest).push(sighash_type as u8))
    } else {
        Err(Error::SignRawTxError)
    }
}

/// Signs a 32-byte digest and appends the low byte of `sighash_type`. An
/// invalid key, or a signature of an unexpected length, gives `SignRawTxError`.
/// The same arguments always give the same bytes.
pub fn generate_signature(secret_key: &[u8], digest: &[u8], sighash_type: u32) -> (r: Result<Vec<u8>, Error>)
    requires
        digest@.len() == 32,
    ensures
        match r {
            Ok(v) => signature_spec(secret_key@, digest@, sighash_type) == Ok::<Seq<u8>, Error>(v@),
            Err(e) => signature_spec(secret_key@, digest@, sighash_type) == Err::<Seq<u8>, Error>(e),
        },
{
    match sign_der(secret_key, digest) {
        None => Err(Error::SignRawTxError),
        Some(mut sig) => {
            if sig.len() < 8 || sig.len() > 72 {
                return Err(Error::SignRawTxError);
            }
            sig.push(sighash_type as u8);
            Ok(sig)
        },
    }
}

} // verus!
