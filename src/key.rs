//! secp256k1 keys as bytes.
use vstd::prelude::*;

use crate::encoding::push_bytes;
use crate::network::Network;

verus! {

/// A serialized secp256k1 public key.
#[derive(Clone, Debug)]
pub struct PublicKey {
    pub compressed: bool,
    pub key: Vec<u8>,
}

/// A 32-byte secp256k1 secret key.
#[derive(Clone, Debug)]
pub struct PrivateKey {
    pub compressed: bool,
    pub network: Network,
    pub key: Vec<u8>,
}

impl PublicKey {
    /// The serialized key.
    pub fn to_bytes(&self) -> (r: Vec<u8>)
        ensures
            r@ == self.key@,
    {
        let mut r: Vec<u8> = Vec::new();
        push_bytes(&mut r, self.key.as_slice());
        r
    }
}

} // verus!
