//! Base58Check addresses: a version byte for the kind and network, a 20-byte
//! hash and a 4-byte checksum, written in the base-58 alphabet.
use vstd::prelude::*;

use crate::hashes::{hash160, hash160_spec, sha256d, sha256d_spec};
use crate::key::PublicKey;
use crate::network::Network;
use crate::Error;

verus! {

/// What an address pays to.
#[derive(Clone, Debug, PartialEq, Eq, Hash)]
pub enum Payload {
    /// The hash of a public key.
    PubkeyHash(Vec<u8>),
    /// The hash of a script.
    ScriptHash(Vec<u8>),
}

/// An address: a payload usable on one network.
#[derive(Clone, Debug, PartialEq, Eq, Hash)]
pub struct Address {
    pub payload: Payload,
    pub network: Network,
}

/// The mathematical value of an address.
pub ghost struct AddressView {
    pub is_script: bool,
    pub hash: Seq<u8>,
    pub network: Network,
}

impl Payload {
    pub open spec fn is_script(&self) -> bool {
        self is ScriptHash
    }

    pub open spec fn hash(&self) -> Seq<u8> {
        match self {
            Payload::PubkeyHash(h) => h@,
            Payload::ScriptHash(h) => h@,
        }
    }
}

impl View for Address {
    type V = AddressView;

    open spec fn view(&self) -> AddressView {
        AddressView { is_script: self.payload.is_script(), hash: self.payload.hash(), network: self.network }
    }
}

impl Address {
    /// Every payload hash is 20 bytes.
    pub open spec fn wf(&self) -> bool {
        self.payload.hash().len() == 20
    }
}

/// The version byte for a payload kind and a network.
pub open spec fn version_byte(is_script: bool, network: Network) -> u8 {
    match (is_script, network) {
        (false, Network::Mainnet) => 38,
        (true, Network::Mainnet) => 23,
        (false, Network::Testnet) => 111,
        (true, Network::Testnet) => 196,
    }
}

/// The payload kind and network of a version byte, if it has one.
pub open spec fn version_meaning(v: u8) -> Option<(bool, Network)> {
    if v == 38 {
        Some((false, Network::Mainnet))
    } else if v == 23 {
        Some((true, Network::Mainnet))
    } else if v == 111 {
        Some((false, Network::Testnet))
    } else if v == 196 {
        Some((true, Network::Testnet))
    } else {
        None
    }
}

/// The first four bytes of the double SHA-256 of `body`.
pub open spec fn checksum(body: Seq<u8>) -> Seq<u8> {
    sha256d_spec(body).take(4)
}

/// The 25 bytes behind an address: version, hash, checksum.
pub open spec fn address_bytes(a: AddressView) -> Seq<u8> {
    let body = seq![version_byte(a.is_script, a.network)] + a.hash;
    body + checksum(body)
}

/// The base-58 text of a byte string.
pub uninterp spec fn base58_of(b: Seq<u8>) -> Seq<char>;

/// The text form of an address.
pub open spec fn address_text(a: AddressView) -> Seq<char> {
    base58_of(address_bytes(a))
}

/// What decoding the 25-or-so bytes behind an address gives.
pub open spec fn decode_bytes_spec(b: Seq<u8>, expected: Option<Network>) -> Result<AddressView, Error> {
    if b.len() != 25 {
        Err(Error::AddressParseError)
    } else if b.subrange(21, 25) != checksum(b.take(21)) {
        Err(Error::ChecksumError)
    } else {
        match version_meaning(b[0]) {
            None => Err(Error::UnknownVersionError),
            Some((is_script, network)) => {
                if expected is Some && expected->0 != network {
                    Err(Error::NetworkMismatchError)
                } else {
                    Ok(AddressView { is_script, hash: b.subrange(1, 21), network })
                }
            },
        }
    }
}

/// What decoding address text gives.
pub open spec fn decode_spec(s: Seq<char>, expected: Option<Network>) -> Result<AddressView, Error> {
    if exists|b: Seq<u8>| base58_of(b) == s {
        decode_bytes_spec(choose|b: Seq<u8>| base58_of(b) == s, expected)
    } else {
        Err(Error::AddressParseError)
    }
}

/// Relies on `rust_base58::ToBase58::to_base58` for byte slices: one digit
/// `1` per leading zero byte, then the digits of the number the rest stands
/// for, so no other byte string has the same text.
#[verifier::external_body]
fn to_base58(b: &[u8]) -> (r: String)
    ensures
        r@ == base58_of(b@),
        forall|c: Seq<u8>| base58_of(c) == r@ ==> c == b@,
{
    rust_base58::ToBase58::to_base58(b)
}

/// Relies on `rust_base58::FromBase58::from_base58` for strings: it undoes
/// `to_base58`, and what it returns encodes back to its argument.
#[verifier::external_body]
fn from_base58(s: &str) -> (r: Option<Vec<u8>>)
    ensures
        r is Some ==> base58_of(r->0@) == s@,
        forall|b: Seq<u8>| base58_of(b) == s@ ==> r is Some && r->0@ == b,
{
    rust_base58::FromBase58::from_base58(s).ok()
}

/// The version byte of a payload kind on a network.
pub fn version_of(is_script: bool, network: Network) -> (r: u8)
    ensures
        r == version_byte(is_script, network),
{
    match (is_script, network) {
        (false, Network::Mainnet) => 38,
        (true, Network::Mainnet) => 23,
        (false, Network::Testnet) => 111,
        (true, Network::Testnet) => 196,
    }
}

/// The payload kind and network of a version byte.
pub fn meaning_of(v: u8) -> (r: Option<(bool, Network)>)
    ensures
        r == version_meaning(v),
{
    if v == 38 {
        Some((false, Network::Mainnet))
    } else if v == 23 {
        Some((true, Network::Mainnet))
    } else if v == 111 {
        Some((false, Network::Testnet))
    } else if v == 196 {
        Some((true, Network::Testnet))
    } else {
        None
    }
}

fn copy_bytes(src: &[u8], from: usize, to: usize) -> (r: Vec<u8>)
    requires
        from <= to <= src@.len(),
    ensures
        r@ == src@.subrange(from as int, to as int),
{
    let mut r: Vec<u8> = Vec::new();
    let mut i: usize = from;
    while i < to
        invariant
            from <= i <= to <= src@.len(),
            r@ == src@.subrange(from as int, i as int),
        decreases to - i,
    {
        r.push(src[i]);
        i = i + 1;
        assert(r@ =~= src@.subrange(from as int, i as int));
    }
    r
}

fn bytes_equal(a: &[u8], b: &[u8]) -> (r: bool)
    ensures
        r == (a@ == b@),
{
    if a.len() != b.len() {
        return false;
    }
    let mut i: usize = 0;
    while i < a.len()
        invariant
            a@.len() == b@.len(),
            i <= a@.len(),
            forall|k: int| 0 <= k < i ==> a@[k] == b@[k],
        decreases a@.len() - i,
    {
        if a[i] != b[i] {
            return false;
        }
        i = i + 1;
    }
    assert(a@ =~= b@);
    true
}

impl Address {
    /// The 25 bytes behind this address.
    pub fn to_bytes(&self) -> (r: Vec<u8>)
        requires
            self.wf(),
        ensures
            r@ == address_bytes(self@),
            r@.len() == 25,
    {
        let (is_script, hash) = match &self.payload {
            Payload::PubkeyHash(h) => (false, h),
            Payload::ScriptHash(h) => (true, h),
        };
        let mut body: Vec<u8> = Vec::new();
        body.push(version_of(is_script, self.network));
        let mut i: usize = 0;
        while i < hash.len()
            invariant
                i <= hash@.len(),
                body@ == seq![version_byte(is_script, self.network)] + hash@.take(i as int),
            decreases hash@.len() - i,
        {
            body.push(hash[i]);
            i = i + 1;
            assert(body@ =~= seq![version_byte(is_script, self.network)] + hash@.take(i as int));
        }
        assert(hash@.take(i as int) =~= hash@);
        let digest = sha256d(body.as_slice());
        let ghost body_v = body@;
        let mut k: usize = 0;
        while k < 4
            invariant
                k <= 4,
                digest@.len() == 32,
                body@ == body_v + digest@.take(k as int),
            decreases 4 - k,
        {
            body.push(digest[k]);
            k = k + 1;
            assert(body@ =~= body_v + digest@.take(k as int));
        }
        body
    }

    /// The base-58 text of this address. Decoding it gives the address back,
    /// whether or not its network is expected.
    pub fn to_string(&self) -> (r: String)
        requires
            self.wf(),
        ensures
            r@ == address_text(self@),
            decode_spec(r@, Some(self.network)) == Ok::<AddressView, Error>(self@),
            decode_spec(r@, None) == Ok::<AddressView, Error>(self@),
    {
        let b = self.to_bytes();
        let r = to_base58(b.as_slice());
        proof {
            lemma_bytes_round_trip(self@);
            let c = choose|c: Seq<u8>| base58_of(c) == r@;
            assert(base58_of(b@) == r@);
            assert(c == b@);
        }
        r
    }

    /// Decodes the 25 bytes behind an address, checking the length, the
    /// checksum, the version and, when one is given, the network.
    pub fn from_bytes(b: &[u8], expected: Option<Network>) -> (r: Result<Address, Error>)
        ensures
            match r {
                Ok(a) => a.wf() && decode_bytes_spec(b@, expected) == Ok::<AddressView, Error>(a@),
                Err(e) => decode_bytes_spec(b@, expected) == Err::<AddressView, Error>(e),
            },
    {
        if b.len() != 25 {
            return Err(Error::AddressParseError);
        }
        let body = copy_bytes(b, 0, 21);
        let digest = sha256d(body.as_slice());
        let sum = copy_bytes(digest.as_slice(), 0, 4);
        let tail = copy_bytes(b, 21, 25);
        assert(body@ =~= b@.take(21));
        assert(sum@ =~= checksum(b@.take(21)));
        if !bytes_equal(tail.as_slice(), sum.as_slice()) {
            return Err(Error::ChecksumError);
        }
        match meaning_of(b[0]) {
            None => Err(Error::UnknownVersionError),
            Some((is_script, network)) => {
                match expected {
                    Some(n) => {
                        if n != network {
                            return Err(Error::NetworkMismatchError);
                        }
                    },
                    None => {},
                }
                let hash = copy_bytes(b, 1, 21);
                let payload = if is_script {
                    Payload::ScriptHash(hash)
                } else {
                    Payload::PubkeyHash(hash)
                };
                Ok(Address { payload, network })
            },
        }
    }

    /// Decodes address text: base-58, then as `from_bytes`. Text that is not
    /// base-58 fails with `AddressParseError`.
    pub fn decode(s: &str, expected: Option<Network>) -> (r: Result<Address, Error>)
        ensures
            match r {
                Ok(a) => a.wf() && decode_spec(s@, expected) == Ok::<AddressView, Error>(a@),
                Err(e) => decode_spec(s@, expected) == Err::<AddressView, Error>(e),
            },
    {
        match from_base58(s) {
            None => Err(Error::AddressParseError),
            Some(b) => {
                proof {
                    let c = choose|c: Seq<u8>| base58_of(c) == s@;
                    assert(base58_of(b@) == s@);
                    assert(c == b@);
                }
                Address::from_bytes(b.as_slice(), expected)
            },
        }
    }

    /// The pay-to-pubkey-hash address of a public key.
    pub fn p2pkh(pk: &PublicKey, network: Network) -> (r: Address)
        ensures
            r.wf(),
            r@ == (AddressView { is_script: false, hash: hash160_spec(pk.key@), network }),
    {
        Address { network, payload: Payload::PubkeyHash(hash160(pk.key.as_slice())) }
    }

    /// The pay-to-script-hash address of a script.
    pub fn p2sh(script: &Vec<u8>, network: Network) -> (r: Address)
        ensures
            r.wf(),
            r@ == (AddressView { is_script: true, hash: hash160_spec(script@), network }),
    {
        Address { network, payload: Payload::ScriptHash(hash160(script.as_slice())) }
    }
}

/// Decoding the bytes of an address gives the address back, with its own
/// network expected or with none.
proof fn lemma_bytes_round_trip(a: AddressView)
    requires
        a.hash.len() == 20,
        address_bytes(a).len() == 25,
    ensures
        decode_bytes_spec(address_bytes(a), Some(a.network)) == Ok::<AddressView, Error>(a),
        decode_bytes_spec(address_bytes(a), None) == Ok::<AddressView, Error>(a),
{
    let body = seq![version_byte(a.is_script, a.network)] + a.hash;
    let b = address_bytes(a);
    assert(b.take(21) =~= body);
    assert(b.subrange(21, 25) =~= checksum(body));
    assert(b.subrange(1, 21) =~= a.hash);
    assert(b[0] == version_byte(a.is_script, a.network));
}

/// Address bytes whose trailing four bytes differ from the checksum of the
/// first 21 fail to decode with `ChecksumError`, whatever network is expected.
pub proof fn lemma_tampered_checksum(b: Seq<u8>, expected: Option<Network>)
    requires
        b.len() == 25,
        b.subrange(21, 25) != checksum(b.take(21)),
    ensures
        decode_bytes_spec(b, expected) == Err::<AddressView, Error>(Error::ChecksumError),
{
}

} // verus!
