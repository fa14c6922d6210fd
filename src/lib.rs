//! Transaction construction and signing for a Bitcoin-style ledger: a
//! checksummed address codec, the pay-to-pubkey-hash script templates, the
//! fork-id signature hash, signing and the canonical wire encoding.
use vstd::prelude::*;

pub mod network;
pub mod hashes;
pub mod encoding;
pub mod address;
pub mod script;
pub mod transaction;
pub mod sighash;
pub mod signer;
pub mod key;
pub mod account;
pub mod raw;
pub mod util;

pub use crate::network::Network;
pub use crate::address::{Address, Payload};
pub use crate::account::Account;
pub use crate::key::{PrivateKey, PublicKey};
pub use crate::util::secs_since;

verus! {

/// What can go wrong while decoding addresses or building a transaction.
#[derive(Clone, Copy, Debug, PartialEq, Eq, Structural)]
pub enum Error {
    GreateRawTxError,
    NotFoundKeyError,
    SignRawTxError,
    NotSupportedAddressFormError,
    TxidParseError,
    AddressParseError,
    PrivKeyParseError,
    NotEnoughAmount,
    PrepareRawTxError,
    NotFoundAesKeyError,
    AesDecryptError,
    SerdeJsonError,
    /// The trailing checksum of an address does not match its body.
    ChecksumError,
    /// An address starts with a version byte of no known kind and network.
    UnknownVersionError,
    /// An address belongs to another network than the one expected.
    NetworkMismatchError,
    /// There is not exactly one signing account per funding input.
    AccountCountMismatch,
    /// A signature-hash flag combination this library does not implement.
    UnsupportedSigHashType,
}

/// A funding output to spend: where it is, who owns it and what it holds.
#[derive(Clone, Debug)]
pub struct TxInputReq {
    pub txid: String,
    pub index: u32,
    pub address: String,
    pub credit: u64,
}

/// A new output: where the value goes and how much.
#[derive(Clone, Debug)]
pub struct TxOutputReq {
    pub address: String,
    pub value: u64,
}

} // verus!
