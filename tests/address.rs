use btg::address::Address;
use btg::{Error, Network, Payload, PublicKey};
use rust_base58::ToBase58;

fn sample_hash() -> Vec<u8> {
    (0u8..20).map(|i| i.wrapping_mul(13).wrapping_add(7)).collect()
}

#[test]
fn round_trip_every_kind_and_network() {
    for network in [Network::Mainnet, Network::Testnet] {
        for payload in [Payload::PubkeyHash(sample_hash()), Payload::ScriptHash(sample_hash())] {
            let a = Address { payload, network };
            let text = a.to_string();
            assert_eq!(Address::decode(&text, Some(network)).unwrap(), a);
            assert_eq!(Address::decode(&text, None).unwrap(), a);
        }
    }
}

#[test]
fn version_bytes_follow_the_table() {
    let cases = [
        (Payload::PubkeyHash(sample_hash()), Network::Mainnet, 38u8),
        (Payload::ScriptHash(sample_hash()), Network::Mainnet, 23u8),
        (Payload::PubkeyHash(sample_hash()), Network::Testnet, 111u8),
        (Payload::ScriptHash(sample_hash()), Network::Testnet, 196u8),
    ];
    for (payload, network, version) in cases {
        let bytes = Address { payload, network }.to_bytes();
        assert_eq!(bytes.len(), 25);
        assert_eq!(bytes[0], version);
        assert_eq!(&bytes[1..21], &sample_hash()[..]);
        let digest = btg::hashes::sha256d(&bytes[..21]);
        assert_eq!(&bytes[21..], &digest[..4]);
    }
}

#[test]
fn known_pubkey_hash_address_text() {
    let a = Address { payload: Payload::PubkeyHash(vec![0u8; 20]), network: Network::Testnet };
    let text = a.to_string();
    assert!(text.starts_with('m') || text.starts_with('n'));
    let b = Address { payload: Payload::PubkeyHash(vec![0u8; 20]), network: Network::Mainnet };
    assert!(b.to_string().starts_with('G'));
    let c = Address { payload: Payload::ScriptHash(vec![0u8; 20]), network: Network::Mainnet };
    assert!(c.to_string().starts_with('A'));
}

#[test]
fn tampered_checksum_fails() {
    let a = Address { payload: Payload::PubkeyHash(sample_hash()), network: Network::Mainnet };
    for k in 21..25 {
        let mut bytes = a.to_bytes();
        bytes[k] ^= 0x01;
        let text = bytes.to_base58();
        assert_eq!(Address::decode(&text, Some(Network::Mainnet)), Err(Error::ChecksumError));
        assert_eq!(Address::from_bytes(&bytes, None), Err(Error::ChecksumError));
    }
}

#[test]
fn unknown_version_fails() {
    let mut body = vec![0u8];
    body.extend(sample_hash());
    let digest = btg::hashes::sha256d(&body);
    body.extend(&digest[..4]);
    assert_eq!(Address::decode(&body.to_base58(), None), Err(Error::UnknownVersionError));
}

#[test]
fn network_mismatch_fails() {
    let a = Address { payload: Payload::PubkeyHash(sample_hash()), network: Network::Testnet };
    assert_eq!(Address::decode(&a.to_string(), Some(Network::Mainnet)), Err(Error::NetworkMismatchError));
}

#[test]
fn malformed_text_fails() {
    assert_eq!(Address::decode("0OIl", None), Err(Error::AddressParseError));
    assert_eq!(Address::decode("", None), Err(Error::AddressParseError));
    let short = vec![38u8; 10].to_base58();
    assert_eq!(Address::decode(&short, None), Err(Error::AddressParseError));
}

#[test]
fn p2pkh_and_p2sh_hash_their_input() {
    let a = Address::p2pkh(&PublicKey { compressed: false, key: Vec::new() }, Network::Mainnet);
    assert_eq!(a.payload, Payload::PubkeyHash(hex::decode("b472a266d0bd89c13706a4132ccfb16f7c3b9fcb").unwrap()));
    let s = Address::p2sh(&Vec::new(), Network::Testnet);
    assert_eq!(s.payload, Payload::ScriptHash(hex::decode("b472a266d0bd89c13706a4132ccfb16f7c3b9fcb").unwrap()));
    assert_eq!(s.network, Network::Testnet);
}

#[test]
fn double_sha256_of_empty() {
    assert_eq!(
        hex::encode(btg::hashes::sha256d(&[])),
        "5df6e0e2761359d30a8275058e299fcc0381534545f55cf43e41983f5d4c9456"
    );
}
