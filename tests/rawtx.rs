use btg::address::Address;
use btg::raw::{create_sign_rawtx, get_outpoint};
use btg::script::create_pk_script;
use btg::sighash::{sighash, sighash_all, SigHashCache, SIGHASH_ALL, SIGHASH_FORKID, SIGHASH_NONE, SIGHASH_SINGLE};
use btg::signer::generate_signature;
use btg::transaction::{OutPoint, Tx, TxIn, TxOut};
use btg::{Account, Error, Network, Payload, TxInputReq, TxOutputReq};

const TXID: &str = "00000000000000000000000000000000000000000000000000000000000000ff";

fn account(seed: u8) -> Account {
    Account::from_secret_key(vec![seed; 32], Network::Mainnet).unwrap()
}

fn destination() -> String {
    Address { payload: Payload::PubkeyHash(vec![0x42; 20]), network: Network::Mainnet }.to_string()
}

fn funding(act: &Account, credit: u64) -> TxInputReq {
    TxInputReq { txid: TXID.to_string(), index: 0, address: act.address.clone(), credit }
}

#[test]
fn not_enough_amount() {
    let act = account(1);
    let vins = vec![funding(&act, 100)];
    let vouts = vec![TxOutputReq { address: destination(), value: 101 }];
    assert_eq!(create_sign_rawtx(&vins, &vouts, &vec![act]), Err(Error::NotEnoughAmount));
}

#[test]
fn account_count_mismatch() {
    let act = account(1);
    let vins = vec![funding(&act, 100)];
    let vouts = vec![TxOutputReq { address: destination(), value: 10 }];
    assert_eq!(create_sign_rawtx(&vins, &vouts, &vec![]), Err(Error::AccountCountMismatch));
}

#[test]
fn bad_txid() {
    let act = account(1);
    let mut vin = funding(&act, 100);
    vin.txid = "zz".repeat(32);
    let vouts = vec![TxOutputReq { address: destination(), value: 10 }];
    assert_eq!(create_sign_rawtx(&vec![vin.clone()], &vouts, &vec![act]), Err(Error::TxidParseError));
    vin.txid = "ab".repeat(31);
    assert_eq!(get_outpoint(&vin), Err(Error::TxidParseError));
}

#[test]
fn txid_is_reversed_into_wire_order() {
    let vin = TxInputReq { txid: TXID.to_string(), index: 9, address: String::new(), credit: 0 };
    let op = get_outpoint(&vin).unwrap();
    let mut expected = vec![0u8; 32];
    expected[0] = 0xff;
    assert_eq!(op, OutPoint { hash: expected, index: 9 });
}

#[test]
fn bad_output_address() {
    let act = account(1);
    let vins = vec![funding(&act, 100)];
    let vouts = vec![TxOutputReq { address: "not an address".to_string(), value: 10 }];
    assert_eq!(create_sign_rawtx(&vins, &vouts, &vec![act]), Err(Error::AddressParseError));
}

#[test]
fn script_hash_output_is_not_supported() {
    let act = account(1);
    let vins = vec![funding(&act, 100)];
    let to = Address { payload: Payload::ScriptHash(vec![0x42; 20]), network: Network::Mainnet }.to_string();
    let vouts = vec![TxOutputReq { address: to, value: 10 }];
    assert_eq!(create_sign_rawtx(&vins, &vouts, &vec![act]), Err(Error::NotSupportedAddressFormError));
}

#[test]
fn testnet_source_address_fails() {
    let act = account(1);
    let mut vin = funding(&act, 100);
    vin.address = Address { payload: Payload::PubkeyHash(vec![1; 20]), network: Network::Testnet }.to_string();
    let vouts = vec![TxOutputReq { address: destination(), value: 10 }];
    assert_eq!(create_sign_rawtx(&vec![vin], &vouts, &vec![act]), Err(Error::AddressParseError));
}

#[test]
fn invalid_key_fails_to_sign() {
    let act = account(1);
    let vins = vec![funding(&act, 100)];
    let mut bad = account(1);
    bad.private_key.key = vec![0u8; 32];
    let vouts = vec![TxOutputReq { address: destination(), value: 10 }];
    assert_eq!(create_sign_rawtx(&vins, &vouts, &vec![bad]), Err(Error::SignRawTxError));
}

fn read_var_int(b: &[u8], at: &mut usize) -> usize {
    let n = b[*at] as usize;
    *at += 1;
    assert!(n < 0xfd);
    n
}

#[test]
fn signed_transaction_verifies() {
    let act = account(1);
    let vins = vec![funding(&act, 100000)];
    let vouts = vec![TxOutputReq { address: destination(), value: 50000 }];
    let text = create_sign_rawtx(&vins, &vouts, &vec![account(1)]).unwrap();
    let b = hex::decode(&text).unwrap();

    let mut at = 0usize;
    assert_eq!(&b[0..4], &[2, 0, 0, 0]);
    at += 4;
    assert_eq!(read_var_int(&b, &mut at), 1);
    let outpoint = b[at..at + 36].to_vec();
    at += 36;
    let script_len = read_var_int(&b, &mut at);
    let script = b[at..at + script_len].to_vec();
    at += script_len;
    assert_eq!(&b[at..at + 4], &[0xff; 4]);
    at += 4;
    assert_eq!(read_var_int(&b, &mut at), 1);
    assert_eq!(u64::from_le_bytes(b[at..at + 8].try_into().unwrap()), 50000);
    at += 8;
    let pk_len = read_var_int(&b, &mut at);
    assert_eq!(b[at..at + pk_len].to_vec(), create_pk_script(&[0x42; 20]));
    at += pk_len;
    assert_eq!(&b[at..], &[0, 0, 0, 0]);

    let sig_len = script[0] as usize;
    let sig = &script[1..1 + sig_len];
    assert_eq!(sig[sig_len - 1], 0x41);
    let key_len = script[1 + sig_len] as usize;
    let key = &script[2 + sig_len..2 + sig_len + key_len];
    assert_eq!(key, &act.public_key.key[..]);
    assert_eq!(outpoint[0], 0xff);

    let unsigned = Tx {
        version: 2,
        inputs: vec![TxIn {
            prev_output: OutPoint { hash: outpoint[..32].to_vec(), index: 0 },
            sig_script: vec![],
            sequence: 0xffff_ffff,
        }],
        outputs: vec![TxOut { amount: 50000, pk_script: create_pk_script(&[0x42; 20]) }],
        lock_time: 0,
    };
    let Payload::PubkeyHash(source) = Address::decode(&act.address, None).unwrap().payload else {
        panic!("source is a public-key hash")
    };
    let mut cache = SigHashCache::new();
    let digest = sighash(&unsigned, 0, &create_pk_script(&source), 100000, 0x41, &mut cache).unwrap();

    let secp = secp256k1::Secp256k1::verification_only();
    let msg = secp256k1::Message::from_digest_slice(&digest).unwrap();
    let parsed = secp256k1::ecdsa::Signature::from_der(&sig[..sig_len - 1]).unwrap();
    let pk = secp256k1::PublicKey::from_slice(key).unwrap();
    assert!(secp.verify_ecdsa(&msg, &parsed, &pk).is_ok());
}

#[test]
fn signing_is_deterministic() {
    let act = account(3);
    let vins = vec![funding(&act, 1000)];
    let vouts = vec![TxOutputReq { address: destination(), value: 900 }];
    let first = create_sign_rawtx(&vins, &vouts, &vec![account(3)]).unwrap();
    let second = create_sign_rawtx(&vins, &vouts, &vec![account(3)]).unwrap();
    assert_eq!(first, second);
    let digest = [9u8; 32];
    let a = generate_signature(&[3u8; 32], &digest, 0x41).unwrap();
    let b = generate_signature(&[3u8; 32], &digest, 0x41).unwrap();
    assert_eq!(a, b);
    assert_eq!(*a.last().unwrap(), 0x41);
}

fn many_inputs(n: usize) -> Tx {
    Tx {
        version: 2,
        inputs: (0..n)
            .map(|i| TxIn {
                prev_output: OutPoint { hash: vec![i as u8; 32], index: i as u32 },
                sig_script: vec![],
                sequence: 0xffff_fff0 + i as u32,
            })
            .collect(),
        outputs: vec![TxOut { amount: 5, pk_script: vec![0x51] }, TxOut { amount: 6, pk_script: vec![] }],
        lock_time: 0,
    }
}

#[test]
fn shared_cache_hashes_each_part_once() {
    let tx = many_inputs(12);
    let script = create_pk_script(&[7u8; 20]);
    let mut shared = SigHashCache::new();
    for i in 0..12 {
        let d = sighash(&tx, i, &script, 1000, SIGHASH_ALL | SIGHASH_FORKID, &mut shared).unwrap();
        assert_eq!(shared.computations(), 3);
        let prevouts = shared.hash_prevouts.clone();
        let mut fresh = SigHashCache::new();
        let e = sighash(&tx, i, &script, 1000, SIGHASH_ALL | SIGHASH_FORKID, &mut fresh).unwrap();
        assert_eq!(d, e);
        assert_eq!(fresh.hash_prevouts, prevouts);
        assert_eq!(fresh.hash_sequence, shared.hash_sequence);
    }
    let none = sighash(&tx, 0, &script, 1000, SIGHASH_NONE | SIGHASH_FORKID, &mut shared).unwrap();
    assert_eq!(shared.computations(), 4);
    assert_eq!(shared.hash_no_outputs, Some(btg::hashes::sha256d(&[])));
    assert_ne!(none, sighash(&tx, 0, &script, 1000, 0x41, &mut shared).unwrap());
}

#[test]
fn unsupported_flags_and_index() {
    let tx = many_inputs(2);
    let mut cache = SigHashCache::new();
    assert_eq!(sighash(&tx, 0, &[], 1, SIGHASH_ALL, &mut cache), Err(Error::UnsupportedSigHashType));
    assert_eq!(sighash(&tx, 0, &[], 1, SIGHASH_SINGLE | SIGHASH_FORKID, &mut cache), Err(Error::UnsupportedSigHashType));
    assert_eq!(sighash(&tx, 2, &[], 1, 0x41, &mut cache), Err(Error::PrepareRawTxError));
    assert_eq!(cache.computations(), 0);
}

#[test]
fn sighash_preimage_layout() {
    let tx = many_inputs(1);
    let script = vec![0x51u8];
    let mut cache = SigHashCache::new();
    let d = sighash(&tx, 0, &script, 1000, 0x41, &mut cache).unwrap();
    let mut pre = vec![2u8, 0, 0, 0];
    let mut outpoints = vec![0u8; 32];
    outpoints.extend_from_slice(&[0, 0, 0, 0]);
    pre.extend(btg::hashes::sha256d(&outpoints));
    pre.extend(btg::hashes::sha256d(&[0xf0, 0xff, 0xff, 0xff]));
    pre.extend(&outpoints);
    pre.extend(&[1, 0x51]);
    pre.extend(&1000u64.to_le_bytes());
    pre.extend(&[0xf0, 0xff, 0xff, 0xff]);
    let outs = hex::decode("05000000000000000151060000000000000000").unwrap();
    pre.extend(btg::hashes::sha256d(&outs));
    pre.extend(&[0, 0, 0, 0]);
    pre.extend(&[0x41, 0, 0, 0]);
    assert_eq!(d, btg::hashes::sha256d(&pre));
}

#[test]
fn all_inputs_share_one_cache() {
    let tx = many_inputs(20);
    let scripts: Vec<Vec<u8>> = (0..20).map(|i| create_pk_script(&[i as u8; 20])).collect();
    let amounts: Vec<i64> = (0..20).map(|i| 1000 + i as i64).collect();
    let (digests, computed) = sighash_all(&tx, &scripts, &amounts, 0x41).unwrap();
    assert_eq!(computed, 3);
    assert_eq!(digests.len(), 20);
    for i in 0..20 {
        let mut fresh = SigHashCache::new();
        assert_eq!(digests[i], sighash(&tx, i, &scripts[i], amounts[i], 0x41, &mut fresh).unwrap());
    }
    assert_eq!(sighash_all(&tx, &scripts[..3].to_vec(), &amounts, 0x41), Err(Error::PrepareRawTxError));
    assert_eq!(sighash_all(&tx, &scripts, &amounts, 0x01), Err(Error::UnsupportedSigHashType));
    let empty = many_inputs(0);
    assert_eq!(sighash_all(&empty, &vec![], &vec![], 0x42).unwrap(), (vec![], 0));
}
