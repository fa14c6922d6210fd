use btg::address::Address;
use btg::{secs_since, Account, Network, Payload};
use std::time;

#[test]
fn batch_generate_keys() {
    let start = time::SystemTime::now();
    let a = Account::generate_p2pkh_accounts(Network::Mainnet, 10000);
    let end = time::SystemTime::now();
    println!("time spend: {:?}", end.duration_since(start).unwrap());
    assert_eq!(a.len(), 10000);
}

#[test]
fn generated_accounts_are_distinct_and_decode() {
    let accounts = Account::generate_p2pkh_accounts(Network::Testnet, 50);
    assert_eq!(accounts.len(), 50);
    for (i, a) in accounts.iter().enumerate() {
        assert_eq!(a.public_key.key.len(), 65);
        let decoded = Address::decode(&a.address, Some(Network::Testnet)).unwrap();
        assert_eq!(decoded.network, Network::Testnet);
        assert_eq!(decoded, Address::p2pkh(&a.public_key, Network::Testnet));
        for b in &accounts[..i] {
            assert_ne!(a.public_key.key, b.public_key.key);
        }
    }
}

#[test]
fn account_of_a_fixed_key() {
    let a = Account::from_secret_key(vec![1u8; 32], Network::Mainnet).unwrap();
    assert_eq!(a.public_key.key[0], 0x04);
    let decoded = Address::decode(&a.address, None).unwrap();
    assert!(matches!(decoded.payload, Payload::PubkeyHash(_)));
    assert!(Account::from_secret_key(vec![0u8; 32], Network::Mainnet).is_none());
    assert!(Account::from_secret_key(vec![0xffu8; 32], Network::Mainnet).is_none());
}

#[test]
fn seconds_since_the_epoch() {
    assert!(secs_since(time::UNIX_EPOCH) > 1_600_000_000);
    let later = time::SystemTime::now() + time::Duration::from_secs(3600);
    assert_eq!(secs_since(later), 0);
}
