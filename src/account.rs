//! Key pairs and the pay-to-pubkey-hash accounts built from them.
use vstd::prelude::*;

use crate::address::{address_text, decode_spec, Address, AddressView};
use crate::hashes::hash160_spec;
use crate::key::{PrivateKey, PublicKey};
use crate::network::Network;
use crate::signer::{derive_public_key, public_key_of, random_secret_key, valid_secret_key};
use crate::Error;

verus! {

/// A key pair and the text of its pay-to-pubkey-hash address.
#[derive(Debug)]
pub struct Account {
    pub public_key: PublicKey,
    pub private_key: PrivateKey,
    pub address: String,
}

impl Account {
    /// A valid secret key, its uncompressed public key, and the address of
    /// that key on the account's network.
    pub open spec fn wf(&self) -> bool {
        &&& valid_secret_key(self.private_key.key@)
        &&& !self.private_key.compressed
        &&& !self.public_key.compressed
        &&& self.public_key.key@ == public_key_of(self.private_key.key@)
        &&& self.public_key.key@.len() == 65
        &&& self.address@ == address_text(self.view_address())
    }

    /// The address of the account's public key on its network.
    pub open spec fn view_address(&self) -> AddressView {
        AddressView {
            is_script: false,
            hash: hash160_spec(self.public_key.key@),
            network: self.private_key.network,
        }
    }

    /// The account of a secret key on a network; `None` when the key is not
    /// a valid secret key.
    pub fn from_secret_key(secret_key: Vec<u8>, network: Network) -> (r: Option<Account>)
        ensures
            r is Some <==> valid_secret_key(secret_key@),
            r is Some ==> {
                let a = r->0;
                &&& a.wf()
                &&& a.private_key.key@ == secret_key@
                &&& a.private_key.network == network
                &&& decode_spec(a.address@, Some(network)) == Ok::<AddressView, Error>(a.view_address())
            },
    {
        match derive_public_key(secret_key.as_slice()) {
            None => None,
            Some(pk) => {
                let public_key = PublicKey { compressed: false, key: pk };
                let address = Address::p2pkh(&public_key, network).to_string();
                Some(
                    Account {
                        public_key,
                        private_key: PrivateKey { compressed: false, network, key: secret_key },
                        address,
                    },
                )
            },
        }
    }

    /// `num` fresh accounts on `network`, each from a random secret key, each
    /// with an address that decodes back to its key's hash on that network.
    pub fn generate_p2pkh_accounts(network: Network, num: u32) -> (r: Vec<Account>)
        ensures
            r@.len() == num,
            forall|i: int|
                0 <= i < r@.len() ==> {
                    let a = #[trigger] r@[i];
                    &&& a.wf()
                    &&& a.private_key.network == network
                    &&& decode_spec(a.address@, Some(network)) == Ok::<AddressView, Error>(
                        a.view_address(),
                    )
                },
    {
        let mut acts: Vec<Account> = Vec::new();
        let mut i: u32 = 0;
        while i < num
            invariant
                i <= num,
                acts@.len() == i,
                forall|k: int|
                    0 <= k < acts@.len() ==> {
                        let a = #[trigger] acts@[k];
                        &&& a.wf()
                        &&& a.private_key.network == network
                        &&& decode_spec(a.address@, Some(network)) == Ok::<AddressView, Error>(
                            a.view_address(),
                        )
                    },
            decreases num - i,
        {
            let sk = random_secret_key();
            match Account::from_secret_key(sk, network) {
                Some(act) => {
                    acts.push(act);
                },
                None => {
                    proof {
                        assert(false);
                    }
                },
            }
            i = i + 1;
        }
        acts
    }
}

} // verus!
