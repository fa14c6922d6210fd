use vstd::prelude::*;

verus! {

/// The ledger an address or a key belongs to.
#[derive(Clone, Copy, Debug, PartialEq, Eq, Structural, Hash)]
pub enum Network {
    Mainnet,
    Testnet,
}

} // verus!
