//! The transaction assembler: from funding and output requests and one
//! signing account per input to the signed transaction as hexadecimal text.
use vstd::prelude::*;

use crate::account::Account;
use crate::address::{decode_spec, Address, Payload};
use crate::encoding::{from_hex, hex_bytes, hex_text, is_hex_text};
use crate::network::Network;
use crate::script::{create_pk_script, create_sig_script, pk_script_spec, sig_script_spec};
use crate::sighash::{sighash, sighash_spec, SigHashCache, SIGHASH_ALL, SIGHASH_FORKID};
use crate::signer::{generate_signature, signature_spec};
use crate::transaction::{OutPoint, OutPointModel, Tx, TxIn, TxInModel, TxModel, TxOut, TxOutModel};
use crate::{Error, TxInputReq, TxOutputReq};

verus! {

/// The flags every input is signed with: all outputs, fork-id algorithm.
pub const SIGN_FLAGS: u32 = SIGHASH_ALL | SIGHASH_FORKID;

/// The sequence number of every input.
pub const FINAL_SEQUENCE: u32 = 0xFFFF_FFFF;

pub open spec fn sum_credit(s: Seq<TxInputReq>) -> int
    decreases s.len(),
{
    if s.len() == 0 {
        0
    } else {
        sum_credit(s.drop_last()) + s.last().credit
    }
}

pub open spec fn sum_value(s: Seq<TxOutputReq>) -> int
    decreases s.len(),
{
    if s.len() == 0 {
        0
    } else {
        sum_value(s.drop_last()) + s.last().value
    }
}

/// The 32 bytes, in wire order, of a transaction id written as 64
/// hexadecimal digits in display order (the reverse).
pub open spec fn txid_bytes(t: Seq<char>) -> Option<Seq<u8>> {
    if t.len() == 64 && is_hex_text(t) {
        Some(Seq::new(32, |i: int| hex_bytes(t)[31 - i]))
    } else {
        None
    }
}

/// The public-key hash a mainnet address pays to, or why it cannot be used.
pub open spec fn p2pkh_hash_of(addr: Seq<char>) -> Result<Seq<u8>, Error> {
    match decode_spec(addr, Some(Network::Mainnet)) {
        Err(_) => Err(Error::AddressParseError),
        Ok(a) => if a.is_script {
            Err(Error::NotSupportedAddressFormError)
        } else {
            Ok(a.hash)
        },
    }
}

/// The first failure among the first `n` output addresses.
pub open spec fn outputs_error(vouts: Seq<TxOutputReq>, n: nat) -> Option<Error>
    decreases n,
{
    if n == 0 {
        None
    } else {
        match outputs_error(vouts, (n - 1) as nat) {
            Some(e) => Some(e),
            None => match p2pkh_hash_of(vouts[n - 1].address@) {
                Err(e) => Some(e),
                Ok(_) => None,
            },
        }
    }
}

/// The input a funding request becomes before it is signed.
pub open spec fn unsigned_input(r: TxInputReq) -> TxInModel {
    TxInModel {
        prev_output: OutPointModel { hash: txid_bytes(r.txid@)->Some_0, index: r.index },
        sig_script: Seq::empty(),
        sequence: FINAL_SEQUENCE,
    }
}

/// The output an output request becomes.
pub open spec fn output_model(r: TxOutputReq) -> TxOutModel {
    TxOutModel {
        amount: r.value as i64,
        pk_script: pk_script_spec(p2pkh_hash_of(r.address@)->Ok_0),
    }
}

/// The transaction before any input is signed.
pub open spec fn unsigned_model(vins: Seq<TxInputReq>, vouts: Seq<TxOutputReq>) -> TxModel {
    TxModel {
        version: 2,
        inputs: Seq::new(vins.len(), |i: int| unsigned_input(vins[i])),
        outputs: Seq::new(vouts.len(), |j: int| output_model(vouts[j])),
        lock_time: 0,
    }
}

/// What signing input `i` of the unsigned transaction `m` gives.
pub open spec fn input_signature(
    m: TxModel,
    vins: Seq<TxInputReq>,
    accounts: Seq<Account>,
    i: int,
) -> Result<Seq<u8>, Error> {
    match p2pkh_hash_of(vins[i].address@) {
        Err(e) => Err(e),
        Ok(h) => signature_spec(
            accounts[i].private_key.key@,
            sighash_spec(m, i, pk_script_spec(h), vins[i].credit as i64, SIGN_FLAGS),
            SIGN_FLAGS,
        ),
    }
}

/// The first failure among signing the first `n` inputs.
pub open spec fn signing_error(m: TxModel, vins: Seq<TxInputReq>, accounts: Seq<Account>, n: nat) -> Option<
    Error,
>
    decreases n,
{
    if n == 0 {
        None
    } else {
        match signing_error(m, vins, accounts, (n - 1) as nat) {
            Some(e) => Some(e),
            None => match input_signature(m, vins, accounts, n - 1) {
                Err(e) => Some(e),
                Ok(_) => None,
            },
        }
    }
}

/// The signed transaction: each input unlocked by its signature and the
/// public key of its account.
pub open spec fn signed_model(vins: Seq<TxInputReq>, vouts: Seq<TxOutputReq>, accounts: Seq<Account>) -> TxModel {
    let m = unsigned_model(vins, vouts);
    TxModel {
        inputs: Seq::new(
            vins.len(),
            |i: int|
                TxInModel {
                    sig_script: sig_script_spec(
                        input_signature(m, vins, accounts, i)->Ok_0,
                        accounts[i].public_key.key@,
                    ),
                    ..m.inputs[i]
                },
        ),
        ..m
    }
}

/// What building and signing gives: the first failure, checked in this
/// order, or the hexadecimal text of the signed transaction.
pub open spec fn rawtx_spec(vins: Seq<TxInputReq>, vouts: Seq<TxOutputReq>, accounts: Seq<Account>) -> Result<
    Seq<char>,
    Error,
> {
    if sum_credit(vins) < sum_value(vouts) {
        Err(Error::NotEnoughAmount)
    } else if accounts.len() != vins.len() {
        Err(Error::AccountCountMismatch)
    } else if exists|i: int| 0 <= i < vins.len() && (#[trigger] txid_bytes(vins[i].txid@)) is None {
        Err(Error::TxidParseError)
    } else if outputs_error(vouts, vouts.len()) is Some {
        Err(outputs_error(vouts, vouts.len())->Some_0)
    } else if signing_error(unsigned_model(vins, vouts), vins, accounts, vins.len()) is Some {
        Err(signing_error(unsigned_model(vins, vouts), vins, accounts, vins.len())->Some_0)
    } else {
        Ok(hex_text(crate::transaction::ser_tx(signed_model(vins, vouts, accounts))))
    }
}

/// When the funding requests credit less than the outputs ask for, building
/// fails with `NotEnoughAmount`, whatever else the requests hold.
pub proof fn lemma_not_enough_amount(vins: Seq<TxInputReq>, vouts: Seq<TxOutputReq>, accounts: Seq<Account>)
    requires
        sum_credit(vins) < sum_value(vouts),
    ensures
        rawtx_spec(vins, vouts, accounts) == Err::<Seq<char>, Error>(Error::NotEnoughAmount),
{
}

proof fn lemma_outputs_error_stays(vouts: Seq<TxOutputReq>, n: nat, m: nat)
    requires
        n <= m,
        outputs_error(vouts, n) is Some,
    ensures
        outputs_error(vouts, m) == outputs_error(vouts, n),
    decreases m - n,
{
    if n < m {
        lemma_outputs_error_stays(vouts, n, (m - 1) as nat);
    }
}

proof fn lemma_signing_error_stays(
    tx: TxModel,
    vins: Seq<TxInputReq>,
    accounts: Seq<Account>,
    n: nat,
    m: nat,
)
    requires
        n <= m,
        signing_error(tx, vins, accounts, n) is Some,
    ensures
        signing_error(tx, vins, accounts, m) == signing_error(tx, vins, accounts, n),
    decreases m - n,
{
    if n < m {
        lemma_signing_error_stays(tx, vins, accounts, n, (m - 1) as nat);
    }
}

fn total_credit(vins: &Vec<TxInputReq>) -> (r: u128)
    ensures
        r == sum_credit(vins@),
{
    let mut total: u128 = 0;
    let mut i: usize = 0;
    while i < vins.len()
        invariant
            i <= vins@.len(),
            total == sum_credit(vins@.take(i as int)),
            total <= i * 0xffff_ffff_ffff_ffffu64,
        decreases vins@.len() - i,
    {
        assert(vins@.take(i + 1).drop_last() =~= vins@.take(i as int));
        let c = vins[i].credit;
        proof {
            let k = i as int;
            let t = total as int;
            let cc = c as int;
            assert(t + cc <= (k + 1) * 0xffff_ffff_ffff_ffff) by (nonlinear_arith)
                requires
                    t <= k * 0xffff_ffff_ffff_ffff,
                    cc <= 0xffff_ffff_ffff_ffff,
            ;
            assert((k + 1) * 0xffff_ffff_ffff_ffff < 0x1_0000_0000_0000_0000 * 0x1_0000_0000_0000_0000)
                by (nonlinear_arith)
                requires
                    0 <= k < 0x1_0000_0000_0000_0000,
            ;
        }
        total = total + c as u128;
        i = i + 1;
    }
    assert(vins@.take(i as int) =~= vins@);
    total
}

fn total_value(vouts: &Vec<TxOutputReq>) -> (r: u128)
    ensures
        r == sum_value(vouts@),
{
    let mut total: u128 = 0;
    let mut i: usize = 0;
    while i < vouts.len()
        invariant
            i <= vouts@.len(),
            total == sum_value(vouts@.take(i as int)),
            total <= i * 0xffff_ffff_ffff_ffffu64,
        decreases vouts@.len() - i,
    {
        assert(vouts@.take(i + 1).drop_last() =~= vouts@.take(i as int));
        let c = vouts[i].value;
        proof {
            let k = i as int;
            let t = total as int;
            let cc = c as int;
            assert(t + cc <= (k + 1) * 0xffff_ffff_ffff_ffff) by (nonlinear_arith)
                requires
                    t <= k * 0xffff_ffff_ffff_ffff,
                    cc <= 0xffff_ffff_ffff_ffff,
            ;
            assert((k + 1) * 0xffff_ffff_ffff_ffff < 0x1_0000_0000_0000_0000 * 0x1_0000_0000_0000_0000)
                by (nonlinear_arith)
                requires
                    0 <= k < 0x1_0000_0000_0000_0000,
            ;
        }
        total = total + c as u128;
        i = i + 1;
    }
    assert(vouts@.take(i as int) =~= vouts@);
    total
}

/// The outpoint a funding request names. The transaction id must be 64
/// hexadecimal digits, in display order; otherwise `TxidParseError`.
pub fn get_outpoint(input: &TxInputReq) -> (r: Result<OutPoint, Error>)
    ensures
        match r {
            Ok(o) => txid_bytes(input.txid@) == Some(o@.hash) && o.index == input.index,
            Err(e) => e == Error::TxidParseError && txid_bytes(input.txid@) is None,
        },
{
    match from_hex(input.txid.as_str()) {
        None => Err(Error::TxidParseError),
        Some(b) => {
            if b.len() != 32 {
                return Err(Error::TxidParseError);
            }
            let mut hash: Vec<u8> = Vec::new();
            let mut k: usize = 0;
            while k < 32
                invariant
                    k <= 32,
                    b@.len() == 32,
                    hash@ == Seq::new(k as nat, |i: int| b@[31 - i]),
                decreases 32 - k,
            {
                hash.push(b[31 - k]);
                k = k + 1;
                assert(hash@ =~= Seq::new(k as nat, |i: int| b@[31 - i]));
            }
            Ok(OutPoint { hash, index: input.index })
        },
    }
}

/// The public-key hash a mainnet address pays to.
fn p2pkh_hash(addr: &String) -> (r: Result<Vec<u8>, Error>)
    ensures
        match r {
            Ok(h) => p2pkh_hash_of(addr@) == Ok::<Seq<u8>, Error>(h@) && h@.len() == 20,
            Err(e) => p2pkh_hash_of(addr@) == Err::<Seq<u8>, Error>(e),
        },
{
    match Address::decode(addr.as_str(), Some(Network::Mainnet)) {
        Err(_) => Err(Error::AddressParseError),
        Ok(a) => match a.payload {
            Payload::PubkeyHash(h) => Ok(h),
            Payload::ScriptHash(_) => Err(Error::NotSupportedAddressFormError),
        },
    }
}

/// Builds the transaction that spends the outputs `vins` name, pays what
/// `vouts` ask for, and is signed input by input with `accounts` (the i-th
/// account signs the i-th input), and returns it as hexadecimal text.
/// Fails with the first error in this order: `NotEnoughAmount`,
/// `AccountCountMismatch`, `TxidParseError`, then the first unusable output
/// address, then the first input that cannot be signed.
pub fn create_sign_rawtx(
    vins: &Vec<TxInputReq>,
    vouts: &Vec<TxOutputReq>,
    accounts: &Vec<Account>,
) -> (r: Result<String, Error>)
    requires
        forall|i: int| 0 <= i < accounts@.len() ==> (#[trigger] accounts@[i]).public_key.key@.len() <= u32::MAX,
    ensures
        match r {
            Ok(s) => rawtx_spec(vins@, vouts@, accounts@) == Ok::<Seq<char>, Error>(s@),
            Err(e) => rawtx_spec(vins@, vouts@, accounts@) == Err::<Seq<char>, Error>(e),
        },
{
    let total_out = total_value(vouts);
    let total_in = total_credit(vins);
    if total_in < total_out {
        return Err(Error::NotEnoughAmount);
    }
    if accounts.len() != vins.len() {
        return Err(Error::AccountCountMismatch);
    }
    let mut inputs: Vec<TxIn> = Vec::new();
    let mut i: usize = 0;
    assert(crate::transaction::inputs_view(inputs@) =~= Seq::new(0, |k: int| unsigned_input(vins@[k])));
    while i < vins.len()
        invariant
            i <= vins@.len(),
            sum_credit(vins@) >= sum_value(vouts@),
            accounts@.len() == vins@.len(),
            inputs_view_is(inputs@, vins@, i as int),
            forall|k: int| 0 <= k < i ==> (#[trigger] txid_bytes(vins@[k].txid@)) is Some,
        decreases vins@.len() - i,
    {
        match get_outpoint(&vins[i]) {
            Err(e) => {
                assert(txid_bytes(vins@[i as int].txid@) is None);
                return Err(e);
            },
            Ok(op) => {
                let ghost before = inputs@;
                let item = TxIn { prev_output: op, sig_script: Vec::new(), sequence: FINAL_SEQUENCE };
                assert(item@ == unsigned_input(vins@[i as int]));
                inputs.push(item);
                proof {
                    crate::transaction::lemma_inputs_view_push(before, item);
                }
            },
        }
        i = i + 1;
        assert(crate::transaction::inputs_view(inputs@) =~= Seq::new(i as nat, |k: int| unsigned_input(vins@[k])));
    }
    let mut outputs: Vec<TxOut> = Vec::new();
    let mut j: usize = 0;
    assert(crate::transaction::outputs_view(outputs@) =~= Seq::new(0, |k: int| output_model(vouts@[k])));
    while j < vouts.len()
        invariant
            j <= vouts@.len(),
            sum_credit(vins@) >= sum_value(vouts@),
            accounts@.len() == vins@.len(),
            forall|k: int| 0 <= k < vins@.len() ==> (#[trigger] txid_bytes(vins@[k].txid@)) is Some,
            outputs_error(vouts@, j as nat) is None,
            crate::transaction::outputs_view(outputs@) == Seq::new(j as nat, |k: int| output_model(vouts@[k])),
        decreases vouts@.len() - j,
    {
        match p2pkh_hash(&vouts[j].address) {
            Err(e) => {
                proof {
                    lemma_outputs_error_stays(vouts@, (j + 1) as nat, vouts@.len());
                }
                return Err(e);
            },
            Ok(h) => {
                let script = create_pk_script(h.as_slice());
                let ghost before = outputs@;
                let item = TxOut { amount: #[verifier::truncate] (vouts[j].value as i64), pk_script: script };
                assert(item@ == output_model(vouts@[j as int]));
                outputs.push(item);
                proof {
                    crate::transaction::lemma_outputs_view_push(before, item);
                }
            },
        }
        j = j + 1;
        assert(crate::transaction::outputs_view(outputs@) =~= Seq::new(j as nat, |k: int| output_model(vouts@[k])));
    }
    let tx = Tx { version: 2, inputs, outputs, lock_time: 0 };
    assert(tx@.inputs =~= unsigned_model(vins@, vouts@).inputs);
    assert(tx@ == unsigned_model(vins@, vouts@));
    let ghost m = tx@;
    let mut cache = SigHashCache::new();
    let mut signed: Vec<TxIn> = Vec::new();
    let mut i: usize = 0;
    assert(crate::transaction::inputs_view(signed@) =~= Seq::new(
        0,
        |k: int|
            TxInModel {
                sig_script: sig_script_spec(
                    input_signature(m, vins@, accounts@, k)->Ok_0,
                    accounts@[k].public_key.key@,
                ),
                ..m.inputs[k]
            },
    ));
    while i < vins.len()
        invariant
            i <= vins@.len(),
            vins@.len() == accounts@.len(),
            sum_credit(vins@) >= sum_value(vouts@),
            forall|k: int| 0 <= k < vins@.len() ==> (#[trigger] txid_bytes(vins@[k].txid@)) is Some,
            outputs_error(vouts@, vouts@.len()) is None,
            tx@ == m,
            m == unsigned_model(vins@, vouts@),
            cache.valid_for(tx@),
            signing_error(m, vins@, accounts@, i as nat) is None,
            forall|k: int| 0 <= k < accounts@.len() ==> (#[trigger] accounts@[k]).public_key.key@.len() <= u32::MAX,
            crate::transaction::inputs_view(signed@) == Seq::new(
                i as nat,
                |k: int|
                    TxInModel {
                        sig_script: sig_script_spec(
                            input_signature(m, vins@, accounts@, k)->Ok_0,
                            accounts@[k].public_key.key@,
                        ),
                        ..m.inputs[k]
                    },
            ),
        decreases vins@.len() - i,
    {
        let h = match p2pkh_hash(&vins[i].address) {
            Err(e) => {
                proof {
                    lemma_signing_error_stays(m, vins@, accounts@, (i + 1) as nat, vins@.len());
                }
                return Err(e);
            },
            Ok(h) => h,
        };
        let pk_script = create_pk_script(h.as_slice());
        let digest = match sighash(&tx, i, pk_script.as_slice(), #[verifier::truncate] (vins[i].credit as i64), SIGN_FLAGS, &mut cache) {
            Ok(d) => d,
            Err(e) => {
                proof {
                    assert(false);
                }
                return Err(e);
            },
        };
        let sig = match generate_signature(accounts[i].private_key.key.as_slice(), digest.as_slice(), SIGN_FLAGS) {
            Err(e) => {
                proof {
                    lemma_signing_error_stays(m, vins@, accounts@, (i + 1) as nat, vins@.len());
                }
                return Err(e);
            },
            Ok(sig) => sig,
        };
        let public_key = accounts[i].public_key.to_bytes();
        let script = create_sig_script(sig.as_slice(), public_key.as_slice());
        let ghost before = signed@;
        let item = TxIn { prev_output: tx.inputs[i].prev_output.copy(), sig_script: script, sequence: FINAL_SEQUENCE };
        assert(input_signature(m, vins@, accounts@, i as int) == Ok::<Seq<u8>, Error>(sig@));
        assert(item@ == TxInModel {
            sig_script: sig_script_spec(
                input_signature(m, vins@, accounts@, i as int)->Ok_0,
                accounts@[i as int].public_key.key@,
            ),
            ..m.inputs[i as int]
        });
        signed.push(item);
        proof {
            crate::transaction::lemma_inputs_view_push(before, item);
        }
        i = i + 1;
        assert(crate::transaction::inputs_view(signed@) =~= Seq::new(
            i as nat,
            |k: int|
                TxInModel {
                    sig_script: sig_script_spec(
                        input_signature(m, vins@, accounts@, k)->Ok_0,
                        accounts@[k].public_key.key@,
                    ),
                    ..m.inputs[k]
                },
        ));
    }
    let done = Tx { version: 2, inputs: signed, outputs: tx.outputs, lock_time: 0 };
    assert(done@.inputs =~= signed_model(vins@, vouts@, accounts@).inputs);
    assert(done@ == signed_model(vins@, vouts@, accounts@));
    Ok(done.serialize_hex())
}

pub open spec fn inputs_view_is(inputs: Seq<TxIn>, vins: Seq<TxInputReq>, i: int) -> bool {
    crate::transaction::inputs_view(inputs) == Seq::new(i as nat, |k: int| unsigned_input(vins[k]))
}

} // verus!
