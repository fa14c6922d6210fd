//! The fork-id signature hash: the digest a signature commits to, with a
//! cache of the three transaction-wide sub-hashes shared by every input.
use vstd::prelude::*;

use crate::encoding::{le_bytes, push_bytes, push_le, push_var_int, var_int_spec};
use crate::hashes::{sha256d, sha256d_spec};
use crate::transaction::{
    inputs_view, ser_outpoint, ser_outputs, write_outputs, Tx, TxIn,
    TxInModel, TxModel,
};
use crate::Error;

verus! {

pub const SIGHASH_ALL: u32 = 0x01;
pub const SIGHASH_NONE: u32 = 0x02;
pub const SIGHASH_SINGLE: u32 = 0x03;
pub const SIGHASH_ANYONECANPAY: u32 = 0x80;
pub const SIGHASH_FORKID: u32 = 0x40;

/// The flag combinations this library hashes: all outputs or none, with the
/// fork-id algorithm.
pub open spec fn supported_flags(flags: u32) -> bool {
    flags == (SIGHASH_ALL | SIGHASH_FORKID) || flags == (SIGHASH_NONE | SIGHASH_FORKID)
}

/// Whether the flags commit to no output.
pub open spec fn commits_no_output(flags: u32) -> bool {
    flags == (SIGHASH_NONE | SIGHASH_FORKID)
}

pub open spec fn prevouts_bytes(s: Seq<TxInModel>) -> Seq<u8>
    decreases s.len(),
{
    if s.len() == 0 {
        Seq::empty()
    } else {
        prevouts_bytes(s.drop_last()) + ser_outpoint(s.last().prev_output)
    }
}

pub open spec fn sequences_bytes(s: Seq<TxInModel>) -> Seq<u8>
    decreases s.len(),
{
    if s.len() == 0 {
        Seq::empty()
    } else {
        sequences_bytes(s.drop_last()) + le_bytes(s.last().sequence as nat, 4)
    }
}

/// The double hash of every outpoint, in input order.
pub open spec fn hash_prevouts_spec(tx: TxModel) -> Seq<u8> {
    sha256d_spec(prevouts_bytes(tx.inputs))
}

/// The double hash of every sequence number, in input order.
pub open spec fn hash_sequence_spec(tx: TxModel) -> Seq<u8> {
    sha256d_spec(sequences_bytes(tx.inputs))
}

/// The double hash of every output.
pub open spec fn hash_outputs_spec(tx: TxModel) -> Seq<u8> {
    sha256d_spec(ser_outputs(tx.outputs))
}

/// The double hash of no output at all.
pub open spec fn hash_no_outputs_spec() -> Seq<u8> {
    sha256d_spec(Seq::empty())
}

/// The bytes a signature of input `n` commits to.
pub open spec fn preimage_spec(tx: TxModel, n: int, script_code: Seq<u8>, amount: i64, flags: u32) -> Seq<u8> {
    let input = tx.inputs[n];
    le_bytes((tx.version as u32) as nat, 4) + hash_prevouts_spec(tx) + hash_sequence_spec(tx)
        + ser_outpoint(input.prev_output) + var_int_spec(script_code.len()) + script_code
        + le_bytes((amount as u64) as nat, 8) + le_bytes(input.sequence as nat, 4) + (if commits_no_output(
        flags,
    ) {
        hash_no_outputs_spec()
    } else {
        hash_outputs_spec(tx)
    }) + le_bytes(tx.lock_time as nat, 4) + le_bytes(flags as nat, 4)
}

/// The digest a signature of input `n` commits to.
pub open spec fn sighash_spec(tx: TxModel, n: int, script_code: Seq<u8>, amount: i64, flags: u32) -> Seq<u8> {
    sha256d_spec(preimage_spec(tx, n, script_code, amount, flags))
}

/// The sub-hashes computed so far for one transaction.
pub struct SigHashCache {
    pub hash_prevouts: Option<Vec<u8>>,
    pub hash_sequence: Option<Vec<u8>>,
    pub hash_outputs: Option<Vec<u8>>,
    pub hash_no_outputs: Option<Vec<u8>>,
    /// How many sub-hashes this cache has computed.
    pub computed: u8,
}

pub open spec fn filled(o: Option<Vec<u8>>) -> int {
    if o is Some {
        1
    } else {
        0
    }
}

/// Whether `o` is empty or holds `h`.
pub open spec fn holds_or_empty(o: Option<Vec<u8>>, h: Seq<u8>) -> bool {
    o is Some ==> o->0@ == h
}

/// Once computed, a sub-hash stays as it was.
pub open spec fn kept(before: Option<Vec<u8>>, after: Option<Vec<u8>>) -> bool {
    before is Some ==> after == before
}

impl SigHashCache {
    /// Each sub-hash held is the one of `tx`, and `computed` counts them.
    pub open spec fn valid_for(&self, tx: TxModel) -> bool {
        &&& holds_or_empty(self.hash_prevouts, hash_prevouts_spec(tx))
        &&& holds_or_empty(self.hash_sequence, hash_sequence_spec(tx))
        &&& holds_or_empty(self.hash_outputs, hash_outputs_spec(tx))
        &&& holds_or_empty(self.hash_no_outputs, hash_no_outputs_spec())
        &&& self.computed == filled(self.hash_prevouts) + filled(self.hash_sequence) + filled(
            self.hash_outputs,
        ) + filled(self.hash_no_outputs)
    }

    /// An empty cache, valid for any transaction.
    pub fn new() -> (r: SigHashCache)
        ensures
            forall|tx: TxModel| r.valid_for(tx),
            r.computed == 0,
            r.hash_prevouts is None && r.hash_sequence is None,
            r.hash_outputs is None && r.hash_no_outputs is None,
    {
        SigHashCache {
            hash_prevouts: None,
            hash_sequence: None,
            hash_outputs: None,
            hash_no_outputs: None,
            computed: 0,
        }
    }

    /// How many sub-hashes this cache has computed.
    pub fn computations(&self) -> (r: u8)
        ensures
            r == self.computed,
    {
        self.computed
    }
}

fn prevouts_of(inputs: &Vec<TxIn>) -> (r: Vec<u8>)
    ensures
        r@ == prevouts_bytes(inputs_view(inputs@)),
{
    let mut out: Vec<u8> = Vec::new();
    let mut i: usize = 0;
    while i < inputs.len()
        invariant
            i <= inputs@.len(),
            out@ == prevouts_bytes(inputs_view(inputs@).take(i as int)),
        decreases inputs@.len() - i,
    {
        inputs[i].prev_output.write(&mut out);
        proof {
            assert(inputs_view(inputs@).take(i + 1).drop_last() =~= inputs_view(inputs@).take(i as int));
        }
        i = i + 1;
    }
    assert(inputs_view(inputs@).take(i as int) =~= inputs_view(inputs@));
    out
}

fn sequences_of(inputs: &Vec<TxIn>) -> (r: Vec<u8>)
    ensures
        r@ == sequences_bytes(inputs_view(inputs@)),
{
    let mut out: Vec<u8> = Vec::new();
    let mut i: usize = 0;
    while i < inputs.len()
        invariant
            i <= inputs@.len(),
            out@ == sequences_bytes(inputs_view(inputs@).take(i as int)),
        decreases inputs@.len() - i,
    {
        push_le(&mut out, inputs[i].sequence as u64, 4);
        proof {
            assert(inputs_view(inputs@).take(i + 1).drop_last() =~= inputs_view(inputs@).take(i as int));
        }
        i = i + 1;
    }
    assert(inputs_view(inputs@).take(i as int) =~= inputs_view(inputs@));
    out
}

/// The digest that a signature of input `n_input` of `tx` commits to, under
/// `sighash_type`, for an input locked by `script_code` and holding `amount`.
/// The transaction-wide sub-hashes come from `cache` when it holds them, and
/// are computed once and stored there when it does not.
pub fn sighash(
    tx: &Tx,
    n_input: usize,
    script_code: &[u8],
    amount: i64,
    sighash_type: u32,
    cache: &mut SigHashCache,
) -> (r: Result<Vec<u8>, Error>)
    requires
        old(cache).valid_for(tx@),
    ensures
        final(cache).valid_for(tx@),
        kept(old(cache).hash_prevouts, final(cache).hash_prevouts),
        kept(old(cache).hash_sequence, final(cache).hash_sequence),
        kept(old(cache).hash_outputs, final(cache).hash_outputs),
        kept(old(cache).hash_no_outputs, final(cache).hash_no_outputs),
        n_input >= tx.inputs@.len() ==> r == Err::<Vec<u8>, Error>(Error::PrepareRawTxError)
            && *final(cache) == *old(cache),
        n_input < tx.inputs@.len() && !supported_flags(sighash_type) ==> r == Err::<
            Vec<u8>,
            Error,
        >(Error::UnsupportedSigHashType) && *final(cache) == *old(cache),
        n_input < tx.inputs@.len() && supported_flags(sighash_type) ==> {
            &&& r is Ok
            &&& r->Ok_0@ == sighash_spec(tx@, n_input as int, script_code@, amount, sighash_type)
            &&& r->Ok_0@.len() == 32
            &&& final(cache).hash_prevouts is Some
            &&& final(cache).hash_sequence is Some
            &&& commits_no_output(sighash_type) ==> final(cache).hash_no_outputs is Some
                && final(cache).hash_outputs == old(cache).hash_outputs
            &&& !commits_no_output(sighash_type) ==> final(cache).hash_outputs is Some
                && final(cache).hash_no_outputs == old(cache).hash_no_outputs
        },
{
    if n_input >= tx.inputs.len() {
        return Err(Error::PrepareRawTxError);
    }
    if sighash_type != (SIGHASH_ALL | SIGHASH_FORKID) && sighash_type != (SIGHASH_NONE
        | SIGHASH_FORKID) {
        return Err(Error::UnsupportedSigHashType);
    }
    if cache.hash_prevouts.is_none() {
        let bytes = prevouts_of(&tx.inputs);
        cache.hash_prevouts = Some(sha256d(bytes.as_slice()));
        cache.computed = cache.computed + 1;
    }
    if cache.hash_sequence.is_none() {
        let bytes = sequences_of(&tx.inputs);
        cache.hash_sequence = Some(sha256d(bytes.as_slice()));
        cache.computed = cache.computed + 1;
    }
    let no_output = sighash_type == (SIGHASH_NONE | SIGHASH_FORKID);
    if no_output {
        if cache.hash_no_outputs.is_none() {
            let empty: Vec<u8> = Vec::new();
            cache.hash_no_outputs = Some(sha256d(empty.as_slice()));
            cache.computed = cache.computed + 1;
            assert(empty@ =~= Seq::<u8>::empty());
        }
    } else {
        if cache.hash_outputs.is_none() {
            let mut bytes: Vec<u8> = Vec::new();
            write_outputs(&tx.outputs, &mut bytes);
            assert(bytes@ =~= ser_outputs(tx@.outputs));
            cache.hash_outputs = Some(sha256d(bytes.as_slice()));
            cache.computed = cache.computed + 1;
        }
    }
    let input = &tx.inputs[n_input];
    let mut pre: Vec<u8> = Vec::new();
    push_le(&mut pre, tx.version as u32 as u64, 4);
    match &cache.hash_prevouts {
        Some(h) => push_bytes(&mut pre, h.as_slice()),
        None => {},
    }
    match &cache.hash_sequence {
        Some(h) => push_bytes(&mut pre, h.as_slice()),
        None => {},
    }
    input.prev_output.write(&mut pre);
    push_var_int(&mut pre, script_code.len() as u64);
    push_bytes(&mut pre, script_code);
    push_le(&mut pre, amount as u64, 8);
    push_le(&mut pre, input.sequence as u64, 4);
    if no_output {
        match &cache.hash_no_outputs {
            Some(h) => push_bytes(&mut pre, h.as_slice()),
            None => {},
        }
    } else {
        match &cache.hash_outputs {
            Some(h) => push_bytes(&mut pre, h.as_slice()),
            None => {},
        }
    }
    push_le(&mut pre, tx.lock_time as u64, 4);
    push_le(&mut pre, sighash_type as u64, 4);
    assert(pre@ =~= preimage_spec(tx@, n_input as int, script_code@, amount, sighash_type));
    Ok(sha256d(pre.as_slice()))
}

/// The digest of every input of `tx`, in order, under `sighash_type`: input
/// `i` locked by `script_codes[i]` and holding `amounts[i]`. One cache serves
/// every input, so each transaction-wide sub-hash is computed once: the count
/// returned beside the digests is 3 for a transaction with inputs. Fails with
/// `PrepareRawTxError` when the lists do not match the inputs one for one,
/// and with `UnsupportedSigHashType` for flags this library does not hash.
pub fn sighash_all(
    tx: &Tx,
    script_codes: &Vec<Vec<u8>>,
    amounts: &Vec<i64>,
    sighash_type: u32,
) -> (r: Result<(Vec<Vec<u8>>, u8), Error>)
    ensures
        script_codes@.len() != tx.inputs@.len() || amounts@.len() != tx.inputs@.len() ==> r
            == Err::<(Vec<Vec<u8>>, u8), Error>(Error::PrepareRawTxError),
        script_codes@.len() == tx.inputs@.len() && amounts@.len() == tx.inputs@.len() ==> {
            &&& !supported_flags(sighash_type) ==> r == Err::<(Vec<Vec<u8>>, u8), Error>(
                Error::UnsupportedSigHashType,
            )
            &&& supported_flags(sighash_type) ==> {
                &&& r is Ok
                &&& r->Ok_0.0@.len() == tx.inputs@.len()
                &&& forall|i: int|
                    0 <= i < tx.inputs@.len() ==> (#[trigger] r->Ok_0.0@[i])@ == sighash_spec(
                        tx@,
                        i,
                        script_codes@[i]@,
                        amounts@[i],
                        sighash_type,
                    )
                &&& r->Ok_0.1 == (if tx.inputs@.len() == 0 {
                    0u8
                } else {
                    3u8
                })
            }
        },
{
    if script_codes.len() != tx.inputs.len() || amounts.len() != tx.inputs.len() {
        return Err(Error::PrepareRawTxError);
    }
    if sighash_type != (SIGHASH_ALL | SIGHASH_FORKID) && sighash_type != (SIGHASH_NONE
        | SIGHASH_FORKID) {
        return Err(Error::UnsupportedSigHashType);
    }
    let mut cache = SigHashCache::new();
    let mut digests: Vec<Vec<u8>> = Vec::new();
    let mut i: usize = 0;
    while i < tx.inputs.len()
        invariant
            i <= tx.inputs@.len(),
            script_codes@.len() == tx.inputs@.len(),
            amounts@.len() == tx.inputs@.len(),
            supported_flags(sighash_type),
            cache.valid_for(tx@),
            i == 0 ==> cache.computed == 0,
            i > 0 ==> cache.computed == 3,
            i > 0 ==> cache.hash_prevouts is Some && cache.hash_sequence is Some,
            i > 0 && commits_no_output(sighash_type) ==> cache.hash_no_outputs is Some && cache.hash_outputs is None,
            i > 0 && !commits_no_output(sighash_type) ==> cache.hash_outputs is Some && cache.hash_no_outputs is None,
            i == 0 ==> cache.hash_prevouts is None && cache.hash_sequence is None && cache.hash_outputs is None
                && cache.hash_no_outputs is None,
            digests@.len() == i,
            forall|k: int|
                0 <= k < i ==> (#[trigger] digests@[k])@ == sighash_spec(
                    tx@,
                    k,
                    script_codes@[k]@,
                    amounts@[k],
                    sighash_type,
                ),
        decreases tx.inputs@.len() - i,
    {
        match sighash(tx, i, script_codes[i].as_slice(), amounts[i], sighash_type, &mut cache) {
            Ok(d) => {
                digests.push(d);
            },
            Err(e) => {
                proof {
                    assert(false);
                }
                return Err(e);
            },
        }
        i = i + 1;
    }
    let computed = cache.computations();
    Ok((digests, computed))
}

} // verus!
