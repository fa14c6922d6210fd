//! Transactions and their canonical wire encoding.
use vstd::prelude::*;

use crate::encoding::{hex_text, le_bytes, push_bytes, push_le, push_var_int, to_hex, var_int_spec};

verus! {

/// A reference to an output of an earlier transaction.
#[derive(Clone, Debug, PartialEq, Eq)]
pub struct OutPoint {
    /// The 32-byte id of the transaction, in wire order.
    pub hash: Vec<u8>,
    /// The position of the output in that transaction.
    pub index: u32,
}

/// An input: the output it spends, the script that unlocks it, its sequence.
#[derive(Clone, Debug, PartialEq, Eq)]
pub struct TxIn {
    pub prev_output: OutPoint,
    pub sig_script: Vec<u8>,
    pub sequence: u32,
}

/// An output: an amount and the script that locks it.
#[derive(Clone, Debug, PartialEq, Eq)]
pub struct TxOut {
    pub amount: i64,
    pub pk_script: Vec<u8>,
}

/// A transaction.
#[derive(Clone, Debug, PartialEq, Eq)]
pub struct Tx {
    pub version: i32,
    pub inputs: Vec<TxIn>,
    pub outputs: Vec<TxOut>,
    pub lock_time: u32,
}

/// The value of an outpoint.
pub ghost struct OutPointModel {
    pub hash: Seq<u8>,
    pub index: u32,
}

/// The value of an input.
pub ghost struct TxInModel {
    pub prev_output: OutPointModel,
    pub sig_script: Seq<u8>,
    pub sequence: u32,
}

/// The value of an output.
pub ghost struct TxOutModel {
    pub amount: i64,
    pub pk_script: Seq<u8>,
}

/// The value of a transaction.
pub ghost struct TxModel {
    pub version: i32,
    pub inputs: Seq<TxInModel>,
    pub outputs: Seq<TxOutModel>,
    pub lock_time: u32,
}

impl View for OutPoint {
    type V = OutPointModel;

    open spec fn view(&self) -> OutPointModel {
        OutPointModel { hash: self.hash@, index: self.index }
    }
}

impl View for TxIn {
    type V = TxInModel;

    open spec fn view(&self) -> TxInModel {
        TxInModel { prev_output: self.prev_output@, sig_script: self.sig_script@, sequence: self.sequence }
    }
}

impl View for TxOut {
    type V = TxOutModel;

    open spec fn view(&self) -> TxOutModel {
        TxOutModel { amount: self.amount, pk_script: self.pk_script@ }
    }
}

pub open spec fn inputs_view(v: Seq<TxIn>) -> Seq<TxInModel> {
    v.map_values(|i: TxIn| i@)
}

pub open spec fn outputs_view(v: Seq<TxOut>) -> Seq<TxOutModel> {
    v.map_values(|o: TxOut| o@)
}

impl View for Tx {
    type V = TxModel;

    open spec fn view(&self) -> TxModel {
        TxModel {
            version: self.version,
            inputs: inputs_view(self.inputs@),
            outputs: outputs_view(self.outputs@),
            lock_time: self.lock_time,
        }
    }
}

pub proof fn lemma_inputs_view_push(s: Seq<TxIn>, x: TxIn)
    ensures
        inputs_view(s.push(x)) == inputs_view(s).push(x@),
{
    assert(inputs_view(s.push(x)) =~= inputs_view(s).push(x@));
}

pub proof fn lemma_outputs_view_push(s: Seq<TxOut>, x: TxOut)
    ensures
        outputs_view(s.push(x)) == outputs_view(s).push(x@),
{
    assert(outputs_view(s.push(x)) =~= outputs_view(s).push(x@));
}

pub open spec fn ser_outpoint(o: OutPointModel) -> Seq<u8> {
    o.hash + le_bytes(o.index as nat, 4)
}

/// An input on the wire.
pub open spec fn ser_txin(i: TxInModel) -> Seq<u8> {
    ser_outpoint(i.prev_output) + var_int_spec(i.sig_script.len()) + i.sig_script + le_bytes(
        i.sequence as nat,
        4,
    )
}

/// An output on the wire; the amount as its 64-bit two's complement.
pub open spec fn ser_txout(o: TxOutModel) -> Seq<u8> {
    le_bytes((o.amount as u64) as nat, 8) + var_int_spec(o.pk_script.len()) + o.pk_script
}

pub open spec fn ser_inputs(s: Seq<TxInModel>) -> Seq<u8>
    decreases s.len(),
{
    if s.len() == 0 {
        Seq::empty()
    } else {
        ser_inputs(s.drop_last()) + ser_txin(s.last())
    }
}

pub open spec fn ser_outputs(s: Seq<TxOutModel>) -> Seq<u8>
    decreases s.len(),
{
    if s.len() == 0 {
        Seq::empty()
    } else {
        ser_outputs(s.drop_last()) + ser_txout(s.last())
    }
}

/// A transaction on the wire.
pub open spec fn ser_tx(t: TxModel) -> Seq<u8> {
    le_bytes((t.version as u32) as nat, 4) + var_int_spec(t.inputs.len()) + ser_inputs(t.inputs)
        + var_int_spec(t.outputs.len()) + ser_outputs(t.outputs) + le_bytes(t.lock_time as nat, 4)
}

impl OutPoint {
    pub fn write(&self, out: &mut Vec<u8>)
        ensures
            final(out)@ == old(out)@ + ser_outpoint(self@),
    {
        push_bytes(out, self.hash.as_slice());
        push_le(out, self.index as u64, 4);
        assert(out@ =~= old(out)@ + ser_outpoint(self@));
    }
}

impl OutPoint {
    /// A copy of this outpoint.
    pub fn copy(&self) -> (r: OutPoint)
        ensures
            r@ == self@,
    {
        let mut hash: Vec<u8> = Vec::new();
        push_bytes(&mut hash, self.hash.as_slice());
        OutPoint { hash, index: self.index }
    }
}

impl TxIn {
    pub fn write(&self, out: &mut Vec<u8>)
        ensures
            final(out)@ == old(out)@ + ser_txin(self@),
    {
        self.prev_output.write(out);
        push_var_int(out, self.sig_script.len() as u64);
        push_bytes(out, self.sig_script.as_slice());
        push_le(out, self.sequence as u64, 4);
        assert(out@ =~= old(out)@ + ser_txin(self@));
    }
}

impl TxOut {
    pub fn write(&self, out: &mut Vec<u8>)
        ensures
            final(out)@ == old(out)@ + ser_txout(self@),
    {
        push_le(out, self.amount as u64, 8);
        push_var_int(out, self.pk_script.len() as u64);
        push_bytes(out, self.pk_script.as_slice());
        assert(out@ =~= old(out)@ + ser_txout(self@));
    }
}

/// Appends every input, in order.
pub fn write_inputs(inputs: &Vec<TxIn>, out: &mut Vec<u8>)
    ensures
        final(out)@ == old(out)@ + ser_inputs(inputs_view(inputs@)),
{
    let mut i: usize = 0;
    while i < inputs.len()
        invariant
            i <= inputs@.len(),
            out@ == old(out)@ + ser_inputs(inputs_view(inputs@).take(i as int)),
        decreases inputs@.len() - i,
    {
        inputs[i].write(out);
        proof {
            let next = inputs_view(inputs@).take(i + 1);
            assert(next.drop_last() =~= inputs_view(inputs@).take(i as int));
        }
        i = i + 1;
        assert(out@ =~= old(out)@ + ser_inputs(inputs_view(inputs@).take(i as int)));
    }
    assert(inputs_view(inputs@).take(i as int) =~= inputs_view(inputs@));
}

/// Appends every output, in order.
pub fn write_outputs(outputs: &Vec<TxOut>, out: &mut Vec<u8>)
    ensures
        final(out)@ == old(out)@ + ser_outputs(outputs_view(outputs@)),
{
    let mut i: usize = 0;
    while i < outputs.len()
        invariant
            i <= outputs@.len(),
            out@ == old(out)@ + ser_outputs(outputs_view(outputs@).take(i as int)),
        decreases outputs@.len() - i,
    {
        outputs[i].write(out);
        proof {
            let next = outputs_view(outputs@).take(i + 1);
            assert(next.drop_last() =~= outputs_view(outputs@).take(i as int));
        }
        i = i + 1;
        assert(out@ =~= old(out)@ + ser_outputs(outputs_view(outputs@).take(i as int)));
    }
    assert(outputs_view(outputs@).take(i as int) =~= outputs_view(outputs@));
}

impl Tx {
    /// The wire encoding of this transaction.
    pub fn serialize(&self) -> (r: Vec<u8>)
        ensures
            r@ == ser_tx(self@),
    {
        let mut out: Vec<u8> = Vec::new();
        push_le(&mut out, self.version as u32 as u64, 4);
        push_var_int(&mut out, self.inputs.len() as u64);
        write_inputs(&self.inputs, &mut out);
        push_var_int(&mut out, self.outputs.len() as u64);
        write_outputs(&self.outputs, &mut out);
        push_le(&mut out, self.lock_time as u64, 4);
        assert(out@ =~= ser_tx(self@));
        out
    }

    /// The wire encoding of this transaction as lowercase hexadecimal text.
    pub fn serialize_hex(&self) -> (r: String)
        ensures
            r@ == hex_text(ser_tx(self@)),
    {
        let bytes = self.serialize();
        to_hex(bytes.as_slice())
    }
}

} // verus!
