//! The two script templates: the pay-to-pubkey-hash locking script and the
//! signature-and-key unlocking script.
use vstd::prelude::*;

use crate::encoding::{le_bytes, push_bytes, push_le};

verus! {

pub const OP_DUP: u8 = 0x76;
pub const OP_HASH160: u8 = 0xa9;
pub const OP_EQUALVERIFY: u8 = 0x88;
pub const OP_CHECKSIG: u8 = 0xac;
pub const OP_PUSHDATA1: u8 = 0x4c;
pub const OP_PUSHDATA2: u8 = 0x4d;
pub const OP_PUSHDATA4: u8 = 0x4e;

/// The shortest push of `data` onto the stack.
pub open spec fn push_data_spec(data: Seq<u8>) -> Seq<u8> {
    let n = data.len();
    if n < 0x4c {
        seq![n as u8] + data
    } else if n <= 0xff {
        seq![OP_PUSHDATA1, n as u8] + data
    } else if n <= 0xffff {
        seq![OP_PUSHDATA2] + le_bytes(n, 2) + data
    } else {
        seq![OP_PUSHDATA4] + le_bytes(n, 4) + data
    }
}

/// `OP_DUP OP_HASH160 <hash> OP_EQUALVERIFY OP_CHECKSIG`.
pub open spec fn pk_script_spec(hash: Seq<u8>) -> Seq<u8> {
    seq![OP_DUP, OP_HASH160] + push_data_spec(hash) + seq![OP_EQUALVERIFY, OP_CHECKSIG]
}

/// `<signature> <public key>`.
pub open spec fn sig_script_spec(sig: Seq<u8>, public_key: Seq<u8>) -> Seq<u8> {
    push_data_spec(sig) + push_data_spec(public_key)
}

/// Appends the shortest push of `data`.
pub fn push_data(out: &mut Vec<u8>, data: &[u8])
    requires
        data@.len() <= u32::MAX,
    ensures
        final(out)@ == old(out)@ + push_data_spec(data@),
{
    let ghost start = out@;
    let n = data.len();
    if n < 0x4c {
        out.push(n as u8);
    } else if n <= 0xff {
        out.push(OP_PUSHDATA1);
        out.push(n as u8);
    } else if n <= 0xffff {
        out.push(OP_PUSHDATA2);
        push_le(out, n as u64, 2);
    } else {
        out.push(OP_PUSHDATA4);
        push_le(out, n as u64, 4);
    }
    let ghost head = out@;
    push_bytes(out, data);
    assert(out@ =~= start + push_data_spec(data@)) by {
        assert(head =~= start + push_data_spec(data@).take(head.len() - start.len()));
    }
}

/// The locking script that pays to the public key whose hash is `hash`.
pub fn create_pk_script(hash: &[u8]) -> (r: Vec<u8>)
    requires
        hash@.len() <= u32::MAX,
    ensures
        r@ == pk_script_spec(hash@),
{
    let mut out: Vec<u8> = Vec::new();
    out.push(OP_DUP);
    out.push(OP_HASH160);
    push_data(&mut out, hash);
    out.push(OP_EQUALVERIFY);
    out.push(OP_CHECKSIG);
    assert(out@ =~= pk_script_spec(hash@));
    out
}

/// The unlocking script that pushes a signature, then a public key.
pub fn create_sig_script(sig: &[u8], public_key: &[u8]) -> (r: Vec<u8>)
    requires
        sig@.len() <= u32::MAX,
        public_key@.len() <= u32::MAX,
    ensures
        r@ == sig_script_spec(sig@, public_key@),
{
    let mut out: Vec<u8> = Vec::new();
    push_data(&mut out, sig);
    push_data(&mut out, public_key);
    assert(out@ =~= sig_script_spec(sig@, public_key@));
    out
}

} // verus!
