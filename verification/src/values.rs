//! The public values committed by one step.
//!
//! A step commits exactly four values, in this order: the digest of the
//! step's verifying key, the genesis digest, the digest of the head
//! header, and the step's verdict. The encoding is positional: the next
//! step decodes the four fields back in the same order, with no tags.

use vstd::prelude::*;

use crate::bytes::copy_bytes;
use crate::codec::{
    dec_bool, dec_bytes, enc_bool, enc_bytes, push_bool, push_bytes, Buffer, DecodeError,
};

verus! {

/// The mathematical model of one step's committed values.
pub struct PublicValuesView {
    pub vkey_hash: Seq<u8>,
    pub genesis_hash: Seq<u8>,
    pub head_hash: Seq<u8>,
    pub ok: bool,
}

/// The state carried from one step to the next: the only record a step
/// commits, and the only record the next step reads back.
pub struct PublicValues {
    pub vkey_hash: Vec<u8>,
    pub genesis_hash: Vec<u8>,
    pub head_hash: Vec<u8>,
    pub ok: bool,
}

impl View for PublicValues {
    type V = PublicValuesView;

    open spec fn view(&self) -> PublicValuesView {
        PublicValuesView {
            vkey_hash: self.vkey_hash@,
            genesis_hash: self.genesis_hash@,
            head_hash: self.head_hash@,
            ok: self.ok,
        }
    }
}

/// The field lengths fit the length prefix of the encoding.
pub open spec fn encodable_public_values(pv: PublicValuesView) -> bool {
    &&& pv.vkey_hash.len() <= u64::MAX
    &&& pv.genesis_hash.len() <= u64::MAX
    &&& pv.head_hash.len() <= u64::MAX
}

/// The byte layout of the committed values: the four fields back to
/// back, each in its positional encoding.
pub open spec fn enc_public_values(pv: PublicValuesView) -> Seq<u8> {
    enc_bytes(pv.vkey_hash) + enc_bytes(pv.genesis_hash) + enc_bytes(pv.head_hash) + enc_bool(pv.ok)
}

/// Decodes the four committed values at offset `i` of `data`, in their
/// fixed order; `Ok` holds the record and the offset just past it.
pub open spec fn dec_public_values(data: Seq<u8>, i: int) -> Result<
    (PublicValuesView, int),
    DecodeError,
> {
    match dec_bytes(data, i) {
        Err(e) => Err(e),
        Ok((vkey_hash, i1)) => match dec_bytes(data, i1) {
            Err(e) => Err(e),
            Ok((genesis_hash, i2)) => match dec_bytes(data, i2) {
                Err(e) => Err(e),
                Ok((head_hash, i3)) => match dec_bool(data, i3) {
                    Err(e) => Err(e),
                    Ok((ok, i4)) => Ok(
                        (PublicValuesView { vkey_hash, genesis_hash, head_hash, ok }, i4),
                    ),
                },
            },
        },
    }
}

impl PublicValues {
    /// The byte string this record commits to: the layout the next
    /// step's decode will read.
    pub fn encode(&self) -> (r: Vec<u8>)
        ensures
            r@ == enc_public_values(self@),
    {
        let mut out: Vec<u8> = Vec::new();
        push_bytes(&mut out, self.vkey_hash.as_slice());
        push_bytes(&mut out, self.genesis_hash.as_slice());
        push_bytes(&mut out, self.head_hash.as_slice());
        push_bool(&mut out, self.ok);
        assert(out@ =~= enc_public_values(self@));
        out
    }

    /// Decodes the four committed values at the buffer's cursor, in
    /// their fixed order, advancing the cursor past them; on failure
    /// the buffer's cursor is wherever the first failing read left it.
    pub fn decode(buf: &mut Buffer) -> (r: Result<PublicValues, DecodeError>)
        ensures
            final(buf).data@ == old(buf).data@,
            final(buf).ptr >= old(buf).ptr,
            match r {
                Ok(pv) => dec_public_values(old(buf).data@, old(buf).ptr as int) == Ok::<
                    (PublicValuesView, int),
                    DecodeError,
                >((pv@, final(buf).ptr as int)),
                Err(e) => dec_public_values(old(buf).data@, old(buf).ptr as int) == Err::<
                    (PublicValuesView, int),
                    DecodeError,
                >(e),
            },
    {
        let vkey_hash = match buf.read_bytes() {
            Ok(v) => v,
            Err(e) => {
                return Err(e);
            },
        };
        let genesis_hash = match buf.read_bytes() {
            Ok(v) => v,
            Err(e) => {
                return Err(e);
            },
        };
        let head_hash = match buf.read_bytes() {
            Ok(v) => v,
            Err(e) => {
                return Err(e);
            },
        };
        let ok = match buf.read_bool() {
            Ok(v) => v,
            Err(e) => {
                return Err(e);
            },
        };
        Ok(PublicValues { vkey_hash, genesis_hash, head_hash, ok })
    }

    /// A fresh record holding the same four values.
    pub fn duplicate(&self) -> (r: PublicValues)
        ensures
            r@ == self@,
    {
        PublicValues {
            vkey_hash: copy_bytes(&self.vkey_hash),
            genesis_hash: copy_bytes(&self.genesis_hash),
            head_hash: copy_bytes(&self.head_hash),
            ok: self.ok,
        }
    }
}

/// Codec round trip for the committed values: the encoding of a record
/// decodes back to the record, field by field and in order, and the
/// cursor ends exactly at the end of the consumed bytes, whatever
/// follows them.
pub proof fn lemma_public_values_round_trip(pv: PublicValuesView, rest: Seq<u8>)
    requires
        encodable_public_values(pv),
    ensures
        dec_public_values(enc_public_values(pv) + rest, 0) == Ok::<
            (PublicValuesView, int),
            DecodeError,
        >((pv, enc_public_values(pv).len() as int)),
{
    let data = enc_public_values(pv) + rest;
    let i1 = 8 + pv.vkey_hash.len() as int;
    let i2 = i1 + 8 + pv.genesis_hash.len() as int;
    let i3 = i2 + 8 + pv.head_hash.len() as int;
    let i4 = i3 + 1;
    assert(data.subrange(0, i1) =~= enc_bytes(pv.vkey_hash));
    crate::codec::lemma_dec_bytes_of_enc(data, 0, pv.vkey_hash);
    assert(data.subrange(i1, i1 + 8 + pv.genesis_hash.len() as int) =~= enc_bytes(
        pv.genesis_hash,
    ));
    crate::codec::lemma_dec_bytes_of_enc(data, i1, pv.genesis_hash);
    assert(data.subrange(i2, i2 + 8 + pv.head_hash.len() as int) =~= enc_bytes(pv.head_hash));
    crate::codec::lemma_dec_bytes_of_enc(data, i2, pv.head_hash);
    assert(data[i3] == enc_bool(pv.ok)[0]);
    crate::codec::lemma_dec_bool_of_enc(data, i3, pv.ok);
    assert(i4 == enc_public_values(pv).len() as int);
}

} // verus!
