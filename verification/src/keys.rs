//! Verifying-key identity and hashing.
//!
//! A verifying key is identified by eight 32-bit words. For hashing,
//! the words are serialized little-endian, word by word — the byte
//! order is part of the wire contract, since every step of a chain must
//! hash the key identically — and the key's digest is the 32-byte hash
//! of that serialization.

use vstd::prelude::*;

use sha2::Digest;

verus! {

/// Identifies which circuit produced a proof: a fixed-size sequence of
/// machine words. Every step of one chain must use the identical key.
#[derive(Clone, Copy)]
pub struct VerifyingKeyId {
    pub words: [u32; 8],
}

/// The little-endian byte serialization of a 32-bit word.
pub open spec fn u32_le_bytes(w: u32) -> Seq<u8> {
    seq![
        (w & 0xff) as u8,
        ((w >> 8) & 0xff) as u8,
        ((w >> 16) & 0xff) as u8,
        ((w >> 24) & 0xff) as u8,
    ]
}

/// The byte serialization of a word sequence: each word little-endian,
/// words in order.
pub open spec fn words_le_bytes(ws: Seq<u32>) -> Seq<u8>
    decreases ws.len(),
{
    if ws.len() == 0 {
        Seq::<u8>::empty()
    } else {
        u32_le_bytes(ws[0]) + words_le_bytes(ws.drop_first())
    }
}

proof fn lemma_words_le_bytes_push(ws: Seq<u32>, w: u32)
    ensures
        words_le_bytes(ws.push(w)) == words_le_bytes(ws) + u32_le_bytes(w),
    decreases ws.len(),
{
    let s = ws.push(w);
    if ws.len() == 0 {
        assert(s.drop_first() =~= Seq::<u32>::empty());
        assert(words_le_bytes(s.drop_first()) == Seq::<u8>::empty());
        assert(words_le_bytes(s) == u32_le_bytes(w) + words_le_bytes(s.drop_first()));
        assert(words_le_bytes(s) =~= words_le_bytes(ws) + u32_le_bytes(w));
    } else {
        assert(s.drop_first() =~= ws.drop_first().push(w));
        lemma_words_le_bytes_push(ws.drop_first(), w);
        assert(words_le_bytes(s) == u32_le_bytes(ws[0]) + words_le_bytes(s.drop_first()));
        assert(words_le_bytes(ws) == u32_le_bytes(ws[0]) + words_le_bytes(ws.drop_first()));
        assert(words_le_bytes(s) =~= words_le_bytes(ws) + u32_le_bytes(w));
    }
}

/// The 32-byte digest that the hash function assigns to a byte string;
/// the result depends on the bytes alone.
pub uninterp spec fn sha256_of(bytes: Seq<u8>) -> Seq<u8>;

/// Relies on sha2::Sha256::digest: a 32-byte digest determined by the
/// input bytes alone.
#[verifier::external_body]
fn sha256(bytes: &Vec<u8>) -> (r: Vec<u8>)
    ensures
        r@ == sha256_of(bytes@),
        r@.len() == 32,
{
    sha2::Sha256::digest(bytes).to_vec()
}

/// The digest a verifying key is compared by: the hash of the key's
/// little-endian serialization.
pub open spec fn vkey_digest(ws: Seq<u32>) -> Seq<u8> {
    sha256_of(words_le_bytes(ws))
}

impl VerifyingKeyId {
    /// The key's wire serialization: each word little-endian, in order.
    pub fn encode_le(&self) -> (r: Vec<u8>)
        ensures
            r@ == words_le_bytes(self.words@),
    {
        let mut out: Vec<u8> = Vec::new();
        let mut i: usize = 0;
        while i < 8
            invariant
                0 <= i <= 8,
                out@ == words_le_bytes(self.words@.subrange(0, i as int)),
            decreases 8 - i,
        {
            let w = self.words[i];
            out.push((w & 0xff) as u8);
            out.push(((w >> 8) & 0xff) as u8);
            out.push(((w >> 16) & 0xff) as u8);
            out.push(((w >> 24) & 0xff) as u8);
            proof {
                let ws = self.words@;
                assert(ws.subrange(0, i + 1) =~= ws.subrange(0, i as int).push(ws[i as int]));
                lemma_words_le_bytes_push(ws.subrange(0, i as int), ws[i as int]);
                assert(out@ =~= words_le_bytes(ws.subrange(0, i as int)) + u32_le_bytes(
                    ws[i as int],
                ));
            }
            i = i + 1;
        }
        proof {
            assert(self.words@.subrange(0, 8) =~= self.words@);
        }
        out
    }

    /// The key's digest: the hash of its serialization.
    pub fn digest(&self) -> (r: Vec<u8>)
        ensures
            r@ == vkey_digest(self.words@),
            r@.len() == 32,
    {
        let encoded = self.encode_le();
        sha256(&encoded)
    }
}

/// The 32-byte digest of an arbitrary byte string, as a step commits it
/// for the recursive proof check.
pub fn digest_bytes(bytes: &Vec<u8>) -> (r: Vec<u8>)
    ensures
        r@ == sha256_of(bytes@),
        r@.len() == 32,
{
    sha256(bytes)
}

} // verus!
