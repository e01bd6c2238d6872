//! Positional binary codec.
//!
//! Values are laid out back to back in a single byte sequence, with no
//! field tags. A byte string is prefixed with its length as a 64-bit
//! little-endian word; a boolean is a single byte, `0` or `1`. A
//! `Buffer` wraps such a sequence together with a cursor and decodes
//! values strictly left to right; the cursor never moves backwards.

use vstd::prelude::*;

verus! {

/// Why a decode failed.
#[derive(Clone, Copy, Debug, PartialEq, Eq, Structural)]
pub enum DecodeError {
    /// Fewer bytes remain than the value's encoding requires.
    Truncated,
    /// The byte at the cursor is not a valid boolean encoding.
    InvalidBool,
}

/// The little-endian byte serialization of a 64-bit word.
pub open spec fn u64_le_bytes(n: u64) -> Seq<u8> {
    seq![
        (n & 0xff) as u8,
        ((n >> 8) & 0xff) as u8,
        ((n >> 16) & 0xff) as u8,
        ((n >> 24) & 0xff) as u8,
        ((n >> 32) & 0xff) as u8,
        ((n >> 40) & 0xff) as u8,
        ((n >> 48) & 0xff) as u8,
        ((n >> 56) & 0xff) as u8,
    ]
}

/// The 64-bit word read little-endian from eight bytes.
pub open spec fn u64_from_le(b: Seq<u8>) -> u64
    recommends
        b.len() == 8,
{
    (b[0] as u64) | ((b[1] as u64) << 8) | ((b[2] as u64) << 16) | ((b[3] as u64) << 24)
        | ((b[4] as u64) << 32) | ((b[5] as u64) << 40) | ((b[6] as u64) << 48)
        | ((b[7] as u64) << 56)
}

/// The encoding of a byte string: its length as a little-endian 64-bit
/// word, then the bytes themselves.
pub open spec fn enc_bytes(s: Seq<u8>) -> Seq<u8>
    recommends
        s.len() <= u64::MAX,
{
    u64_le_bytes(s.len() as u64) + s
}

/// The encoding of a boolean: one byte, `1` for true and `0` for false.
pub open spec fn enc_bool(b: bool) -> Seq<u8> {
    seq![if b { 1u8 } else { 0u8 }]
}

/// Decodes one byte string at offset `i` of `data`: `Ok` holds the
/// decoded bytes and the offset just past them.
pub open spec fn dec_bytes(data: Seq<u8>, i: int) -> Result<(Seq<u8>, int), DecodeError> {
    if i + 8 > data.len() {
        Err(DecodeError::Truncated)
    } else {
        let n = u64_from_le(data.subrange(i, i + 8)) as int;
        if i + 8 + n > data.len() {
            Err(DecodeError::Truncated)
        } else {
            Ok((data.subrange(i + 8, i + 8 + n), i + 8 + n))
        }
    }
}

/// Decodes one boolean at offset `i` of `data`.
pub open spec fn dec_bool(data: Seq<u8>, i: int) -> Result<(bool, int), DecodeError> {
    if i + 1 > data.len() {
        Err(DecodeError::Truncated)
    } else if data[i] == 0 {
        Ok((false, i + 1))
    } else if data[i] == 1 {
        Ok((true, i + 1))
    } else {
        Err(DecodeError::InvalidBool)
    }
}

/// Round trip of a 64-bit word through its little-endian bytes.
pub proof fn lemma_u64_le_round_trip(n: u64)
    ensures
        u64_from_le(u64_le_bytes(n)) == n,
{
    assert(((n & 0xff) as u8 as u64) | ((((n >> 8) & 0xff) as u8 as u64) << 8) | ((((n >> 16)
        & 0xff) as u8 as u64) << 16) | ((((n >> 24) & 0xff) as u8 as u64) << 24) | ((((n >> 32)
        & 0xff) as u8 as u64) << 32) | ((((n >> 40) & 0xff) as u8 as u64) << 40) | ((((n >> 48)
        & 0xff) as u8 as u64) << 48) | ((((n >> 56) & 0xff) as u8 as u64) << 56) == n)
        by (bit_vector);
}

/// A byte string laid down by `enc_bytes` at offset `i` decodes back to
/// itself, whatever follows it.
pub proof fn lemma_dec_bytes_of_enc(data: Seq<u8>, i: int, v: Seq<u8>)
    requires
        0 <= i,
        v.len() <= u64::MAX,
        i + 8 + v.len() <= data.len(),
        data.subrange(i, i + 8 + v.len()) == enc_bytes(v),
    ensures
        dec_bytes(data, i) == Ok::<(Seq<u8>, int), DecodeError>((v, i + 8 + v.len())),
{
    let n = v.len() as u64;
    assert(data.subrange(i, i + 8) =~= enc_bytes(v).subrange(0, 8));
    assert(enc_bytes(v).subrange(0, 8) =~= u64_le_bytes(n));
    lemma_u64_le_round_trip(n);
    assert(data.subrange(i + 8, i + 8 + v.len()) =~= enc_bytes(v).subrange(
        8,
        8 + v.len() as int,
    ));
    assert(enc_bytes(v).subrange(8, 8 + v.len() as int) =~= v);
}

/// A boolean laid down by `enc_bool` at offset `i` decodes back to
/// itself, whatever follows it.
pub proof fn lemma_dec_bool_of_enc(data: Seq<u8>, i: int, b: bool)
    requires
        0 <= i,
        i + 1 <= data.len(),
        data[i] == enc_bool(b)[0],
    ensures
        dec_bool(data, i) == Ok::<(bool, int), DecodeError>((b, i + 1)),
{
}

/// A buffer shorter than a byte string's minimum encoding never yields a
/// value: the decode fails instead.
pub proof fn lemma_dec_bytes_truncated(data: Seq<u8>, i: int)
    requires
        i + 8 > data.len(),
    ensures
        dec_bytes(data, i) == Err::<(Seq<u8>, int), DecodeError>(DecodeError::Truncated),
{
}

/// A buffer with no byte left at the cursor never yields a boolean: the
/// decode fails instead.
pub proof fn lemma_dec_bool_truncated(data: Seq<u8>, i: int)
    requires
        i + 1 > data.len(),
    ensures
        dec_bool(data, i) == Err::<(bool, int), DecodeError>(DecodeError::Truncated),
{
}

/// A cursor over a byte sequence from which values are decoded in order.
pub struct Buffer {
    pub data: Vec<u8>,
    pub ptr: usize,
}

impl Buffer {
    /// An empty buffer with the cursor at the start.
    pub fn new() -> (r: Buffer)
        ensures
            r.data@ == Seq::<u8>::empty(),
            r.ptr == 0,
    {
        Buffer { data: Vec::new(), ptr: 0 }
    }

    /// Wraps an existing byte sequence, cursor at the start.
    pub fn from(data: &[u8]) -> (r: Buffer)
        ensures
            r.data@ == data@,
            r.ptr == 0,
    {
        Buffer { data: vstd::slice::slice_to_vec(data), ptr: 0 }
    }

    /// Decodes one byte string at the cursor and advances the cursor
    /// exactly past its encoding; on failure the buffer is unchanged.
    pub fn read_bytes(&mut self) -> (r: Result<Vec<u8>, DecodeError>)
        ensures
            final(self).data@ == old(self).data@,
            final(self).ptr >= old(self).ptr,
            match r {
                Ok(v) => dec_bytes(old(self).data@, old(self).ptr as int) == Ok::<
                    (Seq<u8>, int),
                    DecodeError,
                >((v@, final(self).ptr as int)),
                Err(e) => {
                    &&& dec_bytes(old(self).data@, old(self).ptr as int) == Err::<
                        (Seq<u8>, int),
                        DecodeError,
                    >(e)
                    &&& final(self).ptr == old(self).ptr
                },
            },
    {
        let n = self.data.len();
        if n < 8 || self.ptr > n - 8 {
            return Err(DecodeError::Truncated);
        }
        let b0 = self.data[self.ptr];
        let b1 = self.data[self.ptr + 1];
        let b2 = self.data[self.ptr + 2];
        let b3 = self.data[self.ptr + 3];
        let b4 = self.data[self.ptr + 4];
        let b5 = self.data[self.ptr + 5];
        let b6 = self.data[self.ptr + 6];
        let b7 = self.data[self.ptr + 7];
        let len: u64 = (b0 as u64) | ((b1 as u64) << 8) | ((b2 as u64) << 16) | ((b3 as u64) << 24)
            | ((b4 as u64) << 32) | ((b5 as u64) << 40) | ((b6 as u64) << 48) | ((b7 as u64) << 56);
        proof {
            assert(self.data@.subrange(self.ptr as int, self.ptr + 8) =~= seq![
                b0,
                b1,
                b2,
                b3,
                b4,
                b5,
                b6,
                b7,
            ]);
        }
        let start = self.ptr + 8;
        let avail = n - start;
        if len > avail as u64 {
            return Err(DecodeError::Truncated);
        }
        let end = start + len as usize;
        let v = vstd::slice::slice_to_vec(
            vstd::slice::slice_subrange(self.data.as_slice(), start, end),
        );
        self.ptr = end;
        Ok(v)
    }

    /// Decodes one boolean at the cursor and advances the cursor past
    /// it; on failure the buffer is unchanged.
    pub fn read_bool(&mut self) -> (r: Result<bool, DecodeError>)
        ensures
            final(self).data@ == old(self).data@,
            final(self).ptr >= old(self).ptr,
            match r {
                Ok(b) => dec_bool(old(self).data@, old(self).ptr as int) == Ok::<
                    (bool, int),
                    DecodeError,
                >((b, final(self).ptr as int)),
                Err(e) => {
                    &&& dec_bool(old(self).data@, old(self).ptr as int) == Err::<
                        (bool, int),
                        DecodeError,
                    >(e)
                    &&& final(self).ptr == old(self).ptr
                },
            },
    {
        if self.ptr >= self.data.len() {
            return Err(DecodeError::Truncated);
        }
        let b = self.data[self.ptr];
        if b == 0 {
            self.ptr = self.ptr + 1;
            Ok(false)
        } else if b == 1 {
            self.ptr = self.ptr + 1;
            Ok(true)
        } else {
            Err(DecodeError::InvalidBool)
        }
    }
}

impl Default for Buffer {
    fn default() -> (r: Buffer)
        ensures
            r.data@ == Seq::<u8>::empty(),
            r.ptr == 0,
    {
        Buffer::new()
    }
}

/// Appends the little-endian bytes of a 64-bit word to `out`.
pub fn push_u64_le(out: &mut Vec<u8>, n: u64)
    ensures
        final(out)@ == old(out)@ + u64_le_bytes(n),
{
    out.push((n & 0xff) as u8);
    out.push(((n >> 8) & 0xff) as u8);
    out.push(((n >> 16) & 0xff) as u8);
    out.push(((n >> 24) & 0xff) as u8);
    out.push(((n >> 32) & 0xff) as u8);
    out.push(((n >> 40) & 0xff) as u8);
    out.push(((n >> 48) & 0xff) as u8);
    out.push(((n >> 56) & 0xff) as u8);
    assert(out@ =~= old(out)@ + u64_le_bytes(n));
}

/// Appends the length-prefixed encoding of a byte string to `out`.
pub fn push_bytes(out: &mut Vec<u8>, v: &[u8])
    ensures
        final(out)@ == old(out)@ + enc_bytes(v@),
{
    push_u64_le(out, v.len() as u64);
    let ghost mid = out@;
    let mut i: usize = 0;
    while i < v.len()
        invariant
            0 <= i <= v@.len(),
            out@ == mid + v@.subrange(0, i as int),
        decreases v@.len() - i,
    {
        let b = *vstd::slice::slice_index_get(v, i);
        out.push(b);
        proof {
            assert(mid + v@.subrange(0, i + 1) =~= (mid + v@.subrange(0, i as int)).push(b));
        }
        i = i + 1;
    }
    assert(out@ =~= old(out)@ + enc_bytes(v@));
}

/// Appends the one-byte encoding of a boolean to `out`.
pub fn push_bool(out: &mut Vec<u8>, b: bool)
    ensures
        final(out)@ == old(out)@ + enc_bool(b),
{
    out.push(if b { 1u8 } else { 0u8 });
    assert(out@ =~= old(out)@ + enc_bool(b));
}

} // verus!
