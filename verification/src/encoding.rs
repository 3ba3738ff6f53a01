//! The byte layout that bincode's standard configuration gives a byte slice:
//! its length as a variable-length integer, then the bytes themselves.
use vstd::prelude::*;

verus! {

/// Largest length that bincode writes as a single byte.
pub const SINGLE_BYTE_MAX: u8 = 250;

/// Marker byte announcing a two-byte little-endian length.
pub const U16_MARKER: u8 = 251;

/// Marker byte announcing a four-byte little-endian length.
pub const U32_MARKER: u8 = 252;

/// Marker byte announcing an eight-byte little-endian length.
pub const U64_MARKER: u8 = 253;

/// The `n` least significant bytes of `v`, least significant first.
pub open spec fn le_bytes(v: nat, n: nat) -> Seq<u8>
    decreases n,
{
    if n == 0 {
        seq![]
    } else {
        seq![(v % 256) as u8] + le_bytes(v / 256, (n - 1) as nat)
    }
}

/// bincode's variable-length encoding of an unsigned integer below 2^64.
pub open spec fn varint(v: nat) -> Seq<u8> {
    if v <= SINGLE_BYTE_MAX {
        seq![v as u8]
    } else if v <= 0xffff {
        seq![U16_MARKER] + le_bytes(v, 2)
    } else if v <= 0xffff_ffff {
        seq![U32_MARKER] + le_bytes(v, 4)
    } else {
        seq![U64_MARKER] + le_bytes(v, 8)
    }
}

/// The bytes that bincode's standard configuration writes for a byte slice.
pub open spec fn slice_encoding(bytes: Seq<u8>) -> Seq<u8> {
    varint(bytes.len()) + bytes
}

/// Number of bytes that `varint(v)` occupies.
pub open spec fn varint_len(v: nat) -> nat {
    if v <= SINGLE_BYTE_MAX {
        1
    } else if v <= 0xffff {
        3
    } else if v <= 0xffff_ffff {
        5
    } else {
        9
    }
}

pub proof fn lemma_le_bytes_len(v: nat, n: nat)
    ensures
        le_bytes(v, n).len() == n,
    decreases n,
{
    if n > 0 {
        lemma_le_bytes_len(v / 256, (n - 1) as nat);
    }
}

/// The length prefix takes `varint_len` bytes, so a slice takes that many more than its own length.
pub proof fn lemma_slice_encoding_len(bytes: Seq<u8>)
    ensures
        varint(bytes.len()).len() == varint_len(bytes.len()),
        slice_encoding(bytes).len() == varint_len(bytes.len()) + bytes.len(),
{
    lemma_le_bytes_len(bytes.len(), 2);
    lemma_le_bytes_len(bytes.len(), 4);
    lemma_le_bytes_len(bytes.len(), 8);
}

/// `256^n`: the values that `n` bytes can hold.
pub open spec fn byte_range(n: nat) -> nat
    decreases n,
{
    if n == 0 {
        1
    } else {
        256 * byte_range((n - 1) as nat)
    }
}

/// The number whose `bytes.len()` bytes, least significant first, are `bytes`.
pub open spec fn le_value(bytes: Seq<u8>) -> nat
    decreases bytes.len(),
{
    if bytes.len() == 0 {
        0
    } else {
        bytes[0] as nat + 256 * le_value(bytes.drop_first())
    }
}

/// Reads a length prefix back: its value and the number of bytes it takes.
pub open spec fn read_varint(s: Seq<u8>) -> Option<(nat, nat)> {
    if s.len() == 0 {
        None
    } else if s[0] <= SINGLE_BYTE_MAX {
        Some((s[0] as nat, 1))
    } else if s[0] == U16_MARKER && s.len() >= 3 {
        Some((le_value(s.subrange(1, 3)), 3))
    } else if s[0] == U32_MARKER && s.len() >= 5 {
        Some((le_value(s.subrange(1, 5)), 5))
    } else if s[0] == U64_MARKER && s.len() >= 9 {
        Some((le_value(s.subrange(1, 9)), 9))
    } else {
        None
    }
}

proof fn lemma_le_value_of_bytes(v: nat, n: nat)
    requires
        v < byte_range(n),
    ensures
        le_value(le_bytes(v, n)) == v,
    decreases n,
{
    lemma_le_bytes_len(v, n);
    if n > 0 {
        let r: nat = byte_range((n - 1) as nat);
        assert(v / 256 < r) by (nonlinear_arith)
            requires
                v < 256 * r,
        ;
        lemma_le_value_of_bytes(v / 256, (n - 1) as nat);
        let b = le_bytes(v, n);
        assert(b.drop_first() =~= le_bytes(v / 256, (n - 1) as nat));
        assert(v == v % 256 + 256 * (v / 256)) by (nonlinear_arith);
    }
}

/// A length prefix is read back as the value it encodes, whatever follows it.
pub proof fn lemma_read_varint(v: nat, rest: Seq<u8>)
    requires
        v < 0x1_0000_0000_0000_0000,
    ensures
        read_varint(varint(v) + rest) == Some((v, varint_len(v))),
        varint(v).len() == varint_len(v),
{
    reveal_with_fuel(byte_range, 9);
    lemma_le_bytes_len(v, 2);
    lemma_le_bytes_len(v, 4);
    lemma_le_bytes_len(v, 8);
    let s = varint(v) + rest;
    if v <= SINGLE_BYTE_MAX {
    } else if v <= 0xffff {
        lemma_le_value_of_bytes(v, 2);
        assert(s.subrange(1, 3) =~= le_bytes(v, 2));
    } else if v <= 0xffff_ffff {
        lemma_le_value_of_bytes(v, 4);
        assert(s.subrange(1, 5) =~= le_bytes(v, 4));
    } else {
        lemma_le_value_of_bytes(v, 8);
        assert(s.subrange(1, 9) =~= le_bytes(v, 8));
    }
}

/// Framing law: the encoding of a byte slice marks where it ends, so two encodings that start
/// two byte strings equal to each other are encodings of the same slice, and what follows them
/// is equal too.
pub proof fn lemma_slice_encoding_prefix(a: Seq<u8>, x: Seq<u8>, b: Seq<u8>, y: Seq<u8>)
    requires
        a.len() < 0x1_0000_0000_0000_0000,
        b.len() < 0x1_0000_0000_0000_0000,
        slice_encoding(a) + x == slice_encoding(b) + y,
    ensures
        a == b,
        x == y,
{
    let s = slice_encoding(a) + x;
    assert(s =~= varint(a.len()) + (a + x));
    assert(slice_encoding(b) + y =~= varint(b.len()) + (b + y));
    lemma_read_varint(a.len(), a + x);
    lemma_read_varint(b.len(), b + y);
    let k: int = varint_len(a.len()) as int;
    assert(a =~= s.subrange(k, k + a.len()));
    assert(b =~= s.subrange(k, k + b.len()));
    assert(x =~= s.skip(k + a.len()));
    assert(y =~= s.skip(k + b.len()));
}

#[verifier::external_type_specification]
#[verifier::external_body]
pub struct ExEncodeError(bincode::error::EncodeError);

/// Calls `bincode::encode_into_slice` with `bincode::config::standard()` on `bytes`, writing into
/// `dst` from position `pos` on. The contract claims what bincode documents of its standard
/// configuration (a slice is its length as a little-endian variable-length integer, then its
/// elements, a `u8` as one byte) and what its slice writer does: the call succeeds exactly when the length prefix and the bytes fit in
/// what follows `pos`; it then reports how many bytes it wrote, and those bytes are the length
/// prefix followed by `bytes`, with everything else in `dst` left as it was. On failure the
/// contract says only that `dst` keeps its length and its bytes before `pos`.
#[verifier::external_body]
fn encode_into_slice_at(bytes: &[u8], dst: &mut [u8], pos: usize) -> (r: Result<
    usize,
    bincode::error::EncodeError,
>)
    requires
        pos <= old(dst)@.len(),
    ensures
        final(dst)@.len() == old(dst)@.len(),
        final(dst)@.take(pos as int) == old(dst)@.take(pos as int),
        r is Ok <==> pos + slice_encoding(bytes@).len() <= old(dst)@.len(),
        r matches Ok(n) ==> {
            &&& n == slice_encoding(bytes@).len()
            &&& final(dst)@ == old(dst)@.take(pos as int) + slice_encoding(bytes@) + old(dst)@.skip(
                pos + n,
            )
        },
{
    bincode::encode_into_slice(bytes, &mut dst[pos..], bincode::config::standard())
}

/// Writes the bincode encoding of `bytes` into `dst` at `pos`, when it fits.
///
/// Returns the position just after what was written, or `None` (with `dst` keeping its length
/// and everything before `pos`) when the encoding does not fit.
pub fn write_slice(bytes: &[u8], dst: &mut [u8], pos: usize) -> (r: Option<usize>)
    requires
        pos <= old(dst)@.len(),
    ensures
        final(dst)@.len() == old(dst)@.len(),
        final(dst)@.take(pos as int) == old(dst)@.take(pos as int),
        r is Some <==> pos + slice_encoding(bytes@).len() <= old(dst)@.len(),
        r matches Some(end) ==> {
            &&& end == pos + slice_encoding(bytes@).len()
            &&& final(dst)@ == old(dst)@.take(pos as int) + slice_encoding(bytes@) + old(dst)@.skip(
                end as int,
            )
        },
{
    let capacity: usize = dst.len();
    match encode_into_slice_at(bytes, dst, pos) {
        Ok(n) => {
            assert(pos + n <= capacity);
            Some(pos + n)
        },
        Err(_) => None,
    }
}

} // verus!
