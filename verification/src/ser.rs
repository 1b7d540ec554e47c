//! Primitives of the binary wire format: network-byte-order integers and
//! the errors the codec reports.
use vstd::prelude::*;

verus! {

/// An error while encoding or decoding a wire message.
#[derive(Clone, Debug)]
pub enum Error {
    /// Attempt to write a value larger than the wire format allows; the
    /// message says which. Aborts only the one message being encoded.
    TooLargeWriteErr(String),
    /// The input ended before a full value could be read.
    UnexpectedEof,
}

/// The two big-endian bytes of a 16-bit value.
pub open spec fn be16(x: u16) -> Seq<u8> {
    seq![(x >> 8) as u8, x as u8]
}

/// The 16-bit value read from two big-endian bytes.
pub open spec fn be16_val(hi: u8, lo: u8) -> u16 {
    (hi as u16) << 8 | (lo as u16)
}

/// Reading back the two big-endian bytes of a value gives the value.
pub proof fn lemma_be16_round_trip(x: u16)
    ensures
        be16_val((x >> 8) as u8, x as u8) == x,
{
    assert(((((x >> 8) as u8) as u16) << 8 | ((x as u8) as u16)) == x) by (bit_vector);
}

/// The eight big-endian bytes of a 64-bit value.
pub open spec fn be64(x: u64) -> Seq<u8> {
    seq![
        (x >> 56) as u8,
        (x >> 48) as u8,
        (x >> 40) as u8,
        (x >> 32) as u8,
        (x >> 24) as u8,
        (x >> 16) as u8,
        (x >> 8) as u8,
        x as u8,
    ]
}

/// The 64-bit value read from eight big-endian bytes.
pub open spec fn be64_val(b: Seq<u8>) -> u64 {
    (b[0] as u64) << 56 | (b[1] as u64) << 48 | (b[2] as u64) << 40 | (b[3] as u64) << 32 | (
    b[4] as u64) << 24 | (b[5] as u64) << 16 | (b[6] as u64) << 8 | (b[7] as u64)
}

/// Reading back the eight big-endian bytes of a value gives the value.
pub proof fn lemma_be64_round_trip(x: u64)
    ensures
        be64_val(be64(x)) == x,
{
    let b = be64(x);
    assert((((x >> 56) as u8) as u64) << 56 | (((x >> 48) as u8) as u64) << 48 | (((x
        >> 40) as u8) as u64) << 40 | (((x >> 32) as u8) as u64) << 32 | (((x >> 24) as u8) as u64)
        << 24 | (((x >> 16) as u8) as u64) << 16 | (((x >> 8) as u8) as u64) << 8 | ((
    x as u8) as u64) == x) by (bit_vector);
}

/// Append a 16-bit value to the output in network byte order.
pub fn write_u16_be(out: &mut Vec<u8>, x: u16)
    ensures
        final(out)@ == old(out)@ + be16(x),
{
    out.push(#[verifier::truncate] ((x >> 8) as u8));
    out.push(#[verifier::truncate] (x as u8));
    proof {
        assert(final(out)@ =~= old(out)@ + be16(x));
    }
}

/// Append a 64-bit value to the output in network byte order.
pub fn write_u64_be(out: &mut Vec<u8>, x: u64)
    ensures
        final(out)@ == old(out)@ + be64(x),
{
    out.push(#[verifier::truncate] ((x >> 56) as u8));
    out.push(#[verifier::truncate] ((x >> 48) as u8));
    out.push(#[verifier::truncate] ((x >> 40) as u8));
    out.push(#[verifier::truncate] ((x >> 32) as u8));
    out.push(#[verifier::truncate] ((x >> 24) as u8));
    out.push(#[verifier::truncate] ((x >> 16) as u8));
    out.push(#[verifier::truncate] ((x >> 8) as u8));
    out.push(#[verifier::truncate] (x as u8));
    proof {
        assert(final(out)@ =~= old(out)@ + be64(x));
    }
}

/// Read a 16-bit value in network byte order at the given position.
pub fn read_u16_be(data: &[u8], pos: usize) -> (r: u16)
    requires
        pos + 2 <= data@.len(),
    ensures
        r == be16_val(data@[pos as int], data@[pos + 1]),
{
    let hi = data[pos];
    let lo = data[pos + 1];
    (hi as u16) << 8 | (lo as u16)
}

/// Read a 64-bit value in network byte order at the given position.
pub fn read_u64_be(data: &[u8], pos: usize) -> (r: u64)
    requires
        pos + 8 <= data@.len(),
    ensures
        r == be64_val(data@.subrange(pos as int, pos + 8)),
{
    let r = (data[pos] as u64) << 56 | (data[pos + 1] as u64) << 48 | (data[pos + 2] as u64) << 40
        | (data[pos + 3] as u64) << 32 | (data[pos + 4] as u64) << 24 | (data[pos + 5] as u64) << 16
        | (data[pos + 6] as u64) << 8 | (data[pos + 7] as u64);
    proof {
        let b = data@.subrange(pos as int, pos + 8);
        assert(b[0] == data@[pos as int] && b[1] == data@[pos + 1] && b[2] == data@[pos + 2] && b[3]
            == data@[pos + 3] && b[4] == data@[pos + 4] && b[5] == data@[pos + 5] && b[6] == data@[
            pos + 6] && b[7] == data@[pos + 7]);
    }
    r
}

} // verus!
