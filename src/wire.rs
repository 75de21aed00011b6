//! Little-endian field access on kernel buffers.

use vstd::prelude::*;

verus! {

/// The unsigned value of four little-endian bytes starting at `off`.
pub open spec fn le_u32(b: Seq<u8>, off: int) -> nat {
    b[off] as nat + b[off + 1] as nat * 256 + b[off + 2] as nat * 65536 + b[off + 3] as nat
        * 16777216
}

/// The unsigned value of eight little-endian bytes starting at `off`.
pub open spec fn le_u64(b: Seq<u8>, off: int) -> nat {
    le_u32(b, off) + le_u32(b, off + 4) * 4294967296
}

/// The four little-endian bytes of `x`.
#[verifier::opaque]
pub open spec fn bytes_u32(x: u32) -> Seq<u8> {
    seq![
        (x % 256) as u8,
        ((x / 256) % 256) as u8,
        ((x / 65536) % 256) as u8,
        ((x / 16777216) % 256) as u8,
    ]
}

/// The eight little-endian bytes of `x`.
#[verifier::opaque]
pub open spec fn bytes_u64(x: u64) -> Seq<u8> {
    bytes_u32((x % 4294967296) as u32) + bytes_u32((x / 4294967296) as u32)
}

/// Reads the little-endian `u32` at `off`.
pub fn read_u32(b: &[u8], off: usize) -> (r: u32)
    requires
        off + 4 <= b@.len(),
    ensures
        r as nat == le_u32(b@, off as int),
{
    let b0 = b[off] as u64;
    let b1 = b[off + 1] as u64;
    let b2 = b[off + 2] as u64;
    let b3 = b[off + 3] as u64;
    (b0 + b1 * 256 + b2 * 65536 + b3 * 16777216) as u32
}

/// Reads the little-endian `u64` at `off`.
pub fn read_u64(b: &[u8], off: usize) -> (r: u64)
    requires
        off + 8 <= b@.len(),
    ensures
        r as nat == le_u64(b@, off as int),
{
    let n = b.len();
    assert(off + 8 <= n);
    let lo = read_u32(b, off) as u64;
    let hi = read_u32(b, off + 4) as u64;
    lo + hi * 4294967296
}

/// Appends the little-endian bytes of `x`.
pub fn push_u32(out: &mut Vec<u8>, x: u32)
    ensures
        final(out)@ == old(out)@ + bytes_u32(x),
{
    reveal(bytes_u32);
    out.push((x % 256) as u8);
    out.push(((x / 256) % 256) as u8);
    out.push(((x / 65536) % 256) as u8);
    out.push(((x / 16777216) % 256) as u8);
    assert(final(out)@ =~= old(out)@ + bytes_u32(x));
}

/// Appends the little-endian bytes of `x`.
pub fn push_u64(out: &mut Vec<u8>, x: u64)
    ensures
        final(out)@ == old(out)@ + bytes_u64(x),
{
    reveal(bytes_u64);
    push_u32(out, (x % 4294967296) as u32);
    push_u32(out, (x / 4294967296) as u32);
    assert(final(out)@ =~= old(out)@ + bytes_u64(x));
}

pub broadcast proof fn lemma_bytes_u32_len(x: u32)
    ensures
        #[trigger] bytes_u32(x).len() == 4,
{
    reveal(bytes_u32);
}

pub broadcast proof fn lemma_bytes_u64_len(x: u64)
    ensures
        #[trigger] bytes_u64(x).len() == 8,
{
    reveal(bytes_u64);
    lemma_bytes_u32_len((x % 4294967296) as u32);
    lemma_bytes_u32_len((x / 4294967296) as u32);
}

proof fn lemma_digits(x: u32)
    ensures
        x as nat == (x % 256) as nat + ((x / 256) % 256) as nat * 256 + ((x / 65536) % 256) as nat
            * 65536 + ((x / 16777216) % 256) as nat * 16777216,
{
    let a = x % 256;
    let b = (x / 256) % 256;
    let c = (x / 65536) % 256;
    let d = (x / 16777216) % 256;
    assert(x == a + b * 256 + c * 65536 + d * 16777216) by (bit_vector)
        requires
            a == x % 256,
            b == (x / 256) % 256,
            c == (x / 65536) % 256,
            d == (x / 16777216) % 256,
    ;
}

/// Reading back the four bytes written for `x` gives `x`.
pub proof fn lemma_u32_round_trip(pre: Seq<u8>, x: u32, post: Seq<u8>)
    ensures
        le_u32(pre + bytes_u32(x) + post, pre.len() as int) == x as nat,
{
    reveal(bytes_u32);
    let s = pre + bytes_u32(x) + post;
    let n = pre.len() as int;
    assert(s[n] == (x % 256) as u8);
    assert(s[n + 1] == ((x / 256) % 256) as u8);
    assert(s[n + 2] == ((x / 65536) % 256) as u8);
    assert(s[n + 3] == ((x / 16777216) % 256) as u8);
    lemma_digits(x);
}

/// Reading back the eight bytes written for `x` gives `x`.
pub proof fn lemma_u64_round_trip(pre: Seq<u8>, x: u64, post: Seq<u8>)
    ensures
        le_u64(pre + bytes_u64(x) + post, pre.len() as int) == x as nat,
{
    reveal(bytes_u64);
    let lo = (x % 4294967296) as u32;
    let hi = (x / 4294967296) as u32;
    lemma_bytes_u32_len(lo);
    lemma_bytes_u32_len(hi);
    assert(pre + bytes_u64(x) + post =~= pre + bytes_u32(lo) + (bytes_u32(hi) + post));
    assert(pre + bytes_u64(x) + post =~= (pre + bytes_u32(lo)) + bytes_u32(hi) + post);
    lemma_u32_round_trip(pre, lo, bytes_u32(hi) + post);
    lemma_u32_round_trip(pre + bytes_u32(lo), hi, post);
}

pub broadcast group group_bytes_len {
    lemma_bytes_u32_len,
    lemma_bytes_u64_len,
}

} // verus!
