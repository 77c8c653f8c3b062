//! Little-endian integer layouts used throughout the wire format.
use vstd::prelude::*;

verus! {

/// The two little-endian bytes of `x`.
pub open spec fn le_u16(x: u16) -> Seq<u8> {
    seq![x as u8, (x >> 8u16) as u8]
}

/// The eight little-endian bytes of `x`.
pub open spec fn le_u64(x: u64) -> Seq<u8> {
    seq![
        x as u8,
        (x >> 8u64) as u8,
        (x >> 16u64) as u8,
        (x >> 24u64) as u8,
        (x >> 32u64) as u8,
        (x >> 40u64) as u8,
        (x >> 48u64) as u8,
        (x >> 56u64) as u8,
    ]
}

/// The sixteen little-endian bytes of `x`: low half first.
pub open spec fn le_u128(x: u128) -> Seq<u8> {
    le_u64(x as u64) + le_u64((x >> 64u128) as u64)
}

/// The concatenated little-endian bytes of each word, in order.
pub open spec fn le_words(ws: Seq<u64>) -> Seq<u8>
    decreases ws.len(),
{
    if ws.len() == 0 {
        seq![]
    } else {
        le_words(ws.drop_last()) + le_u64(ws.last())
    }
}

/// The 16-bit integer whose little-endian bytes start `b`.
pub open spec fn u16_from_le(b: Seq<u8>) -> u16 {
    (b[0] as u16) | ((b[1] as u16) << 8u16)
}

/// The 64-bit integer whose little-endian bytes start `b`.
pub open spec fn u64_from_le(b: Seq<u8>) -> u64 {
    (b[0] as u64) | ((b[1] as u64) << 8u64) | ((b[2] as u64) << 16u64) | ((b[3] as u64)
        << 24u64) | ((b[4] as u64) << 32u64) | ((b[5] as u64) << 40u64) | ((b[6] as u64)
        << 48u64) | ((b[7] as u64) << 56u64)
}

/// The 128-bit integer whose little-endian bytes start `b`.
pub open spec fn u128_from_le(b: Seq<u8>) -> u128 {
    (u64_from_le(b) as u128) | ((u64_from_le(b.subrange(8, 16)) as u128) << 64u128)
}

/// The words whose little-endian bytes make up `b`, eight bytes each.
pub open spec fn words_from_le(b: Seq<u8>, n: nat) -> Seq<u64>
    decreases n,
{
    if n == 0 {
        seq![]
    } else {
        words_from_le(b, (n - 1) as nat).push(u64_from_le(b.subrange(8 * (n - 1), 8 * n as int)))
    }
}

/// Reading back the bytes of a 16-bit integer gives the integer.
pub proof fn lemma_u16_round_trip(x: u16)
    ensures
        u16_from_le(le_u16(x)) == x,
{
    let b = le_u16(x);
    assert(b[0] == x as u8 && b[1] == (x >> 8u16) as u8);
    assert((((x as u8) as u16) | ((((x >> 8u16) as u8) as u16) << 8u16)) == x) by (bit_vector);
}

/// Reading back the bytes of a 64-bit integer gives the integer.
pub proof fn lemma_u64_round_trip(x: u64)
    ensures
        u64_from_le(le_u64(x)) == x,
{
    let b = le_u64(x);
    assert(b[0] == x as u8 && b[1] == (x >> 8u64) as u8 && b[2] == (x >> 16u64) as u8 && b[3]
        == (x >> 24u64) as u8 && b[4] == (x >> 32u64) as u8 && b[5] == (x >> 40u64) as u8 && b[6]
        == (x >> 48u64) as u8 && b[7] == (x >> 56u64) as u8);
    assert((((x as u8) as u64) | ((((x >> 8u64) as u8) as u64) << 8u64) | ((((x >> 16u64) as u8)
        as u64) << 16u64) | ((((x >> 24u64) as u8) as u64) << 24u64) | ((((x >> 32u64) as u8)
        as u64) << 32u64) | ((((x >> 40u64) as u8) as u64) << 40u64) | ((((x >> 48u64) as u8)
        as u64) << 48u64) | ((((x >> 56u64) as u8) as u64) << 56u64)) == x) by (bit_vector);
}

/// Reading back the bytes of a 128-bit integer gives the integer.
pub proof fn lemma_u128_round_trip(x: u128)
    ensures
        u128_from_le(le_u128(x)) == x,
{
    let lo = x as u64;
    let hi = (x >> 64u128) as u64;
    let b = le_u128(x);
    lemma_u64_round_trip(lo);
    lemma_u64_round_trip(hi);
    assert(b.subrange(0, 8) =~= le_u64(lo));
    assert(b.subrange(8, 16) =~= le_u64(hi));
    assert(u64_from_le(b) == u64_from_le(b.subrange(0, 8)));
    assert(((lo as u128) | ((hi as u128) << 64u128)) == x) by (bit_vector)
        requires
            lo == x as u64,
            hi == (x >> 64u128) as u64,
    ;
}

/// Reading the words back from their concatenated bytes gives the words.
pub proof fn lemma_words_round_trip(ws: Seq<u64>)
    ensures
        le_words(ws).len() == 8 * ws.len(),
        words_from_le(le_words(ws), ws.len()) == ws,
    decreases ws.len(),
{
    if ws.len() > 0 {
        let init = ws.drop_last();
        lemma_words_round_trip(init);
        let n = ws.len();
        let b = le_words(ws);
        assert(b.subrange(8 * (n - 1), 8 * n as int) =~= le_u64(ws.last()));
        lemma_u64_round_trip(ws.last());
        lemma_words_prefix(le_words(init), le_u64(ws.last()), init.len());
        assert(words_from_le(b, n) =~= ws);
    }
}

/// Appending bytes after the first `n` words leaves those words as they were.
pub proof fn lemma_words_prefix(b: Seq<u8>, extra: Seq<u8>, n: nat)
    requires
        8 * n <= b.len(),
    ensures
        words_from_le(b + extra, n) == words_from_le(b, n),
    decreases n,
{
    if n > 0 {
        lemma_words_prefix(b, extra, (n - 1) as nat);
        assert((b + extra).subrange(8 * (n - 1), 8 * n as int) =~= b.subrange(8 * (n - 1), 8 * n as int));
    }
}

/// Appends the two little-endian bytes of `x`.
pub fn push_u16(out: &mut Vec<u8>, x: u16)
    ensures
        final(out)@ == old(out)@ + le_u16(x),
{
    out.push(x as u8);
    out.push((x >> 8u16) as u8);
    assert(out@ =~= old(out)@ + le_u16(x));
}

/// Appends the eight little-endian bytes of `x`.
pub fn push_u64(out: &mut Vec<u8>, x: u64)
    ensures
        final(out)@ == old(out)@ + le_u64(x),
{
    out.push(x as u8);
    out.push((x >> 8u64) as u8);
    out.push((x >> 16u64) as u8);
    out.push((x >> 24u64) as u8);
    out.push((x >> 32u64) as u8);
    out.push((x >> 40u64) as u8);
    out.push((x >> 48u64) as u8);
    out.push((x >> 56u64) as u8);
    assert(out@ =~= old(out)@ + le_u64(x));
}

/// Appends the sixteen little-endian bytes of `x`.
pub fn push_u128(out: &mut Vec<u8>, x: u128)
    ensures
        final(out)@ == old(out)@ + le_u128(x),
{
    push_u64(out, x as u64);
    push_u64(out, (x >> 64u128) as u64);
    assert(out@ =~= old(out)@ + le_u128(x));
}

/// Appends the little-endian bytes of each word, in order.
pub fn push_words(out: &mut Vec<u8>, ws: &[u64])
    ensures
        final(out)@ == old(out)@ + le_words(ws@),
{
    let mut i: usize = 0;
    while i < ws.len()
        invariant
            i <= ws@.len(),
            out@ == old(out)@ + le_words(ws@.subrange(0, i as int)),
        decreases ws@.len() - i,
    {
        proof {
            let next = ws@.subrange(0, i + 1);
            assert(next.drop_last() =~= ws@.subrange(0, i as int));
            assert(next.last() == ws@[i as int]);
        }
        push_u64(out, ws[i]);
        i = i + 1;
    }
    assert(ws@.subrange(0, i as int) =~= ws@);
}

/// Appends every byte of `bytes`, in order.
pub fn push_bytes(out: &mut Vec<u8>, bytes: &[u8])
    ensures
        final(out)@ == old(out)@ + bytes@,
{
    let mut i: usize = 0;
    while i < bytes.len()
        invariant
            i <= bytes@.len(),
            out@ == old(out)@ + bytes@.subrange(0, i as int),
        decreases bytes@.len() - i,
    {
        out.push(bytes[i]);
        i = i + 1;
        assert(out@ =~= old(out)@ + bytes@.subrange(0, i as int));
    }
    assert(bytes@.subrange(0, i as int) =~= bytes@);
}

/// The 16-bit integer stored little-endian at `at`.
pub fn read_u16(b: &[u8], at: usize) -> (r: u16)
    requires
        at + 2 <= b@.len(),
    ensures
        r == u16_from_le(b@.subrange(at as int, at + 2)),
{
    (b[at] as u16) | ((b[at + 1] as u16) << 8u16)
}

/// The 64-bit integer stored little-endian at `at`.
pub fn read_u64(b: &[u8], at: usize) -> (r: u64)
    requires
        at + 8 <= b@.len(),
    ensures
        r == u64_from_le(b@.subrange(at as int, at + 8)),
{
    (b[at] as u64) | ((b[at + 1] as u64) << 8u64) | ((b[at + 2] as u64) << 16u64) | ((b[at
        + 3] as u64) << 24u64) | ((b[at + 4] as u64) << 32u64) | ((b[at + 5] as u64) << 40u64)
        | ((b[at + 6] as u64) << 48u64) | ((b[at + 7] as u64) << 56u64)
}

/// The 128-bit integer stored little-endian at `at`.
pub fn read_u128(b: &[u8], at: usize) -> (r: u128)
    requires
        at + 16 <= b@.len(),
    ensures
        r == u128_from_le(b@.subrange(at as int, at + 16)),
{
    let len: usize = b.len();
    assert(at + 16 <= len);
    let lo = read_u64(b, at);
    let hi = read_u64(b, at + 8);
    proof {
        let s = b@.subrange(at as int, at + 16);
        assert(s.subrange(8, 16) =~= b@.subrange(at + 8, at + 16));
        assert(u64_from_le(s) == u64_from_le(b@.subrange(at as int, at + 8)));
    }
    (lo as u128) | ((hi as u128) << 64u128)
}

/// The `n` words stored little-endian from `at` on.
pub fn read_words(b: &[u8], at: usize, n: usize) -> (r: Vec<u64>)
    requires
        at + 8 * n <= b@.len(),
    ensures
        r@ == words_from_le(b@.subrange(at as int, at + 8 * n), n as nat),
        r@.len() == n,
{
    let len: usize = b.len();
    let mut r: Vec<u64> = Vec::new();
    let mut i: usize = 0;
    while i < n
        invariant
            i <= n,
            at + 8 * n <= b@.len(),
            len == b@.len(),
            r@ == words_from_le(b@.subrange(at as int, at + 8 * n), i as nat),
            r@.len() == i,
        decreases n - i,
    {
        assert(8 * i + 8 <= 8 * n) by (nonlinear_arith)
            requires
                i < n,
        ;
        let w = read_u64(b, at + 8 * i);
        proof {
            let s = b@.subrange(at as int, at + 8 * n);
            assert(s.subrange(8 * i, 8 * (i + 1)) =~= b@.subrange(at + 8 * i, at + 8 * i + 8));
        }
        r.push(w);
        i = i + 1;
    }
    r
}

} // verus!
