//! Big-endian integers on the wire.
use vstd::prelude::*;

verus! {

/// The two bytes of `x`, most significant first.
pub open spec fn be16(x: u16) -> Seq<u8> {
    seq![(x / 256) as u8, (x % 256) as u8]
}

/// The four bytes of `x`, most significant first.
pub open spec fn be32(x: u32) -> Seq<u8> {
    seq![
        (x / 0x1000000) as u8,
        ((x / 0x10000) % 256) as u8,
        ((x / 256) % 256) as u8,
        (x % 256) as u8,
    ]
}

/// The 16-bit integer held by the two bytes of `b` at `at`, most significant first.
pub open spec fn read_be16(b: Seq<u8>, at: int) -> u16 {
    (b[at] as int * 256 + b[at + 1] as int) as u16
}

/// The 32-bit integer held by the four bytes of `b` at `at`, most significant first.
pub open spec fn read_be32(b: Seq<u8>, at: int) -> u32 {
    (b[at] as int * 0x1000000 + b[at + 1] as int * 0x10000 + b[at + 2] as int * 256 + b[at
        + 3] as int) as u32
}

/// Reading back the two bytes written for `x` gives `x`.
pub proof fn lemma_be16_roundtrip(x: u16, pre: Seq<u8>, post: Seq<u8>)
    ensures
        read_be16(pre + be16(x) + post, pre.len() as int) == x,
{
    let b = pre + be16(x) + post;
    assert(b[pre.len() as int] == (x / 256) as u8);
    assert(b[pre.len() as int + 1] == (x % 256) as u8);
}

/// Reading back the four bytes written for `x` gives `x`.
pub proof fn lemma_be32_roundtrip(x: u32, pre: Seq<u8>, post: Seq<u8>)
    ensures
        read_be32(pre + be32(x) + post, pre.len() as int) == x,
{
    let b = pre + be32(x) + post;
    let n = pre.len() as int;
    assert(b[n] == (x / 0x1000000) as u8);
    assert(b[n + 1] == ((x / 0x10000) % 256) as u8);
    assert(b[n + 2] == ((x / 256) % 256) as u8);
    assert(b[n + 3] == (x % 256) as u8);
    assert((x / 0x1000000) * 0x1000000 + ((x / 0x10000) % 256) * 0x10000 + ((x / 256) % 256) * 256
        + x % 256 == x) by (nonlinear_arith);
}

/// Appends the two bytes of `x`, most significant first.
pub fn put_u16(out: &mut Vec<u8>, x: u16)
    ensures
        final(out)@ == old(out)@ + be16(x),
{
    out.push((x / 256) as u8);
    out.push((x % 256) as u8);
    assert(out@ =~= old(out)@ + be16(x));
}

/// Appends the four bytes of `x`, most significant first.
pub fn put_u32(out: &mut Vec<u8>, x: u32)
    ensures
        final(out)@ == old(out)@ + be32(x),
{
    out.push((x / 0x1000000) as u8);
    out.push(((x / 0x10000) % 256) as u8);
    out.push(((x / 256) % 256) as u8);
    out.push((x % 256) as u8);
    assert(out@ =~= old(out)@ + be32(x));
}

/// Appends all of `bytes`.
pub fn put_slice(out: &mut Vec<u8>, bytes: &[u8])
    ensures
        final(out)@ == old(out)@ + bytes@,
{
    let n = bytes.len();
    let mut i: usize = 0;
    while i < n
        invariant
            n == bytes@.len(),
            i <= n,
            out@ == old(out)@ + bytes@.take(i as int),
        decreases n - i,
    {
        out.push(bytes[i]);
        i = i + 1;
        assert(out@ =~= old(out)@ + bytes@.take(i as int));
    }
    assert(bytes@.take(n as int) =~= bytes@);
}

/// The bytes of `b` from `from` (inclusive) to `to` (exclusive).
pub fn copy_range(b: &[u8], from: usize, to: usize) -> (r: Vec<u8>)
    requires
        from <= to <= b@.len(),
    ensures
        r@ == b@.subrange(from as int, to as int),
{
    let mut r = Vec::new();
    let mut i = from;
    while i < to
        invariant
            from <= i <= to,
            to <= b@.len(),
            r@ == b@.subrange(from as int, i as int),
        decreases to - i,
    {
        r.push(b[i]);
        i = i + 1;
        assert(r@ =~= b@.subrange(from as int, i as int));
    }
    r
}

/// The 16-bit integer held by `b[at..at + 2]`, most significant first.
pub fn get_u16(b: &[u8], at: usize) -> (r: u16)
    requires
        at + 2 <= b@.len(),
    ensures
        r == read_be16(b@, at as int),
{
    (b[at] as u16) * 256 + b[at + 1] as u16
}

/// The 32-bit integer held by `b[at..at + 4]`, most significant first.
pub fn get_u32(b: &[u8], at: usize) -> (r: u32)
    requires
        at + 4 <= b@.len(),
    ensures
        r == read_be32(b@, at as int),
{
    (b[at] as u32) * 0x1000000 + (b[at + 1] as u32) * 0x10000 + (b[at + 2] as u32) * 256 + b[at
        + 3] as u32
}

} // verus!
