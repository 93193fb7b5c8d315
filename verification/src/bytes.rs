//! Little-endian field reads, byte sums and byte-range copies shared by the
//! boot-media parsers.
use vstd::prelude::*;

verus! {

/// Value of a little-endian 16-bit field.
pub open spec fn le16(b0: u8, b1: u8) -> int {
    b0 as int + 256 * (b1 as int)
}

/// Value of a little-endian 32-bit field.
pub open spec fn le32(b0: u8, b1: u8, b2: u8, b3: u8) -> int {
    b0 as int + 256 * (b1 as int) + 65536 * (b2 as int) + 16777216 * (b3 as int)
}

/// Little-endian 16-bit field of `s` at `off`.
pub open spec fn le16_at(s: Seq<u8>, off: int) -> int {
    le16(s[off], s[off + 1])
}

/// Little-endian 32-bit field of `s` at `off`.
pub open spec fn le32_at(s: Seq<u8>, off: int) -> int {
    le32(s[off], s[off + 1], s[off + 2], s[off + 3])
}

/// Little-endian encoding of a 16-bit value.
pub open spec fn le16_seq(v: u16) -> Seq<u8> {
    seq![(v % 256) as u8, (v / 256) as u8]
}

/// Little-endian encoding of a 32-bit value.
pub open spec fn le32_seq(v: u32) -> Seq<u8> {
    seq![(v % 256) as u8, ((v / 256) % 256) as u8, ((v / 65536) % 256) as u8, (v / 16777216) as u8]
}

/// `n` copies of byte `b`.
pub open spec fn fill(n: int, b: u8) -> Seq<u8> {
    Seq::new(n as nat, |i: int| b)
}

/// Sum of all bytes, as a mathematical integer.
pub open spec fn byte_sum(s: Seq<u8>) -> int
    decreases s.len(),
{
    if s.len() == 0 {
        0
    } else {
        byte_sum(s.drop_last()) + s.last() as int
    }
}

/// Byte-wise checksum: the sum of all bytes modulo 256.
pub open spec fn checksum8(s: Seq<u8>) -> int {
    byte_sum(s) % 256
}

/// Decode a little-endian 16-bit field.
pub fn read_le16(b0: u8, b1: u8) -> (r: u16)
    ensures
        r as int == le16(b0, b1),
{
    (b0 as u16) + (b1 as u16) * 256
}

/// Decode a little-endian 32-bit field.
pub fn read_le32(b0: u8, b1: u8, b2: u8, b3: u8) -> (r: u32)
    ensures
        r as int == le32(b0, b1, b2, b3),
{
    (b0 as u32) + (b1 as u32) * 256 + (b2 as u32) * 65536 + (b3 as u32) * 16777216
}

/// Little-endian 16-bit field at `off` of `data`.
pub fn le16_of(data: &[u8], off: usize) -> (r: u16)
    requires
        off + 2 <= data@.len(),
    ensures
        r as int == le16_at(data@, off as int),
{
    read_le16(data[off], data[off + 1])
}

/// Little-endian 32-bit field at `off` of `data`.
pub fn le32_of(data: &[u8], off: usize) -> (r: u32)
    requires
        off + 4 <= data@.len(),
    ensures
        r as int == le32_at(data@, off as int),
{
    read_le32(data[off], data[off + 1], data[off + 2], data[off + 3])
}

/// The low and high byte of a 16-bit value.
pub fn le16_bytes(v: u16) -> (r: (u8, u8))
    ensures
        le16(r.0, r.1) == v as int,
        seq![r.0, r.1] == le16_seq(v),
{
    ((v % 256) as u8, (v / 256) as u8)
}

/// The four bytes of a 32-bit value, least significant first.
pub fn le32_bytes(v: u32) -> (r: (u8, u8, u8, u8))
    ensures
        le32(r.0, r.1, r.2, r.3) == v as int,
        seq![r.0, r.1, r.2, r.3] == le32_seq(v),
{
    let b0 = (v % 256) as u8;
    let b1 = ((v / 256) % 256) as u8;
    let b2 = ((v / 65536) % 256) as u8;
    let b3 = (v / 16777216) as u8;
    (b0, b1, b2, b3)
}

/// `(x % 256 + b) % 256 == (x + b) % 256`.
proof fn lemma_mod256_step(x: int, b: int)
    requires
        0 <= x,
    ensures
        (x % 256 + b) % 256 == (x + b) % 256,
{
    vstd::arithmetic::div_mod::lemma_add_mod_noop(x, b, 256);
    vstd::arithmetic::div_mod::lemma_mod_twice(x, 256);
    vstd::arithmetic::div_mod::lemma_add_mod_noop(x % 256, b, 256);
}

proof fn lemma_byte_sum_nonneg(s: Seq<u8>)
    ensures
        byte_sum(s) >= 0,
    decreases s.len(),
{
    if s.len() > 0 {
        lemma_byte_sum_nonneg(s.drop_last());
    }
}

/// Byte-wise checksum of `data` (wrapping sum of every byte).
pub fn checksum_of(data: &[u8]) -> (r: u8)
    ensures
        r as int == checksum8(data@),
{
    let mut acc: u8 = 0;
    let mut i: usize = 0;
    while i < data.len()
        invariant
            i <= data@.len(),
            acc as int == checksum8(data@.take(i as int)),
        decreases data@.len() - i,
    {
        let b = data[i];
        proof {
            let pre = data@.take(i as int);
            let post = data@.take(i as int + 1);
            assert(post.drop_last() =~= pre);
            assert(post.last() == b);
            lemma_byte_sum_nonneg(pre);
            lemma_mod256_step(byte_sum(pre), b as int);
        }
        acc = acc.wrapping_add(b);
        i = i + 1;
    }
    assert(data@.take(data@.len() as int) =~= data@);
    acc
}

/// Copy `data[start..end]` into a fresh vector.
pub fn copy_range(data: &[u8], start: usize, end: usize) -> (r: Vec<u8>)
    requires
        start <= end <= data@.len(),
    ensures
        r@ == data@.subrange(start as int, end as int),
{
    let mut out: Vec<u8> = Vec::with_capacity(end - start);
    let mut i = start;
    while i < end
        invariant
            start <= i <= end <= data@.len(),
            out@ == data@.subrange(start as int, i as int),
        decreases end - i,
    {
        out.push(data[i]);
        i = i + 1;
    }
    out
}

/// Overwrite `buf[off..off + src.len()]` with `src`.
pub fn write_bytes(buf: &mut Vec<u8>, off: usize, src: &[u8])
    requires
        off + src@.len() <= old(buf)@.len(),
    ensures
        final(buf)@.len() == old(buf)@.len(),
        final(buf)@ == old(buf)@.take(off as int) + src@ + old(buf)@.skip(off + src@.len()),
{
    let ghost orig = buf@;
    let n = buf.len();
    let mut i: usize = 0;
    while i < src.len()
        invariant
            off + src@.len() <= orig.len(),
            buf@.len() == orig.len(),
            n == orig.len(),
            i <= src@.len(),
            forall|j: int| 0 <= j < off ==> buf@[j] == orig[j],
            forall|j: int| off <= j < off + i ==> buf@[j] == src@[j - off],
            forall|j: int| off + i <= j < orig.len() ==> buf@[j] == orig[j],
        decreases src@.len() - i,
    {
        buf.set(off + i, src[i]);
        i = i + 1;
    }
    assert(buf@ =~= orig.take(off as int) + src@ + orig.skip(off + src@.len()));
}

/// Overwrite the two bytes at `off` with the little-endian encoding of `v`.
pub fn write_le16(buf: &mut Vec<u8>, off: usize, v: u16)
    requires
        off + 2 <= old(buf)@.len(),
    ensures
        final(buf)@.len() == old(buf)@.len(),
        le16_at(final(buf)@, off as int) == v as int,
        forall|j: int|
            0 <= j < old(buf)@.len() && !(off <= j < off + 2) ==> final(buf)@[j] == old(buf)@[j],
{
    let _n = buf.len();
    let (b0, b1) = le16_bytes(v);
    buf.set(off, b0);
    buf.set(off + 1, b1);
}

/// Overwrite the four bytes at `off` with the little-endian encoding of `v`.
pub fn write_le32(buf: &mut Vec<u8>, off: usize, v: u32)
    requires
        off + 4 <= old(buf)@.len(),
    ensures
        final(buf)@.len() == old(buf)@.len(),
        le32_at(final(buf)@, off as int) == v as int,
        forall|j: int|
            0 <= j < old(buf)@.len() && !(off <= j < off + 4) ==> final(buf)@[j] == old(buf)@[j],
{
    let _n = buf.len();
    let (b0, b1, b2, b3) = le32_bytes(v);
    buf.set(off, b0);
    buf.set(off + 1, b1);
    buf.set(off + 2, b2);
    buf.set(off + 3, b3);
}

/// Append `n` copies of `b`.
pub fn push_fill(v: &mut Vec<u8>, b: u8, n: usize)
    ensures
        final(v)@ == old(v)@ + fill(n as int, b),
{
    let mut i: usize = 0;
    while i < n
        invariant
            i <= n,
            v@ == old(v)@ + fill(i as int, b),
        decreases n - i,
    {
        v.push(b);
        i = i + 1;
        assert(v@ =~= old(v)@ + fill(i as int, b));
    }
}

/// Append every byte of `src`.
pub fn push_bytes(v: &mut Vec<u8>, src: &[u8])
    ensures
        final(v)@ == old(v)@ + src@,
{
    let mut i: usize = 0;
    while i < src.len()
        invariant
            i <= src@.len(),
            v@ == old(v)@ + src@.take(i as int),
        decreases src@.len() - i,
    {
        v.push(src[i]);
        i = i + 1;
        assert(v@ =~= old(v)@ + src@.take(i as int));
    }
    assert(src@.take(src@.len() as int) =~= src@);
}

/// Append the little-endian encoding of a 16-bit value.
pub fn push_le16(v: &mut Vec<u8>, x: u16)
    ensures
        final(v)@ == old(v)@ + le16_seq(x),
{
    let (b0, b1) = le16_bytes(x);
    v.push(b0);
    v.push(b1);
    assert(v@ =~= old(v)@ + le16_seq(x));
}

/// Append the little-endian encoding of a 32-bit value.
pub fn push_le32(v: &mut Vec<u8>, x: u32)
    ensures
        final(v)@ == old(v)@ + le32_seq(x),
{
    let (b0, b1, b2, b3) = le32_bytes(x);
    v.push(b0);
    v.push(b1);
    v.push(b2);
    v.push(b3);
    assert(v@ =~= old(v)@ + le32_seq(x));
}

} // verus!
