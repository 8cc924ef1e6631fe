//! Byte-sequence helpers shared by the wire codecs and path logic.

use vstd::prelude::*;

verus! {

/// Big-endian encoding of a 32-bit value.
pub closed spec fn be32(v: u32) -> Seq<u8> {
    seq![
        (v / 16777216) as u8,
        ((v / 65536) % 256) as u8,
        ((v / 256) % 256) as u8,
        (v % 256) as u8,
    ]
}

/// Big-endian encoding of a 64-bit value.
pub closed spec fn be64(v: u64) -> Seq<u8> {
    be32((v / 4294967296) as u32) + be32((v % 4294967296) as u32)
}

/// The 32-bit value stored big-endian at position `i` of `s`.
pub open spec fn u32_at(s: Seq<u8>, i: int) -> int {
    s[i] * 16777216 + s[i + 1] * 65536 + s[i + 2] * 256 + s[i + 3]
}

/// The 64-bit value stored big-endian at position `i` of `s`.
pub open spec fn u64_at(s: Seq<u8>, i: int) -> int {
    u32_at(s, i) * 4294967296 + u32_at(s, i + 4)
}

/// A length reduced to the 32 bits that a wire length field carries.
pub open spec fn wire_len(n: int) -> u32 {
    (n % 4294967296) as u32
}

/// Decoding undoes encoding for 32-bit values.
pub proof fn lemma_be32_roundtrip(v: u32)
    ensures
        be32(v).len() == 4,
        u32_at(be32(v), 0) == v,
{
}

/// Decoding undoes encoding for 64-bit values.
pub proof fn lemma_be64_roundtrip(v: u64)
    ensures
        be64(v).len() == 8,
        u64_at(be64(v), 0) == v,
{
    let hi = (v / 4294967296) as u32;
    let lo = (v % 4294967296) as u32;
    lemma_be32_roundtrip(hi);
    lemma_be32_roundtrip(lo);
    let s = be64(v);
    assert(s[0] == be32(hi)[0] && s[1] == be32(hi)[1] && s[2] == be32(hi)[2] && s[3] == be32(hi)[3]);
    assert(s[4] == be32(lo)[0] && s[5] == be32(lo)[1] && s[6] == be32(lo)[2] && s[7] == be32(lo)[3]);
}

/// Appends every byte of `src` to `out`.
pub fn append_bytes(out: &mut Vec<u8>, src: &[u8])
    ensures
        final(out)@ == old(out)@ + src@,
{
    let mut i: usize = 0;
    while i < src.len()
        invariant
            i <= src@.len(),
            out@ == old(out)@ + src@.subrange(0, i as int),
        decreases src@.len() - i,
    {
        out.push(src[i]);
        i = i + 1;
        assert(out@ =~= old(out)@ + src@.subrange(0, i as int));
    }
    assert(src@.subrange(0, src@.len() as int) =~= src@);
}

/// A fresh vector holding `src[from..to]`.
pub fn copy_range(src: &[u8], from: usize, to: usize) -> (out: Vec<u8>)
    requires
        from <= to <= src@.len(),
    ensures
        out@ == src@.subrange(from as int, to as int),
{
    let mut out: Vec<u8> = Vec::new();
    let mut i: usize = from;
    while i < to
        invariant
            from <= i <= to <= src@.len(),
            out@ == src@.subrange(from as int, i as int),
        decreases to - i,
    {
        out.push(src[i]);
        i = i + 1;
        assert(out@ =~= src@.subrange(from as int, i as int));
    }
    out
}

/// Appends the big-endian encoding of `v` to `out`.
pub fn put_u32(out: &mut Vec<u8>, v: u32)
    ensures
        final(out)@ == old(out)@ + be32(v),
{
    out.push((v / 16777216) as u8);
    out.push(((v / 65536) % 256) as u8);
    out.push(((v / 256) % 256) as u8);
    out.push((v % 256) as u8);
    assert(out@ =~= old(out)@ + be32(v));
}

/// Appends the big-endian encoding of `v` to `out`.
pub fn put_u64(out: &mut Vec<u8>, v: u64)
    ensures
        final(out)@ == old(out)@ + be64(v),
{
    put_u32(out, (v / 4294967296) as u32);
    put_u32(out, (v % 4294967296) as u32);
    assert(out@ =~= old(out)@ + be64(v));
}

/// The 32-bit wire form of a length plus one, as a packet's length field needs.
pub fn len_plus_one_to_wire(n: usize) -> (v: u32)
    ensures
        v == wire_len(n as int + 1),
{
    let m: u64 = (n as u64) % 4294967296;
    if m == 4294967295 {
        0
    } else {
        (m + 1) as u32
    }
}

/// The 32-bit wire form of a length.
pub fn len_to_wire(n: usize) -> (v: u32)
    ensures
        v == wire_len(n as int),
{
    ((n as u64) % 4294967296) as u32
}

/// Whether two byte strings hold the same bytes.
pub fn bytes_eq(a: &[u8], b: &[u8]) -> (same: bool)
    ensures
        same == (a@ == b@),
{
    if a.len() != b.len() {
        return false;
    }
    let mut i: usize = 0;
    while i < a.len()
        invariant
            i <= a@.len(),
            a@.len() == b@.len(),
            a@.subrange(0, i as int) == b@.subrange(0, i as int),
        decreases a@.len() - i,
    {
        if a[i] != b[i] {
            return false;
        }
        i = i + 1;
        assert(a@.subrange(0, i as int) =~= a@.subrange(0, i - 1).push(a@[i - 1]));
        assert(b@.subrange(0, i as int) =~= b@.subrange(0, i - 1).push(b@[i - 1]));
    }
    assert(a@ =~= a@.subrange(0, a@.len() as int));
    assert(b@ =~= b@.subrange(0, b@.len() as int));
    true
}

/// Whether `needle` occurs in `hay` at position `at`.
pub open spec fn occurs_at(hay: Seq<u8>, needle: Seq<u8>, at: int) -> bool {
    0 <= at && at + needle.len() <= hay.len() && hay.subrange(at, at + needle.len()) == needle
}

/// Whether `needle` occurs somewhere in `hay`.
pub open spec fn has_subslice(hay: Seq<u8>, needle: Seq<u8>) -> bool {
    exists|at: int| occurs_at(hay, needle, at)
}

/// Whether `hay` ends with `tail`.
pub open spec fn has_suffix(hay: Seq<u8>, tail: Seq<u8>) -> bool {
    tail.len() <= hay.len() && hay.subrange(hay.len() - tail.len(), hay.len() as int) == tail
}

/// Decides whether `needle` occurs in `hay` at `at`.
pub fn matches_at(hay: &[u8], needle: &[u8], at: usize) -> (r: bool)
    ensures
        r == occurs_at(hay@, needle@, at as int),
{
    if needle.len() > hay.len() || at > hay.len() - needle.len() {
        return false;
    }
    bytes_eq(vstd::slice::slice_subrange(hay, at, at + needle.len()), needle)
}

/// Decides whether `hay` starts with `head`.
pub fn starts_with(hay: &[u8], head: &[u8]) -> (r: bool)
    ensures
        r == head@.is_prefix_of(hay@),
{
    let r = matches_at(hay, head, 0);
    proof {
        if head@.len() <= hay@.len() {
            if r {
                assert(hay@.subrange(0, head@.len() as int) =~= head@);
            }
            if head@.is_prefix_of(hay@) {
                assert(hay@.subrange(0, head@.len() as int) =~= head@);
            }
        }
    }
    r
}

/// Decides whether `hay` ends with `tail`.
pub fn ends_with(hay: &[u8], tail: &[u8]) -> (r: bool)
    ensures
        r == has_suffix(hay@, tail@),
{
    if tail.len() > hay.len() {
        return false;
    }
    matches_at(hay, tail, hay.len() - tail.len())
}

/// Decides whether `needle` occurs somewhere in `hay`.
pub fn contains(hay: &[u8], needle: &[u8]) -> (r: bool)
    ensures
        r == has_subslice(hay@, needle@),
{
    if needle.len() > hay.len() {
        return false;
    }
    let last: usize = hay.len() - needle.len();
    let mut i: usize = 0;
    while i < last
        invariant
            i <= last,
            last == hay@.len() - needle@.len(),
            forall|at: int| 0 <= at < i ==> !occurs_at(hay@, needle@, at),
        decreases last - i,
    {
        if matches_at(hay, needle, i) {
            return true;
        }
        i = i + 1;
    }
    matches_at(hay, needle, last)
}

} // verus!
