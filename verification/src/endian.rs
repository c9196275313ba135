//! Big-endian byte encoding of `u64` values, used by the frame headers.

use vstd::prelude::*;

verus! {

/// The eight big-endian bytes of `v`, most significant first.
pub open spec fn be64(v: u64) -> Seq<u8> {
    seq![
        (((v >> 56) & 0xff) as u8),
        (((v >> 48) & 0xff) as u8),
        (((v >> 40) & 0xff) as u8),
        (((v >> 32) & 0xff) as u8),
        (((v >> 24) & 0xff) as u8),
        (((v >> 16) & 0xff) as u8),
        (((v >> 8) & 0xff) as u8),
        ((v & 0xff) as u8),
    ]
}

/// The `u64` whose big-endian bytes are `s`.
pub open spec fn be64_val(s: Seq<u8>) -> u64
    recommends
        s.len() == 8,
{
    (((s[0] as u64) << 56) | ((s[1] as u64) << 48) | ((s[2] as u64) << 40) | ((s[3] as u64) << 32)
        | ((s[4] as u64) << 24) | ((s[5] as u64) << 16) | ((s[6] as u64) << 8) | (s[7] as u64))
}

/// Reading back the eight bytes of `v` yields `v` again.
pub proof fn lemma_be64_val_of_be64(v: u64)
    ensures
        be64_val(be64(v)) == v,
{
    let s = be64(v);
    assert(((((((v >> 56) & 0xff) as u8) as u64) << 56) | (((((v >> 48) & 0xff) as u8) as u64)
        << 48) | (((((v >> 40) & 0xff) as u8) as u64) << 40) | (((((v >> 32) & 0xff) as u8) as u64)
        << 32) | (((((v >> 24) & 0xff) as u8) as u64) << 24) | (((((v >> 16) & 0xff) as u8) as u64)
        << 16) | (((((v >> 8) & 0xff) as u8) as u64) << 8) | (((v & 0xff) as u8) as u64)) == v)
        by (bit_vector);
}

/// Append the big-endian bytes of `v` to `buf`.
pub fn push_be64(buf: &mut Vec<u8>, v: u64)
    ensures
        final(buf)@ == old(buf)@ + be64(v),
{
    proof {
        assert((v >> 56) & 0xff < 256 && (v >> 48) & 0xff < 256 && (v >> 40) & 0xff < 256 && (v
            >> 32) & 0xff < 256 && (v >> 24) & 0xff < 256 && (v >> 16) & 0xff < 256 && (v >> 8)
            & 0xff < 256 && v & 0xff < 256) by (bit_vector);
    }
    buf.push(((v >> 56) & 0xff) as u8);
    buf.push(((v >> 48) & 0xff) as u8);
    buf.push(((v >> 40) & 0xff) as u8);
    buf.push(((v >> 32) & 0xff) as u8);
    buf.push(((v >> 24) & 0xff) as u8);
    buf.push(((v >> 16) & 0xff) as u8);
    buf.push(((v >> 8) & 0xff) as u8);
    buf.push((v & 0xff) as u8);
    assert(buf@ =~= old(buf)@ + be64(v));
}

/// Overwrite `buf[at .. at + 8]` with the big-endian bytes of `v`.
pub fn set_be64(buf: &mut Vec<u8>, at: usize, v: u64)
    requires
        at + 8 <= old(buf).len(),
    ensures
        final(buf)@.len() == old(buf)@.len(),
        final(buf)@.subrange(at as int, at + 8) == be64(v),
        forall|i: int| 0 <= i < at ==> final(buf)@[i] == old(buf)@[i],
        forall|i: int| at + 8 <= i < final(buf)@.len() ==> final(buf)@[i] == old(buf)@[i],
{
    proof {
        assert((v >> 56) & 0xff < 256 && (v >> 48) & 0xff < 256 && (v >> 40) & 0xff < 256 && (v
            >> 32) & 0xff < 256 && (v >> 24) & 0xff < 256 && (v >> 16) & 0xff < 256 && (v >> 8)
            & 0xff < 256 && v & 0xff < 256) by (bit_vector);
    }
    buf.set(at, ((v >> 56) & 0xff) as u8);
    buf.set(at + 1, ((v >> 48) & 0xff) as u8);
    buf.set(at + 2, ((v >> 40) & 0xff) as u8);
    buf.set(at + 3, ((v >> 32) & 0xff) as u8);
    buf.set(at + 4, ((v >> 24) & 0xff) as u8);
    buf.set(at + 5, ((v >> 16) & 0xff) as u8);
    buf.set(at + 6, ((v >> 8) & 0xff) as u8);
    buf.set(at + 7, (v & 0xff) as u8);
    assert(buf@.subrange(at as int, at + 8) =~= be64(v));
}

/// Read the `u64` stored big-endian at `buf[at .. at + 8]`.
pub fn read_be64(buf: &[u8], at: usize) -> (v: u64)
    requires
        at + 8 <= buf.len(),
    ensures
        v == be64_val(buf@.subrange(at as int, at + 8)),
{
    let v = ((buf[at] as u64) << 56) | ((buf[at + 1] as u64) << 48) | ((buf[at + 2] as u64) << 40)
        | ((buf[at + 3] as u64) << 32) | ((buf[at + 4] as u64) << 24) | ((buf[at + 5] as u64) << 16)
        | ((buf[at + 6] as u64) << 8) | (buf[at + 7] as u64);
    proof {
        let s = buf@.subrange(at as int, at + 8);
        assert(s[0] == buf@[at as int] && s[1] == buf@[at + 1] && s[2] == buf@[at + 2] && s[3]
            == buf@[at + 3] && s[4] == buf@[at + 4] && s[5] == buf@[at + 5] && s[6] == buf@[at + 6]
            && s[7] == buf@[at + 7]);
    }
    v
}

} // verus!
