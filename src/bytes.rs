//! Little-endian reading and writing of fixed-width fields in byte buffers.
use vstd::prelude::*;
use vstd::bytes::{
    lemma_auto_spec_u64_to_from_le_bytes, spec_u64_from_le_bytes, spec_u64_to_le_bytes,
    u64_from_le_bytes, u64_to_le_bytes,
};
use vstd::slice::slice_subrange;

verus! {

/// The little-endian `u64` stored in `s` from position `off` on.
pub open spec fn le_u64_at(s: Seq<u8>, off: int) -> u64 {
    spec_u64_from_le_bytes(s.subrange(off, off + 8))
}

/// The eight bytes that encode `x` in little-endian order.
pub open spec fn le_bytes(x: u64) -> Seq<u8> {
    spec_u64_to_le_bytes(x)
}

/// Encoding a `u64` gives eight bytes, from which the same value is read back.
pub proof fn lemma_le_u64_round_trip(x: u64)
    ensures
        le_bytes(x).len() == 8,
        spec_u64_from_le_bytes(le_bytes(x)) == x,
{
    lemma_auto_spec_u64_to_from_le_bytes();
}

/// Two byte arrays with the same contents are the same array.
pub proof fn lemma_arrays_equal<const N: usize>(a: [u8; N], b: [u8; N])
    requires
        a@ == b@,
    ensures
        a == b,
{
    broadcast use vstd::array::axiom_array_ext_equal, vstd::array::lemma_array_index;

    assert forall|i: int| 0 <= i < N implies a[i] == b[i] by {
        assert(a@[i] == b@[i]);
    }
    assert(a =~= b);
}

/// Whether two keys hold the same bytes.
pub fn same_key(a: &[u8; 32], b: &[u8; 32]) -> (r: bool)
    ensures
        r == (a@ == b@),
{
    let mut i: usize = 0;
    while i < 32
        invariant
            i <= 32,
            a@.len() == 32,
            b@.len() == 32,
            forall|j: int| 0 <= j < i ==> a@[j] == b@[j],
        decreases 32 - i,
    {
        if a[i] != b[i] {
            return false;
        }
        i += 1;
    }
    assert(a@ =~= b@);
    true
}

pub fn read_u64(data: &[u8], off: usize) -> (r: u64)
    requires
        off + 8 <= data@.len(),
    ensures
        r == le_u64_at(data@, off as int),
{
    let len = data.len();
    assert(off + 8 <= len);
    u64_from_le_bytes(slice_subrange(data, off, off + 8))
}

/// Copies `N` bytes of `data`, from position `off` on, into an array.
pub fn read_array<const N: usize>(data: &[u8], off: usize) -> (r: [u8; N])
    requires
        off + N <= data@.len(),
    ensures
        r@ == data@.subrange(off as int, off + N),
{
    let len = data.len();
    let mut r = [0u8; N];
    let mut i: usize = 0;
    while i < N
        invariant
            i <= N,
            off + N <= data@.len(),
            len == data@.len(),
            r@.len() == N,
            forall|j: int| 0 <= j < i ==> r@[j] == data@[off + j],
        decreases N - i,
    {
        r[i] = data[off + i];
        i += 1;
    }
    assert(r@ =~= data@.subrange(off as int, off + N));
    r
}

/// Copies a buffer of exactly `N` bytes into an array.
pub fn to_array<const N: usize>(v: &Vec<u8>) -> (r: [u8; N])
    requires
        v@.len() == N,
    ensures
        r@ == v@,
{
    let r: [u8; N] = read_array(v.as_slice(), 0);
    assert(v@.subrange(0, N as int) =~= v@);
    r
}

pub fn push_u64(out: &mut Vec<u8>, x: u64)
    ensures
        final(out)@ == old(out)@ + le_bytes(x),
        le_bytes(x).len() == 8,
{
    proof {
        lemma_le_u64_round_trip(x);
    }
    let mut b = u64_to_le_bytes(x);
    out.append(&mut b);
}

/// Bytes of value zero, as alignment padding holds them.
pub open spec fn zeros(n: nat) -> Seq<u8> {
    Seq::new(n, |i: int| 0u8)
}

pub fn push_zeros(out: &mut Vec<u8>, n: usize)
    ensures
        final(out)@ == old(out)@ + zeros(n as nat),
{
    let ghost start = out@;
    let mut i: usize = 0;
    while i < n
        invariant
            i <= n,
            out@ == start + zeros(i as nat),
        decreases n - i,
    {
        out.push(0u8);
        i += 1;
        assert(out@ =~= start + zeros(i as nat));
    }
}

/// Overwrites the eight bytes from `off` on with `x` in little-endian order.
pub fn write_u64_at(buf: &mut Vec<u8>, off: usize, x: u64)
    requires
        off + 8 <= old(buf)@.len(),
    ensures
        final(buf)@ == old(buf)@.subrange(0, off as int) + le_bytes(x) + old(buf)@.subrange(
            off + 8,
            old(buf)@.len() as int,
        ),
{
    proof {
        lemma_le_u64_round_trip(x);
    }
    let b = u64_to_le_bytes(x);
    let len = buf.len();
    let ghost start = buf@;
    let mut i: usize = 0;
    while i < 8
        invariant
            i <= 8,
            off + 8 <= start.len(),
            b@ == le_bytes(x),
            b@.len() == 8,
            len == start.len(),
            buf@.len() == start.len(),
            forall|j: int| 0 <= j < start.len() && !(off <= j < off + i) ==> buf@[j] == start[j],
            forall|j: int| 0 <= j < i ==> buf@[off + j] == b@[j],
        decreases 8 - i,
    {
        buf.set(off + i, b[i]);
        i += 1;
    }
    assert(buf@ =~= start.subrange(0, off as int) + le_bytes(x) + start.subrange(
        off + 8,
        start.len() as int,
    ));
}

pub fn push_bytes(out: &mut Vec<u8>, src: &[u8])
    ensures
        final(out)@ == old(out)@ + src@,
{
    let ghost start = out@;
    let mut i: usize = 0;
    while i < src.len()
        invariant
            i <= src@.len(),
            out@ == start + src@.subrange(0, i as int),
        decreases src@.len() - i,
    {
        out.push(src[i]);
        i += 1;
        assert(out@ =~= start + src@.subrange(0, i as int));
    }
    assert(src@.subrange(0, src@.len() as int) =~= src@);
}

} // verus!
