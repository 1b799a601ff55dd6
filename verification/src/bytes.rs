//! Byte-level helpers: comparison, prefixes and little-endian integers.

use vstd::prelude::*;
use vstd::slice::slice_subrange;

verus! {

/// Byte-wise comparison of two slices.
pub fn slice_eq(a: &[u8], b: &[u8]) -> (r: bool)
    ensures
        r == (a@ == b@),
{
    if a.len() != b.len() {
        return false;
    }
    let mut i: usize = 0;
    while i < a.len()
        invariant
            a@.len() == b@.len(),
            i <= a@.len(),
            forall|j: int| 0 <= j < i ==> a@[j] == b@[j],
        decreases a@.len() - i,
    {
        if a[i] != b[i] {
            return false;
        }
        i += 1;
    }
    assert(a@ =~= b@);
    true
}

/// `data` begins with `prefix`.
pub open spec fn has_prefix(data: Seq<u8>, prefix: Seq<u8>) -> bool {
    prefix.len() <= data.len() && data.subrange(0, prefix.len() as int) == prefix
}

/// Tests whether `data` begins with `prefix`.
pub fn starts_with(data: &[u8], prefix: &[u8]) -> (r: bool)
    ensures
        r == has_prefix(data@, prefix@),
{
    if data.len() < prefix.len() {
        return false;
    }
    slice_eq(slice_subrange(data, 0, prefix.len()), prefix)
}

/// Value of a little-endian byte string.
pub open spec fn le_value(s: Seq<u8>) -> nat
    decreases s.len(),
{
    if s.len() == 0 {
        0
    } else {
        s[0] as nat + 256 * le_value(s.subrange(1, s.len() as int))
    }
}

/// The `len` low-order bytes of `v`, least significant first.
pub open spec fn le_bytes(v: nat, len: nat) -> Seq<u8>
    decreases len,
{
    if len == 0 {
        Seq::empty()
    } else {
        seq![(v % 256) as u8] + le_bytes(v / 256, (len - 1) as nat)
    }
}

/// Two's-complement reading of an unsigned 64-bit value.
pub open spec fn as_signed_64(v: nat) -> int {
    if v < 0x8000_0000_0000_0000 {
        v as int
    } else {
        v - 0x1_0000_0000_0000_0000
    }
}

/// Unsigned 64-bit value of a two's-complement integer.
pub open spec fn as_unsigned_64(v: int) -> nat {
    if v >= 0 {
        v as nat
    } else {
        (v + 0x1_0000_0000_0000_0000) as nat
    }
}

/// `256` raised to `n`: the number of byte strings of length `n`.
pub open spec fn pow256(n: nat) -> nat
    decreases n,
{
    if n == 0 {
        1
    } else {
        256 * pow256((n - 1) as nat)
    }
}

pub proof fn lemma_pow256_values()
    ensures
        pow256(0) == 1,
        pow256(2) == 0x1_0000,
        pow256(8) == 0x1_0000_0000_0000_0000,
{
    reveal_with_fuel(pow256, 9);
}

/// A little-endian string of `n` bytes denotes a value below `256^n`.
pub proof fn lemma_le_value_bound(s: Seq<u8>)
    ensures
        le_value(s) < pow256(s.len()),
    decreases s.len(),
{
    if s.len() > 0 {
        lemma_le_value_bound(s.subrange(1, s.len() as int));
    }
}

/// Decoding undoes encoding for every value that fits the width.
pub proof fn lemma_le_round_trip(v: nat, len: nat)
    requires
        v < pow256(len),
    ensures
        le_bytes(v, len).len() == len,
        le_value(le_bytes(v, len)) == v,
    decreases len,
{
    if len > 0 {
        let rest = le_bytes(v / 256, (len - 1) as nat);
        let s = le_bytes(v, len);
        lemma_le_round_trip(v / 256, (len - 1) as nat);
        assert(s.subrange(1, s.len() as int) =~= rest);
        assert(s[0] == (v % 256) as u8);
    }
}

/// Reads an unsigned 16-bit little-endian integer at `offset`.
pub fn read_u16_le(data: &[u8], offset: usize) -> (v: u16)
    requires
        offset + 2 <= data@.len(),
    ensures
        v == le_value(data@.subrange(offset as int, offset + 2)),
{
    let ghost s = data@.subrange(offset as int, offset + 2);
    proof {
        reveal_with_fuel(le_value, 3);
        assert(s.subrange(1, 2)[0] == s[1]);
    }
    let lo: u16 = data[offset] as u16;
    let hi: u16 = data[offset + 1] as u16;
    lo + hi * 256
}

/// Reads an unsigned 64-bit little-endian integer at `offset`.
pub fn read_u64_le(data: &[u8], offset: usize) -> (v: u64)
    requires
        offset + 8 <= data@.len(),
    ensures
        v == le_value(data@.subrange(offset as int, offset + 8)),
{
    let ghost s = data@.subrange(offset as int, offset + 8);
    let total: usize = data.len();
    let mut v: u64 = 0;
    let mut i: usize = 8;
    proof {
        assert(s.subrange(8, 8) =~= Seq::<u8>::empty());
        lemma_pow256_values();
    }
    while i > 0
        invariant
            i <= 8,
            offset + 8 <= data@.len(),
            data@.len() == total,
            s == data@.subrange(offset as int, offset + 8),
            v == le_value(s.subrange(i as int, 8)),
            v < pow256((8 - i) as nat),
        decreases i,
    {
        i -= 1;
        let b: u8 = data[offset + i];
        proof {
            let t = s.subrange(i as int, 8);
            assert(t.subrange(1, t.len() as int) =~= s.subrange(i + 1, 8));
            assert(t[0] == b);
            lemma_pow256_values();
            lemma_pow256_monotone((8 - i) as nat, 8);
        }
        v = v * 256 + b as u64;
    }
    proof {
        assert(s.subrange(0, 8) =~= s);
    }
    v
}

proof fn lemma_pow256_monotone(a: nat, b: nat)
    requires
        a <= b,
    ensures
        pow256(a) <= pow256(b),
        pow256(a) > 0,
    decreases b,
{
    if a < b {
        lemma_pow256_monotone(a, (b - 1) as nat);
    } else if a > 0 {
        lemma_pow256_monotone((a - 1) as nat, (a - 1) as nat);
    }
}

/// Reads a two's-complement 64-bit little-endian integer at `offset`.
pub fn read_i64_le(data: &[u8], offset: usize) -> (v: i64)
    requires
        offset + 8 <= data@.len(),
    ensures
        v == as_signed_64(le_value(data@.subrange(offset as int, offset + 8))),
{
    let u = read_u64_le(data, offset);
    if u <= 0x7fff_ffff_ffff_ffff {
        u as i64
    } else {
        let below: u64 = u64::MAX - u;
        -(below as i64) - 1
    }
}

/// Appends the eight little-endian bytes of `v` to `out`.
pub fn write_u64_le(out: &mut Vec<u8>, v: u64)
    ensures
        final(out)@ == old(out)@ + le_bytes(v as nat, 8),
{
    let ghost start = out@;
    let mut rest: u64 = v;
    let mut i: usize = 0;
    while i < 8
        invariant
            i <= 8,
            out@ + le_bytes(rest as nat, (8 - i) as nat) == start + le_bytes(v as nat, 8),
        decreases 8 - i,
    {
        let b: u8 = (rest % 256) as u8;
        proof {
            let tail = le_bytes((rest / 256) as nat, (8 - i - 1) as nat);
            assert(le_bytes(rest as nat, (8 - i) as nat) == seq![b] + tail);
            assert((out@ + seq![b]) + tail =~= out@ + (seq![b] + tail));
            assert(out@.push(b) =~= out@ + seq![b]);
        }
        out.push(b);
        rest = rest / 256;
        i += 1;
    }
    proof {
        assert(le_bytes(rest as nat, 0) =~= Seq::<u8>::empty());
        assert(out@ + Seq::<u8>::empty() =~= out@);
    }
}

/// Appends the eight little-endian bytes of the two's-complement form of `v`.
pub fn write_i64_le(out: &mut Vec<u8>, v: i64)
    ensures
        final(out)@ == old(out)@ + le_bytes(as_unsigned_64(v as int), 8),
{
    let u: u64 = if v >= 0 {
        v as u64
    } else {
        let up: u64 = (v + 1 + i64::MAX) as u64;
        up + 0x8000_0000_0000_0000
    };
    write_u64_le(out, u)
}

/// The array that holds the elements of `s`.
pub closed spec fn array_of<const N: usize>(s: Seq<u8>) -> [u8; N] {
    choose|a: [u8; N]| a@ == s
}

proof fn lemma_array_prefix_exists<const N: usize>(s: Seq<u8>, k: nat) -> (a: [u8; N])
    requires
        s.len() == N,
        k <= N,
    ensures
        forall|j: int| 0 <= j < k ==> a@[j] == s[j],
    decreases k,
{
    if k == 0 {
        arbitrary()
    } else {
        let b = lemma_array_prefix_exists::<N>(s, (k - 1) as nat);
        let a = vstd::array::spec_array_update(b, k - 1, s[k - 1]);
        vstd::array::axiom_spec_array_update(b, k - 1, s[k - 1]);
        a
    }
}

/// `array_of` agrees with its argument element by element, and is the
/// only array that does.
pub proof fn lemma_array_of<const N: usize>(s: Seq<u8>)
    requires
        s.len() == N,
    ensures
        array_of::<N>(s)@ == s,
        forall|a: [u8; N]| a@ == s ==> a == array_of::<N>(s),
{
    let w = lemma_array_prefix_exists::<N>(s, N as nat);
    assert(w@ =~= s);
    assert forall|a: [u8; N]| a@ == s implies a == array_of::<N>(s) by {
        assert(a =~= array_of::<N>(s));
    }
}

/// Copies the `N` bytes at `offset` into an array.
pub fn read_array<const N: usize>(data: &[u8], offset: usize) -> (out: [u8; N])
    requires
        offset + N <= data@.len(),
    ensures
        out@ == data@.subrange(offset as int, offset + N),
        out == array_of::<N>(data@.subrange(offset as int, offset + N)),
{
    let total: usize = data.len();
    let mut out: [u8; N] = [0u8; N];
    let mut i: usize = 0;
    while i < N
        invariant
            i <= N,
            offset + N <= data@.len(),
            data@.len() == total,
            forall|j: int| 0 <= j < i ==> out@[j] == data@[offset + j],
        decreases N - i,
    {
        out[i] = data[offset + i];
        i += 1;
    }
    assert(out@ =~= data@.subrange(offset as int, offset + N));
    proof {
        lemma_array_of::<N>(data@.subrange(offset as int, offset + N));
    }
    out
}

/// An owned copy of `src`.
pub fn to_vec(src: &[u8]) -> (out: Vec<u8>)
    ensures
        out@ == src@,
{
    let mut out: Vec<u8> = Vec::new();
    out.extend_from_slice(src);
    assert(out@ =~= src@);
    out
}

/// Appends `src` to `out`.
pub fn append(out: &mut Vec<u8>, src: &[u8])
    ensures
        final(out)@ == old(out)@ + src@,
{
    out.extend_from_slice(src);
    assert(out@ =~= old(out)@ + src@);
}

} // verus!
