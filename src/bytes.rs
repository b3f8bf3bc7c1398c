//! Big-endian reads from byte slices.
use vstd::prelude::*;
use vstd::slice::{slice_subrange, slice_to_vec};

verus! {

/// The unsigned big-endian value of a byte sequence.
pub open spec fn be_value(s: Seq<u8>) -> nat
    decreases s.len(),
{
    if s.len() == 0 {
        0
    } else {
        be_value(s.drop_last()) * 256 + s.last() as nat
    }
}

/// `256` raised to the power `n`.
pub open spec fn byte_range(n: nat) -> nat
    decreases n,
{
    if n == 0 {
        1
    } else {
        byte_range((n - 1) as nat) * 256
    }
}

/// The big-endian value of the `n` bytes of `s` that start at `pos`.
pub open spec fn be_at(s: Seq<u8>, pos: int, n: int) -> nat {
    be_value(s.subrange(pos, pos + n))
}

pub open spec fn u16_at(s: Seq<u8>, pos: int) -> u16 {
    be_at(s, pos, 2) as u16
}

pub open spec fn u32_at(s: Seq<u8>, pos: int) -> u32 {
    be_at(s, pos, 4) as u32
}

pub open spec fn u64_at(s: Seq<u8>, pos: int) -> u64 {
    be_at(s, pos, 8) as u64
}

pub open spec fn u128_at(s: Seq<u8>, pos: int) -> u128 {
    be_at(s, pos, 16) as u128
}

/// A value of `n` bytes is below `256^n`.
pub proof fn lemma_be_value_bound(s: Seq<u8>)
    ensures
        be_value(s) < byte_range(s.len()),
    decreases s.len(),
{
    if s.len() > 0 {
        lemma_be_value_bound(s.drop_last());
        let a = be_value(s.drop_last());
        let p = byte_range(s.drop_last().len());
        let b = s.last() as nat;
        assert(a * 256 + b < p * 256) by (nonlinear_arith)
            requires
                a < p,
                b < 256,
        ;
    }
}

pub proof fn lemma_byte_range_mono(a: nat, b: nat)
    requires
        a <= b,
    ensures
        byte_range(a) <= byte_range(b),
    decreases b,
{
    if a < b {
        lemma_byte_range_mono(a, (b - 1) as nat);
    }
}

pub proof fn lemma_byte_range_values()
    ensures
        byte_range(1) == 0x100,
        byte_range(2) == 0x1_0000,
        byte_range(3) == 0x100_0000,
        byte_range(4) == 0x1_0000_0000,
        byte_range(7) == 0x100_0000_0000_0000,
        byte_range(8) == 0x1_0000_0000_0000_0000,
        byte_range(15) == 0x100_0000_0000_0000_0000_0000_0000_0000,
        byte_range(16) == 0x1_0000_0000_0000_0000_0000_0000_0000_0000,
{
    reveal_with_fuel(byte_range, 17);
}

/// Bounds on the value of `n` bytes at `pos`, by width.
pub proof fn lemma_be_at_bounds(s: Seq<u8>, pos: int, n: int)
    requires
        0 <= pos,
        0 <= n,
        pos + n <= s.len(),
    ensures
        n <= 1 ==> be_at(s, pos, n) < 0x100,
        n <= 2 ==> be_at(s, pos, n) < 0x1_0000,
        n <= 3 ==> be_at(s, pos, n) < 0x100_0000,
        n <= 4 ==> be_at(s, pos, n) < 0x1_0000_0000,
        n <= 8 ==> be_at(s, pos, n) < 0x1_0000_0000_0000_0000,
        n <= 16 ==> be_at(s, pos, n) < 0x1_0000_0000_0000_0000_0000_0000_0000_0000,
{
    let t = s.subrange(pos, pos + n);
    lemma_be_value_bound(t);
    lemma_byte_range_values();
    if n <= 1 {
        lemma_byte_range_mono(n as nat, 1);
    }
    if n <= 2 {
        lemma_byte_range_mono(n as nat, 2);
    }
    if n <= 3 {
        lemma_byte_range_mono(n as nat, 3);
    }
    if n <= 4 {
        lemma_byte_range_mono(n as nat, 4);
    }
    if n <= 8 {
        lemma_byte_range_mono(n as nat, 8);
    }
    if n <= 16 {
        lemma_byte_range_mono(n as nat, 16);
    }
}

proof fn lemma_be_at_step(s: Seq<u8>, pos: int, i: int)
    requires
        0 <= pos,
        0 <= i,
        pos + i < s.len(),
    ensures
        be_at(s, pos, i + 1) == be_at(s, pos, i) * 256 + s[pos + i] as nat,
{
    assert(s.subrange(pos, pos + i + 1).drop_last() =~= s.subrange(pos, pos + i));
}

/// Reads the `n` bytes at `pos` (at most eight) as a big-endian number.
pub fn read_be(b: &[u8], pos: usize, n: usize) -> (r: u64)
    requires
        pos + n <= b@.len(),
        n <= 8,
    ensures
        r as nat == be_at(b@, pos as int, n as int),
{
    let _len = b.len();
    let mut acc: u64 = 0;
    let mut i: usize = 0;
    while i < n
        invariant
            i <= n,
            pos + n <= b@.len(),
            _len == b@.len(),
            n <= 8,
            acc as nat == be_at(b@, pos as int, i as int),
        decreases n - i,
    {
        proof {
            lemma_be_value_bound(b@.subrange(pos as int, pos + i));
            lemma_byte_range_mono(i as nat, 7);
            lemma_byte_range_values();
            lemma_be_at_step(b@, pos as int, i as int);
        }
        acc = acc * 256 + b[pos + i] as u64;
        i += 1;
    }
    acc
}

/// Reads the sixteen bytes at `pos` as a big-endian number.
pub fn read_u128(b: &[u8], pos: usize) -> (r: u128)
    requires
        pos + 16 <= b@.len(),
    ensures
        r == u128_at(b@, pos as int),
{
    let _len = b.len();
    let mut acc: u128 = 0;
    let mut i: usize = 0;
    while i < 16
        invariant
            i <= 16,
            pos + 16 <= b@.len(),
            _len == b@.len(),
            acc as nat == be_at(b@, pos as int, i as int),
        decreases 16 - i,
    {
        proof {
            lemma_be_value_bound(b@.subrange(pos as int, pos + i));
            lemma_byte_range_mono(i as nat, 15);
            lemma_byte_range_values();
            lemma_be_at_step(b@, pos as int, i as int);
        }
        acc = acc * 256 + b[pos + i] as u128;
        i += 1;
    }
    acc
}

pub fn read_u8(b: &[u8], pos: usize) -> (r: u8)
    requires
        pos + 1 <= b@.len(),
    ensures
        r == b@[pos as int],
        r as nat == be_at(b@, pos as int, 1),
{
    proof {
        lemma_be_at_step(b@, pos as int, 0);
    }
    b[pos]
}

pub fn read_u16(b: &[u8], pos: usize) -> (r: u16)
    requires
        pos + 2 <= b@.len(),
    ensures
        r == u16_at(b@, pos as int),
{
    proof {
        lemma_be_at_bounds(b@, pos as int, 2);
    }
    read_be(b, pos, 2) as u16
}

pub fn read_u32(b: &[u8], pos: usize) -> (r: u32)
    requires
        pos + 4 <= b@.len(),
    ensures
        r == u32_at(b@, pos as int),
{
    proof {
        lemma_be_at_bounds(b@, pos as int, 4);
    }
    read_be(b, pos, 4) as u32
}

pub fn read_u64(b: &[u8], pos: usize) -> (r: u64)
    requires
        pos + 8 <= b@.len(),
    ensures
        r == u64_at(b@, pos as int),
{
    read_be(b, pos, 8)
}

/// Copies the `n` bytes at `pos`.
pub fn read_bytes(b: &[u8], pos: usize, n: usize) -> (r: Vec<u8>)
    requires
        pos + n <= b@.len(),
    ensures
        r@ == b@.subrange(pos as int, pos + n),
{
    let _len = b.len();
    slice_to_vec(slice_subrange(b, pos, pos + n))
}

} // verus!

verus! {

/// Whether `n` bytes starting at `pos` lie within `b`.
pub fn fits(b: &[u8], pos: usize, n: usize) -> (r: bool)
    ensures
        r == (pos + n <= b@.len()),
        b@.len() <= usize::MAX,
{
    let len = b.len();
    pos <= len && n <= len - pos
}

} // verus!

verus! {

/// The byte at `pos`.
pub open spec fn u8_at(s: Seq<u8>, pos: int) -> u8 {
    s[pos]
}

} // verus!
