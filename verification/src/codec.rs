//! Fixed-width integer encodings used by the hashing layer: a 64-bit value is
//! written as eight little-endian bytes before hashing, and the leading eight
//! bytes of a digest are read back as a 64-bit integer, big-endian when
//! assigning groups and little-endian when generating seeds.

use vstd::prelude::*;
use vstd::arithmetic::power::{pow, lemma_pow_adds};

verus! {

/// The integer denoted by `s` read as a big-endian base-256 numeral.
pub open spec fn be_bytes_value(s: Seq<u8>) -> int
    decreases s.len(),
{
    if s.len() == 0 {
        0
    } else {
        be_bytes_value(s.drop_last()) * 256 + s.last()
    }
}

/// The integer denoted by `s` read as a little-endian base-256 numeral.
pub open spec fn le_bytes_value(s: Seq<u8>) -> int
    decreases s.len(),
{
    if s.len() == 0 {
        0
    } else {
        le_bytes_value(s.subrange(1, s.len() as int)) * 256 + s[0]
    }
}



/// Reads the first eight bytes of `bytes` as a big-endian 64-bit integer.
pub fn u64_from_be_prefix(bytes: &Vec<u8>) -> (r: u64)
    requires
        bytes@.len() >= 8,
    ensures
        r == be_bytes_value(bytes@.take(8)),
{
    let mut acc: u64 = 0;
    let mut i: usize = 0;
    proof {
        assert(bytes@.take(0) =~= Seq::<u8>::empty());
        assert(pow(256, 0) == 1) by { reveal_with_fuel(pow, 9); };
    }
    while i < 8
        invariant
            i <= 8,
            bytes@.len() >= 8,
            acc == be_bytes_value(bytes@.take(i as int)),
            acc < pow(256, i as nat),
        decreases 8 - i,
    {
        proof {
            assert(pow(256, 8) == 0x1_0000_0000_0000_0000) by { reveal_with_fuel(pow, 9); };
            lemma_pow_adds(256, i as nat, 1);
            assert(pow(256, 1) == 256) by { reveal_with_fuel(pow, 9); };
            if i + 1 < 8 {
                vstd::arithmetic::power::lemma_pow_strictly_increases(256, (i + 1) as nat, 8);
            }
            assert(acc * 256 + 255 < pow(256, i as nat) * 256) by (nonlinear_arith)
                requires
                    acc < pow(256, i as nat),
            ;
            assert(bytes@.take(i + 1).drop_last() =~= bytes@.take(i as int));
        }
        acc = acc * 256 + (bytes[i] as u64);
        i = i + 1;
    }
    proof {
        assert(bytes@.take(8) =~= bytes@.take(8int));
    }
    acc
}

/// Reads the first eight bytes of `bytes` as a little-endian 64-bit integer.
pub fn u64_from_le_prefix(bytes: &Vec<u8>) -> (r: u64)
    requires
        bytes@.len() >= 8,
    ensures
        r == le_bytes_value(bytes@.take(8)),
{
    let mut acc: u64 = 0;
    let mut i: usize = 8;
    proof {
        assert(bytes@.take(8).subrange(8, 8) =~= Seq::<u8>::empty());
        assert(pow(256, 0) == 1) by { reveal_with_fuel(pow, 9); };
    }
    while i > 0
        invariant
            i <= 8,
            bytes@.len() >= 8,
            acc == le_bytes_value(bytes@.take(8).subrange(i as int, 8)),
            acc < pow(256, (8 - i) as nat),
        decreases i,
    {
        proof {
            let s = bytes@.take(8);
            let i0 = i as int;
            assert(s.subrange(i0 - 1, 8).subrange(1, s.subrange(i0 - 1, 8).len() as int)
                =~= s.subrange(i0, 8));
            assert(pow(256, 8) == 0x1_0000_0000_0000_0000) by { reveal_with_fuel(pow, 9); };
            lemma_pow_adds(256, (8 - i) as nat, 1);
            assert(pow(256, 1) == 256) by { reveal_with_fuel(pow, 9); };
            if 9 - i < 8 {
                vstd::arithmetic::power::lemma_pow_strictly_increases(256, (9 - i) as nat, 8);
            }
            assert(acc * 256 + 255 < pow(256, (8 - i) as nat) * 256) by (nonlinear_arith)
                requires
                    acc < pow(256, (8 - i) as nat),
            ;
        }
        i = i - 1;
        acc = acc * 256 + (bytes[i] as u64);
    }
    proof {
        assert(bytes@.take(8).subrange(0, 8) =~= bytes@.take(8));
    }
    acc
}

/// The `n`-byte little-endian encoding of `x` (low byte first).
pub open spec fn le_bytes_of(x: int, n: nat) -> Seq<u8>
    decreases n,
{
    if n == 0 {
        Seq::empty()
    } else {
        seq![(x % 256) as u8] + le_bytes_of(x / 256, (n - 1) as nat)
    }
}

pub proof fn lemma_le_bytes_of_len(x: int, n: nat)
    ensures
        le_bytes_of(x, n).len() == n,
    decreases n,
{
    if n > 0 {
        lemma_le_bytes_of_len(x / 256, (n - 1) as nat);
    }
}

/// Appends the eight little-endian bytes of `x` to `out`.
pub fn push_u64_le(out: &mut Vec<u8>, x: u64)
    ensures
        final(out)@ == old(out)@ + le_bytes_of(x as int, 8),
{
    let ghost enc: Seq<u8> = le_bytes_of(x as int, 8);
    let ghost prefix: Seq<u8> = out@;
    let mut v: u64 = x;
    let mut i: usize = 0;
    proof {
        lemma_le_bytes_of_len(x as int, 8);
        assert(prefix + enc.take(0) =~= prefix);
        assert(enc.subrange(0, 8) =~= enc);
    }
    while i < 8
        invariant
            i <= 8,
            out@ == prefix + enc.take(i as int),
            le_bytes_of(v as int, (8 - i) as nat) == enc.subrange(i as int, 8),
            enc.len() == 8,
        decreases 8 - i,
    {
        let b: u8 = (v % 256) as u8;
        proof {
            let rest = le_bytes_of(v as int, (8 - i) as nat);
            assert(rest == seq![b] + le_bytes_of(v as int / 256, (7 - i) as nat));
            assert(rest[0] == b);
            assert(enc[i as int] == b);
            assert((prefix + enc.take(i as int)).push(b) =~= prefix + enc.take(i + 1));
            assert(rest.subrange(1, rest.len() as int)
                =~= le_bytes_of(v as int / 256, (7 - i) as nat));
            assert(enc.subrange(i as int, 8).subrange(1, 8 - i as int)
                =~= enc.subrange(i + 1, 8));
        }
        out.push(b);
        v = v / 256;
        i = i + 1;
    }
    proof {
        assert(enc.take(8) =~= enc);
        assert(enc.subrange(8, 8) =~= Seq::<u8>::empty());
    }
}

} // verus!
