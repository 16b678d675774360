//! Deterministic identifier hashing. The coverage accumulator for a file is
//! named `cov_<n>` where `n` is a stable 64-bit hash of the file path,
//! rendered in decimal. The hash is a function of the path bytes alone, so
//! the emitted name is identical across runs and machines.

use vstd::prelude::*;

verus! {

pub const FNV_BASIS: u64 = 0xcbf29ce484222325;

pub const FNV_PRIME: u64 = 0x100000001b3;

/// One step of the FNV-1a round: xor the byte in, multiply by the prime
/// modulo 2^64.
pub open spec fn fnv64_step(h: u64, b: u8) -> u64 {
    (((h ^ (b as u64)) as nat * FNV_PRIME as nat) % 0x10000000000000000) as u64
}

/// FNV-1a over a byte sequence, processed left to right.
pub open spec fn fnv64(s: Seq<u8>) -> u64
    decreases s.len(),
{
    if s.len() == 0 {
        FNV_BASIS
    } else {
        fnv64_step(fnv64(s.drop_last()), s.last())
    }
}

/// Computes the FNV-1a hash of `v`.
pub fn fnv64_of(v: &Vec<u8>) -> (h: u64)
    ensures
        h == fnv64(v@),
{
    let mut h: u64 = FNV_BASIS;
    let mut i: usize = 0;
    assert(v@.take(0) =~= Seq::<u8>::empty());
    while i < v.len()
        invariant
            i <= v.len(),
            h == fnv64(v@.take(i as int)),
        decreases v.len() - i,
    {
        let b = v[i];
        h = (h ^ (b as u64)).wrapping_mul(FNV_PRIME);
        proof {
            assert(v@.take(i + 1).drop_last() =~= v@.take(i as int));
            assert(v@.take(i + 1).last() == v@[i as int]);
        }
        i = i + 1;
    }
    assert(v@.take(v.len() as int) =~= v@);
    h
}

/// The decimal digits of `n`, most significant first, without leading zeros
/// (a lone zero for `n == 0`).
pub open spec fn dec_digits(n: nat) -> Seq<u8>
    decreases n,
{
    if n < 10 {
        seq![(48 + n) as u8]
    } else {
        dec_digits(n / 10).push((48 + n % 10) as u8)
    }
}

/// Renders `n` in decimal.
pub fn u64_to_dec(n: u64) -> (v: Vec<u8>)
    ensures
        v@ == dec_digits(n as nat),
{
    let mut m: u64 = n;
    let mut rev: Vec<u8> = Vec::new();
    assert(rev@.reverse() =~= Seq::<u8>::empty());
    assert(dec_digits(n as nat) =~= dec_digits(n as nat).add(rev@.reverse()));
    while m >= 10
        invariant
            dec_digits(n as nat) =~= dec_digits(m as nat).add(rev@.reverse()),
        decreases m,
    {
        let d: u8 = 48 + (m % 10) as u8;
        let ghost old_rev = rev@;
        let ghost old_m = m;
        rev.push(d);
        m = m / 10;
        proof {
            assert(rev@.reverse() =~= seq![d].add(old_rev.reverse()));
            assert(dec_digits(old_m as nat) == dec_digits(m as nat).push(d));
            assert(dec_digits(m as nat).push(d).add(old_rev.reverse()) =~= dec_digits(
                m as nat,
            ).add(seq![d].add(old_rev.reverse())));
        }
    }
    let mut out: Vec<u8> = Vec::new();
    out.push(48 + (m % 10) as u8);
    assert(dec_digits(m as nat) =~= out@);
    while rev.len() > 0
        invariant
            out@.add(rev@.reverse()) =~= dec_digits(n as nat),
        decreases rev.len(),
    {
        let ghost old_rev = rev@;
        let ghost old_out = out@;
        let x = rev.pop().unwrap();
        out.push(x);
        proof {
            assert(old_rev.reverse() =~= seq![x].add(rev@.reverse()));
            assert(out@.add(rev@.reverse()) =~= old_out.add(old_rev.reverse()));
        }
    }
    assert(rev@.reverse() =~= Seq::<u8>::empty());
    assert(out@ =~= out@.add(rev@.reverse()));
    out
}

/// The name of the per-file coverage function: `cov_` then the hash of the
/// path in decimal.
pub open spec fn spec_var_name(path: Seq<u8>) -> Seq<u8> {
    seq![99u8, 111u8, 118u8, 95u8].add(dec_digits(fnv64(path) as nat))
}

/// Computes the coverage-function name for a file path.
pub fn var_name_of(path: &Vec<u8>) -> (v: Vec<u8>)
    ensures
        v@ == spec_var_name(path@),
{
    let h = fnv64_of(path);
    let mut out: Vec<u8> = Vec::new();
    out.push(99);
    out.push(111);
    out.push(118);
    out.push(95);
    let mut digits = u64_to_dec(h);
    assert(out@ =~= seq![99u8, 111u8, 118u8, 95u8]);
    out.append(&mut digits);
    out
}

} // verus!
