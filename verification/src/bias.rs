//! The bias transform between unsigned and signed 16-bit samples.
//!
//! Elevation files usually store unsigned samples, while the analysis works
//! on signed ones. The two domains are related by a shift of `32768`, which
//! maps `0` to `i16::MIN` and `65535` to `i16::MAX` and loses nothing.

use vstd::prelude::*;

verus! {

/// The distance between an unsigned sample and its signed counterpart.
pub const BIAS: i32 = 32768;

/// The signed sample that stands for the unsigned sample `u`.
pub open spec fn signed_of(u: u16) -> i16 {
    (u as int - 32768) as i16
}

/// The unsigned sample that stands for the signed sample `s`.
pub open spec fn unsigned_of(s: i16) -> u16 {
    (s as int + 32768) as u16
}

/// Shifts every sample of `s` into the signed domain.
pub open spec fn signed_seq(s: Seq<u16>) -> Seq<i16> {
    Seq::new(s.len(), |k: int| signed_of(s[k]))
}

/// Shifts every sample of `s` into the unsigned domain.
pub open spec fn unsigned_seq(s: Seq<i16>) -> Seq<u16> {
    Seq::new(s.len(), |k: int| unsigned_of(s[k]))
}

/// Converts one unsigned sample into the signed domain.
pub fn to_signed(u: u16) -> (s: i16)
    ensures
        s == signed_of(u),
        s as int == u as int - 32768,
{
    (u as i32 - BIAS) as i16
}

/// Converts one signed sample into the unsigned domain.
pub fn to_unsigned(s: i16) -> (u: u16)
    ensures
        u == unsigned_of(s),
        u as int == s as int + 32768,
{
    (s as i32 + BIAS) as u16
}

/// Converts a whole buffer into the signed domain.
pub fn to_signed_samples(samples: &Vec<u16>) -> (out: Vec<i16>)
    ensures
        out@ == signed_seq(samples@),
{
    let mut out: Vec<i16> = Vec::with_capacity(samples.len());
    let mut k: usize = 0;
    while k < samples.len()
        invariant
            k <= samples.len(),
            out@.len() == k,
            forall|n: int| 0 <= n < k ==> out@[n] == signed_of(samples@[n]),
        decreases samples.len() - k,
    {
        out.push(to_signed(samples[k]));
        k += 1;
    }
    out
}

/// Converts a whole buffer into the unsigned domain.
pub fn to_unsigned_samples(samples: &Vec<i16>) -> (out: Vec<u16>)
    ensures
        out@ == unsigned_seq(samples@),
{
    let mut out: Vec<u16> = Vec::with_capacity(samples.len());
    let mut k: usize = 0;
    while k < samples.len()
        invariant
            k <= samples.len(),
            out@.len() == k,
            forall|n: int| 0 <= n < k ==> out@[n] == unsigned_of(samples@[n]),
        decreases samples.len() - k,
    {
        out.push(to_unsigned(samples[k]));
        k += 1;
    }
    out
}

/// Going to the signed domain and back returns the sample one started with.
pub proof fn lemma_unsigned_round_trip(u: u16)
    ensures
        unsigned_of(signed_of(u)) == u,
        signed_of(u) as int == u as int - 32768,
{
}

/// Going to the unsigned domain and back returns the sample one started with.
pub proof fn lemma_signed_round_trip(s: i16)
    ensures
        signed_of(unsigned_of(s)) == s,
        unsigned_of(s) as int == s as int + 32768,
{
}

/// The forward transform keeps the strict order of samples, and so is
/// injective.
pub proof fn lemma_signed_of_preserves_order(a: u16, b: u16)
    ensures
        a < b <==> signed_of(a) < signed_of(b),
        a == b <==> signed_of(a) == signed_of(b),
{
}

/// The inverse transform keeps the strict order of samples, and so is
/// injective.
pub proof fn lemma_unsigned_of_preserves_order(a: i16, b: i16)
    ensures
        a < b <==> unsigned_of(a) < unsigned_of(b),
        a == b <==> unsigned_of(a) == unsigned_of(b),
{
}

/// The two transforms hit the ends of their ranges: the darkest unsigned
/// sample becomes `i16::MIN` and the brightest becomes `i16::MAX`.
pub proof fn lemma_bias_endpoints()
    ensures
        signed_of(0) == i16::MIN,
        signed_of(u16::MAX) == i16::MAX,
        unsigned_of(i16::MIN) == 0,
        unsigned_of(i16::MAX) == u16::MAX,
{
}

/// Converting a buffer to the unsigned domain and back to the signed domain
/// gives the buffer back, sample for sample.
pub proof fn lemma_signed_seq_round_trip(s: Seq<i16>)
    ensures
        signed_seq(unsigned_seq(s)) == s,
{
    assert(signed_seq(unsigned_seq(s)) =~= s);
}

/// Converting a buffer to the signed domain and back to the unsigned domain
/// gives the buffer back, sample for sample.
pub proof fn lemma_unsigned_seq_round_trip(s: Seq<u16>)
    ensures
        unsigned_seq(signed_seq(s)) == s,
{
    assert(unsigned_seq(signed_seq(s)) =~= s);
}

} // verus!
