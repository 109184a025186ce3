//! Arbitrary-precision natural numbers. The library holds a number as its
//! base-2^32 limbs; every operation hands the limbs to num-bigint's
//! `BigUint` (through `BigUint::new`, which reads limbs least significant
//! first, and `BigUint::to_u32_digits`, which writes them back the same
//! way) and states the result over the number's value.

use num_bigint::BigUint;
use num_bigint::RandBigInt;
use vstd::arithmetic::power::pow;
use vstd::prelude::*;

verus! {

/// The base of the limb representation: each limb is one base-2^32 digit.
pub open spec fn limb_base() -> nat {
    0x1_0000_0000
}

/// The number that a little-endian sequence of base-2^32 limbs denotes.
pub open spec fn limbs_value(s: Seq<u32>) -> nat
    decreases s.len(),
{
    if s.len() == 0 {
        0
    } else {
        s[0] as nat + limb_base() * limbs_value(s.skip(1))
    }
}

/// The number that a big-endian byte string denotes (the empty string is zero).
pub open spec fn be_value(s: Seq<u8>) -> nat
    decreases s.len(),
{
    if s.len() == 0 {
        0
    } else {
        be_value(s.drop_last()) * 256 + s.last() as nat
    }
}

/// `b` to the power `e`, reduced modulo `m`.
pub open spec fn mod_pow(b: nat, e: nat, m: nat) -> nat
    recommends
        m > 0,
{
    (pow(b as int, e) % (m as int)) as nat
}

/// An arbitrary-precision natural number, held as base-2^32 limbs,
/// least significant first. Trailing zero limbs are allowed and do not
/// change the value.
pub struct Natural {
    digits: Vec<u32>,
}

impl View for Natural {
    type V = nat;

    closed spec fn view(&self) -> nat {
        limbs_value(self.digits@)
    }
}

/// Relies on `BigUint * BigUint` (num-bigint): the exact product.
#[verifier::external_body]
fn big_mul(a: &Natural, b: &Natural) -> (r: Natural)
    ensures
        r@ == a@ * b@,
{
    let x = BigUint::new(a.digits.clone());
    let y = BigUint::new(b.digits.clone());
    Natural { digits: (x * y).to_u32_digits() }
}

/// Relies on `BigUint - BigUint` (num-bigint): the exact difference; it
/// panics when the subtrahend is larger, which `requires` rules out.
#[verifier::external_body]
fn big_sub(a: &Natural, b: &Natural) -> (r: Natural)
    requires
        a@ >= b@,
    ensures
        r@ == a@ - b@,
{
    let x = BigUint::new(a.digits.clone());
    let y = BigUint::new(b.digits.clone());
    Natural { digits: (x - y).to_u32_digits() }
}

/// Relies on `BigUint % BigUint` (num-bigint): the remainder; it panics on
/// a zero divisor, which `requires` rules out.
#[verifier::external_body]
fn big_rem(a: &Natural, m: &Natural) -> (r: Natural)
    requires
        m@ > 0,
    ensures
        r@ == a@ % m@,
{
    let x = BigUint::new(a.digits.clone());
    let y = BigUint::new(m.digits.clone());
    Natural { digits: (x % y).to_u32_digits() }
}

/// Relies on `BigUint::modpow` (num-bigint): `(b ^ e) % m`; it panics on a
/// zero modulus, which `requires` rules out.
#[verifier::external_body]
fn big_mod_pow(b: &Natural, e: &Natural, m: &Natural) -> (r: Natural)
    requires
        m@ > 0,
    ensures
        r@ == mod_pow(b@, e@, m@),
{
    let x = BigUint::new(b.digits.clone());
    let y = BigUint::new(e.digits.clone());
    let z = BigUint::new(m.digits.clone());
    Natural { digits: x.modpow(&y, &z).to_u32_digits() }
}

/// Relies on `BigUint >= BigUint` (num-bigint): numeric order.
#[verifier::external_body]
fn big_ge(a: &Natural, b: &Natural) -> (r: bool)
    ensures
        r == (a@ >= b@),
{
    BigUint::new(a.digits.clone()) >= BigUint::new(b.digits.clone())
}

/// Relies on `BigUint == BigUint` (num-bigint): numeric equality.
#[verifier::external_body]
fn big_eq(a: &Natural, b: &Natural) -> (r: bool)
    ensures
        r == (a@ == b@),
{
    BigUint::new(a.digits.clone()) == BigUint::new(b.digits.clone())
}

/// Relies on `BigUint::from_bytes_be` (num-bigint): reads a big-endian
/// byte string.
#[verifier::external_body]
fn big_from_bytes_be(bytes: &[u8]) -> (r: Natural)
    ensures
        r@ == be_value(bytes@),
{
    Natural { digits: BigUint::from_bytes_be(bytes).to_u32_digits() }
}

/// Relies on `BigUint::to_bytes_be` (num-bigint): writes the number as a
/// big-endian byte string.
#[verifier::external_body]
fn big_to_bytes_be(a: &Natural) -> (r: Vec<u8>)
    ensures
        be_value(r@) == a@,
{
    BigUint::new(a.digits.clone()).to_bytes_be()
}

/// Relies on `RandBigInt::gen_biguint_below` (num-bigint, with rand's
/// thread-local generator): some number below the bound; it panics on a
/// zero bound, which `requires` rules out.
#[verifier::external_body]
fn big_random_below(bound: &Natural) -> (r: Natural)
    requires
        bound@ > 0,
    ensures
        r@ < bound@,
{
    let b = BigUint::new(bound.digits.clone());
    Natural { digits: rand::thread_rng().gen_biguint_below(&b).to_u32_digits() }
}

impl Natural {
    /// The number zero.
    pub fn zero() -> (r: Natural)
        ensures
            r@ == 0,
    {
        Natural { digits: Vec::new() }
    }

    /// The number `n`.
    pub fn from_u64(n: u64) -> (r: Natural)
        ensures
            r@ == n as nat,
    {
        let lo: u32 = (n & 0xffff_ffff) as u32;
        let hi: u32 = (n >> 32) as u32;
        assert(n & 0xffff_ffff == n % 0x1_0000_0000) by (bit_vector);
        assert(n >> 32 == n / 0x1_0000_0000) by (bit_vector);
        let mut digits: Vec<u32> = Vec::new();
        digits.push(lo);
        digits.push(hi);
        proof {
            let s = digits@;
            assert(s.skip(1).skip(1) =~= Seq::<u32>::empty());
            assert(limbs_value(s.skip(1)) == hi as nat + limb_base() * limbs_value(s.skip(1).skip(1)));
        }
        Natural { digits }
    }

    /// The number that a big-endian byte string denotes; the empty string
    /// denotes zero.
    pub fn from_bytes_be(bytes: &[u8]) -> (r: Natural)
        ensures
            r@ == be_value(bytes@),
    {
        big_from_bytes_be(bytes)
    }

    /// The number as a big-endian byte string.
    pub fn to_bytes_be(&self) -> (r: Vec<u8>)
        ensures
            be_value(r@) == self@,
    {
        big_to_bytes_be(self)
    }

    /// A copy of the number.
    pub fn duplicate(&self) -> (r: Natural)
        ensures
            r@ == self@,
    {
        let mut digits: Vec<u32> = Vec::new();
        let mut i: usize = 0;
        while i < self.digits.len()
            invariant
                i <= self.digits@.len(),
                digits@ =~= self.digits@.take(i as int),
            decreases self.digits@.len() - i,
        {
            digits.push(self.digits[i]);
            i = i + 1;
        }
        assert(digits@ =~= self.digits@);
        Natural { digits }
    }

    /// Whether the two numbers are equal.
    pub fn same_value(&self, other: &Natural) -> (r: bool)
        ensures
            r == (self@ == other@),
    {
        big_eq(self, other)
    }

    /// Whether `self >= other`.
    pub fn at_least(&self, other: &Natural) -> (r: bool)
        ensures
            r == (self@ >= other@),
    {
        big_ge(self, other)
    }

    /// The product `self * other`.
    pub fn times(&self, other: &Natural) -> (r: Natural)
        ensures
            r@ == self@ * other@,
    {
        big_mul(self, other)
    }

    /// The difference `self - other`, where `other` is not larger.
    pub fn minus(&self, other: &Natural) -> (r: Natural)
        requires
            self@ >= other@,
        ensures
            r@ == self@ - other@,
    {
        big_sub(self, other)
    }

    /// The remainder `self % m`, for a nonzero `m`.
    pub fn rem(&self, m: &Natural) -> (r: Natural)
        requires
            m@ > 0,
        ensures
            r@ == self@ % m@,
    {
        big_rem(self, m)
    }

    /// `(self ^ e) % m`, for a nonzero `m`.
    pub fn mod_pow(&self, e: &Natural, m: &Natural) -> (r: Natural)
        requires
            m@ > 0,
        ensures
            r@ == mod_pow(self@, e@, m@),
    {
        big_mod_pow(self, e, m)
    }

    /// A number drawn from a cryptographically secure generator, below a
    /// nonzero bound.
    pub fn random_below(bound: &Natural) -> (r: Natural)
        requires
            bound@ > 0,
        ensures
            r@ < bound@,
    {
        big_random_below(bound)
    }
}

} // verus!
