use vstd::prelude::*;

verus! {

/// 2^64, the weight of the middle limb.
pub open spec fn limb() -> int {
    0x1_0000_0000_0000_0000int
}

/// Smallest value of a 192-bit signed integer.
pub open spec fn i192_min() -> int {
    -0x8000_0000_0000_0000_0000_0000_0000_0000_0000_0000_0000_0000int
}

/// Largest value of a 192-bit signed integer.
pub open spec fn i192_max() -> int {
    0x7fff_ffff_ffff_ffff_ffff_ffff_ffff_ffff_ffff_ffff_ffff_ffffint
}

pub open spec fn in_i192(x: int) -> bool {
    i192_min() <= x <= i192_max()
}

/// Whether `x` survives scrypto's narrowing from 256 to 192 bits, which
/// rejects any magnitude of 2^191 or more, and so the smallest 192-bit value.
pub open spec fn narrows_to_i192(x: int) -> bool {
    i192_min() < x <= i192_max()
}

/// Whether `x` fits a 256-bit signed integer.
pub open spec fn in_i256(x: int) -> bool {
    -0x8000_0000_0000_0000_0000_0000_0000_0000_0000_0000_0000_0000_0000_0000_0000_0000int <= x
        <= 0x7fff_ffff_ffff_ffff_ffff_ffff_ffff_ffff_ffff_ffff_ffff_ffff_ffff_ffff_ffff_ffffint
}

/// The number of attos in one unit: 10^18.
pub open spec fn one_attos() -> int {
    1_000_000_000_000_000_000int
}

/// Absolute value.
pub open spec fn abs(x: int) -> int {
    if x < 0 {
        -x
    } else {
        x
    }
}

/// Integer division rounding toward zero, as Rust's primitive integers divide.
pub open spec fn tdiv(x: int, y: int) -> int {
    if y == 0 {
        0
    } else if (x < 0) == (y < 0) {
        abs(x) / abs(y)
    } else {
        -(abs(x) / abs(y))
    }
}

/// The attos of the fixed-point product of two decimals (scale 18, rounding toward zero).
pub open spec fn mul_attos(a: int, b: int) -> int {
    tdiv(a * b, one_attos())
}

/// The attos of the fixed-point quotient of two decimals (scale 18, rounding toward zero).
pub open spec fn div_attos(a: int, b: int) -> int {
    tdiv(a * one_attos(), b)
}

/// A fixed-point decimal with 18 decimal places: a count of attos (10^-18)
/// held as a 192-bit two's complement integer in three little-endian limbs.
#[derive(Clone, Copy, PartialEq, Eq, Structural, Debug)]
pub struct Decimal {
    pub lo: u64,
    pub mid: u64,
    pub hi: u64,
}

impl Decimal {
    /// The number of attos this value stands for.
    pub open spec fn attos(self) -> int {
        let unsigned = self.lo as int + self.mid as int * limb() + self.hi as int * limb() * limb();
        if self.hi >= 0x8000_0000_0000_0000u64 {
            unsigned - limb() * limb() * limb()
        } else {
            unsigned
        }
    }
}

/// `CheckedAdd::checked_add` of scrypto's `Decimal`: the sum of the attos,
/// or `None` when it leaves the 192-bit range.
#[verifier::external_body]
fn scrypto_checked_add(a: Decimal, b: Decimal) -> (r: Option<Decimal>)
    ensures
        r is Some <==> in_i192(a.attos() + b.attos()),
        r matches Some(c) ==> c.attos() == a.attos() + b.attos(),
{
    let x = scrypto::prelude::Decimal::from_attos(scrypto::prelude::I192::from_digits([a.lo, a.mid, a.hi]));
    let y = scrypto::prelude::Decimal::from_attos(scrypto::prelude::I192::from_digits([b.lo, b.mid, b.hi]));
    match scrypto::prelude::CheckedAdd::checked_add(x, y) {
        Some(c) => {
            let d = c.attos().to_digits();
            Some(Decimal { lo: d[0], mid: d[1], hi: d[2] })
        },
        None => None,
    }
}

/// `CheckedSub::checked_sub` of scrypto's `Decimal`: the difference of the
/// attos, or `None` when it leaves the 192-bit range.
#[verifier::external_body]
fn scrypto_checked_sub(a: Decimal, b: Decimal) -> (r: Option<Decimal>)
    ensures
        r is Some <==> in_i192(a.attos() - b.attos()),
        r matches Some(c) ==> c.attos() == a.attos() - b.attos(),
{
    let x = scrypto::prelude::Decimal::from_attos(scrypto::prelude::I192::from_digits([a.lo, a.mid, a.hi]));
    let y = scrypto::prelude::Decimal::from_attos(scrypto::prelude::I192::from_digits([b.lo, b.mid, b.hi]));
    match scrypto::prelude::CheckedSub::checked_sub(x, y) {
        Some(c) => {
            let d = c.attos().to_digits();
            Some(Decimal { lo: d[0], mid: d[1], hi: d[2] })
        },
        None => None,
    }
}

/// `CheckedMul::checked_mul` of scrypto's `Decimal`: the product of the attos
/// is formed in 256 bits, divided by 10^18 rounding toward zero, and narrowed
/// to 192 bits, which keeps magnitudes below 2^191 only; otherwise `None`.
#[verifier::external_body]
fn scrypto_checked_mul(a: Decimal, b: Decimal) -> (r: Option<Decimal>)
    ensures
        r is Some <==> (in_i256(a.attos() * b.attos()) && narrows_to_i192(mul_attos(a.attos(), b.attos()))),
        r matches Some(c) ==> c.attos() == mul_attos(a.attos(), b.attos()),
{
    let x = scrypto::prelude::Decimal::from_attos(scrypto::prelude::I192::from_digits([a.lo, a.mid, a.hi]));
    let y = scrypto::prelude::Decimal::from_attos(scrypto::prelude::I192::from_digits([b.lo, b.mid, b.hi]));
    match scrypto::prelude::CheckedMul::checked_mul(x, y) {
        Some(c) => {
            let d = c.attos().to_digits();
            Some(Decimal { lo: d[0], mid: d[1], hi: d[2] })
        },
        None => None,
    }
}

/// `CheckedDiv::checked_div` of scrypto's `Decimal`: the dividend's attos
/// times 10^18, divided by the divisor's attos rounding toward zero; `None`
/// when the divisor is zero or the quotient's magnitude reaches 2^191.
#[verifier::external_body]
fn scrypto_checked_div(a: Decimal, b: Decimal) -> (r: Option<Decimal>)
    ensures
        r is Some <==> (b.attos() != 0 && in_i256(a.attos() * one_attos()) && narrows_to_i192(
            div_attos(a.attos(), b.attos()),
        )),
        r matches Some(c) ==> c.attos() == div_attos(a.attos(), b.attos()),
{
    let x = scrypto::prelude::Decimal::from_attos(scrypto::prelude::I192::from_digits([a.lo, a.mid, a.hi]));
    let y = scrypto::prelude::Decimal::from_attos(scrypto::prelude::I192::from_digits([b.lo, b.mid, b.hi]));
    match scrypto::prelude::CheckedDiv::checked_div(x, y) {
        Some(c) => {
            let d = c.attos().to_digits();
            Some(Decimal { lo: d[0], mid: d[1], hi: d[2] })
        },
        None => None,
    }
}

/// `PartialOrd::lt` of scrypto's `Decimal`: compares the attos.
#[verifier::external_body]
fn scrypto_lt(a: Decimal, b: Decimal) -> (r: bool)
    ensures
        r == (a.attos() < b.attos()),
{
    let x = scrypto::prelude::Decimal::from_attos(scrypto::prelude::I192::from_digits([a.lo, a.mid, a.hi]));
    let y = scrypto::prelude::Decimal::from_attos(scrypto::prelude::I192::from_digits([b.lo, b.mid, b.hi]));
    x < y
}

impl Decimal {
    /// Zero.
    pub fn zero() -> (d: Decimal)
        ensures
            d.attos() == 0,
    {
        Decimal { lo: 0, mid: 0, hi: 0 }
    }

    /// One tenth: 10^17 attos.
    pub fn one_tenth() -> (d: Decimal)
        ensures
            d.attos() == 100_000_000_000_000_000,
    {
        Decimal { lo: 100_000_000_000_000_000, mid: 0, hi: 0 }
    }

    /// The decimal with `n` whole units.
    pub fn from_units(n: u64) -> (d: Decimal)
        ensures
            d.attos() == n * one_attos(),
    {
        let u: u128 = (n as u128) * 1_000_000_000_000_000_000u128;
        Self::from_u128_attos(u)
    }

    fn from_u128_attos(u: u128) -> (d: Decimal)
        ensures
            d.attos() == u,
            d.hi == 0,
    {
        let lo = (u % 0x1_0000_0000_0000_0000u128) as u64;
        let mid = (u / 0x1_0000_0000_0000_0000u128) as u64;
        proof {
            vstd::arithmetic::div_mod::lemma_fundamental_div_mod(u as int, limb());
        }
        Decimal { lo, mid, hi: 0 }
    }

    /// The decimal with `x` attos.
    pub fn from_attos(x: i128) -> (d: Decimal)
        ensures
            d.attos() == x,
    {
        if x >= 0 {
            Self::from_u128_attos(x as u128)
        } else {
            let t: i128 = x + i128::MAX + 1;
            let u: u128 = (t as u128) + 0x8000_0000_0000_0000_0000_0000_0000_0000u128;
            let p = Self::from_u128_attos(u);
            Decimal { lo: p.lo, mid: p.mid, hi: u64::MAX }
        }
    }

    /// The sum, or `None` when it leaves the 192-bit range.
    pub fn checked_add(self, other: Decimal) -> (r: Option<Decimal>)
        ensures
            r is Some <==> in_i192(self.attos() + other.attos()),
            r matches Some(c) ==> c.attos() == self.attos() + other.attos(),
    {
        scrypto_checked_add(self, other)
    }

    /// The difference, or `None` when it leaves the 192-bit range.
    pub fn checked_sub(self, other: Decimal) -> (r: Option<Decimal>)
        ensures
            r is Some <==> in_i192(self.attos() - other.attos()),
            r matches Some(c) ==> c.attos() == self.attos() - other.attos(),
    {
        scrypto_checked_sub(self, other)
    }

    /// The fixed-point product, or `None` on overflow.
    pub fn checked_mul(self, other: Decimal) -> (r: Option<Decimal>)
        ensures
            r is Some <==> in_i256(self.attos() * other.attos()) && narrows_to_i192(
                mul_attos(self.attos(), other.attos()),
            ),
            r matches Some(c) ==> c.attos() == mul_attos(self.attos(), other.attos()),
    {
        scrypto_checked_mul(self, other)
    }

    /// The fixed-point quotient, or `None` on a zero divisor or overflow.
    pub fn checked_div(self, other: Decimal) -> (r: Option<Decimal>)
        ensures
            r is Some <==> other.attos() != 0 && in_i256(self.attos() * one_attos()) && narrows_to_i192(
                div_attos(self.attos(), other.attos()),
            ),
            r matches Some(c) ==> c.attos() == div_attos(self.attos(), other.attos()),
    {
        scrypto_checked_div(self, other)
    }

    /// Whether `self < other`.
    pub fn lt(self, other: Decimal) -> (b: bool)
        ensures
            b == (self.attos() < other.attos()),
    {
        scrypto_lt(self, other)
    }

    /// Whether `self > other`.
    pub fn gt(self, other: Decimal) -> (b: bool)
        ensures
            b == (self.attos() > other.attos()),
    {
        scrypto_lt(other, self)
    }

    /// Whether `self <= other`.
    pub fn le(self, other: Decimal) -> (b: bool)
        ensures
            b == (self.attos() <= other.attos()),
    {
        !scrypto_lt(other, self)
    }

    /// Whether `self >= other`.
    pub fn ge(self, other: Decimal) -> (b: bool)
        ensures
            b == (self.attos() >= other.attos()),
    {
        !scrypto_lt(self, other)
    }
}

} // verus!
