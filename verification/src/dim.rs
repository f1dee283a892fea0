//! Dimension vectors and their algebra.
//!
//! A dimension vector holds the exponent of each of the five SI base
//! dimensions. Multiplying quantities adds the vectors element-wise,
//! dividing subtracts them, an integer power scales every exponent and an
//! integer root divides every exponent, which is only meaningful when each
//! exponent divides evenly.

use vstd::prelude::*;

verus! {

/// The exponents of the five SI base dimensions: seconds to the `time`,
/// meters to the `length`, kilograms to the `mass`, amperes to the
/// `current` and kelvins to the `temperature`.
#[derive(Clone, Copy, PartialEq, Eq, Structural, Debug)]
pub struct Dim {
    pub time: isize,
    pub length: isize,
    pub mass: isize,
    pub current: isize,
    pub temperature: isize,
}

/// Mathematical model of a dimension vector: the same five exponents as
/// unbounded integers.
pub struct DimModel {
    pub time: int,
    pub length: int,
    pub mass: int,
    pub current: int,
    pub temperature: int,
}

impl View for Dim {
    type V = DimModel;

    open spec fn view(&self) -> DimModel {
        DimModel {
            time: self.time as int,
            length: self.length as int,
            mass: self.mass as int,
            current: self.current as int,
            temperature: self.temperature as int,
        }
    }
}

/// The dimension vector of a product: exponents add element-wise.
pub open spec fn spec_dim_mul(a: DimModel, b: DimModel) -> DimModel {
    DimModel {
        time: a.time + b.time,
        length: a.length + b.length,
        mass: a.mass + b.mass,
        current: a.current + b.current,
        temperature: a.temperature + b.temperature,
    }
}

/// The dimension vector of a quotient: exponents subtract element-wise.
pub open spec fn spec_dim_div(a: DimModel, b: DimModel) -> DimModel {
    DimModel {
        time: a.time - b.time,
        length: a.length - b.length,
        mass: a.mass - b.mass,
        current: a.current - b.current,
        temperature: a.temperature - b.temperature,
    }
}

/// The dimension vector of a reciprocal: every exponent changes sign.
pub open spec fn spec_dim_inv(a: DimModel) -> DimModel {
    DimModel {
        time: -a.time,
        length: -a.length,
        mass: -a.mass,
        current: -a.current,
        temperature: -a.temperature,
    }
}

/// The dimension vector of an integer power: every exponent is scaled.
pub open spec fn spec_dim_pow(d: DimModel, p: int) -> DimModel {
    DimModel {
        time: d.time * p,
        length: d.length * p,
        mass: d.mass * p,
        current: d.current * p,
        temperature: d.temperature * p,
    }
}

/// Whether the `r`th root of a vector leaves every exponent whole.
pub open spec fn spec_dim_root_ok(d: DimModel, r: int) -> bool {
    &&& r != 0
    &&& d.time % r == 0
    &&& d.length % r == 0
    &&& d.mass % r == 0
    &&& d.current % r == 0
    &&& d.temperature % r == 0
}

/// The dimension vector of an integer root: every exponent is divided.
pub open spec fn spec_dim_root(d: DimModel, r: int) -> DimModel {
    DimModel {
        time: d.time / r,
        length: d.length / r,
        mass: d.mass / r,
        current: d.current / r,
        temperature: d.temperature / r,
    }
}

/// The dimensionless vector: every exponent is zero.
pub open spec fn spec_dim_unitless() -> DimModel {
    DimModel { time: 0, length: 0, mass: 0, current: 0, temperature: 0 }
}

/// Whether every exponent of the model fits the machine exponent type.
pub open spec fn dim_in_range(d: DimModel) -> bool {
    &&& isize::MIN <= d.time <= isize::MAX
    &&& isize::MIN <= d.length <= isize::MAX
    &&& isize::MIN <= d.mass <= isize::MAX
    &&& isize::MIN <= d.current <= isize::MAX
    &&& isize::MIN <= d.temperature <= isize::MAX
}

impl Dim {
    /// Build a dimension vector from its five exponents, in the order
    /// time, length, mass, current, temperature.
    pub fn new(time: isize, length: isize, mass: isize, current: isize, temperature: isize)
        -> (r: Dim)
        ensures
            r.time == time,
            r.length == length,
            r.mass == mass,
            r.current == current,
            r.temperature == temperature,
    {
        Dim { time, length, mass, current, temperature }
    }

    /// The dimensionless vector.
    pub fn unitless() -> (r: Dim)
        ensures
            r@ == spec_dim_unitless(),
    {
        Dim { time: 0, length: 0, mass: 0, current: 0, temperature: 0 }
    }

    /// Whether this vector is dimensionless. Only a dimensionless
    /// quantity may pass as a raw number.
    pub fn is_unitless(&self) -> (r: bool)
        ensures
            r == (self@ == spec_dim_unitless()),
    {
        self.time == 0 && self.length == 0 && self.mass == 0 && self.current == 0
            && self.temperature == 0
    }
}

/// The dimension vector of a product of quantities.
pub fn dim_mul(a: Dim, b: Dim) -> (r: Dim)
    requires
        dim_in_range(spec_dim_mul(a@, b@)),
    ensures
        r@ == spec_dim_mul(a@, b@),
{
    Dim {
        time: a.time + b.time,
        length: a.length + b.length,
        mass: a.mass + b.mass,
        current: a.current + b.current,
        temperature: a.temperature + b.temperature,
    }
}

/// The dimension vector of a quotient of quantities.
pub fn dim_div(a: Dim, b: Dim) -> (r: Dim)
    requires
        dim_in_range(spec_dim_div(a@, b@)),
    ensures
        r@ == spec_dim_div(a@, b@),
{
    Dim {
        time: a.time - b.time,
        length: a.length - b.length,
        mass: a.mass - b.mass,
        current: a.current - b.current,
        temperature: a.temperature - b.temperature,
    }
}

/// The dimension vector of a reciprocal, as when a raw number is divided
/// by a quantity.
pub fn dim_inv(a: Dim) -> (r: Dim)
    requires
        dim_in_range(spec_dim_inv(a@)),
    ensures
        r@ == spec_dim_inv(a@),
{
    Dim {
        time: -a.time,
        length: -a.length,
        mass: -a.mass,
        current: -a.current,
        temperature: -a.temperature,
    }
}

/// The dimension vector of an integer power of a quantity.
pub fn dim_pow(d: Dim, p: isize) -> (r: Dim)
    requires
        dim_in_range(spec_dim_pow(d@, p as int)),
    ensures
        r@ == spec_dim_pow(d@, p as int),
{
    Dim {
        time: d.time * p,
        length: d.length * p,
        mass: d.mass * p,
        current: d.current * p,
        temperature: d.temperature * p,
    }
}

/// The dimension vector of an integer root of a quantity. A root that
/// would leave a fractional exponent is rejected before the program runs,
/// by the precondition.
pub fn dim_root(d: Dim, r: isize) -> (res: Dim)
    requires
        spec_dim_root_ok(d@, r as int),
        dim_in_range(spec_dim_root(d@, r as int)),
    ensures
        res@ == spec_dim_root(d@, r as int),
{
    Dim {
        time: div_evenly(d.time, r),
        length: div_evenly(d.length, r),
        mass: div_evenly(d.mass, r),
        current: div_evenly(d.current, r),
        temperature: div_evenly(d.temperature, r),
    }
}

/// An exact division has the quotient that the multiple was built from,
/// and no remainder.
pub proof fn lemma_exact_div(x: int, d: int, q: int)
    requires
        d != 0,
        x == q * d,
    ensures
        x / d == q,
        x % d == 0,
{
    assert(x / d == q && x % d == 0) by (nonlinear_arith)
        requires
            d != 0,
            x == q * d,
    ;
}

/// The dimension half of the multiplication round trip: dividing a
/// product's dimension vector by one factor's vector gives the other
/// factor's vector back.
pub proof fn lemma_dim_mul_div(a: DimModel, b: DimModel)
    ensures
        spec_dim_div(spec_dim_mul(a, b), b) == a,
{
}

/// The dimension half of the power and root round trip: the `p`th root is
/// defined on the `p`th power's dimension vector, and undoes it.
pub proof fn lemma_dim_pow_root(d: DimModel, p: int)
    requires
        p != 0,
    ensures
        spec_dim_root_ok(spec_dim_pow(d, p), p),
        spec_dim_root(spec_dim_pow(d, p), p) == d,
{
    lemma_exact_div(d.time * p, p, d.time);
    lemma_exact_div(d.length * p, p, d.length);
    lemma_exact_div(d.mass * p, p, d.mass);
    lemma_exact_div(d.current * p, p, d.current);
    lemma_exact_div(d.temperature * p, p, d.temperature);
}

/// Divide `num` by `den`, defined only when the division is exact.
///
/// This backs the integer root of a dimension vector: a root that would
/// leave a fractional exponent is rejected before the program runs, here
/// by the precondition.
pub fn div_evenly(num: isize, den: isize) -> (r: isize)
    requires
        den != 0,
        num % den == 0,
        isize::MIN <= num as int / den as int <= isize::MAX,
    ensures
        r == num as int / den as int,
        r * den == num,
{
    proof {
        let q = num as int / den as int;
        vstd::arithmetic::div_mod::lemma_fundamental_div_mod(num as int, den as int);
        assert(num == den * q);
        assert(q * (den as int) == num) by (nonlinear_arith)
            requires
                num as int == den * q,
        ;
        if num < 0 {
            assert(-(num as int) == (-q) * den) by (nonlinear_arith)
                requires
                    num as int == den * q,
            ;
            lemma_exact_div(-(num as int), den as int, -q);
        }
    }
    num / den
}

} // verus!
