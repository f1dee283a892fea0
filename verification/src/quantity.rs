//! The quantity value type.
//!
//! A quantity is one numeric payload, always expressed in the SI base-unit
//! combination implied by its dimension vector, together with that vector.
//! The payload type is generic: the scalar operations on it are supplied by
//! the caller, while the vector bookkeeping of every operation is computed
//! and proved here. A caller must establish each operation's dimension
//! precondition, so a dimension mismatch is rejected before the program
//! runs.

use vstd::prelude::*;

use crate::dim::{
    dim_in_range, dim_inv, dim_mul, dim_pow, dim_root, spec_dim_div, spec_dim_inv, spec_dim_mul,
    spec_dim_pow, spec_dim_root, spec_dim_root_ok, spec_dim_unitless, Dim, DimModel,
};
use crate::dim::dim_div;

verus! {

/// A physical quantity: a numeric payload in SI base units, tagged with
/// its dimension vector.
#[derive(Clone, Copy)]
pub struct Quantity<V: Copy> {
    value_si: V,
    dim: Dim,
}

impl<V: Copy> Quantity<V> {
    /// The stored payload, in SI base units.
    pub closed spec fn spec_value(self) -> V {
        self.value_si
    }

    /// The dimension vector, as its mathematical model.
    pub closed spec fn spec_dim(self) -> DimModel {
        self.dim@
    }

    /// Build a quantity from a payload already in SI base units and its
    /// dimension vector.
    pub fn from_si(val: V, dim: Dim) -> (q: Quantity<V>)
        ensures
            q.spec_value() == val,
            q.spec_dim() == dim@,
    {
        Quantity { value_si: val, dim }
    }

    /// The payload in SI base units.
    pub fn as_si(self) -> (v: V)
        ensures
            v == self.spec_value(),
    {
        self.value_si
    }

    /// The dimension vector.
    pub fn dim(self) -> (d: Dim)
        ensures
            d@ == self.spec_dim(),
    {
        self.dim
    }

    /// A raw number coerced to a dimensionless quantity, with no scaling.
    pub fn from_raw(val: V) -> (q: Quantity<V>)
        ensures
            q.spec_value() == val,
            q.spec_dim() == spec_dim_unitless(),
    {
        Quantity { value_si: val, dim: Dim::unitless() }
    }

    /// A dimensionless quantity coerced back to a raw number, with no
    /// scaling. Only the dimensionless vector permits this coercion.
    pub fn to_raw(self) -> (v: V)
        requires
            self.spec_dim() == spec_dim_unitless(),
        ensures
            v == self.spec_value(),
    {
        self.value_si
    }

    /// The sum of two quantities: defined only for identical dimension
    /// vectors, which the result keeps. The caller supplies the scalar sum
    /// of the two payloads.
    pub fn add_with(self, rhs: Quantity<V>, sum: V) -> (r: Quantity<V>)
        requires
            self.spec_dim() == rhs.spec_dim(),
        ensures
            r.spec_dim() == self.spec_dim(),
            r.spec_value() == sum,
    {
        Quantity { value_si: sum, dim: self.dim }
    }

    /// The difference of two quantities: defined only for identical
    /// dimension vectors, which the result keeps. The caller supplies the
    /// scalar difference of the two payloads.
    pub fn sub_with(self, rhs: Quantity<V>, diff: V) -> (r: Quantity<V>)
        requires
            self.spec_dim() == rhs.spec_dim(),
        ensures
            r.spec_dim() == self.spec_dim(),
            r.spec_value() == diff,
    {
        Quantity { value_si: diff, dim: self.dim }
    }

    /// The negation of a quantity: the dimension vector is kept and the
    /// caller supplies the sign-flipped payload.
    pub fn neg_with(self, negated: V) -> (r: Quantity<V>)
        ensures
            r.spec_dim() == self.spec_dim(),
            r.spec_value() == negated,
    {
        Quantity { value_si: negated, dim: self.dim }
    }

    /// The product of two quantities: the dimension vectors add
    /// element-wise. The caller supplies the scalar product of the two
    /// payloads.
    pub fn mul_with(self, rhs: Quantity<V>, product: V) -> (r: Quantity<V>)
        requires
            dim_in_range(spec_dim_mul(self.spec_dim(), rhs.spec_dim())),
        ensures
            r.spec_dim() == spec_dim_mul(self.spec_dim(), rhs.spec_dim()),
            r.spec_value() == product,
    {
        Quantity { value_si: product, dim: dim_mul(self.dim, rhs.dim) }
    }

    /// The quotient of two quantities: the dimension vectors subtract
    /// element-wise. The caller supplies the scalar quotient of the two
    /// payloads.
    pub fn div_with(self, rhs: Quantity<V>, quotient: V) -> (r: Quantity<V>)
        requires
            dim_in_range(spec_dim_div(self.spec_dim(), rhs.spec_dim())),
        ensures
            r.spec_dim() == spec_dim_div(self.spec_dim(), rhs.spec_dim()),
            r.spec_value() == quotient,
    {
        Quantity { value_si: quotient, dim: dim_div(self.dim, rhs.dim) }
    }

    /// The reciprocal's shape, as when a raw number is divided by a
    /// quantity: every exponent changes sign. The caller supplies the
    /// scalar result.
    pub fn inv_with(self, reciprocal: V) -> (r: Quantity<V>)
        requires
            dim_in_range(spec_dim_inv(self.spec_dim())),
        ensures
            r.spec_dim() == spec_dim_inv(self.spec_dim()),
            r.spec_value() == reciprocal,
    {
        Quantity { value_si: reciprocal, dim: dim_inv(self.dim) }
    }

    /// An integer power of a quantity: every exponent is scaled by `p`.
    /// The caller supplies the payload raised to the `p`th power.
    pub fn pow_with(self, p: isize, powed: V) -> (r: Quantity<V>)
        requires
            dim_in_range(spec_dim_pow(self.spec_dim(), p as int)),
        ensures
            r.spec_dim() == spec_dim_pow(self.spec_dim(), p as int),
            r.spec_value() == powed,
    {
        Quantity { value_si: powed, dim: dim_pow(self.dim, p) }
    }

    /// An integer root of a quantity: every exponent is divided by `rt`,
    /// and the root is defined only when each divides evenly, so a
    /// fractional exponent is rejected before the program runs. The caller
    /// supplies the payload's `rt`th root.
    pub fn root_with(self, rt: isize, rooted: V) -> (r: Quantity<V>)
        requires
            spec_dim_root_ok(self.spec_dim(), rt as int),
            dim_in_range(spec_dim_root(self.spec_dim(), rt as int)),
        ensures
            r.spec_dim() == spec_dim_root(self.spec_dim(), rt as int),
            r.spec_value() == rooted,
    {
        Quantity { value_si: rooted, dim: dim_root(self.dim, rt) }
    }
}

} // verus!
