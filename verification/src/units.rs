//! Offset and logarithmic unit descriptions.
//!
//! A linear unit is any quantity acting as a conversion ratio, so it needs
//! no type of its own. The two non-ratio strategies have one each: an
//! offset unit pairs a base linear unit with a zero-point quantity, and a
//! logarithmic unit holds a scale, a logarithm base and a reference
//! quantity. Both are plain immutable value types; the conversion formulas
//! themselves are scalar arithmetic and live with the scalar layer.

use vstd::prelude::*;

verus! {

/// A unit of `Dimen` with an offset zero point, such as a temperature
/// scale. `value = (quantity - zero) / unit` and
/// `quantity = value * unit + zero`.
///
/// A numeric value in such a unit is read in one of two modes: absolute,
/// where the zero point takes part, for point-in-scale readings; and
/// relative, where the base unit applies directly, for differences between
/// readings. The two modes are distinct operations, so a caller cannot
/// slip from one into the other: [`OffsetUnit::as_abs_unit`] converts with
/// the offset, [`OffsetUnit::as_rel_unit`] without it.
#[derive(Clone, Copy, Debug)]
pub struct OffsetUnit<Dimen: Copy> {
    unit: Dimen,
    zero: Dimen,
}

impl<Dimen: Copy> OffsetUnit<Dimen> {
    /// The base linear unit: the scale of this offset unit.
    pub closed spec fn spec_unit(self) -> Dimen {
        self.unit
    }

    /// The quantity that a value of zero stands for in absolute mode.
    pub closed spec fn spec_zero(self) -> Dimen {
        self.zero
    }

    /// Create an offset unit with the same scale as `baseunit` but with
    /// the value zero corresponding to the quantity `zero`.
    pub fn new(baseunit: Dimen, zero: Dimen) -> (r: OffsetUnit<Dimen>)
        ensures
            r.spec_unit() == baseunit,
            r.spec_zero() == zero,
    {
        OffsetUnit { unit: baseunit, zero }
    }

    /// The zero quantity for this unit.
    pub fn zero_qty(&self) -> (r: Dimen)
        ensures
            r == self.spec_zero(),
    {
        self.zero
    }

    /// The unit that reads values as absolute, point-in-scale quantities:
    /// this offset unit itself, zero point included.
    pub fn as_abs_unit(&self) -> (r: OffsetUnit<Dimen>)
        ensures
            r == *self,
    {
        *self
    }

    /// The unit that reads values as relative quantities (differences):
    /// the base linear unit alone, since the zero point cancels out of a
    /// difference.
    pub fn as_rel_unit(&self) -> (r: Dimen)
        ensures
            r == self.spec_unit(),
    {
        self.unit
    }
}

/// A logarithmically scaled unit of `Dimen`, such as a decibel scale.
/// `value = scale * log_base(quantity / reference)` and
/// `quantity = base^(value / scale) * reference`. The reference must have
/// the quantity's own dimension, so the ratio inside the logarithm is
/// dimensionless.
#[derive(Clone, Copy, Debug)]
pub struct LogUnit<V: Copy, Dimen: Copy> {
    scale: V,
    base: V,
    reference: Dimen,
}

impl<V: Copy, Dimen: Copy> LogUnit<V, Dimen> {
    /// How many units one factor of the base is worth.
    pub closed spec fn spec_scale(self) -> V {
        self.scale
    }

    /// The base of the logarithm.
    pub closed spec fn spec_base(self) -> V {
        self.base
    }

    /// The quantity at which the value is zero.
    pub closed spec fn spec_reference(self) -> Dimen {
        self.reference
    }

    /// Construct a logarithmic unit worth `scale` units per factor of
    /// `base` relative to the `reference` quantity.
    pub fn new(base: V, scale: V, reference: Dimen) -> (r: LogUnit<V, Dimen>)
        ensures
            r.spec_base() == base,
            r.spec_scale() == scale,
            r.spec_reference() == reference,
    {
        LogUnit { scale, base, reference }
    }

    /// The scale: units per factor of the base.
    pub fn scale(&self) -> (r: V)
        ensures
            r == self.spec_scale(),
    {
        self.scale
    }

    /// The base of the logarithm.
    pub fn log_base(&self) -> (r: V)
        ensures
            r == self.spec_base(),
    {
        self.base
    }

    /// The reference quantity.
    pub fn reference(&self) -> (r: Dimen)
        ensures
            r == self.spec_reference(),
    {
        self.reference
    }
}

} // verus!
