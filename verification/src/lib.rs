//! Dimension-checked physical quantities.
//!
//! A physical quantity is a single numeric payload tagged with a dimension
//! vector: the integer exponents of the five SI base dimensions (time,
//! length, mass, electric current, temperature). This crate verifies the
//! dimension-tracking core: the vector algebra that addition, subtraction,
//! multiplication, division, integer powers and integer roots perform on
//! dimension vectors, the quantity value type that carries a payload
//! together with its vector, the linear, offset and logarithmic unit
//! descriptions, and the rendering of a vector as a unit suffix.
//!
//! The numeric payload itself is kept generic: floating-point arithmetic
//! cannot be verified here, so the scalar operations are supplied by the
//! caller while every dimension computation is proved exact.

pub mod dim;
pub mod display;
pub mod quantity;
pub mod units;

pub use dim::div_evenly;
pub use dim::Dim;
pub use quantity::Quantity;
pub use units::LogUnit;
pub use units::OffsetUnit;
