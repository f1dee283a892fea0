use dimtypes::units::{LogUnit, OffsetUnit};
use dimtypes::{Dim, Quantity};

type Qty = Quantity<f64>;

fn length_dim() -> Dim {
    Dim::new(0, 1, 0, 0, 0)
}

fn temp_dim() -> Dim {
    Dim::new(0, 0, 0, 0, 1)
}

fn power_dim() -> Dim {
    Dim::new(-3, 2, 1, 0, 0)
}

fn q_add(a: Qty, b: Qty) -> Qty {
    a.add_with(b, a.as_si() + b.as_si())
}

fn q_sub(a: Qty, b: Qty) -> Qty {
    a.sub_with(b, a.as_si() - b.as_si())
}

fn q_mul(a: Qty, b: Qty) -> Qty {
    a.mul_with(b, a.as_si() * b.as_si())
}

fn q_div(a: Qty, b: Qty) -> Qty {
    a.div_with(b, a.as_si() / b.as_si())
}

/// The numeric value of `q` in the linear unit `u`: the ratio of the two.
fn lin_value_for(u: Qty, q: Qty) -> f64 {
    q_div(q, u).to_raw()
}

/// The quantity that the numeric value `v` of the linear unit `u` names.
fn lin_quantity_for(u: Qty, v: f64) -> Qty {
    q_mul(Qty::from_raw(v), u)
}

/// The numeric value of `q` in an offset unit, absolute mode.
fn off_value_for(u: &OffsetUnit<Qty>, q: Qty) -> f64 {
    lin_value_for(u.as_rel_unit(), q_sub(q, u.zero_qty()))
}

/// The quantity that the absolute value `v` of an offset unit names.
fn off_quantity_for(u: &OffsetUnit<Qty>, v: f64) -> Qty {
    q_add(lin_quantity_for(u.as_rel_unit(), v), u.zero_qty())
}

/// The numeric value of `q` in a logarithmic unit.
fn log_value_for(u: &LogUnit<f64, Qty>, q: Qty) -> f64 {
    u.scale() * q_div(q, u.reference()).to_raw().log(u.log_base())
}

/// The quantity that the value `v` of a logarithmic unit names.
fn log_quantity_for(u: &LogUnit<f64, Qty>, v: f64) -> Qty {
    lin_quantity_for(u.reference(), u.log_base().powf(v / u.scale()))
}

fn celsius() -> OffsetUnit<Qty> {
    let kelvin = Qty::from_si(1.0, temp_dim());
    OffsetUnit::new(kelvin, Qty::from_si(273.15, temp_dim()))
}

fn fahrenheit() -> OffsetUnit<Qty> {
    let rankine = Qty::from_si(1.0 / 1.8, temp_dim());
    let zero = q_sub(celsius().zero_qty(), lin_quantity_for(rankine, 32.0));
    OffsetUnit::new(rankine, zero)
}

#[test]
fn si_payload_round_trip() {
    let q = Qty::from_si(9.81, Dim::new(-2, 1, 0, 0, 0));
    assert_eq!(q.as_si(), 9.81);
    assert_eq!(q.dim(), Dim::new(-2, 1, 0, 0, 0));
}

#[test]
fn raw_coercion_round_trip() {
    let q = Qty::from_raw(2.5);
    assert!(q.dim().is_unitless());
    assert_eq!(q.to_raw(), 2.5);
}

#[test]
fn add_sub_round_trip_and_commutes() {
    let a = Qty::from_si(12.25, length_dim());
    let b = Qty::from_si(0.7, length_dim());
    let back = q_sub(q_add(a, b), b);
    assert!((back.as_si() - a.as_si()).abs() < 1e-12);
    assert_eq!(back.dim(), a.dim());
    assert_eq!(q_add(a, b).as_si(), q_add(b, a).as_si());
    assert_eq!(q_add(a, b).dim(), q_add(b, a).dim());
}

#[test]
fn mul_div_round_trip_and_dims_add() {
    let a = Qty::from_si(3.5, Dim::new(-2, 1, 1, 0, 0));
    let b = Qty::from_si(-1.25, Dim::new(0, 1, 0, 0, 0));
    let p = q_mul(a, b);
    assert_eq!(p.dim(), Dim::new(-2, 2, 1, 0, 0));
    let back = q_div(p, b);
    assert!((back.as_si() - a.as_si()).abs() < 1e-12);
    assert_eq!(back.dim(), a.dim());
}

#[test]
fn pow_root_round_trip_and_dims_scale() {
    let a = Qty::from_si(2.5, length_dim());
    let c = a.pow_with(3, a.as_si().powi(3));
    assert_eq!(c.dim(), Dim::new(0, 3, 0, 0, 0));
    assert!((c.as_si() - 15.625).abs() < 1e-12);
    let back = c.root_with(3, c.as_si().powf(1.0 / 3.0));
    assert_eq!(back.dim(), a.dim());
    assert!((back.as_si() - a.as_si()).abs() < 1e-12);
}

#[test]
fn linear_unit_round_trip() {
    let yard = Qty::from_si(0.9144, length_dim());
    let v: f64 = 7.5;
    let q = lin_quantity_for(yard, v);
    assert!((lin_value_for(yard, q) - v).abs() < 1e-12);
    let again = lin_quantity_for(yard, lin_value_for(yard, q));
    assert!((again.as_si() - q.as_si()).abs() < 1e-12);
    assert_eq!(again.dim(), q.dim());
}

#[test]
fn meters_plus_feet_in_yards() {
    let meter = Qty::from_si(1.0, length_dim());
    let foot = Qty::from_si(0.3048, length_dim());
    let total = q_add(lin_quantity_for(meter, 25.0), lin_quantity_for(foot, 100.0));
    let yard = Qty::from_si(0.9144, length_dim());
    assert!((total.as_si() - 55.48).abs() < 1e-9);
    assert!((lin_value_for(yard, total) - 60.6737).abs() < 1e-3);
}

#[test]
fn celsius_reads_as_fahrenheit() {
    let freezing = off_quantity_for(&celsius(), 0.0);
    assert!((off_value_for(&fahrenheit(), freezing) - 32.0).abs() < 1e-9);
    let boiling = off_quantity_for(&celsius(), 100.0);
    assert!((off_value_for(&fahrenheit(), boiling) - 212.0).abs() < 1e-9);
}

#[test]
fn relative_mode_ignores_zero_point() {
    let delta = Qty::from_si(10.0, temp_dim());
    let in_rankine = lin_value_for(fahrenheit().as_rel_unit(), delta);
    assert!((in_rankine - 18.0).abs() < 1e-9);
}

#[test]
fn fahrenheit_to_celsius_absolute_and_relative() {
    let c = celsius();
    let f = fahrenheit();
    let boiling = off_quantity_for(&f, 212.0);
    assert!((off_value_for(&c, boiling) - 100.0).abs() < 1e-9);
    let delta = lin_quantity_for(f.as_rel_unit(), 212.0 - 32.0);
    assert!((lin_value_for(c.as_rel_unit(), delta) - 100.0).abs() < 1e-9);
}

#[test]
fn log_unit_round_trip_and_reference_is_zero() {
    let milliwatt = Qty::from_si(0.001, power_dim());
    let dbm = LogUnit::new(10.0, 10.0, milliwatt);
    let x: f64 = 3.7;
    assert!((log_value_for(&dbm, log_quantity_for(&dbm, x)) - x).abs() < 1e-9);
    assert!(log_value_for(&dbm, milliwatt).abs() < 1e-12);
}

#[test]
fn offset_unit_stores_scale_and_zero() {
    let kelvin = Qty::from_si(1.0, temp_dim());
    let zero = Qty::from_si(273.15, temp_dim());
    let u = OffsetUnit::new(kelvin, zero);
    assert_eq!(u.zero_qty().as_si(), 273.15);
    assert_eq!(u.as_rel_unit().as_si(), 1.0);
    assert_eq!(u.as_abs_unit().zero_qty().as_si(), 273.15);
    assert_eq!(u.as_abs_unit().as_rel_unit().as_si(), 1.0);
}

#[test]
fn log_unit_stores_fields() {
    let milliwatt = Qty::from_si(0.001, power_dim());
    let u = LogUnit::new(10.0, 20.0, milliwatt);
    assert_eq!(u.log_base(), 10.0);
    assert_eq!(u.scale(), 20.0);
    assert_eq!(u.reference().as_si(), 0.001);
    assert_eq!(u.reference().dim(), power_dim());
}
