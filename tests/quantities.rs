use units::{NativeUnit, Unit, UnitKind, UnitMismatch};

fn native(n: NativeUnit) -> UnitKind {
    UnitKind::Native(n)
}

fn meter<T>(v: T) -> Unit<T> {
    Unit::new(v, native(NativeUnit::Meter))
}

fn second<T>(v: T) -> Unit<T> {
    Unit::new(v, native(NativeUnit::Second))
}

fn ratio(a: UnitKind, b: UnitKind) -> UnitKind {
    UnitKind::Ratio(Box::new(a), Box::new(b))
}

fn power(a: UnitKind, p: usize) -> UnitKind {
    UnitKind::Power(Box::new(a), p)
}

#[test]
fn test_speed() {
    let length = meter(20.);
    let time = second(2.);
    let speed = length / time;
    assert_eq!(
        speed,
        Unit::new(10., ratio(native(NativeUnit::Meter), native(NativeUnit::Second)))
    );
}

#[test]
fn test_area() {
    let width = meter(20);
    let height = meter(10);
    let area = width * height;
    assert_eq!(area, Unit::new(200, power(native(NativeUnit::Meter), 2)));
}

#[test]
fn test_volume() {
    let width = meter(20);
    let height = meter(10);
    let depth = meter(30);
    let vol = width * height * depth;
    assert_eq!(vol, Unit::new(6000, power(native(NativeUnit::Meter), 3)));
}

#[test]
fn add_then_sub_gives_back_the_quantity() {
    let a = meter(7i64);
    let b = meter(5i64);
    let sum = a.clone() + b.clone();
    assert_eq!(sum, meter(12i64));
    assert_eq!(sum - b, a);
}

#[test]
fn add_keeps_custom_unit() {
    let a = Unit::new(3, UnitKind::Custom("apples".to_string()));
    let b = Unit::new(4, UnitKind::Custom("apples".to_string()));
    let sum = a + b;
    assert_eq!(sum.value, 7);
    assert_eq!(sum.unit, UnitKind::Custom("apples".to_string()));
}

#[test]
fn add_of_different_units_fails() {
    let r = meter(1).try_add(second(2));
    match r {
        Err(e) => {
            assert!(matches!(e, UnitMismatch::Add(_, _)));
            assert_eq!(e.message(), "cannot add m with s");
        }
        Ok(_) => panic!("meters and seconds were added"),
    }
}

#[test]
fn sub_of_different_units_fails() {
    let per_second = Unit::new(4, ratio(native(NativeUnit::Meter), native(NativeUnit::Second)));
    let r = per_second.try_sub(meter(1));
    match r {
        Err(e) => {
            assert!(matches!(e, UnitMismatch::Sub(_, _)));
            assert_eq!(e.message(), "cannot subtract m/s with m");
        }
        Ok(_) => panic!("a speed and a length were subtracted"),
    }
}

#[test]
fn checked_add_and_sub_of_equal_units_succeed() {
    let sum = meter(2).try_add(meter(3)).unwrap();
    assert_eq!(sum, meter(5));
    let diff = meter(2).try_sub(meter(3)).unwrap();
    assert_eq!(diff, meter(-1));
}

#[test]
fn repeated_multiplication_accumulates_exponent() {
    let cube = meter(2) * meter(3) * meter(4);
    assert_eq!(cube.value, 24);
    assert_eq!(cube.unit, power(native(NativeUnit::Meter), 3));
    let fourth = cube * meter(5);
    assert_eq!(fourth, Unit::new(120, power(native(NativeUnit::Meter), 4)));
}

#[test]
fn multiplication_of_different_units_is_a_product() {
    let q = meter(3) * second(4);
    assert_eq!(
        q,
        Unit::new(
            12,
            UnitKind::Product(
                Box::new(native(NativeUnit::Meter)),
                Box::new(native(NativeUnit::Second))
            )
        )
    );
}

#[test]
fn division_by_same_unit_is_dimensionless() {
    let q = meter(10) / meter(5);
    assert_eq!(q.value, 2);
    assert_eq!(q.unit, UnitKind::Dimensionless);
}

#[test]
fn ratio_then_cancel_round_trip() {
    let speed = meter(20) / second(2);
    assert_eq!(speed.value, 10);
    assert_eq!(
        speed.unit,
        ratio(native(NativeUnit::Meter), native(NativeUnit::Second))
    );
    let length = speed * second(2);
    assert_eq!(length, meter(20));
}

#[test]
fn division_cancels_ratio_denominator() {
    let q = Unit::new(30, ratio(native(NativeUnit::Liter), native(NativeUnit::Hour)));
    let r = q / Unit::new(3, native(NativeUnit::Hour));
    assert_eq!(r, Unit::new(10, native(NativeUnit::Liter)));
}

#[test]
fn render_each_variant() {
    assert_eq!(native(NativeUnit::Meter).render(), "m");
    assert_eq!(UnitKind::Custom("furlong".to_string()).render(), "furlong");
    assert_eq!(
        ratio(native(NativeUnit::Meter), native(NativeUnit::Second)).render(),
        "m/s"
    );
    assert_eq!(
        UnitKind::Product(
            Box::new(native(NativeUnit::Gramm)),
            Box::new(native(NativeUnit::Minute))
        )
        .render(),
        "g*min"
    );
    assert_eq!(power(native(NativeUnit::Meter), 2).render(), "m^2");
    assert_eq!(UnitKind::Dimensionless.render(), "");
}

#[test]
fn render_nested_without_parentheses() {
    let u = ratio(
        native(NativeUnit::Meter),
        power(native(NativeUnit::Second), 12),
    );
    assert_eq!(u.render(), "m/s^12");
    assert_eq!(power(native(NativeUnit::Year), 0).render(), "y^0");
    assert_eq!(power(native(NativeUnit::Day), 305).render(), "d^305");
}

#[test]
fn render_native_symbols() {
    let all = [
        (NativeUnit::Meter, "m"),
        (NativeUnit::Liter, "l"),
        (NativeUnit::Gramm, "g"),
        (NativeUnit::Second, "s"),
        (NativeUnit::Minute, "min"),
        (NativeUnit::Hour, "h"),
        (NativeUnit::Day, "d"),
        (NativeUnit::Week, "w"),
        (NativeUnit::Year, "y"),
    ];
    for (n, s) in all {
        assert_eq!(n.symbol(), s);
        assert_eq!(native(n).render(), s);
    }
}

#[test]
fn different_units_are_incomparable() {
    let m = meter(1);
    let s = second(2);
    assert!(!(m < s));
    assert!(!(m <= s));
    assert!(!(m > s));
    assert!(!(m >= s));
    assert_eq!(m.partial_cmp(&s), None);
    assert!(m != s);
}

#[test]
fn same_units_compare_by_magnitude() {
    let a = meter(1);
    let b = meter(2);
    assert!(a < b);
    assert!(a <= b);
    assert!(b > a);
    assert!(b >= a);
    assert_eq!(a.partial_cmp(&b), Some(std::cmp::Ordering::Less));
    assert_eq!(a.partial_cmp(&meter(1)), Some(std::cmp::Ordering::Equal));
}

#[test]
fn max_and_min_pick_by_magnitude() {
    assert_eq!(meter(3).max(meter(8)), meter(8));
    assert_eq!(meter(3).min(meter(8)), meter(3));
    assert_eq!(meter(9).max(meter(8)), meter(9));
    assert_eq!(meter(9).min(meter(8)), meter(8));
}

#[test]
fn volume_scenario() {
    let width = meter(20);
    let height = meter(10);
    let depth = meter(30);
    let area = width.clone() * height.clone();
    assert_eq!(area.value, 200);
    assert_eq!(area.unit, power(native(NativeUnit::Meter), 2));
    let vol = width * height * depth;
    assert_eq!(vol.value, 6000);
    assert_eq!(vol.unit, power(native(NativeUnit::Meter), 3));
}

#[test]
fn negation_and_scalars_keep_unit() {
    let q: Unit<isize> = second(6);
    assert_eq!(-q.clone(), second(-6));
    assert_eq!(q.clone() * 4isize, second(24));
    assert_eq!(q / 4isize, second(1));
}

#[test]
fn integer_powers_leave_unit() {
    let a = Unit::new(3i64, native(NativeUnit::Meter)).powf(4);
    assert_eq!(a, Unit::new(81i64, native(NativeUnit::Meter)));
    let b = Unit::new(-2i32, native(NativeUnit::Second)).powf(3);
    assert_eq!(b, Unit::new(-8i32, native(NativeUnit::Second)));
}

#[test]
fn accessors_read_and_write() {
    let mut q = meter(5);
    assert_eq!(*q.value_ref(), 5);
    assert_eq!(*q.unit_ref(), native(NativeUnit::Meter));
    *q.value_mut() = 9;
    *q.unit_mut() = native(NativeUnit::Week);
    assert_eq!(q.clone().value(), 9);
    assert_eq!(q.unit(), native(NativeUnit::Week));
}

#[test]
fn structural_equality_of_units() {
    let a = ratio(native(NativeUnit::Meter), native(NativeUnit::Second));
    let b = ratio(native(NativeUnit::Meter), native(NativeUnit::Second));
    let c = UnitKind::Product(
        Box::new(native(NativeUnit::Meter)),
        Box::new(native(NativeUnit::Second)),
    );
    assert!(a.equals(&b));
    assert!(!a.equals(&c));
    assert!(!power(native(NativeUnit::Meter), 2).equals(&power(native(NativeUnit::Meter), 3)));
    assert!(!UnitKind::Custom("a".to_string()).equals(&UnitKind::Custom("b".to_string())));
    assert_eq!(a.clone(), b);
}

#[test]
fn unit_rules_on_kinds() {
    let m = native(NativeUnit::Meter);
    let s = native(NativeUnit::Second);
    assert_eq!(m.clone().times(m.clone()), power(m.clone(), 2));
    assert_eq!(power(m.clone(), 2).times(m.clone()), power(m.clone(), 3));
    assert_eq!(ratio(m.clone(), s.clone()).times(s.clone()), m.clone());
    assert_eq!(m.clone().per(m.clone()), UnitKind::Dimensionless);
    assert_eq!(m.clone().per(s.clone()), ratio(m.clone(), s.clone()));
    // a power is not cancelled by division
    assert_eq!(
        power(m.clone(), 2).per(m.clone()),
        ratio(power(m.clone(), 2), m.clone())
    );
}
