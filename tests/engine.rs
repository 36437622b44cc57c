use gauss_elim_game::{
    format_value, from_integer, is_nan, is_one, is_zero, negated, same_value, Equation, System,
    COEFFICIENT_LIMIT, NEGATIVE_ZERO, ONE, POSITIVE_ZERO, SOLUTION_LIMIT, SYSTEM_SIZE,
};

fn row(coefficients: [f64; SYSTEM_SIZE], solution: f64) -> Equation {
    Equation::new(coefficients.map(f64::to_bits), solution.to_bits())
}

fn system(rows: [([f64; SYSTEM_SIZE], f64); SYSTEM_SIZE]) -> System {
    System::new(rows.map(|(c, s)| row(c, s)))
}

fn values(e: &Equation) -> ([f64; SYSTEM_SIZE], f64) {
    (e.coefficients.map(f64::from_bits), f64::from_bits(e.solution))
}

fn shown(x: f64) -> String {
    format_value(x.to_bits(), &format!("{}", x), &format!("{:.3}", x))
}

#[test]
fn hint_pending_entry_above_last_pivot() {
    let s = system([
        ([1.0, 0.0, 0.0, 0.0], 1.0),
        ([0.0, 1.0, 0.0, 0.0], 2.0),
        ([0.0, 0.0, 2.0, 3.0], 6.0),
        ([0.0, 0.0, 0.0, 1.0], 4.0),
    ]);
    assert_eq!(s.hint(), Some((2, 3, 3)));
}

#[test]
fn hint_stuck_on_zero_pivot() {
    let s = system([
        ([0.0, 1.0, 0.0, 0.0], 2.0),
        ([1.0, 0.0, 0.0, 0.0], 1.0),
        ([0.0, 0.0, 1.0, 0.0], 3.0),
        ([0.0, 0.0, 0.0, 1.0], 4.0),
    ]);
    assert!(!s.can_make_coefficient_0_with_row(0, 0));
    assert!(!s.can_make_coefficient_0_with_row(1, 1));
    assert_eq!(s.hint(), None);
}

#[test]
fn hint_after_swap_unsticks() {
    let mut s = system([
        ([0.0, 1.0, 0.0, 0.0], 2.0),
        ([1.0, 0.0, 0.0, 0.0], 1.0),
        ([0.0, 0.0, 1.0, 0.0], 3.0),
        ([0.0, 0.0, 0.0, 1.0], 4.0),
    ]);
    s.switch_rows(0, 1);
    assert_eq!(s.hint(), None);
    assert!(s.can_make_coefficient_0_with_row(0, 0));
}

#[test]
fn hint_identity_is_none() {
    let s = system([
        ([1.0, 0.0, 0.0, 0.0], 1.0),
        ([0.0, 1.0, 0.0, 0.0], 2.0),
        ([0.0, 0.0, 1.0, 0.0], 3.0),
        ([0.0, 0.0, 0.0, 1.0], 4.0),
    ]);
    assert_eq!(s.hint(), None);
}

#[test]
fn hint_forward_pass_comes_first() {
    let s = system([
        ([2.0, 5.0, 0.0, 0.0], 1.0),
        ([0.0, 1.0, 0.0, 0.0], 2.0),
        ([0.0, 0.0, 1.0, 0.0], 3.0),
        ([0.0, 0.0, 7.0, 1.0], 4.0),
    ]);
    assert_eq!(s.hint(), Some((3, 2, 2)));
}

#[test]
fn hint_columns_left_to_right_rows_downward() {
    let s = system([
        ([2.0, 1.0, 1.0, 1.0], 1.0),
        ([0.0, 3.0, 1.0, 1.0], 2.0),
        ([4.0, 1.0, 1.0, 1.0], 3.0),
        ([5.0, 1.0, 1.0, 1.0], 4.0),
    ]);
    assert_eq!(s.hint(), Some((2, 0, 0)));
}

#[test]
fn hint_negative_zero_counts_as_zero() {
    let s = system([
        ([1.0, 0.0, 0.0, 0.0], 1.0),
        ([-0.0, 1.0, 0.0, 0.0], 2.0),
        ([0.0, -0.0, 1.0, 0.0], 3.0),
        ([-0.0, 0.0, 0.0, 1.0], 4.0),
    ]);
    assert_eq!(s.hint(), None);
}

#[test]
fn switch_rows_twice_restores() {
    let original = System::random();
    let mut s = original;
    s.switch_rows(1, 3);
    assert_eq!(s.equations[1].coefficients, original.equations[3].coefficients);
    assert_eq!(s.equations[3].solution, original.equations[1].solution);
    s.switch_rows(1, 3);
    for i in 0..SYSTEM_SIZE {
        assert_eq!(s.equations[i].coefficients, original.equations[i].coefficients);
        assert_eq!(s.equations[i].solution, original.equations[i].solution);
    }
}

#[test]
fn switch_rows_with_itself_changes_nothing() {
    let s0 = system([
        ([1.0, 2.0, 3.0, 4.0], 5.0),
        ([6.0, 7.0, 8.0, 9.0], 10.0),
        ([0.5, 0.25, 0.0, -1.0], 3.0),
        ([0.0, 0.0, 0.0, 1.0], 4.0),
    ]);
    let mut s = s0;
    s.switch_rows(2, 2);
    assert!(s == s0);
    assert_eq!(values(&s.equations[2]), ([0.5, 0.25, 0.0, -1.0], 3.0));
}

#[test]
fn make_coefficient_1_guards() {
    let e = row([0.0, 1.0, -0.0, 2.5], 1.0);
    assert!(!e.can_make_coefficient_1(0));
    assert!(!e.should_make_coefficient_1(0));
    assert!(e.can_make_coefficient_1(1));
    assert!(!e.should_make_coefficient_1(1));
    assert!(!e.can_make_coefficient_1(2));
    assert!(e.can_make_coefficient_1(3));
    assert!(e.should_make_coefficient_1(3));
    let s = System::new([e, e, e, e]);
    assert!(s.can_make_coefficient_1(2, 1));
    assert!(!s.should_make_coefficient_1(2, 1));
    assert!(s.should_make_coefficient_1(0, 3));
    assert!(!s.can_make_coefficient_1(3, 2));
}

#[test]
fn make_coefficient_1_guard_nan() {
    let e = row([f64::NAN, f64::INFINITY, 1.0, 0.0], 0.0);
    assert!(e.should_make_coefficient_1(0));
    assert!(e.should_make_coefficient_1(1));
}

#[test]
fn make_coefficient_0_guards() {
    let s = system([
        ([1.0, 0.0, 3.0, 0.0], 1.0),
        ([2.0, 0.0, 0.0, 0.0], 2.0),
        ([0.0, 4.0, 0.0, 0.0], 3.0),
        ([-0.0, 0.0, 5.0, 1.0], 4.0),
    ]);
    assert!(s.can_make_coefficient_0_with_row(0, 0));
    assert!(!s.can_make_coefficient_0_with_row(0, 3));
    assert!(s.should_make_coefficient_0_with_row(1, 0, 0));
    assert!(!s.should_make_coefficient_0_with_row(3, 0, 0));
    assert!(!s.should_make_coefficient_0_with_row(0, 1, 1));
    assert!(s.can_make_coefficient_0_with_row(1, 2));
    assert!(s.should_make_coefficient_0_with_row(0, 2, 3));
}

#[test]
fn format_negative_zero() {
    assert_eq!(shown(-0.0), "0");
    assert_eq!(shown(0.0), "0");
}

#[test]
fn format_whole_number() {
    assert_eq!(shown(2.0), "2");
    assert_eq!(shown(-7.0), "-7");
}

#[test]
fn format_rounds_only_when_shorter() {
    assert_eq!(shown(1.0 / 3.0), "0.333");
    assert_eq!(shown(2.0 / 3.0), "0.667");
    assert_eq!(shown(0.1234), "0.123");
    assert_eq!(shown(0.5), "0.5");
    assert_eq!(shown(0.125), "0.125");
}

#[test]
fn format_value_picks_between_texts() {
    assert_eq!(format_value(ONE, "abc", "de"), "de");
    assert_eq!(format_value(ONE, "ab", "de"), "ab");
    assert_eq!(format_value(NEGATIVE_ZERO, "ab", "de"), "0");
}

#[test]
fn from_integer_matches_conversion() {
    for n in -1000..=1000 {
        assert_eq!(from_integer(n), (n as f64).to_bits(), "{}", n);
    }
    for n in [i32::MIN, i32::MAX, 1 << 30, -(1 << 30) + 7, 123_456_789] {
        assert_eq!(from_integer(n), (n as f64).to_bits(), "{}", n);
    }
    assert_eq!(from_integer(0), POSITIVE_ZERO);
}

#[test]
fn random_equation_in_range() {
    for _ in 0..200 {
        let (coefficients, solution) = values(&Equation::random());
        for c in coefficients {
            assert_eq!(c, c.trunc());
            assert!(c.abs() <= COEFFICIENT_LIMIT as f64);
        }
        assert_eq!(solution, solution.trunc());
        assert!(solution.abs() <= SOLUTION_LIMIT as f64);
    }
}

#[test]
fn random_system_in_range() {
    let mut seen_distinct_rows = false;
    for _ in 0..50 {
        let s = System::random();
        for e in s.equations.iter() {
            let (coefficients, solution) = values(e);
            for c in coefficients {
                assert_eq!(c, c.trunc());
                assert!((-5.0..=5.0).contains(&c));
            }
            assert!((-10.0..=10.0).contains(&solution));
        }
        if s.equations[0] != s.equations[1] {
            seen_distinct_rows = true;
        }
    }
    assert!(seen_distinct_rows);
}

#[test]
fn negate_equation() {
    let e = row([1.0, -2.5, 0.0, -0.0], 3.0);
    let n = e.negate();
    assert_eq!(values(&n).0.map(f64::to_bits), [-1.0f64, 2.5, -0.0, 0.0].map(f64::to_bits));
    assert_eq!(values(&n).1, -3.0);
    assert!(n.negate() == e);
}

#[test]
fn negate_system() {
    let s = system([
        ([1.0, 0.0, 0.0, 0.0], 1.0),
        ([0.0, 2.0, 0.0, 0.0], -2.0),
        ([0.0, 0.0, 3.0, 0.0], 3.0),
        ([0.0, 0.0, 0.0, 4.0], -4.0),
    ]);
    let n = s.negate();
    assert_eq!(values(&n.equations[1]), ([-0.0, -2.0, -0.0, -0.0], 2.0));
    assert_eq!(values(&n.equations[3]).1, 4.0);
    assert!(n != s);
    assert!(n.negate() == s);
}

#[test]
fn equality_is_floating_point_equality() {
    let a = row([0.0, 1.0, 2.0, 3.0], 4.0);
    let b = row([-0.0, 1.0, 2.0, 3.0], 4.0);
    assert!(a == b);
    let c = row([f64::NAN, 1.0, 2.0, 3.0], 4.0);
    assert!(c != c);
    let d = row([0.0, 1.0, 2.0, 3.0], 5.0);
    assert!(a != d);
}

#[test]
fn bit_pattern_tests() {
    assert!(is_zero(0.0f64.to_bits()));
    assert!(is_zero((-0.0f64).to_bits()));
    assert!(!is_zero(f64::MIN_POSITIVE.to_bits()));
    assert!(!is_zero(f64::NAN.to_bits()));
    assert!(is_one(1.0f64.to_bits()));
    assert!(!is_one((-1.0f64).to_bits()));
    assert!(is_nan(f64::NAN.to_bits()));
    assert!(!is_nan(f64::INFINITY.to_bits()));
    assert!(same_value(0.0f64.to_bits(), (-0.0f64).to_bits()));
    assert!(!same_value(f64::NAN.to_bits(), f64::NAN.to_bits()));
    assert_eq!(negated(2.5f64.to_bits()), (-2.5f64).to_bits());
    assert_eq!(negated(0.0f64.to_bits()), NEGATIVE_ZERO);
    assert_eq!(ONE, 1.0f64.to_bits());
}
