use pbrtrs_lib::numeric::Numeric;

#[test]
fn limits_are_those_of_the_type() {
    assert_eq!(<i32 as Numeric>::m_max_value(), i32::MAX);
    assert_eq!(<i32 as Numeric>::m_min_value(), i32::MIN);
    assert_eq!(<i64 as Numeric>::m_max_value(), i64::MAX);
    assert_eq!(<i64 as Numeric>::m_min_value(), i64::MIN);
}

#[test]
fn absolute_value() {
    assert_eq!(5i32.m_abs(), 5);
    assert_eq!((-5i32).m_abs(), 5);
    assert_eq!(0i64.m_abs(), 0);
    assert_eq!((i64::MIN + 1).m_abs(), i64::MAX);
}

#[test]
fn euclidean_division_leaves_a_remainder_that_is_not_negative() {
    assert_eq!(7i32.m_div_euclid(2), 3);
    assert_eq!(7i32.m_rem_euclid(2), 1);
    assert_eq!((-7i32).m_div_euclid(2), -4);
    assert_eq!((-7i32).m_rem_euclid(2), 1);
    assert_eq!(7i32.m_div_euclid(-2), -3);
    assert_eq!(7i32.m_rem_euclid(-2), 1);
    assert_eq!((-7i64).m_div_euclid(-2), 4);
    assert_eq!((-7i64).m_rem_euclid(-2), 1);
    assert_eq!(i64::MIN.m_div_euclid(1), i64::MIN);
    assert_eq!(i64::MIN.m_rem_euclid(2), 0);
}

#[test]
fn euclidean_division_agrees_with_the_standard_one() {
    let samples: [i32; 7] = [i32::MIN + 1, -9, -1, 0, 1, 10, i32::MAX];
    let divisors: [i32; 6] = [-7, -2, -1, 1, 3, 8];
    for a in samples {
        for b in divisors {
            assert_eq!(a.m_div_euclid(b), a.div_euclid(b));
            assert_eq!(a.m_rem_euclid(b), a.rem_euclid(b));
            assert_eq!(a.m_div_euclid(b) * b + a.m_rem_euclid(b), a);
        }
    }
}

#[test]
fn sign() {
    assert_eq!(12i32.m_signum(), 1);
    assert_eq!(0i32.m_signum(), 0);
    assert_eq!((-12i32).m_signum(), -1);
    assert_eq!(i64::MIN.m_signum(), -1);
    assert_eq!(i64::MAX.m_signum(), 1);
}

#[test]
fn larger_and_smaller() {
    assert_eq!(3i32.m_max(-4), 3);
    assert_eq!(3i32.m_min(-4), -4);
    assert_eq!((-4i64).m_max(3), 3);
    assert_eq!((-4i64).m_min(3), -4);
    assert_eq!(6i64.m_max(6), 6);
    assert_eq!(6i64.m_min(6), 6);
}
