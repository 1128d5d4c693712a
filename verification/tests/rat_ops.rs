use quadtrace::rat::Rat;

fn q(n: i64, d: i64) -> Rat {
    Rat::new(n, d).unwrap()
}

#[test]
fn new_reduces_fraction() {
    assert_eq!(Rat::new(2, 4), Some(Rat { num: 1, den: 2 }));
    assert_eq!(Rat::new(-6, 4), Some(Rat { num: -3, den: 2 }));
    assert_eq!(Rat::new(0, 7), Some(Rat { num: 0, den: 1 }));
}

#[test]
fn from_int_is_whole() {
    assert_eq!(Rat::from_int(-42), Rat { num: -42, den: 1 });
}

#[test]
fn add_is_exact() {
    assert_eq!(q(1, 2).checked_add(q(1, 3)), Some(Rat { num: 5, den: 6 }));
    assert_eq!(q(1, 2).checked_add(q(-1, 2)), Some(Rat { num: 0, den: 1 }));
}

#[test]
fn sub_is_exact() {
    assert_eq!(q(1, 2).checked_sub(q(1, 3)), Some(Rat { num: 1, den: 6 }));
}

#[test]
fn mul_is_exact_and_reduces() {
    assert_eq!(q(2, 3).checked_mul(q(3, 4)), Some(Rat { num: 1, den: 2 }));
}

#[test]
fn mul_out_of_range_is_none() {
    let big: Rat = Rat::from_int(i64::MAX);
    assert_eq!(big.checked_mul(big), None);
}

#[test]
fn inv_keeps_sign_on_numerator() {
    assert_eq!(q(-2, 3).checked_inv(), Some(Rat { num: -3, den: 2 }));
    assert_eq!(q(5, 1).checked_inv(), Some(Rat { num: 1, den: 5 }));
    assert_eq!(q(0, 1).checked_inv(), None);
}

#[test]
fn comparisons_are_exact() {
    assert!(Rat { num: 2, den: 4 }.is_eq(q(1, 2)));
    assert!(q(1, 3).lt(q(1, 2)));
    assert!(!q(1, 2).lt(q(1, 2)));
    assert!(q(1, 2).le(q(1, 2)));
    assert!(q(-1, 2).lt(q(1, 100)));
}

#[test]
fn min_max_pick_the_right_operand() {
    assert_eq!(q(1, 3).min_r(q(1, 2)), q(1, 3));
    assert_eq!(q(1, 3).max_r(q(1, 2)), q(1, 2));
    assert_eq!(q(7, 2).min_r(q(7, 2)), q(7, 2));
}
