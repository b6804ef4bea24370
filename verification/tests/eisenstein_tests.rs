use hexgrid::eisenstein::EisensteinInteger;

#[test]
fn test_eisenstein_integers_add() {
    let x = EisensteinInteger::new(1, 2);
    let y = EisensteinInteger::new(3, 4);
    assert_eq!(x + y, EisensteinInteger::new(4, 6));

    let x = EisensteinInteger::new(-1, -2);
    let y = EisensteinInteger::new(-3, -4);
    assert_eq!(x + y, EisensteinInteger::new(-4, -6));
}

#[test]
fn test_eisenstein_integers_multiply() {
    assert_eq!(
        EisensteinInteger::omega() * EisensteinInteger::omega(),
        EisensteinInteger::new(-1, -1)
    );

    let x = EisensteinInteger::new(1, 2);

    assert_eq!(x * EisensteinInteger::zero(), EisensteinInteger::zero());
    assert_eq!(x * EisensteinInteger::one(), x);

    let y = EisensteinInteger::new(3, 4);

    let expected_a = 1 * 3 - 2 * 4;
    let expected_b = 1 * 4 + 2 * 3 - 2 * 4;
    let expected = EisensteinInteger::new(expected_a, expected_b);
    assert_eq!(x * y, expected);
}

#[test]
fn test_add_is_commutative_and_associative() {
    let x = EisensteinInteger::new(5, -7);
    let y = EisensteinInteger::new(-2, 11);
    let z = EisensteinInteger::new(13, 3);
    assert_eq!(x + y, y + x);
    assert_eq!((x + y) + z, x + (y + z));
}

#[test]
fn test_zero_is_additive_identity() {
    let x = EisensteinInteger::new(9, -4);
    assert_eq!(x + EisensteinInteger::zero(), x);
}

#[test]
fn test_scalar_add_affects_rational_part_only() {
    let x = EisensteinInteger::new(7, -3);
    assert_eq!(x + 5, EisensteinInteger::new(12, -3));
    assert_eq!(5 + x, EisensteinInteger::new(12, -3));
    assert_eq!(x + (-9), EisensteinInteger::new(-2, -3));
}

#[test]
fn test_scalar_mul_scales_both_parts() {
    let x = EisensteinInteger::new(7, -3);
    assert_eq!(x * 4, EisensteinInteger::new(28, -12));
    assert_eq!(4 * x, EisensteinInteger::new(28, -12));
    assert_eq!(x * 0, EisensteinInteger::zero());
}

#[test]
fn test_default_is_zero() {
    assert_eq!(EisensteinInteger::default(), EisensteinInteger::zero());
}
