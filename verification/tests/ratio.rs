use tensile::engine::Ratio;

fn ratio(num: u128, den: u128) -> Ratio {
    Ratio::new(num, den).unwrap()
}

#[test]
fn a_ratio_needs_a_denominator() {
    assert!(Ratio::new(1, 0).is_none());
    assert!(Ratio::new(0, 0).is_none());
    let r = ratio(3, 4);
    assert_eq!((r.numerator(), r.denominator()), (3, 4));
    assert!(!r.is_zero());
    assert!(Ratio::zero().is_zero());
    assert!(ratio(0, 9).is_zero());
    assert_eq!(Ratio::zero().denominator(), 1);
}

#[test]
fn ratios_compare_as_numbers() {
    assert!(ratio(1, 2).ge(&ratio(1, 2)));
    assert!(ratio(2, 4).ge(&ratio(1, 2)));
    assert!(ratio(1, 2).ge(&ratio(2, 4)));
    assert!(!ratio(2, 4).gt(&ratio(1, 2)));
    assert!(ratio(2, 3).gt(&ratio(1, 2)));
    assert!(!ratio(1, 2).ge(&ratio(2, 3)));
    assert!(ratio(7, 1).gt(&ratio(13, 2)));
    assert!(ratio(13, 2).gt(&ratio(6, 1)));
    assert!(ratio(0, 5).ge(&ratio(0, 7)));
    assert!(!ratio(0, 5).gt(&ratio(0, 7)));
    assert!(ratio(1, 1_000_000).gt(&ratio(0, 1)));
    assert!(ratio(355, 113).gt(&ratio(22, 7)) == false);
    assert!(ratio(22, 7).gt(&ratio(355, 113)));
}

#[test]
fn ratios_compare_exactly_where_products_would_overflow() {
    let m = u128::MAX;
    assert!(ratio(m, m).ge(&ratio(1, 1)));
    assert!(ratio(1, 1).ge(&ratio(m, m)));
    assert!(ratio(m, m - 1).gt(&ratio(1, 1)));
    assert!(ratio(m - 1, m).gt(&ratio(m - 2, m - 1)));
    assert!(!ratio(m - 2, m - 1).ge(&ratio(m - 1, m)));
    assert!(ratio(m, 1).gt(&ratio(m - 1, 1)));
    assert!(ratio(m, 2).gt(&ratio(m / 2, 1)));
    assert!(ratio(m / 2, 1).ge(&ratio(m - 1, 2)));
    assert!(ratio(m - 1, 2).ge(&ratio(m / 2, 1)));
    assert!(ratio(1, m).gt(&ratio(0, 1)));
    assert!(ratio(1, m - 1).gt(&ratio(1, m)));
    // Consecutive Fibonacci numbers make the comparison descend all the way.
    let (mut a, mut b) = (1u128, 1u128);
    let mut grows = true;
    while let Some(c) = a.checked_add(b) {
        // b/a and c/b are neighbouring convergents of the golden ratio;
        // they alternate around it.
        assert_eq!(ratio(c, b).gt(&ratio(b, a)), grows);
        assert_eq!(ratio(b, a).gt(&ratio(c, b)), !grows);
        grows = !grows;
        a = b;
        b = c;
    }
}

#[test]
fn the_order_of_ratios_agrees_with_cross_multiplication() {
    let values: Vec<(u128, u128)> = (0..12u128)
        .flat_map(|n| (1..9u128).map(move |d| (n, d)))
        .collect();
    for &(a, b) in &values {
        for &(c, d) in &values {
            assert_eq!(ratio(a, b).ge(&ratio(c, d)), a * d >= c * b);
            assert_eq!(ratio(a, b).gt(&ratio(c, d)), a * d > c * b);
        }
    }
}
