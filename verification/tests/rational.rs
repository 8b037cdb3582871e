use glyphmesh::rational::Rat;

#[test]
fn rational_constructor_rejects_nonpositive_denominator() {
    assert_eq!(Rat::new(1, 0), None);
    assert_eq!(Rat::new(1, -2), None);
    assert_eq!(Rat::new(-3, 2), Some(Rat { num: -3, den: 2 }));
    assert_eq!(Rat::from_int(-7), Rat { num: -7, den: 1 });
}

#[test]
fn rational_arithmetic_is_exact() {
    let half = Rat { num: 1, den: 2 };
    let third = Rat { num: 1, den: 3 };
    let sum = half.add(third);
    assert_eq!((sum.num, sum.den), (5, 6));
    let diff = half.sub(third);
    assert_eq!((diff.num, diff.den), (1, 6));
    let prod = half.mul(third);
    assert_eq!((prod.num, prod.den), (1, 6));
    let neg = half.neg();
    assert_eq!((neg.num, neg.den), (-1, 2));
}

#[test]
fn rational_results_are_not_reduced() {
    // Results keep the exact computed numerator and denominator, so equal
    // inputs always give identical representations.
    let a = Rat { num: 2, den: 4 };
    let b = Rat { num: 1, den: 2 };
    let s1 = a.add(b);
    let s2 = a.add(b);
    assert_eq!(s1, s2);
    assert_eq!((s1.num, s1.den), (2 * 2 + 1 * 4, 8));
    // Value equality by cross-multiplication: 8/8 == 1/1.
    assert_eq!(s1.num * 1, 1 * s1.den);
}
