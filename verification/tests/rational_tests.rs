use rendercore::rational::{rat_add, rat_le, rat_lt, rat_mul, rat_recip, rat_sub, Rat};

#[test]
fn rational_arithmetic_is_exact() {
    let half = Rat::new(1, 2);
    let third = Rat::new(1, 3);
    let sum = rat_add(half, third);
    // 1/2 + 1/3 == 5/6.
    assert_eq!(sum.num, 5);
    assert_eq!(sum.den, 6);
    let diff = rat_sub(half, third);
    assert_eq!(diff.num, 1);
    assert_eq!(diff.den, 6);
    let prod = rat_mul(half, third);
    assert_eq!(prod.num, 1);
    assert_eq!(prod.den, 6);
    let inv = rat_recip(Rat::new(3, 7));
    assert_eq!(inv.num, 7);
    assert_eq!(inv.den, 3);
}

#[test]
fn rational_comparison_cross_multiplies() {
    let a = Rat::new(2, 6);
    let b = Rat::new(1, 3);
    // Equal quantities in different representations.
    assert!(rat_le(a, b));
    assert!(rat_le(b, a));
    assert!(!rat_lt(a, b));
    assert!(rat_lt(Rat::new(-1, 2), Rat::new(1, 3)));
    assert!(rat_lt(Rat::whole(2), Rat::new(7, 3)));
}
