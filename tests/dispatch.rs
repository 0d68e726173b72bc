use special_functions::{cos_branch, quadrant, sin_branch, Branch, Kernel};

fn branch(kernel: Kernel, negated: bool) -> Branch {
    Branch { kernel, negated }
}

#[test]
fn quadrant_of_small_counts() {
    let expected = [0u8, 1, 2, 3, 0, 1, 2, 3];
    for n in 0..8i64 {
        assert_eq!(quadrant(n), expected[n as usize]);
    }
}

#[test]
fn quadrant_of_large_counts() {
    assert_eq!(quadrant(i64::MAX), 3);
    assert_eq!(quadrant(1 << 53), 0);
    assert_eq!(quadrant((1 << 53) + 2), 2);
}

#[test]
fn quadrant_of_negative_counts() {
    assert_eq!(quadrant(-1), 3);
    assert_eq!(quadrant(-2), 2);
    assert_eq!(quadrant(-4), 0);
    assert_eq!(quadrant(i64::MIN), 0);
}

#[test]
fn sine_branches_by_quadrant() {
    assert_eq!(sin_branch(0), branch(Kernel::Sine, false));
    assert_eq!(sin_branch(1), branch(Kernel::Cosine, false));
    assert_eq!(sin_branch(2), branch(Kernel::Sine, true));
    assert_eq!(sin_branch(3), branch(Kernel::Cosine, true));
}

#[test]
fn cosine_branches_by_quadrant() {
    assert_eq!(cos_branch(0), branch(Kernel::Cosine, false));
    assert_eq!(cos_branch(1), branch(Kernel::Sine, true));
    assert_eq!(cos_branch(2), branch(Kernel::Cosine, true));
    assert_eq!(cos_branch(3), branch(Kernel::Sine, false));
}

#[test]
fn branches_repeat_every_two_half_turns_apart() {
    // x and x + 2 reduce to half-turn counts n and n + 4
    for n in 0..64i64 {
        let q = quadrant(n);
        let q4 = quadrant(n + 4);
        assert_eq!(sin_branch(q), sin_branch(q4));
        assert_eq!(cos_branch(q), cos_branch(q4));
    }
}

#[test]
fn half_turn_negates_both_results() {
    // sin(θ + π) = −sin θ and cos(θ + π) = −cos θ
    for q in 0..2u8 {
        let (s, s2) = (sin_branch(q), sin_branch(q + 2));
        let (c, c2) = (cos_branch(q), cos_branch(q + 2));
        assert_eq!(s.kernel, s2.kernel);
        assert_ne!(s.negated, s2.negated);
        assert_eq!(c.kernel, c2.kernel);
        assert_ne!(c.negated, c2.negated);
    }
}
