use vstd::prelude::*;

verus! {

/// The kernel that approximates one of the two results on the reduced argument.
#[derive(Clone, Copy, Debug, PartialEq, Eq, Structural)]
pub enum Kernel {
    /// `sin(π·rx)`
    Sine,
    /// `cos(π·rx)`
    Cosine,
}

/// A result expressed through a kernel value: `kernel(rx)`, or its negation.
#[derive(Clone, Copy, Debug, PartialEq, Eq, Structural)]
pub struct Branch {
    pub kernel: Kernel,
    pub negated: bool,
}

/// The same kernel with the opposite sign.
pub open spec fn negate(b: Branch) -> Branch {
    Branch { kernel: b.kernel, negated: !b.negated }
}

/// `(sin(π(rx + k/2)), cos(π(rx + k/2)))` written over the kernels, one quarter
/// turn at a time: `sin(θ + π/2) = cos θ` and `cos(θ + π/2) = −sin θ`.
pub open spec fn quarter_turns(k: nat) -> (Branch, Branch)
    decreases k,
{
    if k == 0 {
        (
            Branch { kernel: Kernel::Sine, negated: false },
            Branch { kernel: Kernel::Cosine, negated: false },
        )
    } else {
        let prev = quarter_turns((k - 1) as nat);
        (prev.1, negate(prev.0))
    }
}

/// Turning `k` quarter turns lands on the same branches as turning `k mod 4`:
/// the two low bits of the half-turn count decide the kernels and signs, so an
/// argument and that argument plus two share them.
pub proof fn lemma_quarter_turns_mod4(k: nat)
    ensures
        quarter_turns(k) == quarter_turns(k % 4),
    decreases k,
{
    reveal_with_fuel(quarter_turns, 5);
    if k >= 4 {
        let j = (k - 4) as nat;
        lemma_quarter_turns_mod4(j);
        lemma_four_turns(j);
        assert(k % 4 == j % 4);
    }
}

/// Four quarter turns bring both branches back to where they started.
proof fn lemma_four_turns(k: nat)
    ensures
        quarter_turns(k + 4) == quarter_turns(k),
    decreases k,
{
    reveal_with_fuel(quarter_turns, 5);
    if k > 0 {
        lemma_four_turns((k - 1) as nat);
        let before = quarter_turns((k + 3) as nat);
        assert(quarter_turns(k + 4) == (before.1, negate(before.0)));
    }
}

/// The quadrant of a half-turn count `n`: `n mod 4`, taken from its two low bits.
pub fn quadrant(n: i64) -> (q: u8)
    ensures
        q as int == n as int % 4,
{
    let low = n & 3i64;
    assert(n & 3i64 == n % 4i64 || n & 3i64 == n % 4i64 + 4i64) by (bit_vector);
    assert(0 <= n & 3i64 <= 3) by (bit_vector);
    low as u8
}

/// Which kernel gives `sin(πx)` in quadrant `q`, and whether it is negated.
pub fn sin_branch(q: u8) -> (b: Branch)
    requires
        q < 4,
    ensures
        b == quarter_turns(q as nat).0,
{
    reveal_with_fuel(quarter_turns, 4);
    match q {
        0 => Branch { kernel: Kernel::Sine, negated: false },
        1 => Branch { kernel: Kernel::Cosine, negated: false },
        2 => Branch { kernel: Kernel::Sine, negated: true },
        _ => Branch { kernel: Kernel::Cosine, negated: true },
    }
}

/// Which kernel gives `cos(πx)` in quadrant `q`, and whether it is negated.
pub fn cos_branch(q: u8) -> (b: Branch)
    requires
        q < 4,
    ensures
        b == quarter_turns(q as nat).1,
{
    reveal_with_fuel(quarter_turns, 4);
    match q {
        0 => Branch { kernel: Kernel::Cosine, negated: false },
        1 => Branch { kernel: Kernel::Sine, negated: true },
        2 => Branch { kernel: Kernel::Cosine, negated: true },
        _ => Branch { kernel: Kernel::Sine, negated: false },
    }
}

/// What is known of an argument before any kernel runs.
#[derive(Clone, Copy, Debug, PartialEq, Eq, Structural)]
pub enum InputClass {
    /// Not a number.
    Nan,
    /// `+∞` or `−∞`, outside the domain.
    Infinite,
    /// So large in magnitude that no fraction of a period is left.
    Saturated,
    /// Finite, with `|x| = half_turns/2 + rx` and `|rx| ≤ 1/4`.
    Finite { half_turns: i64 },
}

/// How one result is produced.
#[derive(Clone, Copy, Debug, PartialEq, Eq, Structural)]
pub enum Outcome {
    /// The result is NaN.
    Nan,
    /// The argument is outside the domain: there is no result.
    DomainError,
    /// The result is `1` when `one`, else `0`, with a negative sign when `negative`.
    Constant { one: bool, negative: bool },
    /// The result is the branch's kernel value on the reduced argument.
    Evaluate(Branch),
}

/// A branch, negated when `negative`.
pub open spec fn signed(b: Branch, negative: bool) -> Branch {
    if negative {
        negate(b)
    } else {
        b
    }
}

/// The same outcome for the argument of opposite sign, for an odd function.
pub open spec fn mirror(o: Outcome) -> Outcome {
    match o {
        Outcome::Constant { one, negative } => Outcome::Constant { one, negative: !negative },
        Outcome::Evaluate(b) => Outcome::Evaluate(negate(b)),
        _ => o,
    }
}

/// How `sin(πx)` is produced, `negative` being the sign of `x`: an odd function,
/// so the reduction of `|x|` gives the branch and a negative `x` negates it.
pub open spec fn sin_outcome(class: InputClass, negative: bool) -> Outcome {
    match class {
        InputClass::Nan => Outcome::Nan,
        InputClass::Infinite => Outcome::DomainError,
        InputClass::Saturated => Outcome::Constant { one: false, negative },
        InputClass::Finite { half_turns } => Outcome::Evaluate(
            signed(quarter_turns((half_turns % 4) as nat).0, negative),
        ),
    }
}

/// How `cos(πx)` is produced: an even function, so the sign of `x` matters only
/// to the saturated constant, which takes it.
pub open spec fn cos_outcome(class: InputClass, negative: bool) -> Outcome {
    match class {
        InputClass::Nan => Outcome::Nan,
        InputClass::Infinite => Outcome::DomainError,
        InputClass::Saturated => Outcome::Constant { one: true, negative },
        InputClass::Finite { half_turns } => Outcome::Evaluate(
            quarter_turns((half_turns % 4) as nat).1,
        ),
    }
}

/// The branch, negated when `negative`.
fn signed_branch(b: Branch, negative: bool) -> (r: Branch)
    ensures
        r == signed(b, negative),
{
    if negative {
        Branch { kernel: b.kernel, negated: !b.negated }
    } else {
        b
    }
}

/// The plan for `sin(πx)`: NaN stays NaN, an infinity is a domain error, a
/// saturated argument gives a zero with the sign of `x`, and a finite one the
/// quadrant's branch, negated for a negative `x`.
pub fn sin_plan(class: InputClass, negative: bool) -> (r: Outcome)
    ensures
        r == sin_outcome(class, negative),
{
    match class {
        InputClass::Nan => Outcome::Nan,
        InputClass::Infinite => Outcome::DomainError,
        InputClass::Saturated => Outcome::Constant { one: false, negative },
        InputClass::Finite { half_turns } => {
            let b = sin_branch(quadrant(half_turns));
            Outcome::Evaluate(signed_branch(b, negative))
        },
    }
}

/// The plan for `cos(πx)`: NaN stays NaN, an infinity is a domain error, a
/// saturated argument gives a one with the sign of `x`, and a finite one the
/// quadrant's branch, whatever the sign of `x`.
pub fn cos_plan(class: InputClass, negative: bool) -> (r: Outcome)
    ensures
        r == cos_outcome(class, negative),
{
    match class {
        InputClass::Nan => Outcome::Nan,
        InputClass::Infinite => Outcome::DomainError,
        InputClass::Saturated => Outcome::Constant { one: true, negative },
        InputClass::Finite { half_turns } => Outcome::Evaluate(cos_branch(quadrant(half_turns))),
    }
}

/// The plans for `sin(πx)` and `cos(πx)` together: exactly the two single plans,
/// from one reduction.
pub fn sincos_plan(class: InputClass, negative: bool) -> (r: (Outcome, Outcome))
    ensures
        r == (sin_outcome(class, negative), cos_outcome(class, negative)),
{
    (sin_plan(class, negative), cos_plan(class, negative))
}

/// The sine plan is odd in every class: the argument of opposite sign gives the
/// mirrored outcome. The cosine plan is even in every class but the saturated
/// one, where the constant takes the sign of the argument.
pub proof fn lemma_plans_odd_even(class: InputClass)
    ensures
        sin_outcome(class, true) == mirror(sin_outcome(class, false)),
        class != InputClass::Saturated ==> cos_outcome(class, true) == cos_outcome(class, false),
{
}

/// Arguments two apart, with half-turn counts `n` and `n + 4`, get the same
/// plans.
pub proof fn lemma_plans_periodic(n: i64, negative: bool)
    requires
        n <= i64::MAX - 4,
    ensures
        sin_outcome(InputClass::Finite { half_turns: (n + 4) as i64 }, negative)
            == sin_outcome(InputClass::Finite { half_turns: n }, negative),
        cos_outcome(InputClass::Finite { half_turns: (n + 4) as i64 }, negative)
            == cos_outcome(InputClass::Finite { half_turns: n }, negative),
{
    assert((n + 4) % 4 == n % 4);
}

} // verus!
