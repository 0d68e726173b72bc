//! Quadrant logic behind `sin(πx)` and `cos(πx)`.
//!
//! An argument is reduced to `x = n/2 + rx` with `|rx| ≤ 1/4`; the integer `n`
//! then decides which of the two kernels (`sin(π·rx)` or `cos(π·rx)`) gives each
//! result, and with which sign. That decision, and the plan for arguments that
//! are NaN, infinite or too large to keep a fraction, is what this crate verifies.

mod quadrant;

pub use quadrant::{
    cos_branch, cos_plan, quadrant, sin_branch, sin_plan, sincos_plan, Branch, InputClass, Kernel,
    Outcome,
};
