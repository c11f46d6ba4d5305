use vstd::prelude::*;

verus! {

/// The largest operand plus one: operands are single decimal digits.
pub const OPERAND_BOUND: u16 = 10;

/// One exercise: the product `a * b` of two single-digit operands.
#[derive(Clone, Copy, Debug, PartialEq, Eq)]
pub struct Problem {
    pub a: u16,
    pub b: u16,
}

impl Problem {
    /// Both operands are single digits.
    pub open spec fn wf(&self) -> bool {
        self.a < 10 && self.b < 10
    }

    /// The true answer.
    pub open spec fn product(&self) -> int {
        self.a * self.b
    }

    /// The true answer, computed; it never exceeds 81.
    pub fn correct_answer(&self) -> (r: u16)
        requires
            self.wf(),
        ensures
            r == self.product(),
            r <= 81,
    {
        assert(self.a * self.b <= 81) by (nonlinear_arith)
            requires
                self.a < 10,
                self.b < 10,
        ;
        self.a * self.b
    }
}

/// A random draw from `rand`: the value's type is all that is known of it.
pub assume_specification<T>[ rand::random::<T> ]() -> (r: T)
    where
        rand::distributions::Standard: rand::distributions::Distribution<T>,
;

/// The problem made from two raw draws: each operand is its own draw
/// reduced to a single digit.
pub fn problem_from_draws(x: u16, y: u16) -> (r: Problem)
    ensures
        r == (Problem { a: x % 10, b: y % 10 }),
        r.wf(),
{
    Problem { a: x % OPERAND_BOUND, b: y % OPERAND_BOUND }
}

/// Draws a fresh problem, each operand from its own random draw.
pub fn generate_problem() -> (r: Problem)
    ensures
        r.wf(),
{
    let x: u16 = rand::random::<u16>();
    let y: u16 = rand::random::<u16>();
    problem_from_draws(x, y)
}

} // verus!
