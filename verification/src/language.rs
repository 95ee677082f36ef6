//! # Expression evaluation
use vstd::prelude::*;

verus! {

/// Evaluator of the conditions that guard sequence flows.
///
/// Nothing is assumed of an evaluator: whatever it answers, the scheduler
/// goes by the answer.
pub trait ExpressionEvaluator {
    /// Evaluates `content`, an expression of `language`, to a truth value.
    /// Where the expression cannot be evaluated, the error describes why.
    fn eval_expr(&self, language: Option<&String>, content: &String) -> Result<bool, String>;
}

} // verus!
