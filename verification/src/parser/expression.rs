use crate::tokenizer::tokens::{NumberLiteralData, StringLiteralData, TextView};
use vstd::prelude::*;

verus! {

/// The static type of a literal or of a declared variable.
#[derive(Clone, Copy, Debug, PartialEq, Eq, Structural)]
pub enum EvaluationResult {
    Number,
    String,
    Decimal,
    Boolean,
}

impl View for EvaluationResult {
    type V = EvaluationResult;

    open spec fn view(&self) -> EvaluationResult {
        *self
    }
}

/// A number literal, as the token that was read carries it.
#[derive(Debug, PartialEq)]
pub struct NumberLiteralExpr {
    pub value: NumberLiteralData,
}

/// One of the literals `true` and `false`.
#[derive(Debug, PartialEq)]
pub struct BooleanLiteralExpr {
    pub value: bool,
}

/// A string literal, as the token that was read carries it.
#[derive(Debug, PartialEq)]
pub struct StringLiteralExpr {
    pub value: StringLiteralData,
}

/// An expression. Only literals are expressions so far.
#[derive(Debug, PartialEq)]
pub enum Expression {
    Number(NumberLiteralExpr),
    String(StringLiteralExpr),
    Boolean(BooleanLiteralExpr),
}

/// What an expression stands for in contracts.
pub enum ExpressionView {
    Number(TextView),
    String(TextView),
    Boolean(bool),
}

impl ExpressionView {
    /// The static type of the expression: each kind of literal has its own.
    pub open spec fn evaluation_type(self) -> EvaluationResult {
        match self {
            ExpressionView::Number(_) => EvaluationResult::Number,
            ExpressionView::String(_) => EvaluationResult::String,
            ExpressionView::Boolean(_) => EvaluationResult::Boolean,
        }
    }
}

impl View for NumberLiteralExpr {
    type V = ExpressionView;

    open spec fn view(&self) -> ExpressionView {
        ExpressionView::Number(self.value@)
    }
}

impl View for StringLiteralExpr {
    type V = ExpressionView;

    open spec fn view(&self) -> ExpressionView {
        ExpressionView::String(self.value@)
    }
}

impl View for BooleanLiteralExpr {
    type V = ExpressionView;

    open spec fn view(&self) -> ExpressionView {
        ExpressionView::Boolean(self.value)
    }
}

impl View for Expression {
    type V = ExpressionView;

    open spec fn view(&self) -> ExpressionView {
        match *self {
            Expression::Number(literal) => literal@,
            Expression::String(literal) => literal@,
            Expression::Boolean(literal) => literal@,
        }
    }
}

impl NumberLiteralExpr {
    pub fn get_evaluation_type(&self) -> (result: EvaluationResult)
        ensures
            result == EvaluationResult::Number,
            result == self@.evaluation_type(),
    {
        EvaluationResult::Number
    }
}

impl BooleanLiteralExpr {
    pub fn get_evaluation_type(&self) -> (result: EvaluationResult)
        ensures
            result == EvaluationResult::Boolean,
            result == self@.evaluation_type(),
    {
        EvaluationResult::Boolean
    }
}

impl StringLiteralExpr {
    pub fn get_evaluation_type(&self) -> (result: EvaluationResult)
        ensures
            result == EvaluationResult::String,
            result == self@.evaluation_type(),
    {
        EvaluationResult::String
    }
}

impl Expression {
    /// The static type of the expression.
    pub fn get_evaluation_type(&self) -> (result: EvaluationResult)
        ensures
            result == self@.evaluation_type(),
    {
        match self {
            Expression::Number(literal) => literal.get_evaluation_type(),
            Expression::String(literal) => literal.get_evaluation_type(),
            Expression::Boolean(literal) => literal.get_evaluation_type(),
        }
    }
}

} // verus!
