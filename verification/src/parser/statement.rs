use crate::parser::error::ParseError;
use crate::parser::expression::{EvaluationResult, Expression, ExpressionView};
use crate::tokenizer::tokens::{IdentifierData, TextView};
use vstd::prelude::*;

verus! {

/// `let` IDENTIFIER `:` TYPE `=` EXPRESSION `;`
#[derive(Debug, PartialEq)]
pub struct LetStatement {
    pub identifier: IdentifierData,
    pub evaluation_type: EvaluationResult,
    pub expression: Box<Expression>,
}

/// An assignment to a variable that was declared before.
#[derive(Debug, PartialEq)]
pub struct AssignmentStatement {
    pub identifier: IdentifierData,
    pub evaluation_type: EvaluationResult,
    pub expression: Box<Expression>,
}

/// The declaration of a constant.
#[derive(Debug, PartialEq)]
pub struct ConstStatement {
    pub identifier: IdentifierData,
    pub evaluation_type: EvaluationResult,
    pub expression: Box<Expression>,
}

/// A statement of a program.
#[derive(Debug, PartialEq)]
pub enum Statement {
    Let(LetStatement),
    Const(ConstStatement),
    Assignment(AssignmentStatement),
}

/// What the three statement forms hold, in contracts: the name, the
/// declared type, and the expression. The declared type and the type of the
/// expression need not agree.
pub struct BindingView {
    pub identifier: TextView,
    pub evaluation_type: EvaluationResult,
    pub expression: ExpressionView,
}

/// What a statement stands for in contracts.
pub enum StatementView {
    Let(BindingView),
    Const(BindingView),
    Assignment(BindingView),
}

impl View for LetStatement {
    type V = BindingView;

    open spec fn view(&self) -> BindingView {
        BindingView {
            identifier: self.identifier@,
            evaluation_type: self.evaluation_type,
            expression: self.expression@,
        }
    }
}

impl View for AssignmentStatement {
    type V = BindingView;

    open spec fn view(&self) -> BindingView {
        BindingView {
            identifier: self.identifier@,
            evaluation_type: self.evaluation_type,
            expression: self.expression@,
        }
    }
}

impl View for ConstStatement {
    type V = BindingView;

    open spec fn view(&self) -> BindingView {
        BindingView {
            identifier: self.identifier@,
            evaluation_type: self.evaluation_type,
            expression: self.expression@,
        }
    }
}

impl View for Statement {
    type V = StatementView;

    open spec fn view(&self) -> StatementView {
        match *self {
            Statement::Let(statement) => StatementView::Let(statement@),
            Statement::Const(statement) => StatementView::Const(statement@),
            Statement::Assignment(statement) => StatementView::Assignment(statement@),
        }
    }
}

/// The views of a sequence of statements, in order.
pub open spec fn statement_views(statements: Seq<Statement>) -> Seq<StatementView> {
    statements.map_values(|statement: Statement| statement@)
}

/// A parse has done what the program step says: both have succeeded, and the
/// statements that were read stand for those of the step, in order, or both
/// have failed with the same diagnostic.
pub open spec fn agrees_on_program(
    parsed: Result<Vec<Statement>, ParseError>,
    outcome: Result<Seq<StatementView>, ParseError>,
) -> bool {
    &&& parsed is Ok <==> outcome is Ok
    &&& parsed is Ok ==> statement_views(parsed->Ok_0@) == outcome->Ok_0
    &&& parsed is Err ==> parsed->Err_0 == outcome->Err_0
}

} // verus!
