use crate::parser::error::{ParseError, ParseErrorKind};
use crate::parser::expression::{
    BooleanLiteralExpr, EvaluationResult, Expression, NumberLiteralExpr, StringLiteralExpr,
};
use crate::parser::grammar::{
    advanced, agrees, binding, diagnostic, failure, initializer, keyword_type, let_statement,
    lemma_statement_advances, literal, program, statement, well_formed,
};
use crate::parser::statement::{
    agrees_on_program, statement_views, LetStatement, Statement, StatementView,
};
use crate::parser::Parser;
use crate::tokenizer::tokens::{IdentifierData, Token, TokenKind};
use vstd::prelude::*;

verus! {

impl Parser {
    /// The diagnostic of the given kind about `token`, which stands at place
    /// `at` of the token sequence.
    fn diagnose(kind: ParseErrorKind, token: &Token, at: usize) -> (error: ParseError)
        ensures
            error == diagnostic(kind, token@, at as int),
    {
        proof {
            reveal(diagnostic);
        }
        ParseError { kind, found: token.kind(), position: token.position(), token_index: at }
    }

    /// Moves the cursor over the token at which it points if that token is of
    /// the kind `expected`; fails, and leaves the cursor, if it is not.
    pub fn expect_token_type(&mut self, expected: TokenKind) -> (met: Result<(), ParseError>)
        requires
            old(self).well_formed(),
        ensures
            met is Ok <==> old(self)@.tokens[old(self)@.cursor].kind == expected,
            met is Ok ==> final(self)@.cursor == advanced(old(self)@.tokens, old(self)@.cursor),
            met matches Err(error) ==> final(self)@.cursor == old(self)@.cursor && error
                == failure(
                ParseErrorKind::ExpectedToken { expected },
                old(self)@.tokens,
                old(self)@.cursor,
            ),
            final(self)@.tokens == old(self)@.tokens,
            final(self).well_formed(),
    {
        let at = self.cursor();
        let token = self.peek();
        if token.kind() == expected {
            self.advance();
            Ok(())
        } else {
            Err(Self::diagnose(ParseErrorKind::ExpectedToken { expected }, token, at))
        }
    }

    /// Reads a type keyword and returns the type it stands for. The cursor
    /// moves over the token it points at, whatever that token is.
    pub fn parse_type(&mut self) -> (parsed: Result<EvaluationResult, ParseError>)
        requires
            old(self).well_formed(),
        ensures
            match keyword_type(old(self)@.tokens[old(self)@.cursor].kind) {
                Some(evaluation_type) => parsed == Ok::<EvaluationResult, ParseError>(
                    evaluation_type,
                ),
                None => parsed == Err::<EvaluationResult, ParseError>(
                    failure(
                        ParseErrorKind::ExpectedTypeKeyword,
                        old(self)@.tokens,
                        old(self)@.cursor,
                    ),
                ),
            },
            final(self)@.cursor == advanced(old(self)@.tokens, old(self)@.cursor),
            final(self)@.tokens == old(self)@.tokens,
            final(self).well_formed(),
    {
        let at = self.cursor();
        match self.advance() {
            Token::IntKeyword { .. } => Ok(EvaluationResult::Number),
            Token::StringKeyword { .. } => Ok(EvaluationResult::String),
            Token::BooleanKeyword { .. } => Ok(EvaluationResult::Boolean),
            Token::DecimalKeyword { .. } => Ok(EvaluationResult::Decimal),
            other => Err(Self::diagnose(ParseErrorKind::ExpectedTypeKeyword, other, at)),
        }
    }

    /// Reads one statement, chosen by the token at the cursor.
    pub fn parse_statement(&mut self) -> (parsed: Result<Statement, ParseError>)
        requires
            old(self).well_formed(),
        ensures
            agrees(parsed, statement(old(self)@.tokens, old(self)@.cursor).outcome),
            final(self)@.cursor == statement(old(self)@.tokens, old(self)@.cursor).cursor,
            final(self)@.tokens == old(self)@.tokens,
            final(self).well_formed(),
    {
        let at = self.cursor();
        let token = self.peek();
        match token {
            Token::Let { .. } => self.parse_let_statement(),
            Token::Const { .. }
            | Token::Identifier(_)
            | Token::If { .. }
            | Token::While { .. }
            | Token::Return { .. } => Err(
                Self::diagnose(ParseErrorKind::UnsupportedStatement, token, at),
            ),
            Token::Eof => Err(Self::diagnose(ParseErrorKind::UnexpectedEndOfInput, token, at)),
            other => Err(Self::diagnose(ParseErrorKind::UnexpectedToken, other, at)),
        }
    }

    /// Reads IDENTIFIER `:` TYPE and returns the name with the declared type.
    pub fn parse_binding(&mut self) -> (parsed: Result<
        (IdentifierData, EvaluationResult),
        ParseError,
    >)
        requires
            old(self).well_formed(),
        ensures
            agrees(parsed, binding(old(self)@.tokens, old(self)@.cursor).outcome),
            final(self)@.cursor == binding(old(self)@.tokens, old(self)@.cursor).cursor,
            final(self)@.tokens == old(self)@.tokens,
            final(self).well_formed(),
    {
        proof {
            reveal(binding);
        }
        let name_at = self.cursor();
        let identifier = match self.advance() {
            Token::Identifier(identifier) => identifier.clone(),
            other => {
                return Err(Self::diagnose(ParseErrorKind::ExpectedIdentifier, other, name_at));
            },
        };
        if !self.check(&Token::Colon { index: 0 }) {
            let at = self.cursor();
            return Err(Self::diagnose(ParseErrorKind::MissingTypeAnnotation, self.peek(), at));
        }
        self.advance();
        let evaluation_type = self.parse_type()?;
        Ok((identifier, evaluation_type))
    }

    /// Reads `=` EXPRESSION `;` and returns the expression.
    pub fn parse_initializer(&mut self) -> (parsed: Result<Box<Expression>, ParseError>)
        requires
            old(self).well_formed(),
        ensures
            agrees(parsed, initializer(old(self)@.tokens, old(self)@.cursor).outcome),
            final(self)@.cursor == initializer(old(self)@.tokens, old(self)@.cursor).cursor,
            final(self)@.tokens == old(self)@.tokens,
            final(self).well_formed(),
    {
        proof {
            reveal(initializer);
        }
        self.expect_token_type(TokenKind::Eq)?;
        let value = self.parse_expression()?;
        self.expect_token_type(TokenKind::Semicolon)?;
        Ok(value)
    }

    /// Reads `let` IDENTIFIER `:` TYPE `=` EXPRESSION `;`.
    pub fn parse_let_statement(&mut self) -> (parsed: Result<Statement, ParseError>)
        requires
            old(self).well_formed(),
        ensures
            agrees(parsed, let_statement(old(self)@.tokens, old(self)@.cursor).outcome),
            final(self)@.cursor == let_statement(old(self)@.tokens, old(self)@.cursor).cursor,
            final(self)@.tokens == old(self)@.tokens,
            final(self).well_formed(),
    {
        proof {
            reveal(let_statement);
        }
        self.expect_token_type(TokenKind::Let)?;
        let (identifier, evaluation_type) = self.parse_binding()?;
        let expression = self.parse_initializer()?;
        Ok(Statement::Let(LetStatement { identifier, evaluation_type, expression }))
    }

    /// Reads an expression: a single literal token.
    pub fn parse_expression(&mut self) -> (parsed: Result<Box<Expression>, ParseError>)
        requires
            old(self).well_formed(),
        ensures
            match literal(old(self)@.tokens[old(self)@.cursor]) {
                Some(value) => {
                    &&& parsed matches Ok(read) && read@ == value
                    &&& final(self)@.cursor == old(self)@.cursor + 1
                },
                None => {
                    &&& parsed == Err::<Box<Expression>, ParseError>(
                        failure(
                            ParseErrorKind::InvalidExpression,
                            old(self)@.tokens,
                            old(self)@.cursor,
                        ),
                    )
                    &&& final(self)@.cursor == old(self)@.cursor
                },
            },
            final(self)@.tokens == old(self)@.tokens,
            final(self).well_formed(),
    {
        let at = self.cursor();
        match self.peek() {
            Token::NumberLiteral(data) => {
                let data = data.clone();
                self.advance();
                Ok(Box::new(Expression::Number(NumberLiteralExpr { value: data })))
            },
            Token::StringLiteral(data) => {
                let data = data.clone();
                self.advance();
                Ok(Box::new(Expression::String(StringLiteralExpr { value: data })))
            },
            Token::True { .. } => {
                self.advance();
                Ok(Box::new(Expression::Boolean(BooleanLiteralExpr { value: true })))
            },
            Token::False { .. } => {
                self.advance();
                Ok(Box::new(Expression::Boolean(BooleanLiteralExpr { value: false })))
            },
            other => Err(Self::diagnose(ParseErrorKind::InvalidExpression, other, at)),
        }
    }

    /// Reads statements up to the end-of-input sentinel and returns them in
    /// order. The first statement that fails ends the parse with its
    /// diagnostic.
    pub fn parse(&mut self) -> (parsed: Result<Vec<Statement>, ParseError>)
        requires
            old(self).well_formed(),
        ensures
            agrees_on_program(parsed, program(old(self)@.tokens, old(self)@.cursor).outcome),
            final(self)@.cursor == program(old(self)@.tokens, old(self)@.cursor).cursor,
            final(self)@.tokens == old(self)@.tokens,
            final(self).well_formed(),
    {
        let ghost tokens = self@.tokens;
        let ghost start = self@.cursor;
        let mut statements: Vec<Statement> = Vec::new();
        while !self.is_at_end()
            invariant
                self.well_formed(),
                self@.tokens == tokens,
                old(self)@.tokens == tokens,
                old(self)@.cursor == start,
                well_formed(tokens, start),
                program(tokens, start).cursor == program(tokens, self@.cursor).cursor,
                match program(tokens, self@.cursor).outcome {
                    Ok(rest) => program(tokens, start).outcome == Ok::<
                        Seq<StatementView>,
                        ParseError,
                    >(statement_views(statements@) + rest),
                    Err(error) => program(tokens, start).outcome == Err::<
                        Seq<StatementView>,
                        ParseError,
                    >(error),
                },
            decreases tokens.len() - self@.cursor,
        {
            let ghost before = self@.cursor;
            let read = self.parse_statement()?;
            proof {
                lemma_statement_advances(tokens, before);
                let views = statement_views(statements@);
                assert(statement_views(statements@.push(read)) =~= views.push(read@));
                match program(tokens, self@.cursor).outcome {
                    Ok(rest) => {
                        assert(views + (seq![read@] + rest) =~= views.push(read@) + rest);
                    },
                    Err(_) => {},
                }
            }
            statements.push(read);
        }
        proof {
            assert(statement_views(statements@) + Seq::empty() =~= statement_views(statements@));
        }
        Ok(statements)
    }
}

} // verus!
