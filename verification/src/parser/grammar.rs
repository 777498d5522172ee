use crate::parser::error::{ParseError, ParseErrorKind};
use crate::parser::expression::{EvaluationResult, ExpressionView};
use crate::parser::statement::{BindingView, StatementView};
use crate::tokenizer::tokens::{TextView, TokenKind, TokenView};
use vstd::prelude::*;

verus! {

/// What a parsing step yields, and the place of the cursor after it.
pub struct Step<T> {
    pub outcome: Result<T, ParseError>,
    pub cursor: int,
}

/// A parsing function has done what a step says: both have succeeded, and
/// what the function read stands for what the step yields, or both have
/// failed with the same diagnostic.
pub open spec fn agrees<T: View>(
    parsed: Result<T, ParseError>,
    outcome: Result<T::V, ParseError>,
) -> bool {
    &&& parsed is Ok <==> outcome is Ok
    &&& parsed is Ok ==> parsed->Ok_0@ == outcome->Ok_0
    &&& parsed is Err ==> parsed->Err_0 == outcome->Err_0
}

/// A token sequence with a cursor that a parser can work on: the cursor
/// points at a token, and the sequence ends with the end-of-input sentinel.
pub open spec fn well_formed(tokens: Seq<TokenView>, cursor: int) -> bool {
    &&& 0 <= cursor < tokens.len()
    &&& tokens.last().kind == TokenKind::Eof
}

/// The cursor points at the end-of-input sentinel.
pub open spec fn at_end(tokens: Seq<TokenView>, cursor: int) -> bool {
    tokens[cursor].kind == TokenKind::Eof
}

/// The place of the cursor after it has moved over the token it points at.
/// It does not move over the sentinel.
pub open spec fn advanced(tokens: Seq<TokenView>, cursor: int) -> int {
    if at_end(tokens, cursor) {
        cursor
    } else {
        cursor + 1
    }
}

/// The diagnostic of the given kind about `token`, which stands at place `at`
/// of the token sequence.
#[verifier::opaque]
pub open spec fn diagnostic(kind: ParseErrorKind, token: TokenView, at: int) -> ParseError {
    ParseError {
        kind,
        found: token.kind,
        position: match token.position {
            Some(index) => Some(index as i128),
            None => None,
        },
        token_index: at as usize,
    }
}

/// The diagnostic of the given kind about the token at place `at`.
pub open spec fn failure(kind: ParseErrorKind, tokens: Seq<TokenView>, at: int) -> ParseError {
    diagnostic(kind, tokens[at], at)
}

/// A step that fails at the token at place `at`, with the cursor left at
/// `cursor`.
pub open spec fn failed<T>(
    kind: ParseErrorKind,
    tokens: Seq<TokenView>,
    at: int,
    cursor: int,
) -> Step<T> {
    Step { outcome: Err(failure(kind, tokens, at)), cursor }
}

/// The type that a type keyword stands for.
pub open spec fn keyword_type(kind: TokenKind) -> Option<EvaluationResult> {
    match kind {
        TokenKind::IntKeyword => Some(EvaluationResult::Number),
        TokenKind::StringKeyword => Some(EvaluationResult::String),
        TokenKind::BooleanKeyword => Some(EvaluationResult::Boolean),
        TokenKind::DecimalKeyword => Some(EvaluationResult::Decimal),
        _ => None,
    }
}

/// What a token carries as a text with its place.
pub open spec fn carried_text(token: TokenView) -> TextView {
    TextView {
        index: match token.position {
            Some(index) => index,
            None => 0,
        },
        value: token.text,
    }
}

/// The literal that a single token is, if it is one.
pub open spec fn literal(token: TokenView) -> Option<ExpressionView> {
    match token.kind {
        TokenKind::NumberLiteral => Some(ExpressionView::Number(carried_text(token))),
        TokenKind::StringLiteral => Some(ExpressionView::String(carried_text(token))),
        TokenKind::True => Some(ExpressionView::Boolean(true)),
        TokenKind::False => Some(ExpressionView::Boolean(false)),
        _ => None,
    }
}

/// IDENTIFIER `:` TYPE: the name that a statement binds, and its declared
/// type. The type annotation is mandatory. The first token that is not what
/// the rule asks for ends the step with its diagnostic; the cursor then stays
/// at that token, except that it has moved over a token that stands where
/// the identifier or the type keyword was to stand.
#[verifier::opaque]
pub open spec fn binding(tokens: Seq<TokenView>, cursor: int) -> Step<(TextView, EvaluationResult)> {
    if tokens[cursor].kind != TokenKind::Identifier {
        failed(ParseErrorKind::ExpectedIdentifier, tokens, cursor, advanced(tokens, cursor))
    } else if tokens[cursor + 1].kind != TokenKind::Colon {
        failed(ParseErrorKind::MissingTypeAnnotation, tokens, cursor + 1, cursor + 1)
    } else {
        match keyword_type(tokens[cursor + 2].kind) {
            None => failed(
                ParseErrorKind::ExpectedTypeKeyword,
                tokens,
                cursor + 2,
                advanced(tokens, cursor + 2),
            ),
            Some(evaluation_type) => Step {
                outcome: Ok((carried_text(tokens[cursor]), evaluation_type)),
                cursor: cursor + 3,
            },
        }
    }
}

/// `=` EXPRESSION `;`: the value that a statement gives to its name. The
/// first token that is not what the rule asks for ends the step with its
/// diagnostic, and the cursor stays at that token.
#[verifier::opaque]
pub open spec fn initializer(tokens: Seq<TokenView>, cursor: int) -> Step<ExpressionView> {
    if tokens[cursor].kind != TokenKind::Eq {
        failed(ParseErrorKind::ExpectedToken { expected: TokenKind::Eq }, tokens, cursor, cursor)
    } else {
        match literal(tokens[cursor + 1]) {
            None => failed(ParseErrorKind::InvalidExpression, tokens, cursor + 1, cursor + 1),
            Some(value) => if tokens[cursor + 2].kind != TokenKind::Semicolon {
                failed(
                    ParseErrorKind::ExpectedToken { expected: TokenKind::Semicolon },
                    tokens,
                    cursor + 2,
                    cursor + 2,
                )
            } else {
                Step { outcome: Ok(value), cursor: cursor + 3 }
            },
        }
    }
}

/// `let` IDENTIFIER `:` TYPE `=` EXPRESSION `;`: the keyword, a binding and
/// an initializer. The part that is not found ends the step with its
/// diagnostic.
#[verifier::opaque]
pub open spec fn let_statement(tokens: Seq<TokenView>, cursor: int) -> Step<StatementView> {
    if tokens[cursor].kind != TokenKind::Let {
        failed(ParseErrorKind::ExpectedToken { expected: TokenKind::Let }, tokens, cursor, cursor)
    } else {
        let bound = binding(tokens, cursor + 1);
        match bound.outcome {
            Err(error) => Step { outcome: Err(error), cursor: bound.cursor },
            Ok(declared) => {
                let given = initializer(tokens, bound.cursor);
                match given.outcome {
                    Err(error) => Step { outcome: Err(error), cursor: given.cursor },
                    Ok(value) => Step {
                        outcome: Ok(
                            StatementView::Let(
                                BindingView {
                                    identifier: declared.0,
                                    evaluation_type: declared.1,
                                    expression: value,
                                },
                            ),
                        ),
                        cursor: given.cursor,
                    },
                }
            },
        }
    }
}

/// A statement of a form that is recognized by its first token and that the
/// parser does not read yet.
pub open spec fn starts_unsupported_statement(kind: TokenKind) -> bool {
    kind == TokenKind::Const || kind == TokenKind::Identifier || kind == TokenKind::If || kind
        == TokenKind::While || kind == TokenKind::Return
}

/// One statement, chosen by the token at the cursor.
pub open spec fn statement(tokens: Seq<TokenView>, cursor: int) -> Step<StatementView> {
    let kind = tokens[cursor].kind;
    if kind == TokenKind::Let {
        let_statement(tokens, cursor)
    } else {
        Step {
            outcome: Err(
                failure(
                    if starts_unsupported_statement(kind) {
                        ParseErrorKind::UnsupportedStatement
                    } else if kind == TokenKind::Eof {
                        ParseErrorKind::UnexpectedEndOfInput
                    } else {
                        ParseErrorKind::UnexpectedToken
                    },
                    tokens,
                    cursor,
                ),
            ),
            cursor,
        }
    }
}

/// In a well-formed sequence, a statement that was read leaves the cursor
/// further on, and still at a token of the sequence.
pub proof fn lemma_statement_advances(tokens: Seq<TokenView>, cursor: int)
    requires
        well_formed(tokens, cursor),
        statement(tokens, cursor).outcome is Ok,
    ensures
        cursor < statement(tokens, cursor).cursor < tokens.len(),
        well_formed(tokens, statement(tokens, cursor).cursor),
{
    reveal(let_statement);
    reveal(binding);
    reveal(initializer);
    let last = tokens.len() - 1;
    assert(tokens[last].kind == TokenKind::Eof);
}

/// The statements from the cursor to the end-of-input sentinel, in order. The
/// first statement that fails ends the step with its diagnostic, and nothing
/// of what was read before is kept.
pub open spec fn program(tokens: Seq<TokenView>, cursor: int) -> Step<Seq<StatementView>>
    decreases tokens.len() - cursor,
    when well_formed(tokens, cursor)
    via program_terminates
{
    if at_end(tokens, cursor) {
        Step { outcome: Ok(Seq::empty()), cursor }
    } else {
        let first = statement(tokens, cursor);
        match first.outcome {
            Err(error) => Step { outcome: Err(error), cursor: first.cursor },
            Ok(parsed) => {
                let rest = program(tokens, first.cursor);
                match rest.outcome {
                    Err(error) => Step { outcome: Err(error), cursor: rest.cursor },
                    Ok(others) => Step { outcome: Ok(seq![parsed] + others), cursor: rest.cursor },
                }
            },
        }
    }
}

#[via_fn]
proof fn program_terminates(tokens: Seq<TokenView>, cursor: int) {
    if !at_end(tokens, cursor) && statement(tokens, cursor).outcome is Ok {
        lemma_statement_advances(tokens, cursor);
    }
}

/// The seven tokens of a let statement stand at the cursor: `let`, an
/// identifier, a colon, a type keyword, `=`, a literal and `;`.
pub open spec fn is_let_statement_at(tokens: Seq<TokenView>, cursor: int) -> bool {
    &&& tokens[cursor].kind == TokenKind::Let
    &&& tokens[cursor + 1].kind == TokenKind::Identifier
    &&& tokens[cursor + 2].kind == TokenKind::Colon
    &&& keyword_type(tokens[cursor + 3].kind) is Some
    &&& tokens[cursor + 4].kind == TokenKind::Eq
    &&& literal(tokens[cursor + 5]) is Some
    &&& tokens[cursor + 6].kind == TokenKind::Semicolon
}

/// A let statement is read exactly where its seven tokens stand. It then
/// holds the name of the identifier, the type of the keyword and the literal,
/// and the cursor has moved over the seven tokens.
pub proof fn lemma_let_statement_shape(tokens: Seq<TokenView>, cursor: int)
    ensures
        let_statement(tokens, cursor).outcome is Ok <==> is_let_statement_at(tokens, cursor),
        is_let_statement_at(tokens, cursor) ==> let_statement(tokens, cursor) == (Step {
            outcome: Ok(
                StatementView::Let(
                    BindingView {
                        identifier: carried_text(tokens[cursor + 1]),
                        evaluation_type: keyword_type(tokens[cursor + 3].kind)->0,
                        expression: literal(tokens[cursor + 5])->0,
                    },
                ),
            ),
            cursor: cursor + 7,
        }),
{
    reveal(let_statement);
    reveal(binding);
    reveal(initializer);
}

/// The first token that is not what the let-statement rule asks for decides
/// the diagnostic: the diagnostic names that token, and its kind says which
/// part of the rule is missing.
pub proof fn lemma_let_statement_diagnostic(tokens: Seq<TokenView>, cursor: int)
    requires
        !is_let_statement_at(tokens, cursor),
    ensures
        let_statement(tokens, cursor).outcome matches Err(error) && error == (
        if tokens[cursor].kind != TokenKind::Let {
            failure(ParseErrorKind::ExpectedToken { expected: TokenKind::Let }, tokens, cursor)
        } else if tokens[cursor + 1].kind != TokenKind::Identifier {
            failure(ParseErrorKind::ExpectedIdentifier, tokens, cursor + 1)
        } else if tokens[cursor + 2].kind != TokenKind::Colon {
            failure(ParseErrorKind::MissingTypeAnnotation, tokens, cursor + 2)
        } else if keyword_type(tokens[cursor + 3].kind) is None {
            failure(ParseErrorKind::ExpectedTypeKeyword, tokens, cursor + 3)
        } else if tokens[cursor + 4].kind != TokenKind::Eq {
            failure(ParseErrorKind::ExpectedToken { expected: TokenKind::Eq }, tokens, cursor + 4)
        } else if literal(tokens[cursor + 5]) is None {
            failure(ParseErrorKind::InvalidExpression, tokens, cursor + 5)
        } else {
            failure(
                ParseErrorKind::ExpectedToken { expected: TokenKind::Semicolon },
                tokens,
                cursor + 6,
            )
        }),
{
    reveal(let_statement);
    reveal(binding);
    reveal(initializer);
}

/// At the end-of-input sentinel the program is empty: nothing is read, and
/// nothing fails.
pub proof fn lemma_program_at_sentinel(tokens: Seq<TokenView>, cursor: int)
    requires
        well_formed(tokens, cursor),
        at_end(tokens, cursor),
    ensures
        program(tokens, cursor) == (Step {
            outcome: Ok::<Seq<StatementView>, ParseError>(Seq::empty()),
            cursor,
        }),
{
}

/// The statements of a program that is read.
pub open spec fn program_statements(tokens: Seq<TokenView>, cursor: int) -> Seq<StatementView> {
    program(tokens, cursor).outcome->Ok_0
}

/// `parsed` is the let statement whose seven tokens stand at the cursor.
pub open spec fn is_let_statement_read_at(
    tokens: Seq<TokenView>,
    cursor: int,
    parsed: StatementView,
) -> bool {
    is_let_statement_at(tokens, cursor) && let_statement(tokens, cursor).outcome == Ok::<
        StatementView,
        ParseError,
    >(parsed)
}

/// A program that is read is a sequence of let statements that reaches the
/// end-of-input sentinel: each statement is read from the seven tokens that
/// follow the statement before it, in the order of the tokens.
pub proof fn lemma_program_shape(tokens: Seq<TokenView>, cursor: int)
    requires
        well_formed(tokens, cursor),
        program(tokens, cursor).outcome is Ok,
    ensures
        program(tokens, cursor).cursor == cursor + 7 * program_statements(tokens, cursor).len(),
        well_formed(tokens, program(tokens, cursor).cursor),
        at_end(tokens, program(tokens, cursor).cursor),
        forall|i: int|
            0 <= i < program_statements(tokens, cursor).len() ==> is_let_statement_read_at(
                tokens,
                cursor + 7 * i,
                #[trigger] program_statements(tokens, cursor)[i],
            ),
    decreases tokens.len() - cursor,
{
    if !at_end(tokens, cursor) {
        let first = statement(tokens, cursor);
        lemma_statement_advances(tokens, cursor);
        lemma_let_statement_shape(tokens, cursor);
        lemma_program_shape(tokens, first.cursor);
        let rest = program_statements(tokens, first.cursor);
        let statements = program_statements(tokens, cursor);
        assert(statements == seq![first.outcome->Ok_0] + rest);
        assert forall|i: int| 0 <= i < statements.len() implies is_let_statement_read_at(
            tokens,
            cursor + 7 * i,
            #[trigger] statements[i],
        ) by {
            if i > 0 {
                assert(statements[i] == rest[i - 1]);
                assert(cursor + 7 * i == first.cursor + 7 * (i - 1));
            } else {
                assert(first == let_statement(tokens, cursor));
            }
        }
    }
}

/// The program fails at the statement that follows `count` let statements:
/// these were read, and the diagnostic and the cursor of the program are
/// those of the statement that fails.
pub open spec fn fails_after(tokens: Seq<TokenView>, cursor: int, count: int) -> bool {
    &&& 0 <= count
    &&& well_formed(tokens, cursor + 7 * count)
    &&& forall|i: int| 0 <= i < count ==> #[trigger] is_let_statement_at(tokens, cursor + 7 * i)
    &&& statement(tokens, cursor + 7 * count).outcome == Err::<StatementView, ParseError>(
        program(tokens, cursor).outcome->Err_0,
    )
    &&& statement(tokens, cursor + 7 * count).cursor == program(tokens, cursor).cursor
}

/// A program fails exactly where one of its statements fails: the statements
/// before it were read, and the diagnostic is that of the failing statement.
/// The lemma gives the number of statements that were read before.
pub proof fn lemma_program_failure(tokens: Seq<TokenView>, cursor: int) -> (count: int)
    requires
        well_formed(tokens, cursor),
        program(tokens, cursor).outcome is Err,
    ensures
        fails_after(tokens, cursor, count),
    decreases tokens.len() - cursor,
{
    let first = statement(tokens, cursor);
    if first.outcome is Err {
        assert(cursor + 7 * 0 == cursor);
        0
    } else {
        lemma_statement_advances(tokens, cursor);
        lemma_let_statement_shape(tokens, cursor);
        let rest = lemma_program_failure(tokens, first.cursor);
        let count = rest + 1;
        assert(cursor + 7 * count == first.cursor + 7 * rest);
        assert forall|i: int| 0 <= i < count implies #[trigger] is_let_statement_at(
            tokens,
            cursor + 7 * i,
        ) by {
            if i > 0 {
                assert(cursor + 7 * i == first.cursor + 7 * (i - 1));
                assert(is_let_statement_at(tokens, first.cursor + 7 * (i - 1)));
            }
        }
        count
    }
}

} // verus!
