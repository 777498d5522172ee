//! The front end of a small scripting language: a lexer that turns source
//! text into tokens, and a recursive-descent parser that turns tokens into
//! statements.
//!
//! The lexer tries an ordered table of anchored patterns at each place of the
//! source and takes the first that matches; what each pattern matches is
//! decided by the regular-expression engine and is taken on trust. The parser
//! reads `let` statements whose value is a single literal. Both are verified
//! against the models in [`tokenizer::model`] and [`parser::grammar`].
//!
//! Beside the front end stands a small generator that rewrites the calls of
//! a script into C++ text by substitution.

pub mod codegen;
pub mod parser;
pub mod tokenizer;

use crate::parser::error::ParseError;
use crate::parser::grammar::{program, well_formed};
use crate::parser::statement::{statement_views, Statement, StatementView};
use crate::parser::Parser;
use crate::tokenizer::model::{lemma_lex_shape, lex, lex_stop, text_from};
use crate::tokenizer::tokens::token_views;
use crate::tokenizer::{LexError, Tokenizer};
use vstd::prelude::*;
use vstd::string::StringSliceAdditionalSpecFns;

verus! {

/// The token sequence of any source text is one that the parser can work on:
/// it ends with the end-of-input sentinel, so the cursor always points at a
/// token.
pub proof fn lemma_lex_is_well_formed(source: Seq<char>)
    ensures
        well_formed(lex(source), 0),
{
    lemma_lex_shape(source);
}

/// Why the front end could not read a program from a source text.
#[derive(Debug, PartialEq)]
pub enum FrontEndError {
    /// No lexical rule applies at some place of the source.
    Lex(LexError),
    /// The tokens of the source do not spell a program.
    Parse(ParseError),
}

impl FrontEndError {
    /// The wording of the diagnostic.
    pub open spec fn spec_message(&self) -> Seq<char> {
        match *self {
            FrontEndError::Lex(error) => error.spec_message(),
            FrontEndError::Parse(error) => error.spec_message(),
        }
    }

    /// The diagnostic in words, for a reader.
    pub fn message(&self) -> (text: String)
        ensures
            text@ == self.spec_message(),
    {
        match self {
            FrontEndError::Lex(error) => error.message(),
            FrontEndError::Parse(error) => error.message(),
        }
    }
}

/// The front end as a whole: turns source text into tokens and reads the
/// program that the tokens spell. A source that the lexer cannot read to its
/// end is not parsed at all: the place at which the lexer stopped is reported
/// with the text that was left unread.
pub fn parse_source(tokenizer: &Tokenizer, source: &str) -> (parsed: Result<
    Vec<Statement>,
    FrontEndError,
>)
    ensures
        match parsed {
            Ok(read) => {
                &&& lex_stop(source@) == source.spec_bytes().len()
                &&& program(lex(source@), 0).outcome == Ok::<Seq<StatementView>, ParseError>(
                    statement_views(read@),
                )
            },
            Err(FrontEndError::Parse(error)) => {
                &&& lex_stop(source@) == source.spec_bytes().len()
                &&& program(lex(source@), 0).outcome == Err::<Seq<StatementView>, ParseError>(
                    error,
                )
            },
            Err(FrontEndError::Lex(error)) => {
                &&& lex_stop(source@) < source.spec_bytes().len()
                &&& error.position == lex_stop(source@)
                &&& error.remaining_text@ == text_from(source.spec_bytes(), lex_stop(source@))
            },
        },
{
    let tokens = match tokenizer.tokenize_strict(source) {
        Ok(tokens) => tokens,
        Err(error) => {
            return Err(FrontEndError::Lex(error));
        },
    };
    proof {
        assert(token_views(tokens@).last() == tokens@.last()@);
    }
    let mut parser = Parser::from_tokens(tokens);
    match parser.parse() {
        Ok(read) => Ok(read),
        Err(error) => Err(FrontEndError::Parse(error)),
    }
}

} // verus!
