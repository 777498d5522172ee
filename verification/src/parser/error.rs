use crate::tokenizer::tokens::TokenKind;
use vstd::prelude::*;
use vstd::string::StringExecFns;

verus! {

/// Why a parse failed.
#[derive(Clone, Copy, Debug, PartialEq, Eq)]
pub enum ParseErrorKind {
    /// The grammar asks for a token of the kind `expected` here.
    ExpectedToken { expected: TokenKind },
    /// The name of the variable is missing after `let`.
    ExpectedIdentifier,
    /// No colon follows the name: the type annotation is missing.
    MissingTypeAnnotation,
    /// What follows the colon is none of the type keywords.
    ExpectedTypeKeyword,
    /// A statement was to begin and the input has ended.
    UnexpectedEndOfInput,
    /// No statement begins with this token.
    UnexpectedToken,
    /// A statement of a form that is recognized and not yet parsed.
    UnsupportedStatement,
    /// No expression begins with this token.
    InvalidExpression,
}

/// A diagnostic: why the parse failed, and at which token.
#[derive(Clone, Copy, Debug, PartialEq, Eq)]
pub struct ParseError {
    pub kind: ParseErrorKind,
    /// The kind of the token at which the parse failed.
    pub found: TokenKind,
    /// The byte offset of that token in the source, where it carries one.
    pub position: Option<i128>,
    /// The place of that token in the token sequence.
    pub token_index: usize,
}

impl ParseError {
    /// The wording of the diagnostic.
    pub open spec fn spec_message(self) -> Seq<char> {
        match self.kind {
            ParseErrorKind::ExpectedToken { expected } => "Expected "@ + expected.spec_name()
                + ", got "@ + self.found.spec_name(),
            ParseErrorKind::ExpectedIdentifier => "Expected identifier, got "@
                + self.found.spec_name(),
            ParseErrorKind::MissingTypeAnnotation => "Expected a type annotation, got "@
                + self.found.spec_name(),
            ParseErrorKind::ExpectedTypeKeyword => "Expected type keyword, got "@
                + self.found.spec_name(),
            ParseErrorKind::UnexpectedEndOfInput => "Unexpected end of file"@,
            ParseErrorKind::UnexpectedToken => "Unexpected token: "@ + self.found.spec_name(),
            ParseErrorKind::UnsupportedStatement => "Not yet supported: statement starting with "@
                + self.found.spec_name(),
            ParseErrorKind::InvalidExpression => "Cannot parse expression starting with "@
                + self.found.spec_name(),
        }
    }

    /// The diagnostic in words, for a reader.
    pub fn message(&self) -> (text: String)
        ensures
            text@ == self.spec_message(),
    {
        let found = self.found.name();
        match self.kind {
            ParseErrorKind::ExpectedToken { expected } => String::from_str("Expected ").concat(
                expected.name(),
            ).concat(", got ").concat(found),
            ParseErrorKind::ExpectedIdentifier => String::from_str(
                "Expected identifier, got ",
            ).concat(found),
            ParseErrorKind::MissingTypeAnnotation => String::from_str(
                "Expected a type annotation, got ",
            ).concat(found),
            ParseErrorKind::ExpectedTypeKeyword => String::from_str(
                "Expected type keyword, got ",
            ).concat(found),
            ParseErrorKind::UnexpectedEndOfInput => String::from_str("Unexpected end of file"),
            ParseErrorKind::UnexpectedToken => String::from_str("Unexpected token: ").concat(
                found,
            ),
            ParseErrorKind::UnsupportedStatement => String::from_str(
                "Not yet supported: statement starting with ",
            ).concat(found),
            ParseErrorKind::InvalidExpression => String::from_str(
                "Cannot parse expression starting with ",
            ).concat(found),
        }
    }
}

} // verus!
