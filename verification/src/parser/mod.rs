pub mod error;
pub mod expression;
pub mod grammar;
pub mod productions;
pub mod statement;

use crate::parser::grammar::{advanced, at_end, well_formed};
use crate::tokenizer::tokens::{token_views, Token, TokenKind, TokenView};
use vstd::prelude::*;

verus! {

/// A recursive-descent parser: a token sequence and a cursor into it that
/// only moves forward.
pub struct Parser {
    tokens: Vec<Token>,
    current_token_index: usize,
}

/// What a parser stands for in contracts.
pub struct ParserView {
    pub tokens: Seq<TokenView>,
    pub cursor: int,
}

impl View for Parser {
    type V = ParserView;

    closed spec fn view(&self) -> ParserView {
        ParserView {
            tokens: token_views(self.tokens@),
            cursor: self.current_token_index as int,
        }
    }
}

impl Parser {
    /// The cursor points at a token, and the sequence ends with the
    /// end-of-input sentinel. Parsing asks for this and keeps it: the cursor
    /// never moves over the sentinel, so it always points at a token.
    pub open spec fn well_formed(&self) -> bool {
        well_formed(self@.tokens, self@.cursor)
    }

    /// The cursor points at a token.
    pub open spec fn has_current(&self) -> bool {
        0 <= self@.cursor < self@.tokens.len()
    }

    /// A parser without tokens. It is not well formed: nothing can be parsed
    /// with it.
    pub fn new() -> (parser: Self)
        ensures
            parser@.tokens == Seq::<TokenView>::empty(),
            parser@.cursor == 0,
    {
        Self { tokens: Vec::new(), current_token_index: 0 }
    }

    /// A parser at the start of the given tokens.
    pub fn from_tokens(tokens: Vec<Token>) -> (parser: Self)
        ensures
            parser@.tokens == token_views(tokens@),
            parser@.cursor == 0,
    {
        Self { tokens, current_token_index: 0 }
    }

    /// Whether parsing can start: there is a token at the cursor and the last
    /// token is the end-of-input sentinel.
    pub fn is_well_formed(&self) -> (ready: bool)
        ensures
            ready == self.well_formed(),
    {
        let count = self.tokens.len();
        self.current_token_index < count && self.tokens[count - 1].kind() == TokenKind::Eof
    }

    /// The token at the cursor.
    pub fn peek(&self) -> (token: &Token)
        requires
            self.has_current(),
        ensures
            token@ == self@.tokens[self@.cursor],
    {
        &self.tokens[self.current_token_index]
    }

    /// The token after the one at the cursor, if there is one. It asks for
    /// nothing: where the cursor points at the last token or at none, as in
    /// a parser without tokens, there is no next token.
    pub fn peek_next(&self) -> (token: Option<&Token>)
        ensures
            match token {
                Some(next) => self@.cursor + 1 < self@.tokens.len() && next@
                    == self@.tokens[self@.cursor + 1],
                None => self@.cursor + 1 >= self@.tokens.len(),
            },
    {
        assert(self@.tokens.len() == self.tokens.len());
        let count = self.tokens.len();
        if self.current_token_index >= count || self.current_token_index + 1 >= count {
            None
        } else {
            Some(&self.tokens[self.current_token_index + 1])
        }
    }

    /// Whether the cursor points at the end-of-input sentinel.
    pub fn is_at_end(&self) -> (ended: bool)
        requires
            self.has_current(),
        ensures
            ended == at_end(self@.tokens, self@.cursor),
    {
        self.peek().kind() == TokenKind::Eof
    }

    /// Whether the token at the cursor is of the same kind as `token_type`
    /// and is not the end-of-input sentinel.
    pub fn check(&self, token_type: &Token) -> (same: bool)
        requires
            self.has_current(),
        ensures
            same == (!at_end(self@.tokens, self@.cursor) && self@.tokens[self@.cursor].kind
                == token_type@.kind),
    {
        if self.is_at_end() {
            return false;
        }
        self.peek().same_kind(token_type)
    }

    /// Returns the token at the cursor and moves the cursor over it. At the
    /// end-of-input sentinel the cursor stays.
    pub fn advance(&mut self) -> (token: &Token)
        requires
            old(self).has_current(),
        ensures
            token@ == old(self)@.tokens[old(self)@.cursor],
            final(self)@.tokens == old(self)@.tokens,
            final(self)@.cursor == advanced(old(self)@.tokens, old(self)@.cursor),
            old(self).well_formed() ==> final(self).well_formed(),
    {
        assert(self@.tokens.len() == self.tokens.len());
        let at = self.current_token_index;
        if !self.is_at_end() {
            self.current_token_index += 1;
        }
        &self.tokens[at]
    }

    /// The place of the cursor in the token sequence.
    pub fn cursor(&self) -> (at: usize)
        ensures
            at == self@.cursor,
    {
        self.current_token_index
    }
}

} // verus!
