use vstd::prelude::*;
use vstd::string::StrSliceExecFns;

verus! {

/// What a literal, comment or identifier token stands for in contracts:
/// the byte offset at which it starts and the text it carries.
pub struct TextView {
    pub index: int,
    pub value: Seq<char>,
}

/// A line comment: where it starts, and its text after the `//` marker.
#[derive(Debug, PartialEq)]
pub struct CommentData {
    index: i128,
    value: String,
}

impl View for CommentData {
    type V = TextView;

    closed spec fn view(&self) -> TextView {
        TextView { index: self.index as int, value: self.value@ }
    }
}

impl CommentData {
    pub fn new(index: i128, value: String) -> (data: Self)
        ensures
            data@ == (TextView { index: index as int, value: value@ }),
    {
        Self { index, value }
    }

    /// The byte offset at which the token starts.
    pub fn index(&self) -> (index: i128)
        ensures
            index == self@.index,
    {
        self.index
    }

    /// The text of the comment after its `//` marker.
    pub fn value(&self) -> (value: &str)
        ensures
            value@ == self@.value,
    {
        self.value.as_str()
    }
}

impl Clone for CommentData {
    fn clone(&self) -> (copy: Self)
        ensures
            copy == *self,
    {
        Self { index: self.index, value: self.value.clone() }
    }
}

/// A string literal: where it starts, and its text without the quotes.
#[derive(Debug, PartialEq)]
pub struct StringLiteralData {
    index: i128,
    value: String,
}

impl View for StringLiteralData {
    type V = TextView;

    closed spec fn view(&self) -> TextView {
        TextView { index: self.index as int, value: self.value@ }
    }
}

impl StringLiteralData {
    pub fn new(index: i128, value: String) -> (data: Self)
        ensures
            data@ == (TextView { index: index as int, value: value@ }),
    {
        Self { index, value }
    }

    /// The byte offset at which the token starts.
    pub fn index(&self) -> (index: i128)
        ensures
            index == self@.index,
    {
        self.index
    }

    /// The text of the literal without its quotes.
    pub fn value(&self) -> (value: &str)
        ensures
            value@ == self@.value,
    {
        self.value.as_str()
    }
}

impl Clone for StringLiteralData {
    fn clone(&self) -> (copy: Self)
        ensures
            copy == *self,
    {
        Self { index: self.index, value: self.value.clone() }
    }
}

/// A number literal: where it starts, and its digits as they were written
/// (an optional minus sign, digits, an optional point and further digits).
#[derive(Debug, PartialEq)]
pub struct NumberLiteralData {
    index: i128,
    value: String,
}

impl View for NumberLiteralData {
    type V = TextView;

    closed spec fn view(&self) -> TextView {
        TextView { index: self.index as int, value: self.value@ }
    }
}

impl NumberLiteralData {
    pub fn new(index: i128, value: String) -> (data: Self)
        ensures
            data@ == (TextView { index: index as int, value: value@ }),
    {
        Self { index, value }
    }

    /// The byte offset at which the token starts.
    pub fn index(&self) -> (index: i128)
        ensures
            index == self@.index,
    {
        self.index
    }

    /// The digits of the literal as they were written.
    pub fn value(&self) -> (value: &str)
        ensures
            value@ == self@.value,
    {
        self.value.as_str()
    }
}

impl Clone for NumberLiteralData {
    fn clone(&self) -> (copy: Self)
        ensures
            copy == *self,
    {
        Self { index: self.index, value: self.value.clone() }
    }
}

/// An identifier: where it starts, and its name.
#[derive(Debug, PartialEq)]
pub struct IdentifierData {
    index: i128,
    value: String,
}

impl View for IdentifierData {
    type V = TextView;

    closed spec fn view(&self) -> TextView {
        TextView { index: self.index as int, value: self.value@ }
    }
}

impl IdentifierData {
    pub fn new(index: i128, value: String) -> (data: Self)
        ensures
            data@ == (TextView { index: index as int, value: value@ }),
    {
        Self { index, value }
    }

    /// The byte offset at which the token starts.
    pub fn index(&self) -> (index: i128)
        ensures
            index == self@.index,
    {
        self.index
    }

    /// The name.
    pub fn value(&self) -> (value: &str)
        ensures
            value@ == self@.value,
    {
        self.value.as_str()
    }
}

impl Clone for IdentifierData {
    fn clone(&self) -> (copy: Self)
        ensures
            copy == *self,
    {
        Self { index: self.index, value: self.value.clone() }
    }
}

/// A lexical unit of the source text.
///
/// `Whitespace` and `Eof` carry nothing; literals, comments and identifiers
/// carry their position and text; every other token carries the byte offset
/// at which it starts.
#[derive(Debug, PartialEq)]
pub enum Token {
    Whitespace,
    LineBreak { index: i128 },
    Comment(CommentData),
    StringLiteral(StringLiteralData),
    NumberLiteral(NumberLiteralData),
    Identifier(IdentifierData),
    // keywords and keyword literals
    Null { index: i128 },
    True { index: i128 },
    False { index: i128 },
    As { index: i128 },
    For { index: i128 },
    While { index: i128 },
    Break { index: i128 },
    Continue { index: i128 },
    If { index: i128 },
    Else { index: i128 },
    Return { index: i128 },
    Let { index: i128 },
    Const { index: i128 },
    Start { index: i128 },
    OnLoop { index: i128 },
    IntKeyword { index: i128 },
    DecimalKeyword { index: i128 },
    StringKeyword { index: i128 },
    BooleanKeyword { index: i128 },
    // operators and punctuation
    LBrace { index: i128 },
    RBrace { index: i128 },
    LBracket { index: i128 },
    RBracket { index: i128 },
    LParen { index: i128 },
    RParen { index: i128 },
    Semicolon { index: i128 },
    Colon { index: i128 },
    Dot { index: i128 },
    Comma { index: i128 },
    Pow { index: i128 },
    Star { index: i128 },
    DoubleEq { index: i128 },
    Arrow { index: i128 },
    Eq { index: i128 },
    NotEq { index: i128 },
    AndAnd { index: i128 },
    And { index: i128 },
    Caret { index: i128 },
    Tilde { index: i128 },
    Bang { index: i128 },
    OrOr { index: i128 },
    Or { index: i128 },
    PlusPlus { index: i128 },
    Plus { index: i128 },
    MinusMinus { index: i128 },
    Minus { index: i128 },
    Backslash { index: i128 },
    Percent { index: i128 },
    QMark { index: i128 },
    GreaterThanOrEqual { index: i128 },
    LessThanOrEqual { index: i128 },
    BitshiftRight { index: i128 },
    GreaterThan { index: i128 },
    BitShiftLeft { index: i128 },
    LessThan { index: i128 },
    /// The end-of-input sentinel.
    Eof,
}

/// The variant tag of a token, without what the token carries.
#[derive(Clone, Copy, Debug, PartialEq, Eq, Structural)]
pub enum TokenKind {
    Whitespace,
    LineBreak,
    Comment,
    StringLiteral,
    NumberLiteral,
    Identifier,
    Null,
    True,
    False,
    As,
    For,
    While,
    Break,
    Continue,
    If,
    Else,
    Return,
    Let,
    Const,
    Start,
    OnLoop,
    IntKeyword,
    DecimalKeyword,
    StringKeyword,
    BooleanKeyword,
    LBrace,
    RBrace,
    LBracket,
    RBracket,
    LParen,
    RParen,
    Semicolon,
    Colon,
    Dot,
    Comma,
    Pow,
    Star,
    DoubleEq,
    Arrow,
    Eq,
    NotEq,
    AndAnd,
    And,
    Caret,
    Tilde,
    Bang,
    OrOr,
    Or,
    PlusPlus,
    Plus,
    MinusMinus,
    Minus,
    Backslash,
    Percent,
    QMark,
    GreaterThanOrEqual,
    LessThanOrEqual,
    BitshiftRight,
    GreaterThan,
    BitShiftLeft,
    LessThan,
    Eof,
}

impl TokenKind {
    /// The name of the kind, as it is written in diagnostics.
    pub open spec fn spec_name(self) -> Seq<char> {
        match self {
            TokenKind::Whitespace => "Whitespace"@,
            TokenKind::LineBreak => "LineBreak"@,
            TokenKind::Comment => "Comment"@,
            TokenKind::StringLiteral => "StringLiteral"@,
            TokenKind::NumberLiteral => "NumberLiteral"@,
            TokenKind::Identifier => "Identifier"@,
            TokenKind::Null => "Null"@,
            TokenKind::True => "True"@,
            TokenKind::False => "False"@,
            TokenKind::As => "As"@,
            TokenKind::For => "For"@,
            TokenKind::While => "While"@,
            TokenKind::Break => "Break"@,
            TokenKind::Continue => "Continue"@,
            TokenKind::If => "If"@,
            TokenKind::Else => "Else"@,
            TokenKind::Return => "Return"@,
            TokenKind::Let => "Let"@,
            TokenKind::Const => "Const"@,
            TokenKind::Start => "Start"@,
            TokenKind::OnLoop => "OnLoop"@,
            TokenKind::IntKeyword => "IntKeyword"@,
            TokenKind::DecimalKeyword => "DecimalKeyword"@,
            TokenKind::StringKeyword => "StringKeyword"@,
            TokenKind::BooleanKeyword => "BooleanKeyword"@,
            TokenKind::LBrace => "LBrace"@,
            TokenKind::RBrace => "RBrace"@,
            TokenKind::LBracket => "LBracket"@,
            TokenKind::RBracket => "RBracket"@,
            TokenKind::LParen => "LParen"@,
            TokenKind::RParen => "RParen"@,
            TokenKind::Semicolon => "Semicolon"@,
            TokenKind::Colon => "Colon"@,
            TokenKind::Dot => "Dot"@,
            TokenKind::Comma => "Comma"@,
            TokenKind::Pow => "Pow"@,
            TokenKind::Star => "Star"@,
            TokenKind::DoubleEq => "DoubleEq"@,
            TokenKind::Arrow => "Arrow"@,
            TokenKind::Eq => "Eq"@,
            TokenKind::NotEq => "NotEq"@,
            TokenKind::AndAnd => "AndAnd"@,
            TokenKind::And => "And"@,
            TokenKind::Caret => "Caret"@,
            TokenKind::Tilde => "Tilde"@,
            TokenKind::Bang => "Bang"@,
            TokenKind::OrOr => "OrOr"@,
            TokenKind::Or => "Or"@,
            TokenKind::PlusPlus => "PlusPlus"@,
            TokenKind::Plus => "Plus"@,
            TokenKind::MinusMinus => "MinusMinus"@,
            TokenKind::Minus => "Minus"@,
            TokenKind::Backslash => "Backslash"@,
            TokenKind::Percent => "Percent"@,
            TokenKind::QMark => "QMark"@,
            TokenKind::GreaterThanOrEqual => "GreaterThanOrEqual"@,
            TokenKind::LessThanOrEqual => "LessThanOrEqual"@,
            TokenKind::BitshiftRight => "BitshiftRight"@,
            TokenKind::GreaterThan => "GreaterThan"@,
            TokenKind::BitShiftLeft => "BitShiftLeft"@,
            TokenKind::LessThan => "LessThan"@,
            TokenKind::Eof => "Eof"@,
        }
    }

    /// The name of the kind, as it is written in diagnostics.
    pub fn name(self) -> (name: &'static str)
        ensures
            name@ == self.spec_name(),
    {
        match self {
            TokenKind::Whitespace => "Whitespace",
            TokenKind::LineBreak => "LineBreak",
            TokenKind::Comment => "Comment",
            TokenKind::StringLiteral => "StringLiteral",
            TokenKind::NumberLiteral => "NumberLiteral",
            TokenKind::Identifier => "Identifier",
            TokenKind::Null => "Null",
            TokenKind::True => "True",
            TokenKind::False => "False",
            TokenKind::As => "As",
            TokenKind::For => "For",
            TokenKind::While => "While",
            TokenKind::Break => "Break",
            TokenKind::Continue => "Continue",
            TokenKind::If => "If",
            TokenKind::Else => "Else",
            TokenKind::Return => "Return",
            TokenKind::Let => "Let",
            TokenKind::Const => "Const",
            TokenKind::Start => "Start",
            TokenKind::OnLoop => "OnLoop",
            TokenKind::IntKeyword => "IntKeyword",
            TokenKind::DecimalKeyword => "DecimalKeyword",
            TokenKind::StringKeyword => "StringKeyword",
            TokenKind::BooleanKeyword => "BooleanKeyword",
            TokenKind::LBrace => "LBrace",
            TokenKind::RBrace => "RBrace",
            TokenKind::LBracket => "LBracket",
            TokenKind::RBracket => "RBracket",
            TokenKind::LParen => "LParen",
            TokenKind::RParen => "RParen",
            TokenKind::Semicolon => "Semicolon",
            TokenKind::Colon => "Colon",
            TokenKind::Dot => "Dot",
            TokenKind::Comma => "Comma",
            TokenKind::Pow => "Pow",
            TokenKind::Star => "Star",
            TokenKind::DoubleEq => "DoubleEq",
            TokenKind::Arrow => "Arrow",
            TokenKind::Eq => "Eq",
            TokenKind::NotEq => "NotEq",
            TokenKind::AndAnd => "AndAnd",
            TokenKind::And => "And",
            TokenKind::Caret => "Caret",
            TokenKind::Tilde => "Tilde",
            TokenKind::Bang => "Bang",
            TokenKind::OrOr => "OrOr",
            TokenKind::Or => "Or",
            TokenKind::PlusPlus => "PlusPlus",
            TokenKind::Plus => "Plus",
            TokenKind::MinusMinus => "MinusMinus",
            TokenKind::Minus => "Minus",
            TokenKind::Backslash => "Backslash",
            TokenKind::Percent => "Percent",
            TokenKind::QMark => "QMark",
            TokenKind::GreaterThanOrEqual => "GreaterThanOrEqual",
            TokenKind::LessThanOrEqual => "LessThanOrEqual",
            TokenKind::BitshiftRight => "BitshiftRight",
            TokenKind::GreaterThan => "GreaterThan",
            TokenKind::BitShiftLeft => "BitShiftLeft",
            TokenKind::LessThan => "LessThan",
            TokenKind::Eof => "Eof",
        }
    }

    /// Tokens of this kind carry a text of their own.
    pub open spec fn spec_has_text(self) -> bool {
        self == TokenKind::Comment || self == TokenKind::StringLiteral
            || self == TokenKind::NumberLiteral || self == TokenKind::Identifier
    }

    /// Tokens of this kind carry a source position.
    pub open spec fn spec_has_position(self) -> bool {
        self != TokenKind::Whitespace && self != TokenKind::Eof
    }

    /// The lexer recognizes tokens of this kind and then drops them.
    pub open spec fn spec_is_discarded(self) -> bool {
        self == TokenKind::Whitespace || self == TokenKind::LineBreak
    }

    #[verifier::when_used_as_spec(spec_has_text)]
    pub fn has_text(self) -> (b: bool)
        ensures
            b == self.spec_has_text(),
    {
        match self {
            TokenKind::Comment
            | TokenKind::StringLiteral
            | TokenKind::NumberLiteral
            | TokenKind::Identifier => true,
            _ => false,
        }
    }

    #[verifier::when_used_as_spec(spec_has_position)]
    pub fn has_position(self) -> (b: bool)
        ensures
            b == self.spec_has_position(),
    {
        match self {
            TokenKind::Whitespace | TokenKind::Eof => false,
            _ => true,
        }
    }

    #[verifier::when_used_as_spec(spec_is_discarded)]
    pub fn is_discarded(self) -> (b: bool)
        ensures
            b == self.spec_is_discarded(),
    {
        match self {
            TokenKind::Whitespace | TokenKind::LineBreak => true,
            _ => false,
        }
    }
}

/// What a token stands for in contracts: its kind, its position where it
/// has one, and its text (empty where the kind carries none).
pub struct TokenView {
    pub kind: TokenKind,
    pub position: Option<int>,
    pub text: Seq<char>,
}

impl TokenView {
    /// A token that carries only its position.
    pub open spec fn plain(kind: TokenKind, index: int) -> TokenView {
        TokenView { kind, position: Some(index), text: Seq::empty() }
    }

    /// A token that carries nothing.
    pub open spec fn bare(kind: TokenKind) -> TokenView {
        TokenView { kind, position: None, text: Seq::empty() }
    }

    /// A token that carries a position and a text.
    pub open spec fn with_text(kind: TokenKind, data: TextView) -> TokenView {
        TokenView { kind, position: Some(data.index), text: data.value }
    }

    /// The view is one that some token has: position and text are present
    /// exactly where the kind carries them.
    pub open spec fn well_formed(self) -> bool {
        &&& self.position is Some <==> self.kind.spec_has_position()
        &&& !self.kind.spec_has_text() ==> self.text == Seq::<char>::empty()
        &&& self.position matches Some(index) ==> i128::MIN <= index <= i128::MAX
    }
}

impl View for Token {
    type V = TokenView;

    open spec fn view(&self) -> TokenView {
        match *self {
            Token::Whitespace => TokenView::bare(TokenKind::Whitespace),
            Token::Eof => TokenView::bare(TokenKind::Eof),
            Token::Comment(data) => TokenView::with_text(TokenKind::Comment, data@),
            Token::StringLiteral(data) => TokenView::with_text(TokenKind::StringLiteral, data@),
            Token::NumberLiteral(data) => TokenView::with_text(TokenKind::NumberLiteral, data@),
            Token::Identifier(data) => TokenView::with_text(TokenKind::Identifier, data@),
            Token::LineBreak { index } => TokenView::plain(TokenKind::LineBreak, index as int),
            Token::Null { index } => TokenView::plain(TokenKind::Null, index as int),
            Token::True { index } => TokenView::plain(TokenKind::True, index as int),
            Token::False { index } => TokenView::plain(TokenKind::False, index as int),
            Token::As { index } => TokenView::plain(TokenKind::As, index as int),
            Token::For { index } => TokenView::plain(TokenKind::For, index as int),
            Token::While { index } => TokenView::plain(TokenKind::While, index as int),
            Token::Break { index } => TokenView::plain(TokenKind::Break, index as int),
            Token::Continue { index } => TokenView::plain(TokenKind::Continue, index as int),
            Token::If { index } => TokenView::plain(TokenKind::If, index as int),
            Token::Else { index } => TokenView::plain(TokenKind::Else, index as int),
            Token::Return { index } => TokenView::plain(TokenKind::Return, index as int),
            Token::Let { index } => TokenView::plain(TokenKind::Let, index as int),
            Token::Const { index } => TokenView::plain(TokenKind::Const, index as int),
            Token::Start { index } => TokenView::plain(TokenKind::Start, index as int),
            Token::OnLoop { index } => TokenView::plain(TokenKind::OnLoop, index as int),
            Token::IntKeyword { index } => TokenView::plain(TokenKind::IntKeyword, index as int),
            Token::DecimalKeyword { index } => TokenView::plain(TokenKind::DecimalKeyword, index as int),
            Token::StringKeyword { index } => TokenView::plain(TokenKind::StringKeyword, index as int),
            Token::BooleanKeyword { index } => TokenView::plain(TokenKind::BooleanKeyword, index as int),
            Token::LBrace { index } => TokenView::plain(TokenKind::LBrace, index as int),
            Token::RBrace { index } => TokenView::plain(TokenKind::RBrace, index as int),
            Token::LBracket { index } => TokenView::plain(TokenKind::LBracket, index as int),
            Token::RBracket { index } => TokenView::plain(TokenKind::RBracket, index as int),
            Token::LParen { index } => TokenView::plain(TokenKind::LParen, index as int),
            Token::RParen { index } => TokenView::plain(TokenKind::RParen, index as int),
            Token::Semicolon { index } => TokenView::plain(TokenKind::Semicolon, index as int),
            Token::Colon { index } => TokenView::plain(TokenKind::Colon, index as int),
            Token::Dot { index } => TokenView::plain(TokenKind::Dot, index as int),
            Token::Comma { index } => TokenView::plain(TokenKind::Comma, index as int),
            Token::Pow { index } => TokenView::plain(TokenKind::Pow, index as int),
            Token::Star { index } => TokenView::plain(TokenKind::Star, index as int),
            Token::DoubleEq { index } => TokenView::plain(TokenKind::DoubleEq, index as int),
            Token::Arrow { index } => TokenView::plain(TokenKind::Arrow, index as int),
            Token::Eq { index } => TokenView::plain(TokenKind::Eq, index as int),
            Token::NotEq { index } => TokenView::plain(TokenKind::NotEq, index as int),
            Token::AndAnd { index } => TokenView::plain(TokenKind::AndAnd, index as int),
            Token::And { index } => TokenView::plain(TokenKind::And, index as int),
            Token::Caret { index } => TokenView::plain(TokenKind::Caret, index as int),
            Token::Tilde { index } => TokenView::plain(TokenKind::Tilde, index as int),
            Token::Bang { index } => TokenView::plain(TokenKind::Bang, index as int),
            Token::OrOr { index } => TokenView::plain(TokenKind::OrOr, index as int),
            Token::Or { index } => TokenView::plain(TokenKind::Or, index as int),
            Token::PlusPlus { index } => TokenView::plain(TokenKind::PlusPlus, index as int),
            Token::Plus { index } => TokenView::plain(TokenKind::Plus, index as int),
            Token::MinusMinus { index } => TokenView::plain(TokenKind::MinusMinus, index as int),
            Token::Minus { index } => TokenView::plain(TokenKind::Minus, index as int),
            Token::Backslash { index } => TokenView::plain(TokenKind::Backslash, index as int),
            Token::Percent { index } => TokenView::plain(TokenKind::Percent, index as int),
            Token::QMark { index } => TokenView::plain(TokenKind::QMark, index as int),
            Token::GreaterThanOrEqual { index } => TokenView::plain(TokenKind::GreaterThanOrEqual, index as int),
            Token::LessThanOrEqual { index } => TokenView::plain(TokenKind::LessThanOrEqual, index as int),
            Token::BitshiftRight { index } => TokenView::plain(TokenKind::BitshiftRight, index as int),
            Token::GreaterThan { index } => TokenView::plain(TokenKind::GreaterThan, index as int),
            Token::BitShiftLeft { index } => TokenView::plain(TokenKind::BitShiftLeft, index as int),
            Token::LessThan { index } => TokenView::plain(TokenKind::LessThan, index as int),
        }
    }
}

impl Token {
    /// The variant tag of the token.
    pub open spec fn spec_kind(&self) -> TokenKind {
        self@.kind
    }

    /// The variant tag of the token.
    #[verifier::when_used_as_spec(spec_kind)]
    pub fn kind(&self) -> (kind: TokenKind)
        ensures
            kind == self@.kind,
    {
        match self {
            Token::Whitespace => TokenKind::Whitespace,
            Token::Eof => TokenKind::Eof,
            Token::Comment(_) => TokenKind::Comment,
            Token::StringLiteral(_) => TokenKind::StringLiteral,
            Token::NumberLiteral(_) => TokenKind::NumberLiteral,
            Token::Identifier(_) => TokenKind::Identifier,
            Token::LineBreak { .. } => TokenKind::LineBreak,
            Token::Null { .. } => TokenKind::Null,
            Token::True { .. } => TokenKind::True,
            Token::False { .. } => TokenKind::False,
            Token::As { .. } => TokenKind::As,
            Token::For { .. } => TokenKind::For,
            Token::While { .. } => TokenKind::While,
            Token::Break { .. } => TokenKind::Break,
            Token::Continue { .. } => TokenKind::Continue,
            Token::If { .. } => TokenKind::If,
            Token::Else { .. } => TokenKind::Else,
            Token::Return { .. } => TokenKind::Return,
            Token::Let { .. } => TokenKind::Let,
            Token::Const { .. } => TokenKind::Const,
            Token::Start { .. } => TokenKind::Start,
            Token::OnLoop { .. } => TokenKind::OnLoop,
            Token::IntKeyword { .. } => TokenKind::IntKeyword,
            Token::DecimalKeyword { .. } => TokenKind::DecimalKeyword,
            Token::StringKeyword { .. } => TokenKind::StringKeyword,
            Token::BooleanKeyword { .. } => TokenKind::BooleanKeyword,
            Token::LBrace { .. } => TokenKind::LBrace,
            Token::RBrace { .. } => TokenKind::RBrace,
            Token::LBracket { .. } => TokenKind::LBracket,
            Token::RBracket { .. } => TokenKind::RBracket,
            Token::LParen { .. } => TokenKind::LParen,
            Token::RParen { .. } => TokenKind::RParen,
            Token::Semicolon { .. } => TokenKind::Semicolon,
            Token::Colon { .. } => TokenKind::Colon,
            Token::Dot { .. } => TokenKind::Dot,
            Token::Comma { .. } => TokenKind::Comma,
            Token::Pow { .. } => TokenKind::Pow,
            Token::Star { .. } => TokenKind::Star,
            Token::DoubleEq { .. } => TokenKind::DoubleEq,
            Token::Arrow { .. } => TokenKind::Arrow,
            Token::Eq { .. } => TokenKind::Eq,
            Token::NotEq { .. } => TokenKind::NotEq,
            Token::AndAnd { .. } => TokenKind::AndAnd,
            Token::And { .. } => TokenKind::And,
            Token::Caret { .. } => TokenKind::Caret,
            Token::Tilde { .. } => TokenKind::Tilde,
            Token::Bang { .. } => TokenKind::Bang,
            Token::OrOr { .. } => TokenKind::OrOr,
            Token::Or { .. } => TokenKind::Or,
            Token::PlusPlus { .. } => TokenKind::PlusPlus,
            Token::Plus { .. } => TokenKind::Plus,
            Token::MinusMinus { .. } => TokenKind::MinusMinus,
            Token::Minus { .. } => TokenKind::Minus,
            Token::Backslash { .. } => TokenKind::Backslash,
            Token::Percent { .. } => TokenKind::Percent,
            Token::QMark { .. } => TokenKind::QMark,
            Token::GreaterThanOrEqual { .. } => TokenKind::GreaterThanOrEqual,
            Token::LessThanOrEqual { .. } => TokenKind::LessThanOrEqual,
            Token::BitshiftRight { .. } => TokenKind::BitshiftRight,
            Token::GreaterThan { .. } => TokenKind::GreaterThan,
            Token::BitShiftLeft { .. } => TokenKind::BitShiftLeft,
            Token::LessThan { .. } => TokenKind::LessThan,
        }
    }

    /// The byte offset at which the token starts; `None` for the two kinds
    /// that carry none.
    pub fn position(&self) -> (position: Option<i128>)
        ensures
            match position {
                Some(index) => self@.position == Some(index as int),
                None => self@.position is None,
            },
    {
        match self {
            Token::Whitespace | Token::Eof => None,
            Token::Comment(data) => Some(data.index),
            Token::StringLiteral(data) => Some(data.index),
            Token::NumberLiteral(data) => Some(data.index),
            Token::Identifier(data) => Some(data.index),
            Token::LineBreak { index } => Some(*index),
            Token::Null { index } => Some(*index),
            Token::True { index } => Some(*index),
            Token::False { index } => Some(*index),
            Token::As { index } => Some(*index),
            Token::For { index } => Some(*index),
            Token::While { index } => Some(*index),
            Token::Break { index } => Some(*index),
            Token::Continue { index } => Some(*index),
            Token::If { index } => Some(*index),
            Token::Else { index } => Some(*index),
            Token::Return { index } => Some(*index),
            Token::Let { index } => Some(*index),
            Token::Const { index } => Some(*index),
            Token::Start { index } => Some(*index),
            Token::OnLoop { index } => Some(*index),
            Token::IntKeyword { index } => Some(*index),
            Token::DecimalKeyword { index } => Some(*index),
            Token::StringKeyword { index } => Some(*index),
            Token::BooleanKeyword { index } => Some(*index),
            Token::LBrace { index } => Some(*index),
            Token::RBrace { index } => Some(*index),
            Token::LBracket { index } => Some(*index),
            Token::RBracket { index } => Some(*index),
            Token::LParen { index } => Some(*index),
            Token::RParen { index } => Some(*index),
            Token::Semicolon { index } => Some(*index),
            Token::Colon { index } => Some(*index),
            Token::Dot { index } => Some(*index),
            Token::Comma { index } => Some(*index),
            Token::Pow { index } => Some(*index),
            Token::Star { index } => Some(*index),
            Token::DoubleEq { index } => Some(*index),
            Token::Arrow { index } => Some(*index),
            Token::Eq { index } => Some(*index),
            Token::NotEq { index } => Some(*index),
            Token::AndAnd { index } => Some(*index),
            Token::And { index } => Some(*index),
            Token::Caret { index } => Some(*index),
            Token::Tilde { index } => Some(*index),
            Token::Bang { index } => Some(*index),
            Token::OrOr { index } => Some(*index),
            Token::Or { index } => Some(*index),
            Token::PlusPlus { index } => Some(*index),
            Token::Plus { index } => Some(*index),
            Token::MinusMinus { index } => Some(*index),
            Token::Minus { index } => Some(*index),
            Token::Backslash { index } => Some(*index),
            Token::Percent { index } => Some(*index),
            Token::QMark { index } => Some(*index),
            Token::GreaterThanOrEqual { index } => Some(*index),
            Token::LessThanOrEqual { index } => Some(*index),
            Token::BitshiftRight { index } => Some(*index),
            Token::GreaterThan { index } => Some(*index),
            Token::BitShiftLeft { index } => Some(*index),
            Token::LessThan { index } => Some(*index),
        }
    }

    /// Two tokens are of the same kind when their variant tags agree,
    /// whatever positions and texts they carry.
    pub fn same_kind(&self, other: &Token) -> (same: bool)
        ensures
            same == (self@.kind == other@.kind),
    {
        self.kind() == other.kind()
    }

    /// The token of the given kind that carries only a position. For
    /// `Whitespace` and `Eof` the position is dropped; a kind that carries a
    /// text gets the empty text.
    pub fn plain(kind: TokenKind, index: i128) -> (token: Token)
        ensures
            token@.kind == kind,
            token@.text == Seq::<char>::empty(),
            token@.position == if kind.spec_has_position() {
                Some(index as int)
            } else {
                None
            },
    {
        match kind {
            TokenKind::Whitespace => Token::Whitespace,
            TokenKind::Eof => Token::Eof,
            TokenKind::Comment => Token::Comment(CommentData::new(index, String::new())),
            TokenKind::StringLiteral => Token::StringLiteral(StringLiteralData::new(index, String::new())),
            TokenKind::NumberLiteral => Token::NumberLiteral(NumberLiteralData::new(index, String::new())),
            TokenKind::Identifier => Token::Identifier(IdentifierData::new(index, String::new())),
            TokenKind::LineBreak => Token::LineBreak { index },
            TokenKind::Null => Token::Null { index },
            TokenKind::True => Token::True { index },
            TokenKind::False => Token::False { index },
            TokenKind::As => Token::As { index },
            TokenKind::For => Token::For { index },
            TokenKind::While => Token::While { index },
            TokenKind::Break => Token::Break { index },
            TokenKind::Continue => Token::Continue { index },
            TokenKind::If => Token::If { index },
            TokenKind::Else => Token::Else { index },
            TokenKind::Return => Token::Return { index },
            TokenKind::Let => Token::Let { index },
            TokenKind::Const => Token::Const { index },
            TokenKind::Start => Token::Start { index },
            TokenKind::OnLoop => Token::OnLoop { index },
            TokenKind::IntKeyword => Token::IntKeyword { index },
            TokenKind::DecimalKeyword => Token::DecimalKeyword { index },
            TokenKind::StringKeyword => Token::StringKeyword { index },
            TokenKind::BooleanKeyword => Token::BooleanKeyword { index },
            TokenKind::LBrace => Token::LBrace { index },
            TokenKind::RBrace => Token::RBrace { index },
            TokenKind::LBracket => Token::LBracket { index },
            TokenKind::RBracket => Token::RBracket { index },
            TokenKind::LParen => Token::LParen { index },
            TokenKind::RParen => Token::RParen { index },
            TokenKind::Semicolon => Token::Semicolon { index },
            TokenKind::Colon => Token::Colon { index },
            TokenKind::Dot => Token::Dot { index },
            TokenKind::Comma => Token::Comma { index },
            TokenKind::Pow => Token::Pow { index },
            TokenKind::Star => Token::Star { index },
            TokenKind::DoubleEq => Token::DoubleEq { index },
            TokenKind::Arrow => Token::Arrow { index },
            TokenKind::Eq => Token::Eq { index },
            TokenKind::NotEq => Token::NotEq { index },
            TokenKind::AndAnd => Token::AndAnd { index },
            TokenKind::And => Token::And { index },
            TokenKind::Caret => Token::Caret { index },
            TokenKind::Tilde => Token::Tilde { index },
            TokenKind::Bang => Token::Bang { index },
            TokenKind::OrOr => Token::OrOr { index },
            TokenKind::Or => Token::Or { index },
            TokenKind::PlusPlus => Token::PlusPlus { index },
            TokenKind::Plus => Token::Plus { index },
            TokenKind::MinusMinus => Token::MinusMinus { index },
            TokenKind::Minus => Token::Minus { index },
            TokenKind::Backslash => Token::Backslash { index },
            TokenKind::Percent => Token::Percent { index },
            TokenKind::QMark => Token::QMark { index },
            TokenKind::GreaterThanOrEqual => Token::GreaterThanOrEqual { index },
            TokenKind::LessThanOrEqual => Token::LessThanOrEqual { index },
            TokenKind::BitshiftRight => Token::BitshiftRight { index },
            TokenKind::GreaterThan => Token::GreaterThan { index },
            TokenKind::BitShiftLeft => Token::BitShiftLeft { index },
            TokenKind::LessThan => Token::LessThan { index },
        }
    }
}

impl Clone for Token {
    fn clone(&self) -> (copy: Self)
        ensures
            copy == *self,
    {
        match self {
            Token::Whitespace => Token::Whitespace,
            Token::Eof => Token::Eof,
            Token::Comment(data) => Token::Comment(data.clone()),
            Token::StringLiteral(data) => Token::StringLiteral(data.clone()),
            Token::NumberLiteral(data) => Token::NumberLiteral(data.clone()),
            Token::Identifier(data) => Token::Identifier(data.clone()),
            Token::LineBreak { index } => Token::LineBreak { index: *index },
            Token::Null { index } => Token::Null { index: *index },
            Token::True { index } => Token::True { index: *index },
            Token::False { index } => Token::False { index: *index },
            Token::As { index } => Token::As { index: *index },
            Token::For { index } => Token::For { index: *index },
            Token::While { index } => Token::While { index: *index },
            Token::Break { index } => Token::Break { index: *index },
            Token::Continue { index } => Token::Continue { index: *index },
            Token::If { index } => Token::If { index: *index },
            Token::Else { index } => Token::Else { index: *index },
            Token::Return { index } => Token::Return { index: *index },
            Token::Let { index } => Token::Let { index: *index },
            Token::Const { index } => Token::Const { index: *index },
            Token::Start { index } => Token::Start { index: *index },
            Token::OnLoop { index } => Token::OnLoop { index: *index },
            Token::IntKeyword { index } => Token::IntKeyword { index: *index },
            Token::DecimalKeyword { index } => Token::DecimalKeyword { index: *index },
            Token::StringKeyword { index } => Token::StringKeyword { index: *index },
            Token::BooleanKeyword { index } => Token::BooleanKeyword { index: *index },
            Token::LBrace { index } => Token::LBrace { index: *index },
            Token::RBrace { index } => Token::RBrace { index: *index },
            Token::LBracket { index } => Token::LBracket { index: *index },
            Token::RBracket { index } => Token::RBracket { index: *index },
            Token::LParen { index } => Token::LParen { index: *index },
            Token::RParen { index } => Token::RParen { index: *index },
            Token::Semicolon { index } => Token::Semicolon { index: *index },
            Token::Colon { index } => Token::Colon { index: *index },
            Token::Dot { index } => Token::Dot { index: *index },
            Token::Comma { index } => Token::Comma { index: *index },
            Token::Pow { index } => Token::Pow { index: *index },
            Token::Star { index } => Token::Star { index: *index },
            Token::DoubleEq { index } => Token::DoubleEq { index: *index },
            Token::Arrow { index } => Token::Arrow { index: *index },
            Token::Eq { index } => Token::Eq { index: *index },
            Token::NotEq { index } => Token::NotEq { index: *index },
            Token::AndAnd { index } => Token::AndAnd { index: *index },
            Token::And { index } => Token::And { index: *index },
            Token::Caret { index } => Token::Caret { index: *index },
            Token::Tilde { index } => Token::Tilde { index: *index },
            Token::Bang { index } => Token::Bang { index: *index },
            Token::OrOr { index } => Token::OrOr { index: *index },
            Token::Or { index } => Token::Or { index: *index },
            Token::PlusPlus { index } => Token::PlusPlus { index: *index },
            Token::Plus { index } => Token::Plus { index: *index },
            Token::MinusMinus { index } => Token::MinusMinus { index: *index },
            Token::Minus { index } => Token::Minus { index: *index },
            Token::Backslash { index } => Token::Backslash { index: *index },
            Token::Percent { index } => Token::Percent { index: *index },
            Token::QMark { index } => Token::QMark { index: *index },
            Token::GreaterThanOrEqual { index } => Token::GreaterThanOrEqual { index: *index },
            Token::LessThanOrEqual { index } => Token::LessThanOrEqual { index: *index },
            Token::BitshiftRight { index } => Token::BitshiftRight { index: *index },
            Token::GreaterThan { index } => Token::GreaterThan { index: *index },
            Token::BitShiftLeft { index } => Token::BitShiftLeft { index: *index },
            Token::LessThan { index } => Token::LessThan { index: *index },
        }
    }
}

/// Every token carries a position and a text exactly where its kind says it
/// does.
pub proof fn lemma_token_view_is_well_formed(token: Token)
    ensures
        token@.well_formed(),
{
}

/// The views of a sequence of tokens, in order.
pub open spec fn token_views(tokens: Seq<Token>) -> Seq<TokenView> {
    tokens.map_values(|token: Token| token@)
}

/// The text that a token of the given kind keeps of the text it was read
/// from: a comment drops its two-character marker, a string literal its first
/// and last character (the quotes), a number literal and an identifier keep
/// everything, and every other kind keeps nothing.
pub open spec fn lexeme_text(kind: TokenKind, matched: Seq<char>) -> Seq<char> {
    match kind {
        TokenKind::Comment => if matched.len() >= 2 {
            matched.subrange(2, matched.len() as int)
        } else {
            Seq::empty()
        },
        TokenKind::StringLiteral => if matched.len() >= 2 {
            matched.subrange(1, matched.len() - 1)
        } else {
            Seq::empty()
        },
        TokenKind::NumberLiteral | TokenKind::Identifier => matched,
        _ => Seq::empty(),
    }
}

/// The token of the given kind that starts at byte `index` and was read from
/// the text `matched`.
pub open spec fn lexeme_view(kind: TokenKind, index: int, matched: Seq<char>) -> TokenView {
    TokenView {
        kind,
        position: if kind.spec_has_position() {
            Some(index)
        } else {
            None
        },
        text: lexeme_text(kind, matched),
    }
}

/// The text without its first `count` characters; empty where it has fewer.
fn without_prefix(text: &str, count: usize) -> (rest: String)
    ensures
        rest@ == if text@.len() >= count {
            text@.subrange(count as int, text@.len() as int)
        } else {
            Seq::empty()
        },
{
    let length = text.unicode_len();
    if length >= count {
        text.substring_char(count, length).to_owned()
    } else {
        String::new()
    }
}

/// The text without its first and its last character; empty where it has
/// fewer than two.
fn without_first_and_last(text: &str) -> (rest: String)
    ensures
        rest@ == if text@.len() >= 2 {
            text@.subrange(1, text@.len() - 1)
        } else {
            Seq::empty()
        },
{
    let length = text.unicode_len();
    if length >= 2 {
        text.substring_char(1, length - 1).to_owned()
    } else {
        String::new()
    }
}

impl Token {
    /// Builds the token of the given kind from the place and the text at
    /// which a lexical rule matched.
    pub fn from_lexeme(kind: TokenKind, index: i128, matched: &str) -> (token: Token)
        ensures
            token@ == lexeme_view(kind, index as int, matched@),
    {
        match kind {
            TokenKind::Comment => Token::Comment(
                CommentData::new(index, without_prefix(matched, 2)),
            ),
            TokenKind::StringLiteral => Token::StringLiteral(
                StringLiteralData::new(index, without_first_and_last(matched)),
            ),
            TokenKind::NumberLiteral => Token::NumberLiteral(
                NumberLiteralData::new(index, matched.to_owned()),
            ),
            TokenKind::Identifier => Token::Identifier(
                IdentifierData::new(index, matched.to_owned()),
            ),
            _ => Token::plain(kind, index),
        }
    }
}

} // verus!
