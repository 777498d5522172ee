use crate::tokenizer::tokens::TokenKind;
use vstd::prelude::*;

verus! {

/// The number of lexical rules.
pub const RULE_COUNT: usize = 63;

/// The pattern of the rule at place `i` of the table. Every pattern is
/// anchored to the start of the text it is tried on.
///
/// The order of the table decides between rules that match at the same
/// place: the rule that stands first wins, however much text a later rule
/// would take. So a two-character operator stands before its one-character
/// prefix, and every keyword stands before the identifier rule.
pub open spec fn spec_rule_pattern(i: int) -> Seq<char> {
    if i == 0 {
        r"^[ \t]+"@
    } else if i == 1 {
        r"^\r?\n"@
    } else if i == 2 {
        r"^//(.*?)(?=\r?\n|$)"@
    } else if i == 3 {
        r#"^"[^"\r\n]+""#@
    } else if i == 4 {
        r"^'[^'\r\n]+'"@
    } else if i == 5 {
        r"^`[^`]+`"@
    } else if i == 6 {
        r"^-?[0-9]+\.?[0-9]*(?![a-zA-Z$_])"@
    } else if i == 7 {
        r"^\{"@
    } else if i == 8 {
        r"^\}"@
    } else if i == 9 {
        r"^\["@
    } else if i == 10 {
        r"^\]"@
    } else if i == 11 {
        r"^\("@
    } else if i == 12 {
        r"^\)"@
    } else if i == 13 {
        r"^;"@
    } else if i == 14 {
        r"^:"@
    } else if i == 15 {
        r"^\."@
    } else if i == 16 {
        r"^\,"@
    } else if i == 17 {
        r"^\*\*"@
    } else if i == 18 {
        r"^\*"@
    } else if i == 19 {
        r"^=="@
    } else if i == 20 {
        r"^->"@
    } else if i == 21 {
        r"^="@
    } else if i == 22 {
        r"^!="@
    } else if i == 23 {
        r"^&&"@
    } else if i == 24 {
        r"^&"@
    } else if i == 25 {
        r"^\^"@
    } else if i == 26 {
        r"^~"@
    } else if i == 27 {
        r"^!"@
    } else if i == 28 {
        r"^\|\|"@
    } else if i == 29 {
        r"^\|"@
    } else if i == 30 {
        r"^\+\+"@
    } else if i == 31 {
        r"^\+"@
    } else if i == 32 {
        r"^\-\-"@
    } else if i == 33 {
        r"^\-"@
    } else if i == 34 {
        r"^\\"@
    } else if i == 35 {
        r"^%"@
    } else if i == 36 {
        r"^\?"@
    } else if i == 37 {
        r"^>="@
    } else if i == 38 {
        r"^<="@
    } else if i == 39 {
        r"^>>"@
    } else if i == 40 {
        r"^>"@
    } else if i == 41 {
        r"^<<"@
    } else if i == 42 {
        r"^<"@
    } else if i == 43 {
        r"^null"@
    } else if i == 44 {
        r"^start"@
    } else if i == 45 {
        r"^int"@
    } else if i == 46 {
        r"^decimal"@
    } else if i == 47 {
        r"^string"@
    } else if i == 48 {
        r"^bool"@
    } else if i == 49 {
        r"^true"@
    } else if i == 50 {
        r"^false"@
    } else if i == 51 {
        r"^as"@
    } else if i == 52 {
        r"^for"@
    } else if i == 53 {
        r"^while"@
    } else if i == 54 {
        r"^on_loop"@
    } else if i == 55 {
        r"^break"@
    } else if i == 56 {
        r"^continue"@
    } else if i == 57 {
        r"^if"@
    } else if i == 58 {
        r"^else"@
    } else if i == 59 {
        r"^return"@
    } else if i == 60 {
        r"^let"@
    } else if i == 61 {
        r"^const"@
    } else {
        r"^[a-zA-Z$_][a-zA-Z0-9$_]*"@
    }
}

/// The kind of token that the rule at place `i` of the table produces.
pub open spec fn spec_rule_kind(i: int) -> TokenKind {
    if i == 0 {
        TokenKind::Whitespace
    } else if i == 1 {
        TokenKind::LineBreak
    } else if i == 2 {
        TokenKind::Comment
    } else if i == 3 {
        TokenKind::StringLiteral
    } else if i == 4 {
        TokenKind::StringLiteral
    } else if i == 5 {
        TokenKind::StringLiteral
    } else if i == 6 {
        TokenKind::NumberLiteral
    } else if i == 7 {
        TokenKind::LBrace
    } else if i == 8 {
        TokenKind::RBrace
    } else if i == 9 {
        TokenKind::LBracket
    } else if i == 10 {
        TokenKind::RBracket
    } else if i == 11 {
        TokenKind::LParen
    } else if i == 12 {
        TokenKind::RParen
    } else if i == 13 {
        TokenKind::Semicolon
    } else if i == 14 {
        TokenKind::Colon
    } else if i == 15 {
        TokenKind::Dot
    } else if i == 16 {
        TokenKind::Comma
    } else if i == 17 {
        TokenKind::Pow
    } else if i == 18 {
        TokenKind::Star
    } else if i == 19 {
        TokenKind::DoubleEq
    } else if i == 20 {
        TokenKind::Arrow
    } else if i == 21 {
        TokenKind::Eq
    } else if i == 22 {
        TokenKind::NotEq
    } else if i == 23 {
        TokenKind::AndAnd
    } else if i == 24 {
        TokenKind::And
    } else if i == 25 {
        TokenKind::Caret
    } else if i == 26 {
        TokenKind::Tilde
    } else if i == 27 {
        TokenKind::Bang
    } else if i == 28 {
        TokenKind::OrOr
    } else if i == 29 {
        TokenKind::Or
    } else if i == 30 {
        TokenKind::PlusPlus
    } else if i == 31 {
        TokenKind::Plus
    } else if i == 32 {
        TokenKind::MinusMinus
    } else if i == 33 {
        TokenKind::Minus
    } else if i == 34 {
        TokenKind::Backslash
    } else if i == 35 {
        TokenKind::Percent
    } else if i == 36 {
        TokenKind::QMark
    } else if i == 37 {
        TokenKind::GreaterThanOrEqual
    } else if i == 38 {
        TokenKind::LessThanOrEqual
    } else if i == 39 {
        TokenKind::BitshiftRight
    } else if i == 40 {
        TokenKind::GreaterThan
    } else if i == 41 {
        TokenKind::BitShiftLeft
    } else if i == 42 {
        TokenKind::LessThan
    } else if i == 43 {
        TokenKind::Null
    } else if i == 44 {
        TokenKind::Start
    } else if i == 45 {
        TokenKind::IntKeyword
    } else if i == 46 {
        TokenKind::DecimalKeyword
    } else if i == 47 {
        TokenKind::StringKeyword
    } else if i == 48 {
        TokenKind::BooleanKeyword
    } else if i == 49 {
        TokenKind::True
    } else if i == 50 {
        TokenKind::False
    } else if i == 51 {
        TokenKind::As
    } else if i == 52 {
        TokenKind::For
    } else if i == 53 {
        TokenKind::While
    } else if i == 54 {
        TokenKind::OnLoop
    } else if i == 55 {
        TokenKind::Break
    } else if i == 56 {
        TokenKind::Continue
    } else if i == 57 {
        TokenKind::If
    } else if i == 58 {
        TokenKind::Else
    } else if i == 59 {
        TokenKind::Return
    } else if i == 60 {
        TokenKind::Let
    } else if i == 61 {
        TokenKind::Const
    } else {
        TokenKind::Identifier
    }
}

/// The pattern of the rule at place `i`.
pub fn rule_pattern(i: usize) -> (pattern: &'static str)
    requires
        i < RULE_COUNT,
    ensures
        pattern@ == spec_rule_pattern(i as int),
{
    match i {
        0 => r"^[ \t]+",
        1 => r"^\r?\n",
        2 => r"^//(.*?)(?=\r?\n|$)",
        3 => r#"^"[^"\r\n]+""#,
        4 => r"^'[^'\r\n]+'",
        5 => r"^`[^`]+`",
        6 => r"^-?[0-9]+\.?[0-9]*(?![a-zA-Z$_])",
        7 => r"^\{",
        8 => r"^\}",
        9 => r"^\[",
        10 => r"^\]",
        11 => r"^\(",
        12 => r"^\)",
        13 => r"^;",
        14 => r"^:",
        15 => r"^\.",
        16 => r"^\,",
        17 => r"^\*\*",
        18 => r"^\*",
        19 => r"^==",
        20 => r"^->",
        21 => r"^=",
        22 => r"^!=",
        23 => r"^&&",
        24 => r"^&",
        25 => r"^\^",
        26 => r"^~",
        27 => r"^!",
        28 => r"^\|\|",
        29 => r"^\|",
        30 => r"^\+\+",
        31 => r"^\+",
        32 => r"^\-\-",
        33 => r"^\-",
        34 => r"^\\",
        35 => r"^%",
        36 => r"^\?",
        37 => r"^>=",
        38 => r"^<=",
        39 => r"^>>",
        40 => r"^>",
        41 => r"^<<",
        42 => r"^<",
        43 => r"^null",
        44 => r"^start",
        45 => r"^int",
        46 => r"^decimal",
        47 => r"^string",
        48 => r"^bool",
        49 => r"^true",
        50 => r"^false",
        51 => r"^as",
        52 => r"^for",
        53 => r"^while",
        54 => r"^on_loop",
        55 => r"^break",
        56 => r"^continue",
        57 => r"^if",
        58 => r"^else",
        59 => r"^return",
        60 => r"^let",
        61 => r"^const",
        _ => r"^[a-zA-Z$_][a-zA-Z0-9$_]*",
    }
}

/// The kind of token that the rule at place `i` produces.
pub fn rule_kind(i: usize) -> (kind: TokenKind)
    requires
        i < RULE_COUNT,
    ensures
        kind == spec_rule_kind(i as int),
{
    match i {
        0 => TokenKind::Whitespace,
        1 => TokenKind::LineBreak,
        2 => TokenKind::Comment,
        3 => TokenKind::StringLiteral,
        4 => TokenKind::StringLiteral,
        5 => TokenKind::StringLiteral,
        6 => TokenKind::NumberLiteral,
        7 => TokenKind::LBrace,
        8 => TokenKind::RBrace,
        9 => TokenKind::LBracket,
        10 => TokenKind::RBracket,
        11 => TokenKind::LParen,
        12 => TokenKind::RParen,
        13 => TokenKind::Semicolon,
        14 => TokenKind::Colon,
        15 => TokenKind::Dot,
        16 => TokenKind::Comma,
        17 => TokenKind::Pow,
        18 => TokenKind::Star,
        19 => TokenKind::DoubleEq,
        20 => TokenKind::Arrow,
        21 => TokenKind::Eq,
        22 => TokenKind::NotEq,
        23 => TokenKind::AndAnd,
        24 => TokenKind::And,
        25 => TokenKind::Caret,
        26 => TokenKind::Tilde,
        27 => TokenKind::Bang,
        28 => TokenKind::OrOr,
        29 => TokenKind::Or,
        30 => TokenKind::PlusPlus,
        31 => TokenKind::Plus,
        32 => TokenKind::MinusMinus,
        33 => TokenKind::Minus,
        34 => TokenKind::Backslash,
        35 => TokenKind::Percent,
        36 => TokenKind::QMark,
        37 => TokenKind::GreaterThanOrEqual,
        38 => TokenKind::LessThanOrEqual,
        39 => TokenKind::BitshiftRight,
        40 => TokenKind::GreaterThan,
        41 => TokenKind::BitShiftLeft,
        42 => TokenKind::LessThan,
        43 => TokenKind::Null,
        44 => TokenKind::Start,
        45 => TokenKind::IntKeyword,
        46 => TokenKind::DecimalKeyword,
        47 => TokenKind::StringKeyword,
        48 => TokenKind::BooleanKeyword,
        49 => TokenKind::True,
        50 => TokenKind::False,
        51 => TokenKind::As,
        52 => TokenKind::For,
        53 => TokenKind::While,
        54 => TokenKind::OnLoop,
        55 => TokenKind::Break,
        56 => TokenKind::Continue,
        57 => TokenKind::If,
        58 => TokenKind::Else,
        59 => TokenKind::Return,
        60 => TokenKind::Let,
        61 => TokenKind::Const,
        _ => TokenKind::Identifier,
    }
}

} // verus!
