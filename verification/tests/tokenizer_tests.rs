use petri::tokenizer::rules::{rule_kind, rule_pattern, RULE_COUNT};
use petri::tokenizer::tokens::{
    CommentData, IdentifierData, NumberLiteralData, StringLiteralData, Token, TokenKind,
};
use petri::tokenizer::{token_length_of, LexError, Tokenizer};

fn tokenizer() -> Tokenizer {
    Tokenizer::new().expect("every pattern of the table compiles")
}

fn kinds(tokens: &[Token]) -> Vec<TokenKind> {
    tokens.iter().map(|token| token.kind()).collect()
}

fn identifier(index: i128, name: &str) -> Token {
    Token::Identifier(IdentifierData::new(index, name.to_string()))
}

fn number(index: i128, digits: &str) -> Token {
    Token::NumberLiteral(NumberLiteralData::new(index, digits.to_string()))
}

fn string(index: i128, text: &str) -> Token {
    Token::StringLiteral(StringLiteralData::new(index, text.to_string()))
}

fn comment(index: i128, text: &str) -> Token {
    Token::Comment(CommentData::new(index, text.to_string()))
}

#[test]
fn every_pattern_compiles() {
    assert!(Tokenizer::new().is_ok());
}

#[test]
fn empty_source_yields_only_the_sentinel() {
    assert_eq!(tokenizer().tokenize(""), vec![Token::Eof]);
    assert_eq!(tokenizer().tokenize_strict(""), Ok(vec![Token::Eof]));
    assert_eq!(tokenizer().scan_tokens(""), (vec![], 0));
}

#[test]
fn tokenize_let_statement() {
    let tokens = tokenizer().tokenize("let x: int = 5.05;");
    assert_eq!(
        tokens,
        vec![
            Token::Let { index: 0 },
            identifier(4, "x"),
            Token::Colon { index: 5 },
            Token::IntKeyword { index: 7 },
            Token::Eq { index: 11 },
            number(13, "5.05"),
            Token::Semicolon { index: 17 },
            Token::Eof,
        ]
    );
    assert!(!kinds(&tokens).contains(&TokenKind::Whitespace));
}

#[test]
fn number_literal_text_reads_as_the_number() {
    let tokens = tokenizer().tokenize("5.05 -3 7. 0012");
    let values: Vec<f64> = tokens
        .iter()
        .filter_map(|token| match token {
            Token::NumberLiteral(data) => Some(data.value().parse::<f64>().unwrap()),
            _ => None,
        })
        .collect();
    assert_eq!(values, vec![5.05, -3.0, 7.0, 12.0]);
}

#[test]
fn sentinel_is_last_and_stands_once() {
    let inputs = [
        "",
        " ",
        "\n",
        "let x: int = 5;",
        "let y = @ 3",
        "// only a comment",
        "\"unterminated",
        "a b c\r\nd",
        "5x",
        "**>=<=",
    ];
    for input in inputs {
        let tokens = tokenizer().tokenize(input);
        assert_eq!(tokens.last(), Some(&Token::Eof), "input {:?}", input);
        let sentinels = tokens.iter().filter(|token| token.kind() == TokenKind::Eof).count();
        assert_eq!(sentinels, 1, "input {:?}", input);
    }
}

#[test]
fn whitespace_and_line_breaks_are_dropped() {
    let tokens = tokenizer().tokenize("a\tb \r\n\nc");
    assert_eq!(tokens, vec![identifier(0, "a"), identifier(2, "b"), identifier(7, "c"), Token::Eof]);
    for input in ["  \t ", "\n\n", "\r\n", " \n\t\r\n "] {
        assert_eq!(tokenizer().tokenize(input), vec![Token::Eof]);
        assert_eq!(tokenizer().tokenize_strict(input), Ok(vec![Token::Eof]));
    }
}

#[test]
fn positions_grow_from_token_to_token() {
    let tokens = tokenizer().tokenize("let  total : decimal = -12.5 ; // done\nreturn");
    let positions: Vec<i128> = tokens.iter().filter_map(|token| token.position()).collect();
    assert_eq!(positions.len(), tokens.len() - 1);
    assert_eq!(positions, vec![0, 5, 11, 13, 21, 23, 29, 31, 39]);
    for pair in positions.windows(2) {
        assert!(pair[0] < pair[1]);
    }
}

#[test]
fn two_character_operators_win_over_their_first_character() {
    let cases = [
        ("**", Token::Pow { index: 0 }),
        (">=", Token::GreaterThanOrEqual { index: 0 }),
        ("<=", Token::LessThanOrEqual { index: 0 }),
        (">>", Token::BitshiftRight { index: 0 }),
        ("<<", Token::BitShiftLeft { index: 0 }),
        ("==", Token::DoubleEq { index: 0 }),
        ("!=", Token::NotEq { index: 0 }),
        ("&&", Token::AndAnd { index: 0 }),
        ("||", Token::OrOr { index: 0 }),
        ("++", Token::PlusPlus { index: 0 }),
        ("--", Token::MinusMinus { index: 0 }),
        ("->", Token::Arrow { index: 0 }),
    ];
    for (input, expected) in cases {
        assert_eq!(tokenizer().tokenize(input), vec![expected, Token::Eof], "input {:?}", input);
    }
}

#[test]
fn pow_is_never_two_stars() {
    let tokens = tokenizer().tokenize("**");
    assert_eq!(tokens, vec![Token::Pow { index: 0 }, Token::Eof]);
    assert!(!kinds(&tokens).contains(&TokenKind::Star));
    assert_eq!(
        tokenizer().tokenize("***"),
        vec![Token::Pow { index: 0 }, Token::Star { index: 2 }, Token::Eof]
    );
}

#[test]
fn greater_or_equal_is_never_greater_then_eq() {
    let tokens = tokenizer().tokenize(">=");
    assert_eq!(tokens, vec![Token::GreaterThanOrEqual { index: 0 }, Token::Eof]);
    assert_eq!(
        tokenizer().tokenize("> ="),
        vec![Token::GreaterThan { index: 0 }, Token::Eq { index: 2 }, Token::Eof]
    );
}

#[test]
fn order_decides_and_not_length() {
    // `=` stands before `!=` in the table, and `==` before `=`.
    assert_eq!(
        tokenizer().tokenize("==="),
        vec![Token::DoubleEq { index: 0 }, Token::Eq { index: 2 }, Token::Eof]
    );
    // A keyword stands before the identifier rule and has no word boundary.
    assert_eq!(
        tokenizer().tokenize("letter"),
        vec![Token::Let { index: 0 }, identifier(3, "ter"), Token::Eof]
    );
    assert_eq!(
        tokenizer().tokenize("integer"),
        vec![Token::IntKeyword { index: 0 }, identifier(3, "eger"), Token::Eof]
    );
    // A number stands before the minus sign.
    assert_eq!(tokenizer().tokenize("-5"), vec![number(0, "-5"), Token::Eof]);
    assert_eq!(
        tokenizer().tokenize("x-5"),
        vec![identifier(0, "x"), number(1, "-5"), Token::Eof]
    );
    assert_eq!(
        tokenizer().tokenize("-x"),
        vec![Token::Minus { index: 0 }, identifier(1, "x"), Token::Eof]
    );
}

#[test]
fn rule_table_order() {
    let place = |kind: TokenKind| (0..RULE_COUNT).find(|&i| rule_kind(i) == kind).unwrap();
    let pairs = [
        (TokenKind::Pow, TokenKind::Star),
        (TokenKind::GreaterThanOrEqual, TokenKind::GreaterThan),
        (TokenKind::BitshiftRight, TokenKind::GreaterThan),
        (TokenKind::LessThanOrEqual, TokenKind::LessThan),
        (TokenKind::BitShiftLeft, TokenKind::LessThan),
        (TokenKind::DoubleEq, TokenKind::Eq),
        (TokenKind::NotEq, TokenKind::Bang),
        (TokenKind::AndAnd, TokenKind::And),
        (TokenKind::OrOr, TokenKind::Or),
        (TokenKind::PlusPlus, TokenKind::Plus),
        (TokenKind::MinusMinus, TokenKind::Minus),
        (TokenKind::Arrow, TokenKind::Minus),
        (TokenKind::NumberLiteral, TokenKind::Minus),
        (TokenKind::Let, TokenKind::Identifier),
        (TokenKind::Const, TokenKind::Identifier),
    ];
    for (first, second) in pairs {
        assert!(place(first) < place(second), "{:?} before {:?}", first, second);
    }
    assert_eq!(RULE_COUNT, 63);
    assert_eq!(rule_kind(0), TokenKind::Whitespace);
    assert_eq!(rule_pattern(0), "^[ \\t]+");
    assert_eq!(rule_kind(62), TokenKind::Identifier);
    assert_eq!(rule_pattern(62), "^[a-zA-Z$_][a-zA-Z0-9$_]*");
    for i in 0..RULE_COUNT {
        assert!(rule_pattern(i).starts_with('^'));
        assert_ne!(rule_kind(i), TokenKind::Eof);
    }
}

#[test]
fn every_symbol_and_keyword_is_read() {
    let cases = [
        ("{", TokenKind::LBrace),
        ("}", TokenKind::RBrace),
        ("[", TokenKind::LBracket),
        ("]", TokenKind::RBracket),
        ("(", TokenKind::LParen),
        (")", TokenKind::RParen),
        (";", TokenKind::Semicolon),
        (":", TokenKind::Colon),
        (".", TokenKind::Dot),
        (",", TokenKind::Comma),
        ("**", TokenKind::Pow),
        ("*", TokenKind::Star),
        ("==", TokenKind::DoubleEq),
        ("->", TokenKind::Arrow),
        ("=", TokenKind::Eq),
        ("!=", TokenKind::NotEq),
        ("&&", TokenKind::AndAnd),
        ("&", TokenKind::And),
        ("^", TokenKind::Caret),
        ("~", TokenKind::Tilde),
        ("!", TokenKind::Bang),
        ("||", TokenKind::OrOr),
        ("|", TokenKind::Or),
        ("++", TokenKind::PlusPlus),
        ("+", TokenKind::Plus),
        ("--", TokenKind::MinusMinus),
        ("-", TokenKind::Minus),
        ("\\", TokenKind::Backslash),
        ("%", TokenKind::Percent),
        ("?", TokenKind::QMark),
        (">=", TokenKind::GreaterThanOrEqual),
        ("<=", TokenKind::LessThanOrEqual),
        (">>", TokenKind::BitshiftRight),
        (">", TokenKind::GreaterThan),
        ("<<", TokenKind::BitShiftLeft),
        ("<", TokenKind::LessThan),
        ("null", TokenKind::Null),
        ("start", TokenKind::Start),
        ("int", TokenKind::IntKeyword),
        ("decimal", TokenKind::DecimalKeyword),
        ("string", TokenKind::StringKeyword),
        ("bool", TokenKind::BooleanKeyword),
        ("true", TokenKind::True),
        ("false", TokenKind::False),
        ("as", TokenKind::As),
        ("for", TokenKind::For),
        ("while", TokenKind::While),
        ("on_loop", TokenKind::OnLoop),
        ("break", TokenKind::Break),
        ("continue", TokenKind::Continue),
        ("if", TokenKind::If),
        ("else", TokenKind::Else),
        ("return", TokenKind::Return),
        ("let", TokenKind::Let),
        ("const", TokenKind::Const),
    ];
    for (input, kind) in cases {
        let tokens = tokenizer().tokenize(input);
        assert_eq!(tokens, vec![Token::plain(kind, 0), Token::Eof], "input {:?}", input);
        let padded = format!("  {} ", input);
        let tokens = tokenizer().tokenize(&padded);
        assert_eq!(tokens, vec![Token::plain(kind, 2), Token::Eof], "input {:?}", padded);
    }
}

#[test]
fn trailing_comment_is_kept_and_line_break_dropped() {
    let tokens = tokenizer().tokenize("let x: int = 5; // note\n");
    assert_eq!(
        tokens,
        vec![
            Token::Let { index: 0 },
            identifier(4, "x"),
            Token::Colon { index: 5 },
            Token::IntKeyword { index: 7 },
            Token::Eq { index: 11 },
            number(13, "5"),
            Token::Semicolon { index: 14 },
            comment(16, " note"),
            Token::Eof,
        ]
    );
    assert!(kinds(&tokens).contains(&TokenKind::Comment));
    assert!(!kinds(&tokens).contains(&TokenKind::LineBreak));
}

#[test]
fn comment_runs_to_the_end_of_its_line() {
    assert_eq!(
        tokenizer().tokenize("// c\r\nx"),
        vec![comment(0, " c"), identifier(6, "x"), Token::Eof]
    );
    assert_eq!(tokenizer().tokenize("// only"), vec![comment(0, " only"), Token::Eof]);
    assert_eq!(tokenizer().tokenize("//"), vec![comment(0, ""), Token::Eof]);
    assert_eq!(
        tokenizer().tokenize("a //b\n//c"),
        vec![identifier(0, "a"), comment(2, "b"), comment(6, "c"), Token::Eof]
    );
}

#[test]
fn string_literals_lose_their_quotes() {
    assert_eq!(tokenizer().tokenize("\"hi there\""), vec![string(0, "hi there"), Token::Eof]);
    assert_eq!(tokenizer().tokenize("'a b'"), vec![string(0, "a b"), Token::Eof]);
    assert_eq!(tokenizer().tokenize("`a\nb`"), vec![string(0, "a\nb"), Token::Eof]);
    assert_eq!(
        tokenizer().tokenize("'a'`b\nc`"),
        vec![string(0, "a"), string(3, "b\nc"), Token::Eof]
    );
    assert_eq!(tokenizer().tokenize("\"it's\""), vec![string(0, "it's"), Token::Eof]);
}

#[test]
fn quoted_strings_do_not_span_lines_and_are_not_empty() {
    assert_eq!(tokenizer().tokenize("\"a\nb\""), vec![Token::Eof]);
    assert_eq!(tokenizer().tokenize("'a\nb'"), vec![Token::Eof]);
    assert_eq!(tokenizer().tokenize("\"\""), vec![Token::Eof]);
    assert_eq!(tokenizer().tokenize("\"open"), vec![Token::Eof]);
}

#[test]
fn number_is_not_followed_by_a_name_character() {
    assert_eq!(tokenizer().tokenize("5x"), vec![Token::Eof]);
    assert_eq!(tokenizer().tokenize("5_"), vec![Token::Eof]);
    assert_eq!(tokenizer().tokenize("5$"), vec![Token::Eof]);
    assert_eq!(tokenizer().tokenize("5;"), vec![number(0, "5"), Token::Semicolon { index: 1 }, Token::Eof]);
    // The pattern gives digits back until what follows is no name character.
    assert_eq!(tokenizer().tokenize("55x"), vec![number(0, "5"), Token::Eof]);
    assert_eq!(tokenizer().tokenize("5.5x"), vec![number(0, "5."), Token::Eof]);
}

#[test]
fn number_forms() {
    assert_eq!(tokenizer().tokenize("5."), vec![number(0, "5."), Token::Eof]);
    assert_eq!(tokenizer().tokenize("0.25"), vec![number(0, "0.25"), Token::Eof]);
    assert_eq!(
        tokenizer().tokenize("5 .5"),
        vec![number(0, "5"), Token::Dot { index: 2 }, number(3, "5"), Token::Eof]
    );
    assert_eq!(
        tokenizer().tokenize("1-2"),
        vec![number(0, "1"), number(1, "-2"), Token::Eof]
    );
}

#[test]
fn identifiers() {
    assert_eq!(tokenizer().tokenize("_a$1"), vec![identifier(0, "_a$1"), Token::Eof]);
    assert_eq!(tokenizer().tokenize("$"), vec![identifier(0, "$"), Token::Eof]);
    assert_eq!(
        tokenizer().tokenize("x.y,z"),
        vec![
            identifier(0, "x"),
            Token::Dot { index: 1 },
            identifier(2, "y"),
            Token::Comma { index: 3 },
            identifier(4, "z"),
            Token::Eof,
        ]
    );
}

#[test]
fn scan_stops_where_no_rule_applies() {
    assert_eq!(tokenizer().tokenize("@"), vec![Token::Eof]);
    assert_eq!(
        tokenizer().tokenize("let y = @ 3"),
        vec![Token::Let { index: 0 }, identifier(4, "y"), Token::Eq { index: 6 }, Token::Eof]
    );
    assert_eq!(
        tokenizer().scan_tokens("let y = @ 3"),
        (vec![Token::Let { index: 0 }, identifier(4, "y"), Token::Eq { index: 6 }], 8)
    );
    assert_eq!(tokenizer().tokenize("1/2"), vec![number(0, "1"), Token::Eof]);
    assert_eq!(tokenizer().scan_tokens("a b"), (vec![identifier(0, "a"), identifier(2, "b")], 3));
}

#[test]
fn strict_tokenizing_reports_where_the_scan_stopped() {
    assert_eq!(
        tokenizer().tokenize_strict("let y = @ 3"),
        Err(LexError { position: 8, remaining_text: "@ 3".to_string() })
    );
    assert_eq!(
        tokenizer().tokenize_strict("5x"),
        Err(LexError { position: 0, remaining_text: "5x".to_string() })
    );
    assert_eq!(
        tokenizer().tokenize_strict("55x"),
        Err(LexError { position: 1, remaining_text: "5x".to_string() })
    );
    assert_eq!(
        tokenizer().tokenize_strict("let x: int = 5;"),
        Ok(tokenizer().tokenize("let x: int = 5;"))
    );
}

#[test]
fn positions_are_byte_offsets() {
    // The quoted text holds a character of two bytes.
    assert_eq!(
        tokenizer().tokenize("\"\u{e9}\" x"),
        vec![string(0, "\u{e9}"), identifier(5, "x"), Token::Eof]
    );
    assert_eq!(
        tokenizer().tokenize("// \u{4e2d}\u{6587}\nx"),
        vec![comment(0, " \u{4e2d}\u{6587}"), identifier(10, "x"), Token::Eof]
    );
    assert_eq!(
        tokenizer().tokenize_strict("a \u{e9}b"),
        Err(LexError { position: 2, remaining_text: "\u{e9}b".to_string() })
    );
}

#[test]
fn tokenizing_again_gives_the_same_tokens() {
    let first = tokenizer().tokenize("let x: int = 5.05;");
    let second = tokenizer().tokenize("let x: int = 5.05;");
    assert_eq!(first, second);
}

fn spelling(token: &Token) -> String {
    match token {
        Token::Identifier(data) => data.value().to_string(),
        Token::NumberLiteral(data) => data.value().to_string(),
        Token::StringLiteral(data) => format!("\"{}\"", data.value()),
        Token::Comment(data) => format!("//{}\n", data.value()),
        Token::Let { .. } => "let".to_string(),
        Token::Colon { .. } => ":".to_string(),
        Token::IntKeyword { .. } => "int".to_string(),
        Token::StringKeyword { .. } => "string".to_string(),
        Token::Eq { .. } => "=".to_string(),
        Token::Semicolon { .. } => ";".to_string(),
        Token::Pow { .. } => "**".to_string(),
        Token::Eof => String::new(),
        other => panic!("no spelling for {:?}", other),
    }
}

#[test]
fn tokens_spelled_out_tokenize_to_the_same_kinds_and_texts() {
    let source = "let  x :int=5.05 ;\n\tlet s: string = \"a b\"; // end\n 2 ** 3";
    let first = tokenizer().tokenize(source);
    let spelled: Vec<String> = first.iter().map(spelling).collect();
    let rebuilt = spelled.join(" ");
    let second = tokenizer().tokenize(&rebuilt);
    assert_eq!(kinds(&first), kinds(&second));
    let texts = |tokens: &[Token]| -> Vec<String> { tokens.iter().map(spelling).collect() };
    assert_eq!(texts(&first), texts(&second));
}

#[test]
fn tokens_joined_without_a_gap_may_tokenize_otherwise() {
    let first = tokenizer().tokenize("a b");
    assert_eq!(first, vec![identifier(0, "a"), identifier(2, "b"), Token::Eof]);
    let second = tokenizer().tokenize("ab");
    assert_eq!(second, vec![identifier(0, "ab"), Token::Eof]);
}

#[test]
fn only_a_span_at_the_start_that_is_not_empty_is_a_token() {
    assert_eq!(token_length_of(Some((0, 2))), Some(2));
    assert_eq!(token_length_of(Some((0, 1))), Some(1));
    assert_eq!(token_length_of(Some((0, 0))), None);
    assert_eq!(token_length_of(Some((1, 3))), None);
    assert_eq!(token_length_of(Some((3, 3))), None);
    assert_eq!(token_length_of(None), None);
    assert_eq!(token_length_of(Some((0, usize::MAX))), Some(usize::MAX));
}

#[test]
fn lex_error_in_words() {
    let error = tokenizer().tokenize_strict("let y = @ 3").unwrap_err();
    assert_eq!(error.message(), "No match found for: @ 3");
}

fn plain_spelling(kind: TokenKind) -> &'static str {
    match kind {
        TokenKind::LBrace => "{",
        TokenKind::RBrace => "}",
        TokenKind::LBracket => "[",
        TokenKind::RBracket => "]",
        TokenKind::LParen => "(",
        TokenKind::RParen => ")",
        TokenKind::Semicolon => ";",
        TokenKind::Colon => ":",
        TokenKind::Dot => ".",
        TokenKind::Comma => ",",
        TokenKind::Pow => "**",
        TokenKind::Star => "*",
        TokenKind::DoubleEq => "==",
        TokenKind::Arrow => "->",
        TokenKind::Eq => "=",
        TokenKind::NotEq => "!=",
        TokenKind::AndAnd => "&&",
        TokenKind::And => "&",
        TokenKind::Caret => "^",
        TokenKind::Tilde => "~",
        TokenKind::Bang => "!",
        TokenKind::OrOr => "||",
        TokenKind::Or => "|",
        TokenKind::PlusPlus => "++",
        TokenKind::Plus => "+",
        TokenKind::MinusMinus => "--",
        TokenKind::Minus => "-",
        TokenKind::Backslash => "\\",
        TokenKind::Percent => "%",
        TokenKind::QMark => "?",
        TokenKind::GreaterThanOrEqual => ">=",
        TokenKind::LessThanOrEqual => "<=",
        TokenKind::BitshiftRight => ">>",
        TokenKind::GreaterThan => ">",
        TokenKind::BitShiftLeft => "<<",
        TokenKind::LessThan => "<",
        TokenKind::Null => "null",
        TokenKind::Start => "start",
        TokenKind::IntKeyword => "int",
        TokenKind::DecimalKeyword => "decimal",
        TokenKind::StringKeyword => "string",
        TokenKind::BooleanKeyword => "bool",
        TokenKind::True => "true",
        TokenKind::False => "false",
        TokenKind::As => "as",
        TokenKind::For => "for",
        TokenKind::While => "while",
        TokenKind::OnLoop => "on_loop",
        TokenKind::Break => "break",
        TokenKind::Continue => "continue",
        TokenKind::If => "if",
        TokenKind::Else => "else",
        TokenKind::Return => "return",
        TokenKind::Let => "let",
        TokenKind::Const => "const",
        other => panic!("{:?} has no fixed spelling", other),
    }
}

/// The text of the source that the token was read from.
fn matched_text(source: &str, token: &Token) -> String {
    match token {
        Token::Identifier(data) => data.value().to_string(),
        Token::NumberLiteral(data) => data.value().to_string(),
        Token::Comment(data) => format!("//{}", data.value()),
        Token::StringLiteral(data) => {
            let quote = source.as_bytes()[data.index() as usize] as char;
            format!("{}{}{}", quote, data.value(), quote)
        }
        other => plain_spelling(other.kind()).to_string(),
    }
}

/// The matched texts of the tokens, in order, each on a line of its own.
fn on_lines_of_their_own(source: &str, tokens: &[Token]) -> String {
    let mut rebuilt = String::new();
    for token in tokens {
        if token.kind() != TokenKind::Eof {
            let text = matched_text(source, token);
            let at = token.position().unwrap() as usize;
            assert_eq!(&source[at..at + text.len()], text);
            rebuilt.push_str(&text);
            rebuilt.push('\n');
        }
    }
    rebuilt
}

fn carried(token: &Token) -> Option<String> {
    match token {
        Token::Identifier(data) => Some(data.value().to_string()),
        Token::NumberLiteral(data) => Some(data.value().to_string()),
        Token::Comment(data) => Some(data.value().to_string()),
        Token::StringLiteral(data) => Some(data.value().to_string()),
        _ => None,
    }
}

#[test]
fn tokens_on_lines_of_their_own_tokenize_to_the_same_tokens() {
    let sources = [
        "",
        "let x: int = 5.05;",
        "let  x :int=5.05 ;\n\tlet s: string = \"a b\"; // end\n 2 ** 3",
        "letter integer -5 x-5 a--b 55x",
        "'one' `two\nlines` \"three\" // a comment with  spaces \r\n{[()]}",
        "a >= b && c != d || !e -> f ** g >> h << i <= j == k",
        "return null; // \u{4e2d}\u{6587}\nwhile true { break } @ never read",
        "5.5x",
        "//",
    ];
    for source in sources {
        let first = tokenizer().tokenize(source);
        let rebuilt = on_lines_of_their_own(source, &first);
        let second = tokenizer().tokenize(&rebuilt);
        assert_eq!(second.len(), first.len(), "source {:?}", source);
        for (before, after) in first.iter().zip(second.iter()) {
            assert_eq!(after.kind(), before.kind(), "source {:?}", source);
            assert_eq!(carried(after), carried(before), "source {:?}", source);
        }
        assert_eq!(tokenizer().tokenize_strict(&rebuilt), Ok(second));
    }
}

#[test]
fn comment_that_ends_in_a_carriage_return_loses_it_before_a_line_break() {
    // At the end of the source a carriage return belongs to the comment.
    let source = "//a\r";
    let first = tokenizer().tokenize(source);
    assert_eq!(first, vec![comment(0, "a\r"), Token::Eof]);
    // Followed by a line break it is part of the line break.
    let rebuilt = on_lines_of_their_own(source, &first);
    assert_eq!(rebuilt, "//a\r\n");
    assert_eq!(tokenizer().tokenize(&rebuilt), vec![comment(0, "a"), Token::Eof]);
}
