use petri::tokenizer::tokens::{
    CommentData, IdentifierData, NumberLiteralData, StringLiteralData, Token, TokenKind,
};

#[test]
fn data_constructors_keep_their_arguments() {
    let comment = CommentData::new(3, " note".to_string());
    assert_eq!(comment.index(), 3);
    assert_eq!(comment.value(), " note");
    let string = StringLiteralData::new(0, "text".to_string());
    assert_eq!(string.index(), 0);
    assert_eq!(string.value(), "text");
    let number = NumberLiteralData::new(-1, "5.05".to_string());
    assert_eq!(number.index(), -1);
    assert_eq!(number.value(), "5.05");
    let identifier = IdentifierData::new(i128::MAX, "x".to_string());
    assert_eq!(identifier.index(), i128::MAX);
    assert_eq!(identifier.value(), "x");
}

#[test]
fn clones_are_equal() {
    let tokens = [
        Token::Whitespace,
        Token::Eof,
        Token::LineBreak { index: 4 },
        Token::Identifier(IdentifierData::new(2, "name".to_string())),
        Token::NumberLiteral(NumberLiteralData::new(9, "1.5".to_string())),
        Token::StringLiteral(StringLiteralData::new(1, "s".to_string())),
        Token::Comment(CommentData::new(0, "c".to_string())),
        Token::OnLoop { index: 77 },
    ];
    for token in &tokens {
        assert_eq!(&token.clone(), token);
    }
}

#[test]
fn kind_ignores_position_and_text() {
    assert_eq!(Token::Let { index: 0 }.kind(), TokenKind::Let);
    assert_eq!(Token::Let { index: 90 }.kind(), TokenKind::Let);
    assert_eq!(Token::Eof.kind(), TokenKind::Eof);
    assert_eq!(Token::Whitespace.kind(), TokenKind::Whitespace);
    assert_eq!(
        Token::Identifier(IdentifierData::new(0, "a".to_string())).kind(),
        TokenKind::Identifier
    );
    assert!(Token::Let { index: 0 }.same_kind(&Token::Let { index: 5 }));
    assert!(!Token::Let { index: 0 }.same_kind(&Token::Const { index: 0 }));
    assert!(Token::Identifier(IdentifierData::new(0, "a".to_string()))
        .same_kind(&Token::Identifier(IdentifierData::new(7, "b".to_string()))));
    assert!(!Token::NumberLiteral(NumberLiteralData::new(0, "1".to_string()))
        .same_kind(&Token::StringLiteral(StringLiteralData::new(0, "1".to_string()))));
    assert!(Token::Eof.same_kind(&Token::Eof));
}

#[test]
fn position_is_absent_for_whitespace_and_sentinel() {
    assert_eq!(Token::Whitespace.position(), None);
    assert_eq!(Token::Eof.position(), None);
    assert_eq!(Token::LineBreak { index: 12 }.position(), Some(12));
    assert_eq!(Token::Arrow { index: 3 }.position(), Some(3));
    assert_eq!(Token::Comment(CommentData::new(8, "c".to_string())).position(), Some(8));
}

#[test]
fn kind_predicates() {
    assert!(TokenKind::Whitespace.is_discarded());
    assert!(TokenKind::LineBreak.is_discarded());
    assert!(!TokenKind::Comment.is_discarded());
    assert!(!TokenKind::Eof.is_discarded());
    assert!(TokenKind::Comment.has_text());
    assert!(TokenKind::StringLiteral.has_text());
    assert!(TokenKind::NumberLiteral.has_text());
    assert!(TokenKind::Identifier.has_text());
    assert!(!TokenKind::Let.has_text());
    assert!(!TokenKind::Whitespace.has_position());
    assert!(!TokenKind::Eof.has_position());
    assert!(TokenKind::LineBreak.has_position());
    assert!(TokenKind::Identifier.has_position());
}

#[test]
fn kind_names() {
    assert_eq!(TokenKind::Semicolon.name(), "Semicolon");
    assert_eq!(TokenKind::Eof.name(), "Eof");
    assert_eq!(TokenKind::GreaterThanOrEqual.name(), "GreaterThanOrEqual");
    assert_eq!(TokenKind::BitshiftRight.name(), "BitshiftRight");
    assert_eq!(TokenKind::BitShiftLeft.name(), "BitShiftLeft");
    assert_eq!(TokenKind::OnLoop.name(), format!("{:?}", TokenKind::OnLoop));
}

#[test]
fn plain_tokens() {
    assert_eq!(Token::plain(TokenKind::Let, 4), Token::Let { index: 4 });
    assert_eq!(Token::plain(TokenKind::LineBreak, 1), Token::LineBreak { index: 1 });
    assert_eq!(Token::plain(TokenKind::Whitespace, 4), Token::Whitespace);
    assert_eq!(Token::plain(TokenKind::Eof, 4), Token::Eof);
    assert_eq!(
        Token::plain(TokenKind::Identifier, 4),
        Token::Identifier(IdentifierData::new(4, String::new()))
    );
}

#[test]
fn tokens_from_lexemes() {
    assert_eq!(
        Token::from_lexeme(TokenKind::Comment, 3, "// note"),
        Token::Comment(CommentData::new(3, " note".to_string()))
    );
    assert_eq!(
        Token::from_lexeme(TokenKind::Comment, 0, "//"),
        Token::Comment(CommentData::new(0, String::new()))
    );
    assert_eq!(
        Token::from_lexeme(TokenKind::StringLiteral, 1, "\"quoted\""),
        Token::StringLiteral(StringLiteralData::new(1, "quoted".to_string()))
    );
    assert_eq!(
        Token::from_lexeme(TokenKind::StringLiteral, 1, "'\u{e9}t\u{e9}'"),
        Token::StringLiteral(StringLiteralData::new(1, "\u{e9}t\u{e9}".to_string()))
    );
    assert_eq!(
        Token::from_lexeme(TokenKind::NumberLiteral, 2, "-5.05"),
        Token::NumberLiteral(NumberLiteralData::new(2, "-5.05".to_string()))
    );
    assert_eq!(
        Token::from_lexeme(TokenKind::Identifier, 5, "name"),
        Token::Identifier(IdentifierData::new(5, "name".to_string()))
    );
    assert_eq!(Token::from_lexeme(TokenKind::Let, 6, "let"), Token::Let { index: 6 });
    assert_eq!(Token::from_lexeme(TokenKind::Whitespace, 6, "  "), Token::Whitespace);
    assert_eq!(Token::from_lexeme(TokenKind::LineBreak, 6, "\n"), Token::LineBreak { index: 6 });
}

#[test]
fn short_lexemes_leave_an_empty_text() {
    assert_eq!(
        Token::from_lexeme(TokenKind::Comment, 0, "/"),
        Token::Comment(CommentData::new(0, String::new()))
    );
    assert_eq!(
        Token::from_lexeme(TokenKind::StringLiteral, 0, "\""),
        Token::StringLiteral(StringLiteralData::new(0, String::new()))
    );
    assert_eq!(
        Token::from_lexeme(TokenKind::StringLiteral, 0, ""),
        Token::StringLiteral(StringLiteralData::new(0, String::new()))
    );
    assert_eq!(
        Token::from_lexeme(TokenKind::StringLiteral, 0, "ab"),
        Token::StringLiteral(StringLiteralData::new(0, String::new()))
    );
}
