use crate::tokenizer::matcher::first_match;
use crate::tokenizer::rules::{spec_rule_kind, spec_rule_pattern, RULE_COUNT};
use crate::tokenizer::tokens::{lexeme_view, TokenKind, TokenView};
use vstd::prelude::*;
use vstd::utf8::{decode_utf8, encode_utf8};

verus! {

/// The text that `source` holds from byte `pos` to its end.
pub open spec fn text_from(source: Seq<u8>, pos: int) -> Seq<char> {
    decode_utf8(source.subrange(pos, source.len() as int))
}

/// The text that `source` holds in the `len` bytes from byte `pos`.
pub open spec fn text_between(source: Seq<u8>, pos: int, len: int) -> Seq<char> {
    decode_utf8(source.subrange(pos, pos + len))
}

/// The length of the token that a reported span stands for, if it stands for
/// one: the span begins with the first byte of the text and is not empty. A
/// match further on is no token at this place, and an empty one would never
/// move the cursor.
pub open spec fn token_length(span: Option<(int, int)>) -> Option<int> {
    match span {
        Some(span) => if span.0 == 0 && span.1 > 0 {
            Some(span.1)
        } else {
            None
        },
        None => None,
    }
}

/// How many bytes the rule at place `rule` reads at the start of `text`, if it
/// applies there: the length of the token that the search with its pattern
/// reports.
pub open spec fn rule_match(rule: int, text: Seq<char>) -> Option<int> {
    token_length(first_match(spec_rule_pattern(rule), text))
}

/// A rule together with the number of bytes that it reads.
pub struct Lexeme {
    pub rule: int,
    pub len: int,
}

/// The first rule, from place `from` of the table on, that applies at the
/// start of `text`.
pub open spec fn select_rule(text: Seq<char>, from: int) -> Option<Lexeme>
    decreases RULE_COUNT - from,
{
    if from < 0 || from >= RULE_COUNT {
        None
    } else {
        match rule_match(from, text) {
            Some(len) => Some(Lexeme { rule: from, len }),
            None => select_rule(text, from + 1),
        }
    }
}

/// What a scan yields: the tokens that were kept, and the byte at which the
/// scan stopped.
pub struct Scan {
    pub tokens: Seq<TokenView>,
    pub stop: int,
}

/// First match wins: the rule that is selected applies, and no rule that
/// stands before it in the table does. Where none is selected, none applies.
pub proof fn lemma_select_rule_is_first(text: Seq<char>, from: int)
    requires
        0 <= from,
    ensures
        match select_rule(text, from) {
            Some(lexeme) => {
                &&& from <= lexeme.rule < RULE_COUNT
                &&& lexeme.len > 0
                &&& rule_match(lexeme.rule, text) == Some(lexeme.len)
                &&& forall|earlier: int|
                    from <= earlier < lexeme.rule ==> rule_match(earlier, text) is None
            },
            None => forall|rule: int| from <= rule < RULE_COUNT ==> rule_match(rule, text) is None,
        },
    decreases RULE_COUNT - from,
{
    if from < RULE_COUNT && rule_match(from, text) is None {
        lemma_select_rule_is_first(text, from + 1);
    }
}

/// The scan of `source` from byte `pos` on. At each place the first rule that
/// applies reads its token and the cursor moves past it; whitespace and line
/// breaks are read and dropped. The scan stops at the end of the source, or
/// at the first place where no rule applies. (A rule that would read past
/// the end of the source does not apply either.)
pub open spec fn scan(source: Seq<u8>, pos: int) -> Scan
    decreases source.len() - pos,
    via scan_terminates
{
    if pos < 0 || pos >= source.len() {
        Scan { tokens: Seq::empty(), stop: pos }
    } else {
        match select_rule(text_from(source, pos), 0) {
            None => Scan { tokens: Seq::empty(), stop: pos },
            Some(lexeme) => if pos + lexeme.len > source.len() {
                Scan { tokens: Seq::empty(), stop: pos }
            } else {
                let kind = spec_rule_kind(lexeme.rule);
                let rest = scan(source, pos + lexeme.len);
                if kind.spec_is_discarded() {
                    rest
                } else {
                    let token = lexeme_view(kind, pos, text_between(source, pos, lexeme.len));
                    Scan { tokens: seq![token] + rest.tokens, stop: rest.stop }
                }
            },
        }
    }
}

#[via_fn]
proof fn scan_terminates(source: Seq<u8>, pos: int) {
    lemma_select_rule_is_first(text_from(source, pos), 0);
}

/// The token sequence of a source text: what the scan from its first byte
/// keeps, and then the end-of-input sentinel.
pub open spec fn lex(source: Seq<char>) -> Seq<TokenView> {
    scan(encode_utf8(source), 0).tokens.push(TokenView::bare(TokenKind::Eof))
}

/// The byte at which the scan of a source text stops: its length where every
/// byte was read.
pub open spec fn lex_stop(source: Seq<char>) -> int {
    scan(encode_utf8(source), 0).stop
}

/// The rule that is selected is the first of the table that applies: a rule
/// that applies while none before it does is the one selected, with the
/// length that it reads.
pub proof fn lemma_first_applicable_is_selected(text: Seq<char>, rule: int)
    requires
        0 <= rule < RULE_COUNT,
        rule_match(rule, text) is Some,
        forall|earlier: int| 0 <= earlier < rule ==> rule_match(earlier, text) is None,
    ensures
        select_rule(text, 0) == Some(Lexeme { rule, len: rule_match(rule, text)->0 }),
{
    lemma_select_rule_is_first(text, 0);
}

/// Order decides, not length: where a rule applies, no rule that stands after
/// it in the table is selected, however much text that rule would read.
pub proof fn lemma_earlier_rule_wins(text: Seq<char>, earlier: int, later: int)
    requires
        0 <= earlier < later < RULE_COUNT,
        rule_match(earlier, text) is Some,
    ensures
        select_rule(text, 0) matches Some(lexeme) && lexeme.rule <= earlier < later,
{
    lemma_select_rule_is_first(text, 0);
}

/// Some rule of the table produces tokens of this kind.
pub open spec fn has_rule(kind: TokenKind) -> bool {
    exists|rule: int| 0 <= rule < RULE_COUNT && #[trigger] spec_rule_kind(rule) == kind
}

/// Every kind of token has a rule that produces it, but for the end-of-input
/// sentinel, which no rule produces. Whitespace is the only kind without a
/// position that a rule produces.
pub proof fn lemma_rule_kinds()
    ensures
        forall|rule: int|
            0 <= rule < RULE_COUNT ==> {
                let kind = #[trigger] spec_rule_kind(rule);
                &&& kind != TokenKind::Eof
                &&& kind.spec_has_position() || kind.spec_is_discarded()
            },
        forall|kind: TokenKind| kind != TokenKind::Eof <==> #[trigger] has_rule(kind),
{
    assert forall|kind: TokenKind| kind != TokenKind::Eof implies #[trigger] has_rule(kind) by {
        match kind {
            TokenKind::Whitespace => assert(spec_rule_kind(0) == kind),
            TokenKind::LineBreak => assert(spec_rule_kind(1) == kind),
            TokenKind::Comment => assert(spec_rule_kind(2) == kind),
            TokenKind::StringLiteral => assert(spec_rule_kind(3) == kind),
            TokenKind::NumberLiteral => assert(spec_rule_kind(6) == kind),
            TokenKind::LBrace => assert(spec_rule_kind(7) == kind),
            TokenKind::RBrace => assert(spec_rule_kind(8) == kind),
            TokenKind::LBracket => assert(spec_rule_kind(9) == kind),
            TokenKind::RBracket => assert(spec_rule_kind(10) == kind),
            TokenKind::LParen => assert(spec_rule_kind(11) == kind),
            TokenKind::RParen => assert(spec_rule_kind(12) == kind),
            TokenKind::Semicolon => assert(spec_rule_kind(13) == kind),
            TokenKind::Colon => assert(spec_rule_kind(14) == kind),
            TokenKind::Dot => assert(spec_rule_kind(15) == kind),
            TokenKind::Comma => assert(spec_rule_kind(16) == kind),
            TokenKind::Pow => assert(spec_rule_kind(17) == kind),
            TokenKind::Star => assert(spec_rule_kind(18) == kind),
            TokenKind::DoubleEq => assert(spec_rule_kind(19) == kind),
            TokenKind::Arrow => assert(spec_rule_kind(20) == kind),
            TokenKind::Eq => assert(spec_rule_kind(21) == kind),
            TokenKind::NotEq => assert(spec_rule_kind(22) == kind),
            TokenKind::AndAnd => assert(spec_rule_kind(23) == kind),
            TokenKind::And => assert(spec_rule_kind(24) == kind),
            TokenKind::Caret => assert(spec_rule_kind(25) == kind),
            TokenKind::Tilde => assert(spec_rule_kind(26) == kind),
            TokenKind::Bang => assert(spec_rule_kind(27) == kind),
            TokenKind::OrOr => assert(spec_rule_kind(28) == kind),
            TokenKind::Or => assert(spec_rule_kind(29) == kind),
            TokenKind::PlusPlus => assert(spec_rule_kind(30) == kind),
            TokenKind::Plus => assert(spec_rule_kind(31) == kind),
            TokenKind::MinusMinus => assert(spec_rule_kind(32) == kind),
            TokenKind::Minus => assert(spec_rule_kind(33) == kind),
            TokenKind::Backslash => assert(spec_rule_kind(34) == kind),
            TokenKind::Percent => assert(spec_rule_kind(35) == kind),
            TokenKind::QMark => assert(spec_rule_kind(36) == kind),
            TokenKind::GreaterThanOrEqual => assert(spec_rule_kind(37) == kind),
            TokenKind::LessThanOrEqual => assert(spec_rule_kind(38) == kind),
            TokenKind::BitshiftRight => assert(spec_rule_kind(39) == kind),
            TokenKind::GreaterThan => assert(spec_rule_kind(40) == kind),
            TokenKind::BitShiftLeft => assert(spec_rule_kind(41) == kind),
            TokenKind::LessThan => assert(spec_rule_kind(42) == kind),
            TokenKind::Null => assert(spec_rule_kind(43) == kind),
            TokenKind::Start => assert(spec_rule_kind(44) == kind),
            TokenKind::IntKeyword => assert(spec_rule_kind(45) == kind),
            TokenKind::DecimalKeyword => assert(spec_rule_kind(46) == kind),
            TokenKind::StringKeyword => assert(spec_rule_kind(47) == kind),
            TokenKind::BooleanKeyword => assert(spec_rule_kind(48) == kind),
            TokenKind::True => assert(spec_rule_kind(49) == kind),
            TokenKind::False => assert(spec_rule_kind(50) == kind),
            TokenKind::As => assert(spec_rule_kind(51) == kind),
            TokenKind::For => assert(spec_rule_kind(52) == kind),
            TokenKind::While => assert(spec_rule_kind(53) == kind),
            TokenKind::OnLoop => assert(spec_rule_kind(54) == kind),
            TokenKind::Break => assert(spec_rule_kind(55) == kind),
            TokenKind::Continue => assert(spec_rule_kind(56) == kind),
            TokenKind::If => assert(spec_rule_kind(57) == kind),
            TokenKind::Else => assert(spec_rule_kind(58) == kind),
            TokenKind::Return => assert(spec_rule_kind(59) == kind),
            TokenKind::Let => assert(spec_rule_kind(60) == kind),
            TokenKind::Const => assert(spec_rule_kind(61) == kind),
            TokenKind::Identifier => assert(spec_rule_kind(62) == kind),
            TokenKind::Eof => {},
        }
    }
}

/// Every rule of the first kind stands before every rule of the second.
pub open spec fn stands_before(first: TokenKind, second: TokenKind) -> bool {
    forall|i: int, j: int|
        0 <= i < RULE_COUNT && 0 <= j < RULE_COUNT && spec_rule_kind(i) == first
            && spec_rule_kind(j) == second ==> i < j
}

/// The kind is one of the keywords and keyword literals.
pub open spec fn is_keyword(kind: TokenKind) -> bool {
    match kind {
        TokenKind::Null
        | TokenKind::True
        | TokenKind::False
        | TokenKind::As
        | TokenKind::For
        | TokenKind::While
        | TokenKind::Break
        | TokenKind::Continue
        | TokenKind::If
        | TokenKind::Else
        | TokenKind::Return
        | TokenKind::Let
        | TokenKind::Const
        | TokenKind::Start
        | TokenKind::OnLoop
        | TokenKind::IntKeyword
        | TokenKind::DecimalKeyword
        | TokenKind::StringKeyword
        | TokenKind::BooleanKeyword => true,
        _ => false,
    }
}

/// The order of the table, where it matters: an operator of two characters
/// stands before the operator that is its first character, a number stands
/// before the minus sign, and every keyword stands before the identifier
/// rule.
pub proof fn lemma_rule_order()
    ensures
        stands_before(TokenKind::Pow, TokenKind::Star),
        stands_before(TokenKind::GreaterThanOrEqual, TokenKind::GreaterThan),
        stands_before(TokenKind::BitshiftRight, TokenKind::GreaterThan),
        stands_before(TokenKind::LessThanOrEqual, TokenKind::LessThan),
        stands_before(TokenKind::BitShiftLeft, TokenKind::LessThan),
        stands_before(TokenKind::DoubleEq, TokenKind::Eq),
        stands_before(TokenKind::NotEq, TokenKind::Bang),
        stands_before(TokenKind::AndAnd, TokenKind::And),
        stands_before(TokenKind::OrOr, TokenKind::Or),
        stands_before(TokenKind::PlusPlus, TokenKind::Plus),
        stands_before(TokenKind::MinusMinus, TokenKind::Minus),
        stands_before(TokenKind::Arrow, TokenKind::Minus),
        stands_before(TokenKind::NumberLiteral, TokenKind::Minus),
        forall|kind: TokenKind| is_keyword(kind) ==> stands_before(kind, TokenKind::Identifier),
{
}

/// What holds of the tokens that a scan keeps: none is whitespace, a line
/// break or the sentinel; each carries the byte offset at which it was read;
/// and these offsets grow from each token to the next, from `pos` on and
/// within the source.
pub proof fn lemma_scan_shape(source: Seq<u8>, pos: int)
    requires
        0 <= pos,
    ensures
        pos <= scan(source, pos).stop,
        pos <= source.len() ==> scan(source, pos).stop <= source.len(),
        forall|i: int|
            0 <= i < scan(source, pos).tokens.len() ==> {
                let token = #[trigger] scan(source, pos).tokens[i];
                &&& !token.kind.spec_is_discarded()
                &&& token.kind != TokenKind::Eof
                &&& token.position matches Some(index) && pos <= index < scan(source, pos).stop
            },
        forall|i: int, j: int|
            0 <= i < j < scan(source, pos).tokens.len() ==> (#[trigger] scan(
                source,
                pos,
            ).tokens[i]).position->0 < (#[trigger] scan(source, pos).tokens[j]).position->0,
    decreases source.len() - pos,
{
    if pos < source.len() {
        match select_rule(text_from(source, pos), 0) {
            None => {},
            Some(lexeme) => {
                lemma_select_rule_is_first(text_from(source, pos), 0);
                if pos + lexeme.len <= source.len() {
                    lemma_rule_kinds();
                    lemma_scan_shape(source, pos + lexeme.len);
                }
            },
        }
    }
}

/// The token sequence of any source text ends with the end-of-input
/// sentinel, which stands nowhere else in it. It holds no whitespace and no
/// line break, and the byte offsets of its tokens grow from each to the next.
pub proof fn lemma_lex_shape(source: Seq<char>)
    ensures
        lex(source).len() >= 1,
        lex(source).last() == TokenView::bare(TokenKind::Eof),
        forall|i: int|
            0 <= i < lex(source).len() - 1 ==> {
                let token = #[trigger] lex(source)[i];
                &&& token.kind != TokenKind::Eof
                &&& !token.kind.spec_is_discarded()
                &&& token.position is Some
            },
        forall|i: int, j: int|
            0 <= i < j < lex(source).len() - 1 ==> (#[trigger] lex(source)[i]).position->0 < (
            #[trigger] lex(source)[j]).position->0,
        0 <= lex_stop(source) <= encode_utf8(source).len(),
{
    lemma_scan_shape(encode_utf8(source), 0);
}

/// The empty source text has the sentinel as its only token.
pub proof fn lemma_lex_empty()
    ensures
        lex(Seq::<char>::empty()) == seq![TokenView::bare(TokenKind::Eof)],
        lex_stop(Seq::<char>::empty()) == 0,
{
    assert(encode_utf8(Seq::<char>::empty()).len() == 0);
}

} // verus!
