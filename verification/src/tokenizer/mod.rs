pub mod matcher;
pub mod model;
pub mod rules;
pub mod tokens;

use crate::tokenizer::matcher::{compile, find_first, pattern_compiles, regex_source};
use crate::tokenizer::model::{
    lemma_lex_shape, lex, lex_stop, scan, select_rule, text_between, text_from, token_length,
    Lexeme, Scan,
};
use crate::tokenizer::rules::{rule_kind, rule_pattern, spec_rule_pattern, RULE_COUNT};
use crate::tokenizer::tokens::{token_views, Token, TokenKind};
use fancy_regex::Regex;
use vstd::prelude::*;
use vstd::string::{StringExecFns, StringSliceAdditionalSpecFns};
use vstd::utf8::{
    encode_utf8_decode_utf8, encode_utf8_valid_utf8, is_char_boundary,
    is_char_boundary_iff_not_is_continuation_byte, is_char_boundary_start_end_of_seq,
    valid_utf8, valid_utf8_split,
};

verus! {

/// A rule of the table whose pattern the expression compiler rejects.
#[derive(Clone, Copy, Debug, PartialEq, Eq)]
pub struct PatternError {
    /// The place of the rule in the table.
    pub rule: usize,
}

/// A place in the source at which no lexical rule applies.
#[derive(Debug, PartialEq, Eq)]
pub struct LexError {
    /// The byte offset at which the scan stopped.
    pub position: usize,
    /// The source text from that offset on.
    pub remaining_text: String,
}

impl LexError {
    /// The wording of the diagnostic.
    pub open spec fn spec_message(&self) -> Seq<char> {
        "No match found for: "@ + self.remaining_text@
    }

    /// The diagnostic in words, for a reader.
    pub fn message(&self) -> (text: String)
        ensures
            text@ == self.spec_message(),
    {
        String::from_str("No match found for: ").concat(self.remaining_text.as_str())
    }
}

/// The lexer: the table of lexical rules, each with its compiled pattern.
pub struct Tokenizer {
    matchers: Vec<Regex>,
}

/// A span of byte offsets, as the integers that it holds.
pub open spec fn span_view(span: Option<(usize, usize)>) -> Option<(int, int)> {
    match span {
        Some(span) => Some((span.0 as int, span.1 as int)),
        None => None,
    }
}

/// The length of the token that a search has found, given the span that it
/// reported: the end of a span that begins with the first byte and is not
/// empty, and nothing for any other span.
pub fn token_length_of(span: Option<(usize, usize)>) -> (length: Option<usize>)
    ensures
        token_length(span_view(span)) == match length {
            Some(length) => Some(length as int),
            None => None,
        },
{
    match span {
        Some((start, end)) => if start == 0 && end > 0 {
            Some(end)
        } else {
            None
        },
        None => None,
    }
}

/// A byte offset that is a character boundary of a suffix of `bytes` is,
/// counted from the start of `bytes`, a character boundary of `bytes`.
proof fn lemma_boundary_in_suffix(bytes: Seq<u8>, pos: int, len: int)
    requires
        valid_utf8(bytes),
        is_char_boundary(bytes, pos),
        0 <= pos <= bytes.len(),
        0 <= len <= bytes.len() - pos,
        is_char_boundary(bytes.subrange(pos, bytes.len() as int), len),
    ensures
        is_char_boundary(bytes, pos + len),
{
    let suffix = bytes.subrange(pos, bytes.len() as int);
    valid_utf8_split(bytes, pos);
    if pos + len == bytes.len() {
        is_char_boundary_start_end_of_seq(bytes);
    } else {
        is_char_boundary_iff_not_is_continuation_byte(suffix, len);
        is_char_boundary_iff_not_is_continuation_byte(bytes, pos + len);
        assert(suffix[len] == bytes[pos + len]);
    }
}

impl Tokenizer {
    #[verifier::type_invariant]
    spec fn holds_rule_table(self) -> bool {
        &&& self.matchers.len() == RULE_COUNT
        &&& forall|i: int|
            0 <= i < RULE_COUNT ==> regex_source(#[trigger] self.matchers[i])
                == spec_rule_pattern(i)
    }

    /// Compiles the pattern of every rule, in table order. Fails at the first
    /// rule whose pattern the compiler rejects.
    pub fn new() -> (made: Result<Tokenizer, PatternError>)
        ensures
            match made {
                Ok(_) => forall|i: int|
                    0 <= i < RULE_COUNT ==> pattern_compiles(#[trigger] spec_rule_pattern(i)),
                Err(error) => {
                    &&& error.rule < RULE_COUNT
                    &&& !pattern_compiles(spec_rule_pattern(error.rule as int))
                    &&& forall|i: int|
                        0 <= i < error.rule ==> pattern_compiles(#[trigger] spec_rule_pattern(i))
                },
            },
    {
        let mut matchers: Vec<Regex> = Vec::new();
        let mut rule: usize = 0;
        while rule < RULE_COUNT
            invariant
                rule <= RULE_COUNT,
                matchers.len() == rule,
                forall|i: int|
                    0 <= i < rule ==> regex_source(#[trigger] matchers[i]) == spec_rule_pattern(i),
                forall|i: int| 0 <= i < rule ==> pattern_compiles(#[trigger] spec_rule_pattern(i)),
            decreases RULE_COUNT - rule,
        {
            match compile(rule_pattern(rule)) {
                Ok(matcher) => {
                    matchers.push(matcher);
                },
                Err(_) => {
                    return Err(PatternError { rule });
                },
            }
            rule += 1;
        }
        Ok(Tokenizer { matchers })
    }

    /// The first rule of the table that applies at the start of `text`, as
    /// its place and the number of bytes that it reads.
    fn select(&self, text: &str) -> (selected: Option<(usize, usize)>)
        ensures
            match selected {
                Some((rule, len)) => {
                    &&& select_rule(text@, 0) == Some(Lexeme { rule: rule as int, len: len as int })
                    &&& rule < RULE_COUNT
                    &&& 0 < len <= text.spec_bytes().len()
                    &&& is_char_boundary(text.spec_bytes(), len as int)
                },
                None => select_rule(text@, 0) is None,
            },
    {
        proof {
            use_type_invariant(self);
        }
        let mut rule: usize = 0;
        while rule < RULE_COUNT
            invariant
                rule <= RULE_COUNT,
                self.matchers.len() == RULE_COUNT,
                forall|i: int|
                    0 <= i < RULE_COUNT ==> regex_source(#[trigger] self.matchers[i])
                        == spec_rule_pattern(i),
                select_rule(text@, 0) == select_rule(text@, rule as int),
            decreases RULE_COUNT - rule,
        {
            let span = match find_first(&self.matchers[rule], text) {
                Ok(span) => span,
                Err(_) => None,
            };
            match token_length_of(span) {
                Some(length) => {
                    return Some((rule, length));
                },
                None => {},
            }
            rule += 1;
        }
        None
    }

    /// Scans `input` from its first byte and returns the tokens that the scan
    /// keeps, together with the byte offset at which it stopped.
    pub fn scan_tokens(&self, input: &str) -> (scanned: (Vec<Token>, usize))
        ensures
            token_views(scanned.0@) == scan(input.spec_bytes(), 0).tokens,
            scanned.1 == scan(input.spec_bytes(), 0).stop,
            scanned.1 <= input.spec_bytes().len(),
            is_char_boundary(input.spec_bytes(), scanned.1 as int),
    {
        let ghost source = input.spec_bytes();
        proof {
            encode_utf8_valid_utf8(input@);
            is_char_boundary_start_end_of_seq(source);
        }
        let length = input.as_bytes().len();
        let mut tokens: Vec<Token> = Vec::new();
        let mut index: usize = 0;
        let mut halted = false;
        while index < length && !halted
            invariant
                source == input.spec_bytes(),
                valid_utf8(source),
                length == source.len(),
                index <= length,
                is_char_boundary(source, index as int),
                scan(source, 0).tokens == token_views(tokens@) + scan(source, index as int).tokens,
                scan(source, 0).stop == scan(source, index as int).stop,
                halted ==> scan(source, index as int) == (Scan {
                    tokens: Seq::empty(),
                    stop: index as int,
                }),
            decreases length - index, if halted { 0int } else { 1int },
        {
            let (_, rest) = input.split_at(index);
            proof {
                encode_utf8_decode_utf8(rest@);
                assert(rest@ == text_from(source, index as int));
            }
            match self.select(rest) {
                None => {
                    halted = true;
                },
                Some((rule, len)) => {
                    let (matched, _) = rest.split_at(len);
                    let kind = rule_kind(rule);
                    proof {
                        encode_utf8_decode_utf8(matched@);
                        assert(matched.spec_bytes() =~= source.subrange(
                            index as int,
                            index + len,
                        ));
                        assert(matched@ == text_between(source, index as int, len as int));
                        lemma_boundary_in_suffix(source, index as int, len as int);
                    }
                    if !kind.is_discarded() {
                        let token = Token::from_lexeme(kind, index as i128, matched);
                        proof {
                            let kept = token_views(tokens@);
                            let rest_scan = scan(source, index + len);
                            assert(token_views(tokens@.push(token)) =~= kept.push(token@));
                            assert(kept + (seq![token@] + rest_scan.tokens) =~= kept.push(token@)
                                + rest_scan.tokens);
                        }
                        tokens.push(token);
                    }
                    index += len;
                },
            }
        }
        (tokens, index)
    }

    /// Turns source text into its token sequence: the tokens that the scan
    /// keeps, ended by the end-of-input sentinel. Where no rule applies at
    /// some place, what was read up to there is returned, ended in the same
    /// way.
    ///
    /// The sentinel is the last token and stands nowhere else; no whitespace
    /// and no line break is among the tokens; and the byte offsets of the
    /// tokens grow from each token to the next.
    pub fn tokenize(&self, input: &str) -> (tokens: Vec<Token>)
        ensures
            token_views(tokens@) == lex(input@),
            tokens@.len() >= 1,
            tokens@.last()@.kind == TokenKind::Eof,
            forall|i: int|
                0 <= i < tokens@.len() - 1 ==> {
                    let kind = (#[trigger] tokens@[i])@.kind;
                    kind != TokenKind::Eof && !kind.spec_is_discarded()
                },
            forall|i: int, j: int|
                0 <= i < j < tokens@.len() - 1 ==> {
                    let earlier = (#[trigger] tokens@[i])@.position;
                    let later = (#[trigger] tokens@[j])@.position;
                    earlier is Some && later is Some && earlier->0 < later->0
                },
    {
        let (mut tokens, _) = self.scan_tokens(input);
        proof {
            assert(token_views(tokens@.push(Token::Eof)) =~= token_views(tokens@).push(
                Token::Eof@,
            ));
        }
        tokens.push(Token::Eof);
        proof {
            lemma_lex_shape(input@);
            assert forall|i: int| 0 <= i < tokens@.len() - 1 implies {
                let kind = (#[trigger] tokens@[i])@.kind;
                kind != TokenKind::Eof && !kind.spec_is_discarded()
            } by {
                assert(tokens@[i]@ == lex(input@)[i]);
            }
            assert forall|i: int, j: int| 0 <= i < j < tokens@.len() - 1 implies {
                let earlier = (#[trigger] tokens@[i])@.position;
                let later = (#[trigger] tokens@[j])@.position;
                earlier is Some && later is Some && earlier->0 < later->0
            } by {
                assert(tokens@[i]@ == lex(input@)[i]);
                assert(tokens@[j]@ == lex(input@)[j]);
            }
            assert(tokens@.last()@ == lex(input@).last());
        }
        tokens
    }

    /// Turns source text into its token sequence, or reports the first place
    /// at which no rule applies, with the text that was left unread.
    pub fn tokenize_strict(&self, input: &str) -> (outcome: Result<Vec<Token>, LexError>)
        ensures
            match outcome {
                Ok(tokens) => {
                    &&& lex_stop(input@) == input.spec_bytes().len()
                    &&& token_views(tokens@) == lex(input@)
                    &&& tokens@.len() >= 1
                    &&& tokens@.last()@.kind == TokenKind::Eof
                },
                Err(error) => {
                    &&& lex_stop(input@) < input.spec_bytes().len()
                    &&& error.position == lex_stop(input@)
                    &&& error.remaining_text@ == text_from(input.spec_bytes(), lex_stop(input@))
                },
            },
    {
        let (mut tokens, stop) = self.scan_tokens(input);
        if stop < input.as_bytes().len() {
            let (_, rest) = input.split_at(stop);
            proof {
                encode_utf8_decode_utf8(rest@);
            }
            Err(LexError { position: stop, remaining_text: rest.to_owned() })
        } else {
            proof {
                assert(token_views(tokens@.push(Token::Eof)) =~= token_views(tokens@).push(
                    Token::Eof@,
                ));
            }
            tokens.push(Token::Eof);
            proof {
                lemma_lex_shape(input@);
                assert(tokens@.last()@ == lex(input@).last());
            }
            Ok(tokens)
        }
    }
}

} // verus!
