use fancy_regex::Regex;
use vstd::prelude::*;
use vstd::string::StringSliceAdditionalSpecFns;
use vstd::utf8::is_char_boundary;

verus! {

#[verifier::external_type_specification]
#[verifier::external_body]
pub struct ExRegex(fancy_regex::Regex);

#[verifier::external_type_specification]
#[verifier::external_body]
pub struct ExRegexError(fancy_regex::Error);

/// The pattern text that a compiled expression was built from: what
/// `fancy_regex::Regex::as_str` returns for it.
pub uninterp spec fn regex_source(regex: Regex) -> Seq<char>;

/// Whether `fancy_regex::Regex::new` accepts the pattern text.
pub uninterp spec fn pattern_compiles(pattern: Seq<char>) -> bool;

/// The byte span, start and end, of the match that
/// `fancy_regex::Regex::find` reports for an expression built from `pattern`
/// in `text`; `None` where it reports no match or gives the search up.
pub uninterp spec fn first_match(pattern: Seq<char>, text: Seq<char>) -> Option<(int, int)>;

/// Calls `fancy_regex::Regex::new`, which compiles with the default options.
///
/// Trusted: whether the call succeeds depends on the pattern text alone, and
/// the expression that comes back remembers the text it was built from.
#[verifier::external_body]
pub(crate) fn compile(pattern: &str) -> (compiled: Result<Regex, fancy_regex::Error>)
    ensures
        compiled is Ok <==> pattern_compiles(pattern@),
        compiled matches Ok(regex) ==> regex_source(regex) == pattern@,
{
    Regex::new(pattern)
}

/// Calls `fancy_regex::Regex::find` and returns the start and end of the
/// match.
///
/// Trusted: the outcome depends on the pattern and the text alone; a match
/// lies within the text, start before end; and both offsets are character
/// boundaries of the text (the crate documents that matches against a `&str`
/// respect UTF-8 boundaries, and it slices the text at these offsets to give
/// the matched text out).
#[verifier::external_body]
pub(crate) fn find_first(regex: &Regex, text: &str) -> (found: Result<
    Option<(usize, usize)>,
    fancy_regex::Error,
>)
    ensures
        match found {
            Ok(Some(span)) => {
                &&& first_match(regex_source(*regex), text@) == Some((span.0 as int, span.1 as int))
                &&& span.0 <= span.1 <= text.spec_bytes().len()
                &&& is_char_boundary(text.spec_bytes(), span.0 as int)
                &&& is_char_boundary(text.spec_bytes(), span.1 as int)
            },
            _ => first_match(regex_source(*regex), text@) is None,
        },
{
    match regex.find(text) {
        Ok(Some(found)) => Ok(Some((found.start(), found.end()))),
        Ok(None) => Ok(None),
        Err(error) => Err(error),
    }
}

} // verus!
