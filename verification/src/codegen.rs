use regex::Regex;
use vstd::prelude::*;
use vstd::string::StringExecFns;

verus! {

#[verifier::external_type_specification]
#[verifier::external_body]
pub struct ExSubstitution(regex::Regex);

#[verifier::external_type_specification]
#[verifier::external_body]
pub struct ExSubstitutionError(regex::Error);

/// The pattern text that a compiled expression was built from: what
/// `regex::Regex::as_str` returns for it.
pub uninterp spec fn substitution_source(regex: Regex) -> Seq<char>;

/// Whether `regex::Regex::new` accepts the pattern text.
pub uninterp spec fn substitution_compiles(pattern: Seq<char>) -> bool;

/// The text that `regex::Regex::replace_all` gives for an expression built
/// from `pattern`: `text` with every match replaced by `template`, in which
/// `$1`, `$2` stand for what the groups of the match hold.
pub uninterp spec fn all_replaced(pattern: Seq<char>, text: Seq<char>, template: Seq<char>) -> Seq<
    char,
>;

/// The text that `str::replace` gives: `text` with every match of `from`
/// replaced by `to`.
pub uninterp spec fn text_replaced(text: Seq<char>, from: Seq<char>, to: Seq<char>) -> Seq<char>;

/// `part` stands somewhere in `text`.
pub open spec fn occurs_in(text: Seq<char>, part: Seq<char>) -> bool {
    exists|i: int|
        0 <= i <= text.len() - part.len() && #[trigger] text.subrange(i, i + part.len()) == part
}

/// Calls `regex::Regex::new`.
///
/// Trusted: whether the call succeeds depends on the pattern text alone, and
/// the expression that comes back remembers the text it was built from.
#[verifier::external_body]
fn compile_substitution(pattern: &str) -> (compiled: Result<Regex, regex::Error>)
    ensures
        compiled is Ok <==> substitution_compiles(pattern@),
        compiled matches Ok(regex) ==> substitution_source(regex) == pattern@,
{
    Regex::new(pattern)
}

/// Calls `regex::Regex::replace_all` with a template as the replacement.
///
/// Trusted: the text that comes back depends on the pattern, the text and
/// the template alone.
#[verifier::external_body]
fn replace_all(regex: &Regex, text: &str, template: &str) -> (replaced: String)
    ensures
        replaced@ == all_replaced(substitution_source(*regex), text@, template@),
{
    regex.replace_all(text, template).into_owned()
}

/// Calls `str::replace`.
///
/// Trusted: the text that comes back depends on the three texts alone, and a
/// text in which `from` stands nowhere comes back as it is (the function
/// copies the text and replaces the matches that it finds).
#[verifier::external_body]
fn replace_text(text: &str, from: &str, to: &str) -> (replaced: String)
    ensures
        replaced@ == text_replaced(text@, from@, to@),
        !occurs_in(text@, from@) ==> replaced@ == text@,
{
    text.replace(from, to)
}

/// The number of calls of the script language that are rewritten.
pub const CALL_COUNT: usize = 3;

/// The pattern that recognizes the call at place `i`: `print` with a quoted
/// text, `create_windows_popup` with two quoted texts, and `sleep` with a
/// number of seconds.
pub open spec fn spec_call_pattern(i: int) -> Seq<char> {
    if i == 0 {
        r#"print\([ \t\n]*"(.+)"[ \t\n]*\)"#@
    } else if i == 1 {
        r#"create_windows_popup\([ \t\n]*"(.+)",[ \t\n]*"(.+)"[ \t\n]*\)"#@
    } else {
        r#"sleep\([ \t\n]*([0-9]+)[ \t\n]*\)"#@
    }
}

/// The C++ text that the call at place `i` becomes.
pub open spec fn spec_call_template(i: int) -> Seq<char> {
    if i == 0 {
        r#"std::cout << "$1" << std::endl"#@
    } else if i == 1 {
        r#"MessageBox(nullptr,"$1","$2", MB_OK)"#@
    } else {
        r#"Sleep($1 * 1000)"#@
    }
}

/// The pattern that recognizes the call at place `i`.
pub fn call_pattern(i: usize) -> (pattern: &'static str)
    requires
        i < CALL_COUNT,
    ensures
        pattern@ == spec_call_pattern(i as int),
{
    match i {
        0 => r#"print\([ \t\n]*"(.+)"[ \t\n]*\)"#,
        1 => r#"create_windows_popup\([ \t\n]*"(.+)",[ \t\n]*"(.+)"[ \t\n]*\)"#,
        _ => r#"sleep\([ \t\n]*([0-9]+)[ \t\n]*\)"#,
    }
}

/// The C++ text that the call at place `i` becomes.
pub fn call_template(i: usize) -> (template: &'static str)
    requires
        i < CALL_COUNT,
    ensures
        template@ == spec_call_template(i as int),
{
    match i {
        0 => r#"std::cout << "$1" << std::endl"#,
        1 => r#"MessageBox(nullptr,"$1","$2", MB_OK)"#,
        _ => r#"Sleep($1 * 1000)"#,
    }
}

/// The text with the calls from place `from` on rewritten, one kind of call
/// after the other.
pub open spec fn calls_rewritten(text: Seq<char>, from: int) -> Seq<char>
    decreases CALL_COUNT - from,
{
    if from < 0 || from >= CALL_COUNT {
        text
    } else {
        calls_rewritten(
            all_replaced(spec_call_pattern(from), text, spec_call_template(from)),
            from + 1,
        )
    }
}

/// The C++ text of a script: the entry point `start` becomes `main`, and
/// then the calls are rewritten.
pub open spec fn transpiled(script: Seq<char>) -> Seq<char> {
    calls_rewritten(text_replaced(script, "start"@, "main"@), 0)
}

/// A call whose pattern the expression compiler rejects.
#[derive(Clone, Copy, Debug, PartialEq, Eq)]
pub struct RewriteError {
    /// The place of the call among those that are rewritten.
    pub call: usize,
}

/// Rewrites a script into C++ text. Fails, before anything is rewritten, at
/// the first call whose pattern the compiler rejects. In a script without the
/// word `start` only the calls are rewritten.
pub fn transpile(script: &str) -> (outcome: Result<String, RewriteError>)
    ensures
        match outcome {
            Ok(cpp) => {
                &&& cpp@ == transpiled(script@)
                &&& !occurs_in(script@, "start"@) ==> cpp@ == calls_rewritten(script@, 0)
                &&& forall|i: int|
                    0 <= i < CALL_COUNT ==> substitution_compiles(#[trigger] spec_call_pattern(i))
            },
            Err(error) => {
                &&& error.call < CALL_COUNT
                &&& !substitution_compiles(spec_call_pattern(error.call as int))
                &&& forall|i: int|
                    0 <= i < error.call ==> substitution_compiles(#[trigger] spec_call_pattern(i))
            },
        },
{
    let mut substitutions: Vec<Regex> = Vec::new();
    let mut call: usize = 0;
    while call < CALL_COUNT
        invariant
            call <= CALL_COUNT,
            substitutions.len() == call,
            forall|i: int|
                0 <= i < call ==> substitution_source(#[trigger] substitutions[i])
                    == spec_call_pattern(i),
            forall|i: int| 0 <= i < call ==> substitution_compiles(#[trigger] spec_call_pattern(i)),
        decreases CALL_COUNT - call,
    {
        match compile_substitution(call_pattern(call)) {
            Ok(substitution) => {
                substitutions.push(substitution);
            },
            Err(_) => {
                return Err(RewriteError { call });
            },
        }
        call += 1;
    }
    let mut text = replace_text(script, "start", "main");
    let mut call: usize = 0;
    while call < CALL_COUNT
        invariant
            call <= CALL_COUNT,
            substitutions.len() == CALL_COUNT,
            forall|i: int|
                0 <= i < CALL_COUNT ==> substitution_source(#[trigger] substitutions[i])
                    == spec_call_pattern(i),
            calls_rewritten(text@, call as int) == transpiled(script@),
        decreases CALL_COUNT - call,
    {
        text = replace_all(&substitutions[call], text.as_str(), call_template(call));
        call += 1;
    }
    Ok(text)
}

/// The texts of a sequence of strings, in order.
pub open spec fn texts(strings: Seq<String>) -> Seq<Seq<char>> {
    strings.map_values(|string: String| string@)
}

/// The headers that the generated C++ text needs.
pub open spec fn spec_standard_includes() -> Seq<Seq<char>> {
    seq!["<windows.h>"@, "<iostream>"@, "<chrono>"@, "<thread>"@]
}

/// The headers that the generated C++ text needs.
pub fn standard_includes() -> (includes: Vec<String>)
    ensures
        texts(includes@) == spec_standard_includes(),
{
    let mut includes: Vec<String> = Vec::new();
    includes.push(String::from_str("<windows.h>"));
    includes.push(String::from_str("<iostream>"));
    includes.push(String::from_str("<chrono>"));
    includes.push(String::from_str("<thread>"));
    proof {
        assert(texts(includes@) =~= spec_standard_includes());
    }
    includes
}

/// The `#include` lines of the given headers, one line each, with a line
/// break between one line and the next.
pub open spec fn include_lines(includes: Seq<Seq<char>>) -> Seq<char>
    decreases includes.len(),
{
    if includes.len() == 0 {
        Seq::empty()
    } else if includes.len() == 1 {
        "#include "@ + includes[0]
    } else {
        include_lines(includes.drop_last()) + "\n"@ + "#include "@ + includes.last()
    }
}

/// The text of the generated file: the `#include` lines, an empty line, and
/// the C++ text.
pub open spec fn output_text(includes: Seq<Seq<char>>, main_content: Seq<char>) -> Seq<char> {
    include_lines(includes) + "\n\n"@ + main_content
}

/// Puts the generated file together: an `#include` line for each header, in
/// the order given, then an empty line, then the C++ text.
pub fn render_output(includes: &Vec<String>, main_content: &str) -> (output: String)
    ensures
        output@ == output_text(texts(includes@), main_content@),
{
    let mut output = String::new();
    let mut i: usize = 0;
    while i < includes.len()
        invariant
            i <= includes.len(),
            output@ == include_lines(texts(includes@).take(i as int)),
        decreases includes.len() - i,
    {
        if i > 0 {
            output.append("\n");
        }
        output.append("#include ");
        output.append(includes[i].as_str());
        proof {
            let all = texts(includes@);
            assert(all.take(i + 1).drop_last() =~= all.take(i as int));
            assert(all.take(i + 1).last() == includes@[i as int]@);
        }
        i += 1;
    }
    proof {
        assert(texts(includes@).take(includes.len() as int) =~= texts(includes@));
    }
    output.append("\n\n");
    output.append(main_content);
    output
}

} // verus!
