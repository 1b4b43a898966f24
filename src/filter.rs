use vstd::prelude::*;
use vstd::string::*;

use crate::error::ToolError;

verus! {

#[verifier::external_type_specification]
#[verifier::external_body]
pub struct ExPattern(glob::Pattern);

/// Whether `glob::Pattern::new` accepts the pattern text.
pub uninterp spec fn glob_valid(pattern: Seq<char>) -> bool;

/// Whether the pattern compiled from `pattern` matches `s` under glob's
/// default options: case-sensitive, `*` and `?` also match `/`, and a
/// leading `.` needs no literal match.
pub uninterp spec fn glob_match(pattern: Seq<char>, s: Seq<char>) -> bool;

/// Relies on glob::Pattern::new: it fails exactly on malformed pattern
/// text, and the error is rendered through its `Display`.
#[verifier::external_body]
fn compile_glob(text: &str) -> (r: Result<glob::Pattern, String>)
    ensures
        r is Ok <==> glob_valid(text@),
{
    glob::Pattern::new(text).map_err(|e| e.to_string())
}

/// A compiled glob pattern together with the text it was compiled from.
#[derive(Debug)]
pub struct Filter {
    text: String,
    compiled: glob::Pattern,
}

impl View for Filter {
    type V = Seq<char>;

    closed spec fn view(&self) -> Seq<char> {
        self.text@
    }
}

/// Relies on glob::Pattern::matches with default options, on the pattern
/// that `Filter::new` compiled from the filter's own text.
#[verifier::external_body]
fn glob_matches(f: &Filter, s: &str) -> (r: bool)
    ensures
        r == glob_match(f@, s@),
{
    f.compiled.matches(s)
}

impl Filter {
    /// Compiles `text` into a filter, failing with `InvalidPattern` on
    /// malformed glob syntax.
    pub fn new(text: &str) -> (r: Result<Filter, ToolError>)
        ensures
            r is Ok <==> glob_valid(text@),
            r matches Ok(f) ==> f@ == text@,
            r matches Err(e) ==> e is InvalidPattern,
    {
        match compile_glob(text) {
            Ok(compiled) => Ok(Filter { text: String::from_str(text), compiled }),
            Err(cause) => Err(ToolError::InvalidPattern { cause }),
        }
    }

    /// Whether the filter accepts normalized path `s`.
    pub fn matches(&self, s: &str) -> (r: bool)
        ensures
            r == glob_match(self@, s@),
    {
        glob_matches(self, s)
    }
}

/// An optional filter as the text of its pattern.
pub open spec fn filter_view(f: Option<Filter>) -> Option<Seq<char>> {
    match f {
        Some(f) => Some(f@),
        None => None,
    }
}

/// An absent pattern keeps every path; a present one keeps what it matches.
pub open spec fn keeps(pattern: Option<Seq<char>>, s: Seq<char>) -> bool {
    match pattern {
        Some(p) => glob_match(p, s),
        None => true,
    }
}

/// Whether the optional filter keeps normalized path `s`.
pub fn accepts(filter: &Option<Filter>, s: &str) -> (r: bool)
    ensures
        r == keeps(filter_view(*filter), s@),
{
    match filter {
        Some(f) => f.matches(s),
        None => true,
    }
}

} // verus!
