//! Pattern matching on text, done by the `regex` crate.

use vstd::prelude::*;
use crate::error::{PromptError, PromptErrorModel};
use crate::text::splits_at;

verus! {

/// `regex::Regex`, carried as an opaque value.
#[verifier::external_type_specification]
#[verifier::external_body]
pub struct ExRegex(regex::Regex);

/// `regex::Error`, carried as an opaque value.
#[verifier::external_type_specification]
#[verifier::external_body]
pub struct ExRegexError(regex::Error);

/// The expression that `pattern` compiles to, or the engine's description of
/// why it refuses the pattern.
pub uninterp spec fn compiled(pattern: Seq<char>) -> Result<regex::Regex, Seq<char>>;

/// The description that a pattern error carries.
pub uninterp spec fn error_text(e: regex::Error) -> Seq<char>;

/// The byte offsets at which the leftmost match of the expression in
/// `haystack` begins and ends, if there is a match.
pub uninterp spec fn match_span(re: regex::Regex, haystack: Seq<char>) -> Option<(usize, usize)>;

/// Calls `regex::Regex::new`. Trusted: the expression, or the error's
/// description where the pattern is refused, depends on the pattern alone.
#[verifier::external_body]
pub(crate) fn compile(pattern: &str) -> (r: Result<regex::Regex, regex::Error>)
    ensures
        match r {
            Ok(re) => compiled(pattern@) == Ok::<regex::Regex, Seq<char>>(re),
            Err(e) => compiled(pattern@) == Err::<regex::Regex, Seq<char>>(error_text(e)),
        },
{
    regex::Regex::new(pattern)
}

/// Whether `span` lies between characters of `text`: it begins and ends on a
/// character boundary and does not end before it begins.
pub open spec fn is_span(text: Seq<char>, span: (usize, usize)) -> bool {
    &&& span.0 <= span.1
    &&& splits_at(text, span.0 as int)
    &&& splits_at(text, span.1 as int)
}

/// Calls `regex::Regex::find`, then `start` and `end` on the match. Trusted:
/// the offsets depend on the expression and the haystack alone; the match
/// does not end before it begins, and both offsets fall on character
/// boundaries of the haystack.
#[verifier::external_body]
pub(crate) fn find_span(re: &regex::Regex, haystack: &str) -> (r: Option<(usize, usize)>)
    ensures
        r == match_span(*re, haystack@),
        r matches Some(span) ==> is_span(haystack@, span),
{
    re.find(haystack).map(|m| (m.start(), m.end()))
}

/// Calls `to_string` on a `regex::Error`: the engine's description of why a
/// pattern was refused.
#[verifier::external_body]
pub(crate) fn describe(e: &regex::Error) -> (r: String)
    ensures
        r@ == error_text(*e),
{
    e.to_string()
}

/// Where the leftmost match of `pattern` begins and ends in `text`, as byte
/// offsets: `None` where nothing matches. A pattern that the engine refuses
/// is an operation error that carries the engine's reason.
pub open spec fn first_match(pattern: Seq<char>, text: Seq<char>) -> Result<
    Option<(usize, usize)>,
    PromptErrorModel,
> {
    match compiled(pattern) {
        Ok(re) => Ok(match_span(re, text)),
        Err(why) => Err(PromptErrorModel::Operation(why)),
    }
}

/// Looks for the leftmost match of `pattern` in `text`.
pub fn find_first(pattern: &str, text: &str) -> (r: Result<Option<(usize, usize)>, PromptError>)
    ensures
        match r {
            Ok(found) => first_match(pattern@, text@) == Ok::<
                Option<(usize, usize)>,
                PromptErrorModel,
            >(found),
            Err(e) => first_match(pattern@, text@) == Err::<
                Option<(usize, usize)>,
                PromptErrorModel,
            >(e@),
        },
        r matches Ok(Some(span)) ==> is_span(text@, span),
{
    match compile(pattern) {
        Ok(re) => Ok(find_span(&re, text)),
        Err(e) => Err(PromptError::Operation(describe(&e))),
    }
}

} // verus!
