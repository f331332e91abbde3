//! Compiled text patterns: the boundary to the regular-expression engine.
//!
//! A [`Pattern`] pairs the text a filter was compiled from with the compiled
//! expression. The fields are private to this module, and every `Pattern`
//! is built by [`Pattern::compile`], so the compiled expression is always
//! the compilation of the stored text.

use vstd::prelude::*;

verus! {

/// Whether the regular-expression compiler accepts `pattern`.
/// Names the outcome of `regex::Regex::new`, which succeeds or fails as a
/// function of the pattern text alone.
pub uninterp spec fn regex_valid(pattern: Seq<char>) -> bool;

/// Whether the regular expression `pattern` matches somewhere inside `text`.
/// Names the result of `regex::Regex::is_match`, which depends on the
/// pattern text and the haystack alone.
pub uninterp spec fn regex_match(pattern: Seq<char>, text: Seq<char>) -> bool;

#[verifier::external_type_specification]
#[verifier::external_body]
pub struct ExRegex(regex::Regex);

#[verifier::external_type_specification]
#[verifier::external_body]
pub struct ExRegexError(regex::Error);

/// A compiled text pattern together with the text it was compiled from.
#[derive(Debug)]
pub struct Pattern {
    text: String,
    regex: regex::Regex,
}

impl View for Pattern {
    type V = Seq<char>;

    closed spec fn view(&self) -> Seq<char> {
        self.text@
    }
}

impl Pattern {
    /// Relies on `regex::Regex::new`: compiling succeeds exactly when the
    /// pattern text is a well-formed regular expression.
    #[verifier::external_body]
    pub fn compile(text: &String) -> (r: Result<Pattern, regex::Error>)
        ensures
            r is Ok <==> regex_valid(text@),
            r matches Ok(p) ==> p@ == text@,
    {
        match regex::Regex::new(text.as_str()) {
            Ok(regex) => Ok(Pattern { text: text.clone(), regex }),
            Err(e) => Err(e),
        }
    }

    /// Relies on `regex::Regex::is_match`: whether the pattern matches
    /// somewhere inside `text`.
    #[verifier::external_body]
    pub fn is_match(&self, text: &str) -> (r: bool)
        ensures
            r == regex_match(self@, text@),
    {
        self.regex.is_match(text)
    }

    /// The text this pattern was compiled from.
    pub fn as_str(&self) -> (r: &str)
        ensures
            r@ == self@,
    {
        self.text.as_str()
    }
}

} // verus!
