//! Validation patterns: the boundary to the `regex` crate.
//!
//! A [`Pattern`] couples a compiled regular expression with the source text
//! it was compiled from. Contracts speak of the source text alone: what the
//! matching engine answers for a given source and haystack is named by the
//! uninterpreted function [`regex_match`].

use vstd::prelude::*;

verus! {

/// What `regex::Regex::is_match` returns for a regular expression compiled
/// from `pattern` when asked about `text`. The answer is a function of the
/// two strings alone.
pub uninterp spec fn regex_match(pattern: Seq<char>, text: Seq<char>) -> bool;

#[verifier::external_type_specification]
#[verifier::external_body]
pub struct ExRegex(regex::Regex);

/// A compiled validation pattern together with its source text.
///
/// The `regex` field is always the compiled form of `source`: the only
/// constructor is [`Pattern::compile`], and the fields are private.
pub struct Pattern {
    regex: regex::Regex,
    source: String,
}

impl View for Pattern {
    type V = Seq<char>;

    closed spec fn view(&self) -> Seq<char> {
        self.source@
    }
}

impl Pattern {
    /// Relies on `regex::Regex::new`: compiles `source`, returning `Err` on
    /// an invalid pattern; on success the returned `Pattern` carries
    /// `source` as its source text.
    #[verifier::external_body]
    pub fn compile(source: &str) -> (r: Option<Pattern>)
        ensures
            r is Some ==> r.unwrap()@ == source@,
    {
        match regex::Regex::new(source) {
            Ok(regex) => Some(Pattern { regex, source: source.to_owned() }),
            Err(_) => None,
        }
    }

    /// Relies on `regex::Regex::is_match`: true iff the compiled expression
    /// matches somewhere in `text`. The answer depends on the pattern source
    /// and `text` alone; the `regex` field is the compiled form of `source`
    /// (see [`Pattern::compile`]).
    #[verifier::external_body]
    pub fn is_match(&self, text: &str) -> (r: bool)
        ensures
            r == regex_match(self@, text@),
    {
        self.regex.is_match(text)
    }

    /// The source text this pattern was compiled from.
    pub fn source(&self) -> (r: &str)
        ensures
            r@ == self@,
    {
        self.source.as_str()
    }
}

} // verus!
