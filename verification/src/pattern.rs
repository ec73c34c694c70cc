use vstd::prelude::*;

verus! {

#[verifier::external_type_specification]
#[verifier::external_body]
pub struct ExRegex(regex::Regex);

/// Whether `pattern` is valid regular-expression syntax.
pub uninterp spec fn regex_valid(pattern: Seq<char>) -> bool;

/// Whether the regular expression `pattern` matches anywhere in `text`.
pub uninterp spec fn regex_matches(pattern: Seq<char>, text: Seq<char>) -> bool;

/// A name filter: a compiled regular expression paired with the pattern text
/// it was compiled from. The fields are private, so every value comes out of
/// `compile`, which keeps them consistent.
#[derive(Debug)]
pub struct NamePattern {
    pattern: String,
    compiled: regex::Regex,
}

impl NamePattern {
    /// The pattern text this value was compiled from.
    pub closed spec fn pattern_view(&self) -> Seq<char> {
        self.pattern@
    }

    /// The pattern text, readable back.
    pub fn pattern_text(&self) -> (r: &str)
        ensures
            r@ == self.pattern_view(),
    {
        self.pattern.as_str()
    }

    /// Relies on regex::Regex::new: whether compilation succeeds depends on
    /// the pattern text alone, and the compiled value matches as its pattern
    /// reads.
    #[verifier::external_body]
    pub fn compile(pattern: String) -> (r: Option<NamePattern>)
        ensures
            r is Some <==> regex_valid(pattern@),
            r is Some ==> r->0.pattern_view() == pattern@,
    {
        match regex::Regex::new(pattern.as_str()) {
            Ok(compiled) => Some(NamePattern { pattern, compiled }),
            Err(_) => None,
        }
    }

    /// Relies on regex::Regex::is_match: true exactly when the pattern this
    /// value was compiled from matches somewhere in `text`.
    #[verifier::external_body]
    pub fn is_match(&self, text: &str) -> (r: bool)
        ensures
            r == regex_matches(self.pattern_view(), text@),
    {
        self.compiled.is_match(text)
    }
}

} // verus!
