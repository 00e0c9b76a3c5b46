//! Compiled name patterns: each allow/block entry is one regular
//! expression, applied to fully qualified names.

use vstd::prelude::*;

verus! {

/// Whether a pattern compiles as a regular expression under the default
/// configuration: valid syntax within the default size limits.
pub uninterp spec fn regex_valid(pattern: Seq<char>) -> bool;

/// Whether a valid pattern matches somewhere in the text; a function of the
/// pattern and the text alone.
pub uninterp spec fn regex_match(pattern: Seq<char>, text: Seq<char>) -> bool;

#[verifier::external_type_specification]
#[verifier::external_body]
pub struct ExRegex(regex::Regex);

/// One pattern predicate, kept together with the matcher compiled from it;
/// values exist only through [`CompiledPattern::compile`], so the matcher
/// always belongs to the stored pattern text.
pub struct CompiledPattern {
    pattern: String,
    re: regex::Regex,
}

impl View for CompiledPattern {
    type V = Seq<char>;

    /// The pattern text the matcher was compiled from.
    closed spec fn view(&self) -> Seq<char> {
        self.pattern@
    }
}

impl CompiledPattern {
    /// Relies on `regex::Regex::new`: under the default configuration it
    /// succeeds exactly when the pattern is valid syntax within the default
    /// compiled-size limits, a function of the pattern alone.
    #[verifier::external_body]
    pub(crate) fn compile(pattern: &str) -> (r: Option<CompiledPattern>)
        ensures
            r is Some <==> regex_valid(pattern@),
            r matches Some(c) ==> c@ == pattern@,
    {
        match regex::Regex::new(pattern) {
            Ok(re) => Some(CompiledPattern { pattern: pattern.to_owned(), re }),
            Err(_) => None,
        }
    }

    /// Relies on `regex::Regex::is_match`: whether the pattern matches
    /// somewhere in the text, a function of pattern and text alone.
    #[verifier::external_body]
    pub(crate) fn is_match(&self, text: &str) -> (r: bool)
        ensures
            r == regex_match(self@, text@),
    {
        self.re.is_match(text)
    }
}

/// Whether any pattern of the list matches the text.
pub open spec fn spec_any_match(pats: Seq<CompiledPattern>, text: Seq<char>) -> bool {
    exists|i: int| 0 <= i < pats.len() && regex_match(pats[i]@, text)
}

/// Applies each pattern of the list to the text in turn.
pub fn any_match(pats: &Vec<CompiledPattern>, text: &str) -> (r: bool)
    ensures
        r == spec_any_match(pats@, text@),
{
    let mut i: usize = 0;
    while i < pats.len()
        invariant
            i <= pats@.len(),
            forall|j: int| 0 <= j < i ==> !regex_match(pats@[j]@, text@),
        decreases pats@.len() - i,
    {
        if pats[i].is_match(text) {
            return true;
        }
        i += 1;
    }
    false
}

} // verus!
