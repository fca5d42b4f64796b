//! Keyword matching backends.

use vstd::prelude::*;
use crate::analyzer::helpers::{
    keyword_count, keyword_occurrences, keyword_pattern, keyword_regex, regex_find,
    regex_first_match, regex_is_valid,
};

verus! {

/// Keyword matching backend: every check that asks where or how often the
/// focus keyword appears goes through it, so engines can be swapped. Each
/// engine says, as spec functions, what its answers are.
pub trait KeywordCounter {
    /// How often `keyword` occurs in `text`, by this engine.
    spec fn counted(&self, text: Seq<char>, keyword: Seq<char>) -> nat;

    /// The byte span of the first occurrence of `keyword` in `text`, by this
    /// engine.
    spec fn first_found(&self, text: Seq<char>, keyword: Seq<char>) -> Option<(usize, usize)>;

    /// The engine's label.
    spec fn engine_name(&self) -> Seq<char>;

    /// How often `keyword` occurs in `text`.
    fn count(&self, text: &str, keyword: &str) -> (n: usize)
        ensures
            n == self.counted(text@, keyword@),
    ;

    /// Byte offsets (start, end) of the first occurrence of `keyword` in
    /// `text`, or `None` when the keyword is empty or absent.
    fn find_first(&self, text: &str, keyword: &str) -> (r: Option<(usize, usize)>)
        ensures
            r == self.first_found(text@, keyword@),
    ;

    /// The engine label echoed back in analysis responses.
    fn engine(&self) -> (e: &'static str)
        ensures
            e@ == self.engine_name(),
    ;
}

/// The particle-aware regex matcher: the keyword optionally followed by one
/// common Korean particle.
pub struct RegexCounter;

/// Where the particle-aware pattern for `keyword` first matches in `text`.
pub open spec fn regex_keyword_first(text: Seq<char>, keyword: Seq<char>) -> Option<(usize, usize)> {
    if keyword.len() > 0 && regex_is_valid(keyword_pattern(keyword)) {
        regex_first_match(keyword_pattern(keyword), text)
    } else {
        None
    }
}

impl KeywordCounter for RegexCounter {
    open spec fn counted(&self, text: Seq<char>, keyword: Seq<char>) -> nat {
        keyword_occurrences(text, keyword)
    }

    open spec fn first_found(&self, text: Seq<char>, keyword: Seq<char>) -> Option<(usize, usize)> {
        regex_keyword_first(text, keyword)
    }

    open spec fn engine_name(&self) -> Seq<char> {
        "regex"@
    }

    fn count(&self, text: &str, keyword: &str) -> (n: usize)
        ensures
            n == keyword_occurrences(text@, keyword@),
    {
        keyword_count(text, keyword)
    }

    fn find_first(&self, text: &str, keyword: &str) -> (r: Option<(usize, usize)>)
        ensures
            r == regex_keyword_first(text@, keyword@),
    {
        match keyword_regex(keyword) {
            Some(pattern) => regex_find(pattern.as_str(), text),
            None => None,
        }
    }

    fn engine(&self) -> (e: &'static str)
        ensures
            e@ == "regex"@,
    {
        "regex"
    }
}

} // verus!
