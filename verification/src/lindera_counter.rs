//! The morphological keyword matcher: keyword and text are both cut into
//! morphemes by a lindera segmenter (mecab-ko-dic), and the keyword's
//! morpheme sequence is matched against the text's. Particles come out as
//! morphemes of their own, so '워드프레스를' matches '워드프레스'.

use std::sync::Arc;
use vstd::prelude::*;
use lindera::segmenter::Segmenter;
use crate::analyzer::keyword::KeywordCounter;
use crate::morph::{
    lemma_surfaces_of_views, morpheme_view, morpheme_views, segment, segmentation, surfaces,
    surfaces_of, view_surfaces, Morpheme,
};
use crate::text::has_infix;
use crate::token_match::{
    count_token_matches, first_token_match, first_window, lemma_count_key_in_front,
    lemma_count_other_in_front, lemma_count_positive_iff_found, lemma_count_repeated, repeated,
    lemma_first_window_found, match_count,
};

verus! {

/// Keyword matching on morphemes.
pub struct LinderaCounter {
    segmenter: Arc<Segmenter>,
}

impl LinderaCounter {
    /// The segmenter this counter cuts text with.
    pub closed spec fn segmenter(&self) -> Arc<Segmenter> {
        self.segmenter
    }

    /// The surfaces of the morphemes the segmenter cuts `text` into.
    pub open spec fn surfaces_in(&self, text: Seq<char>) -> Seq<Seq<char>> {
        view_surfaces(segmentation(*self.segmenter(), text))
    }

    /// A counter that segments with `segmenter`.
    pub fn new(segmenter: Arc<Segmenter>) -> (c: Self)
        ensures
            c.segmenter() == segmenter,
    {
        LinderaCounter { segmenter }
    }

    /// The morphemes of `text`; a segmentation error gives none, so that
    /// the text counts as holding no occurrence. An empty text has no
    /// morphemes, and each morpheme's surface occurs in the text.
    fn tokens(&self, text: &str) -> (ms: Vec<Morpheme>)
        ensures
            morpheme_views(ms@) == segmentation(*self.segmenter(), text@),
            surfaces_of(ms@) == self.surfaces_in(text@),
            text@.len() == 0 ==> ms@.len() == 0,
            forall|i: int| 0 <= i < ms@.len() ==> has_infix(text@, #[trigger] ms@[i].surface@),
    {
        match segment(&self.segmenter, text) {
            Ok(ms) => {
                proof {
                    lemma_surfaces_of_views(ms@);
                }
                ms
            },
            Err(_) => Vec::new(),
        }
    }
}

impl KeywordCounter for LinderaCounter {
    /// Non-overlapping occurrences of the keyword's morphemes among the
    /// text's morphemes; zero for an empty keyword or text.
    open spec fn counted(&self, text: Seq<char>, keyword: Seq<char>) -> nat {
        if keyword.len() == 0 || text.len() == 0 {
            0
        } else {
            match_count(self.surfaces_in(text), self.surfaces_in(keyword))
        }
    }

    /// The byte span from the start of the first morpheme to the end of the
    /// last morpheme of the first occurrence; `None` for an empty keyword or
    /// text, or when it does not occur.
    open spec fn first_found(&self, text: Seq<char>, keyword: Seq<char>) -> Option<(usize, usize)> {
        if keyword.len() == 0 || text.len() == 0 {
            None
        } else {
            let toks = segmentation(*self.segmenter(), text);
            let key = self.surfaces_in(keyword);
            match first_window(self.surfaces_in(text), key, 0) {
                Some(i) => Some((toks[i].1, toks[i + key.len() - 1].2)),
                None => None,
            }
        }
    }

    open spec fn engine_name(&self) -> Seq<char> {
        "lindera"@
    }

    fn count(&self, text: &str, keyword: &str) -> (n: usize) {
        if keyword.unicode_len() == 0 || text.unicode_len() == 0 {
            return 0;
        }
        let key_ms = self.tokens(keyword);
        let hay_ms = self.tokens(text);
        let key = surfaces(&key_ms);
        let hay = surfaces(&hay_ms);
        count_token_matches(&hay, &key)
    }

    fn find_first(&self, text: &str, keyword: &str) -> (r: Option<(usize, usize)>) {
        if keyword.unicode_len() == 0 || text.unicode_len() == 0 {
            return None;
        }
        let key = surfaces(&self.tokens(keyword));
        let toks = self.tokens(text);
        let hay = surfaces(&toks);
        match first_token_match(&hay, &key) {
            Some(i) => {
                let ghost kv = key.deep_view();
                proof {
                    lemma_first_window_found(hay.deep_view(), kv, 0, i as int);
                    assert(hay.deep_view().len() == hay.len());
                    assert(kv.len() == key.len());
                }
                let last = i + key.len() - 1;
                let r = Some((toks[i].byte_start, toks[last].byte_end));
                proof {
                    assert(morpheme_views(toks@)[i as int] == morpheme_view(toks@[i as int]));
                    assert(morpheme_views(toks@)[last as int] == morpheme_view(toks@[last as int]));
                }
                r
            },
            None => None,
        }
    }

    fn engine(&self) -> (e: &'static str) {
        "lindera"
    }
}

/// The morphological matcher counts the keyword at least once exactly when
/// it finds a first span for it.
pub proof fn lemma_lindera_count_positive_iff_span(c: LinderaCounter, text: Seq<char>, keyword: Seq<char>)
    ensures
        c.counted(text, keyword) > 0 <==> c.first_found(text, keyword) is Some,
{
    lemma_count_positive_iff_found(c.surfaces_in(text), c.surfaces_in(keyword));
}

/// The morphological count counts every occurrence, not just the first: a
/// text whose morphemes start with the keyword's morphemes counts one more
/// than the text of the remaining morphemes; a leading morpheme that cannot
/// start the keyword adds nothing; and the keyword's morphemes written `k`
/// times in a row count `k`.
pub proof fn lemma_lindera_counts_every_occurrence(
    c: LinderaCounter,
    keyword: Seq<char>,
    text: Seq<char>,
    rest: Seq<char>,
    x: Seq<char>,
    k: nat,
)
    requires
        keyword.len() > 0,
        text.len() > 0,
        rest.len() > 0,
        c.surfaces_in(keyword).len() > 0,
    ensures
        c.surfaces_in(text) == c.surfaces_in(keyword) + c.surfaces_in(rest) ==> c.counted(text, keyword)
            == 1 + c.counted(rest, keyword),
        c.surfaces_in(text) == seq![x] + c.surfaces_in(rest) && x != c.surfaces_in(keyword)[0]
            ==> c.counted(text, keyword) == c.counted(rest, keyword),
        c.surfaces_in(text) == repeated(c.surfaces_in(keyword), k) ==> c.counted(text, keyword) == k,
{
    let key = c.surfaces_in(keyword);
    lemma_count_key_in_front(key, c.surfaces_in(rest));
    if x != key[0] {
        lemma_count_other_in_front(x, c.surfaces_in(rest), key);
    }
    lemma_count_repeated(key, k);
}

} // verus!
