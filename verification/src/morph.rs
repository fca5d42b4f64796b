//! Morphemes as the lindera segmenter (mecab-ko-dic) cuts them.

use std::borrow::Cow;
use vstd::prelude::*;
use lindera::segmenter::Segmenter;
use crate::text::has_infix;

verus! {

#[verifier::external_type_specification]
#[verifier::external_body]
pub struct ExSegmenter(Segmenter);

/// One morpheme of a text: its surface form, its byte span in the text and
/// its part-of-speech tag (the first detail field), where the dictionary
/// gives one.
pub struct Morpheme {
    pub surface: String,
    pub byte_start: usize,
    pub byte_end: usize,
    pub pos: Option<String>,
}

/// The surfaces of a morpheme sequence, in order.
pub open spec fn surfaces_of(ms: Seq<Morpheme>) -> Seq<Seq<char>> {
    ms.map_values(|m: Morpheme| m.surface@)
}

/// A morpheme as a value: surface, byte start, byte end, tag.
pub open spec fn morpheme_view(m: Morpheme) -> (Seq<char>, usize, usize, Option<Seq<char>>) {
    (
        m.surface@,
        m.byte_start,
        m.byte_end,
        match m.pos {
            Some(p) => Some(p@),
            None => None,
        },
    )
}

/// The values of a morpheme sequence.
pub open spec fn morpheme_views(ms: Seq<Morpheme>) -> Seq<(Seq<char>, usize, usize, Option<Seq<char>>)> {
    ms.map_values(|m: Morpheme| morpheme_view(m))
}

/// The surfaces of a sequence of morpheme values.
pub open spec fn view_surfaces(ms: Seq<(Seq<char>, usize, usize, Option<Seq<char>>)>) -> Seq<Seq<char>> {
    ms.map_values(|m: (Seq<char>, usize, usize, Option<Seq<char>>)| m.0)
}

/// The morphemes (as values) that `lindera::segmenter::Segmenter::segment`
/// cuts `text` into with this segmenter.
pub uninterp spec fn segmentation(segmenter: Segmenter, text: Seq<char>) -> Seq<(Seq<char>, usize, usize, Option<Seq<char>>)>;

/// The surfaces of morphemes are the surfaces of their values.
pub proof fn lemma_surfaces_of_views(ms: Seq<Morpheme>)
    ensures
        surfaces_of(ms) == view_surfaces(morpheme_views(ms)),
{
    assert(surfaces_of(ms) =~= view_surfaces(morpheme_views(ms)));
}

/// Cuts `text` into morphemes with `lindera::segmenter::Segmenter::segment`;
/// each token gives its surface, `byte_start`, `byte_end` and the first
/// entry of `Token::details` as the tag. In the lindera source that call
/// always returns `Ok`; it yields no token for an empty text, and each
/// token's surface is a slice of the text. The morphemes are a function of
/// the segmenter and the text, named `segmentation`.
#[verifier::external_body]
pub(crate) fn segment(segmenter: &Segmenter, text: &str) -> (r: Result<Vec<Morpheme>, String>)
    ensures
        r is Ok,
        r matches Ok(ms) ==> morpheme_views(ms@) == segmentation(*segmenter, text@),
        r matches Ok(ms) ==> (text@.len() == 0 ==> ms@.len() == 0),
        r matches Ok(ms) ==> forall|i: int| 0 <= i < ms@.len() ==> has_infix(text@, #[trigger] ms@[i].surface@),
{
    match segmenter.segment(Cow::Borrowed(text)) {
        Ok(tokens) => Ok(tokens.into_iter().map(|mut t| Morpheme {
            pos: t.details().first().map(|d| d.to_string()),
            surface: t.surface.to_string(),
            byte_start: t.byte_start,
            byte_end: t.byte_end,
        }).collect()),
        Err(e) => Err(e.to_string()),
    }
}

/// The surfaces of `ms`, in order.
pub fn surfaces(ms: &Vec<Morpheme>) -> (s: Vec<String>)
    ensures
        s.deep_view() == surfaces_of(ms@),
{
    let mut s: Vec<String> = Vec::new();
    let mut i: usize = 0;
    while i < ms.len()
        invariant
            i <= ms.len(),
            s.len() == i,
            forall|j: int| 0 <= j < i ==> #[trigger] s@[j]@ == ms@[j].surface@,
        decreases ms.len() - i,
    {
        s.push(ms[i].surface.clone());
        i = i + 1;
    }
    assert(s.deep_view() =~= surfaces_of(ms@)) by {
        assert forall|j: int| 0 <= j < s.len() implies s.deep_view()[j] == surfaces_of(ms@)[j] by {
            assert(s.deep_view()[j] == s@[j]@);
        }
    }
    s
}

} // verus!
