//! The gateway's morphology answers: how often a keyword's morpheme sequence
//! occurs in a text (with the matched text of each occurrence), and a text's
//! morphemes with their part-of-speech tags and the nouns among them.

use vstd::prelude::*;
use lindera::segmenter::Segmenter;
use crate::morph::{
    lemma_surfaces_of_views, morpheme_view, morpheme_views, segment, segmentation, surfaces,
    view_surfaces, Morpheme,
};
use crate::text::{chars_of, has_prefix, starts_with_chars, trim, trim_str};
use crate::token_match::{match_count, match_texts, token_matches};

verus! {

/// The answer to a keyword-occurrence request.
pub struct ContainsResponse {
    pub count: usize,
    pub matches: Vec<String>,
    pub engine: &'static str,
}

/// One morpheme as reported to the caller.
pub struct TokenView {
    pub surface: String,
    pub pos: String,
}

/// The answer to a tokenize request.
pub struct TokenizeResponse {
    pub tokens: Vec<TokenView>,
    pub nouns: Vec<String>,
    pub engine: &'static str,
}

/// The engine name the gateway reports.
pub open spec fn lindera_engine() -> Seq<char> {
    seq!['l', 'i', 'n', 'd', 'e', 'r', 'a']
}

/// The error message for a failed segmentation with message `msg`.
pub open spec fn tokenize_error(msg: Seq<char>) -> Seq<char> {
    seq!['t', 'o', 'k', 'e', 'n', 'i', 'z', 'e', ':', ' '] + msg
}

/// `resp` reports the non-overlapping occurrences of `key` in `hay`.
pub open spec fn reports_matches(resp: ContainsResponse, hay: Seq<Seq<char>>, key: Seq<Seq<char>>) -> bool {
    &&& resp.count == match_count(hay, key)
    &&& resp.matches.deep_view() == match_texts(hay, key)
    &&& resp.engine@ == lindera_engine()
}

fn engine_name() -> (e: &'static str)
    ensures
        e@ == lindera_engine(),
{
    proof {
        reveal_strlit("lindera");
    }
    "lindera"
}

/// The answer for a keyword whose morpheme surfaces are `key` in a text
/// whose morpheme surfaces are `hay`.
pub fn contains_response(hay: &Vec<String>, key: &Vec<String>) -> (r: ContainsResponse)
    ensures
        reports_matches(r, hay.deep_view(), key.deep_view()),
{
    let matches = token_matches(hay, key);
    assert(matches.deep_view().len() == matches.len());
    ContainsResponse { count: matches.len(), matches, engine: engine_name() }
}

/// The message for a failed segmentation.
fn tokenize_message(e: String) -> (m: String)
    ensures
        m@ == tokenize_error(e@),
{
    let mut m = String::from_str("tokenize: ");
    proof {
        reveal_strlit("tokenize: ");
    }
    m.append(e.as_str());
    m
}

/// Counts the occurrences of `keyword` (trimmed) in `text`, both cut into
/// morphemes by `segmenter`. An empty keyword, or one with no morphemes,
/// occurs nowhere; a segmentation error is reported.
pub fn keyword_contains(segmenter: &Segmenter, text: &str, keyword: &str) -> (r: Result<ContainsResponse, String>)
    ensures
        r is Ok,
        trim(keyword@).len() == 0 ==> (r matches Ok(resp) && reports_matches(resp, Seq::empty(), Seq::empty())),
        trim(keyword@).len() > 0 ==> (r matches Ok(resp) && reports_matches(
            resp,
            view_surfaces(segmentation(*segmenter, text@)),
            view_surfaces(segmentation(*segmenter, trim(keyword@))),
        )),
        r matches Err(e) ==> exists|msg: Seq<char>| e@ == tokenize_error(msg),
{
    let kw = trim_str(keyword);
    if kw.unicode_len() == 0 {
        let none: Vec<String> = Vec::new();
        return Ok(contains_response(&none, &none));
    }
    let key_ms = match segment(segmenter, kw.as_str()) {
        Ok(ms) => ms,
        Err(e) => return Err(tokenize_message(e)),
    };
    let key = surfaces(&key_ms);
    proof {
        lemma_surfaces_of_views(key_ms@);
    }
    if key.len() == 0 {
        let none: Vec<String> = Vec::new();
        let resp = contains_response(&none, &key);
        proof {
            let h = view_surfaces(segmentation(*segmenter, text@));
            let k = key.deep_view();
            assert(k.len() == 0);
            assert(match_count(h, k) == match_count(none.deep_view(), k));
            assert(match_texts(h, k) =~= match_texts(none.deep_view(), k));
        }
        let r = Ok(resp);
        assert(r matches Ok(q) && q == resp);
        return r;
    }
    let hay_ms = match segment(segmenter, text) {
        Ok(ms) => ms,
        Err(e) => return Err(tokenize_message(e)),
    };
    let hay = surfaces(&hay_ms);
    proof {
        lemma_surfaces_of_views(hay_ms@);
    }
    let resp = contains_response(&hay, &key);
    let r = Ok(resp);
    assert(r matches Ok(q) && q == resp);
    r
}

/// The tag reported for a morpheme value: its first detail, or "UNK".
pub open spec fn pos_of(m: (Seq<char>, usize, usize, Option<Seq<char>>)) -> Seq<char> {
    match m.3 {
        Some(p) => p,
        None => seq!['U', 'N', 'K'],
    }
}

/// Tags counted as nouns: common nouns (NN…), pronouns (NP) and numerals (NR).
pub open spec fn is_noun_tag(p: Seq<char>) -> bool {
    has_prefix(p, seq!['N', 'N']) || p == seq!['N', 'P'] || p == seq!['N', 'R']
}

/// The surfaces of the noun morphemes, in order.
pub open spec fn noun_surfaces(ms: Seq<(Seq<char>, usize, usize, Option<Seq<char>>)>) -> Seq<Seq<char>>
    decreases ms.len(),
{
    if ms.len() == 0 {
        Seq::empty()
    } else {
        let rest = noun_surfaces(ms.drop_last());
        if is_noun_tag(pos_of(ms.last())) {
            rest.push(ms.last().0)
        } else {
            rest
        }
    }
}

/// `resp` lists the morphemes `ms`.
pub open spec fn describes(resp: TokenizeResponse, ms: Seq<(Seq<char>, usize, usize, Option<Seq<char>>)>) -> bool {
    &&& resp.tokens.len() == ms.len()
    &&& forall|i: int| 0 <= i < ms.len() ==> {
        &&& (#[trigger] resp.tokens@[i]).surface@ == ms[i].0
        &&& resp.tokens@[i].pos@ == pos_of(ms[i])
    }
    &&& resp.nouns.deep_view() == noun_surfaces(ms)
    &&& resp.engine@ == lindera_engine()
}

/// The tag reported for `m`.
fn tag_of(m: &Morpheme) -> (p: String)
    ensures
        p@ == pos_of(morpheme_view(*m)),
{
    match &m.pos {
        Some(p) => p.clone(),
        None => {
            proof {
                reveal_strlit("UNK");
            }
            String::from_str("UNK")
        },
    }
}

/// Whether `pos` is a noun tag.
pub fn is_noun(pos: &str) -> (b: bool)
    ensures
        b == is_noun_tag(pos@),
{
    let p = chars_of(pos);
    let nn = vec!['N', 'N'];
    assert(nn@ =~= seq!['N', 'N']);
    if starts_with_chars(&p, &nn) {
        return true;
    }
    if p.len() == 2 && p[0] == 'N' && (p[1] == 'P' || p[1] == 'R') {
        assert(p@ =~= seq!['N', p@[1]]);
        return true;
    }
    assert(p@ != seq!['N', 'P'] && p@ != seq!['N', 'R']) by {
        if p@ == seq!['N', 'P'] || p@ == seq!['N', 'R'] {
            assert(p@[0] == 'N');
        }
    }
    false
}

/// The listing of the morphemes `ms`: each with its tag, and the nouns.
pub fn tokenize_response(ms: &Vec<Morpheme>) -> (r: TokenizeResponse)
    ensures
        describes(r, morpheme_views(ms@)),
{
    let ghost mv = morpheme_views(ms@);
    let mut tokens: Vec<TokenView> = Vec::new();
    let mut nouns: Vec<String> = Vec::new();
    let mut i: usize = 0;
    while i < ms.len()
        invariant
            mv == morpheme_views(ms@),
            i <= ms.len(),
            tokens.len() == i,
            forall|j: int| 0 <= j < i ==> {
                &&& (#[trigger] tokens@[j]).surface@ == mv[j].0
                &&& tokens@[j].pos@ == pos_of(mv[j])
            },
            nouns.deep_view() == noun_surfaces(mv.subrange(0, i as int)),
        decreases ms.len() - i,
    {
        let pos = tag_of(&ms[i]);
        let surface = ms[i].surface.clone();
        let noun = is_noun(pos.as_str());
        proof {
            let pre = mv.subrange(0, i as int + 1);
            assert(pre.drop_last() =~= mv.subrange(0, i as int));
            assert(pre.last() == mv[i as int]);
            assert(mv[i as int] == morpheme_view(ms@[i as int]));
        }
        if noun {
            let ghost before = nouns.deep_view();
            nouns.push(surface.clone());
            assert(nouns.deep_view() =~= before.push(surface@));
        }
        tokens.push(TokenView { surface, pos });
        i = i + 1;
    }
    assert(mv.subrange(0, ms.len() as int) =~= mv);
    TokenizeResponse { tokens, nouns, engine: engine_name() }
}

/// Cuts `text` into morphemes with `segmenter` and lists them with their
/// tags and the nouns among them; a segmentation error is reported.
pub fn tokenize(segmenter: &Segmenter, text: &str) -> (r: Result<TokenizeResponse, String>)
    ensures
        r is Ok,
        r matches Ok(resp) ==> describes(resp, segmentation(*segmenter, text@)),
        r matches Err(e) ==> exists|msg: Seq<char>| e@ == tokenize_error(msg),
{
    match segment(segmenter, text) {
        Ok(ms) => {
            let resp = tokenize_response(&ms);
            let r = Ok(resp);
            assert(r matches Ok(q) && q == resp);
            r
        },
        Err(e) => Err(tokenize_message(e)),
    }
}

/// A tag counts as a noun exactly when it is two or more characters starting
/// with "NN", or is "NP" or "NR"; every other tag (SL, SN, VV, …) is not.
pub proof fn lemma_noun_tags(p: Seq<char>)
    ensures
        is_noun_tag(p) <==> (p.len() >= 2 && p[0] == 'N' && (p[1] == 'N' || (p.len() == 2 && (p[1]
            == 'P' || p[1] == 'R')))),
{
    if p.len() >= 2 && p[0] == 'N' && p[1] == 'N' {
        assert(p.subrange(0, 2) =~= seq!['N', 'N']);
    }
    if has_prefix(p, seq!['N', 'N']) {
        assert(p.subrange(0, 2)[0] == p[0] && p.subrange(0, 2)[1] == p[1]);
    }
    if p.len() == 2 && p[0] == 'N' && (p[1] == 'P' || p[1] == 'R') {
        assert(p =~= seq!['N', p[1]]);
    }
}

/// When no tag starts with 'N' the noun list is empty; when every tag is an
/// NN… tag every surface is a noun, in order.
pub proof fn lemma_noun_list_bounds(ms: Seq<(Seq<char>, usize, usize, Option<Seq<char>>)>)
    ensures
        (forall|i: int| 0 <= i < ms.len() ==> !(#[trigger] pos_of(ms[i]).len() > 0 && pos_of(ms[i])[0] == 'N'))
            ==> noun_surfaces(ms).len() == 0,
        (forall|i: int| 0 <= i < ms.len() ==> has_prefix(#[trigger] pos_of(ms[i]), seq!['N', 'N']))
            ==> noun_surfaces(ms) == ms.map_values(|m: (Seq<char>, usize, usize, Option<Seq<char>>)| m.0),
    decreases ms.len(),
{
    if ms.len() > 0 {
        let rest = ms.drop_last();
        lemma_noun_list_bounds(rest);
        lemma_noun_tags(pos_of(ms.last()));
        if forall|i: int| 0 <= i < ms.len() ==> !(#[trigger] pos_of(ms[i]).len() > 0 && pos_of(ms[i])[0] == 'N') {
            assert forall|i: int| 0 <= i < rest.len() implies !(#[trigger] pos_of(rest[i]).len() > 0 && pos_of(rest[i])[0] == 'N') by {
                assert(rest[i] == ms[i]);
            }
            assert(ms.last() == ms[ms.len() - 1]);
        }
        if forall|i: int| 0 <= i < ms.len() ==> has_prefix(#[trigger] pos_of(ms[i]), seq!['N', 'N']) {
            assert forall|i: int| 0 <= i < rest.len() implies has_prefix(#[trigger] pos_of(rest[i]), seq!['N', 'N']) by {
                assert(rest[i] == ms[i]);
            }
            assert(ms.last() == ms[ms.len() - 1]);
            assert(has_prefix(pos_of(ms[ms.len() - 1]), seq!['N', 'N']));
            assert(ms.map_values(|m: (Seq<char>, usize, usize, Option<Seq<char>>)| m.0) =~= rest.map_values(
                |m: (Seq<char>, usize, usize, Option<Seq<char>>)| m.0,
            ).push(ms.last().0));
        }
    }
}

} // verus!
