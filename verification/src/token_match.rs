//! Matching a keyword's token sequence against a text's token sequence.
//!
//! Both the keyword and the text are cut into tokens (surface strings); the
//! keyword occurs wherever its tokens appear consecutively in the text's
//! tokens. Particles split off as tokens of their own therefore never block
//! a match.

use vstd::prelude::*;

verus! {

/// The key's tokens appear at position `i` of `hay`.
pub open spec fn window_is(hay: Seq<Seq<char>>, key: Seq<Seq<char>>, i: int) -> bool {
    0 <= i && i + key.len() <= hay.len() && hay.subrange(i, i + key.len()) == key
}

/// The start positions of the key in `hay` found by scanning from `i`:
/// after a match the scan resumes past it, so matches never overlap. An
/// empty key matches nowhere.
pub open spec fn match_starts(hay: Seq<Seq<char>>, key: Seq<Seq<char>>, i: int) -> Seq<int>
    decreases hay.len() - i,
{
    if key.len() == 0 || i < 0 || i + key.len() > hay.len() {
        Seq::empty()
    } else if window_is(hay, key, i) {
        seq![i] + match_starts(hay, key, i + key.len())
    } else {
        match_starts(hay, key, i + 1)
    }
}

/// How many non-overlapping occurrences of the key the scan finds.
pub open spec fn match_count(hay: Seq<Seq<char>>, key: Seq<Seq<char>>) -> nat {
    match_starts(hay, key, 0).len()
}

/// The first position from `i` on where the key appears (overlaps allowed).
pub open spec fn first_window(hay: Seq<Seq<char>>, key: Seq<Seq<char>>, i: int) -> Option<int>
    decreases hay.len() - i,
{
    if key.len() == 0 || i < 0 || i + key.len() > hay.len() {
        None
    } else if window_is(hay, key, i) {
        Some(i)
    } else {
        first_window(hay, key, i + 1)
    }
}

/// A position that the search reports holds a whole occurrence of a
/// non-empty key, at or after where the search began.
pub proof fn lemma_first_window_found(hay: Seq<Seq<char>>, key: Seq<Seq<char>>, i: int, j: int)
    requires
        first_window(hay, key, i) == Some(j),
    ensures
        key.len() > 0,
        i <= j,
        window_is(hay, key, j),
    decreases hay.len() - i,
{
    if !(key.len() == 0 || i < 0 || i + key.len() > hay.len()) && !window_is(hay, key, i) {
        lemma_first_window_found(hay, key, i + 1, j);
    }
}

/// The tokens joined into one string.
pub open spec fn joined(tokens: Seq<Seq<char>>) -> Seq<char>
    decreases tokens.len(),
{
    if tokens.len() == 0 {
        Seq::empty()
    } else {
        joined(tokens.drop_last()) + tokens.last()
    }
}

/// Whether the key's tokens appear at position `i` of `hay`.
pub fn window_matches(hay: &Vec<String>, key: &Vec<String>, i: usize) -> (b: bool)
    requires
        i + key.len() <= hay.len(),
    ensures
        b == window_is(hay.deep_view(), key.deep_view(), i as int),
{
    let ghost h = hay.deep_view();
    let ghost k = key.deep_view();
    let mut j: usize = 0;
    while j < key.len()
        invariant
            h == hay.deep_view(),
            k == key.deep_view(),
            i + key.len() <= hay.len(),
            j <= key.len(),
            forall|x: int| 0 <= x < j ==> h[i + x] == k[x],
        decreases key.len() - j,
    {
        assert(h[i + j] == hay@[i + j]@ && k[j as int] == key@[j as int]@);
        if !(hay[i + j] == key[j]) {
            assert(h.subrange(i as int, i + key.len())[j as int] != k[j as int]);
            return false;
        }
        j = j + 1;
    }
    assert(h.subrange(i as int, i + key.len()) =~= k);
    true
}

proof fn lemma_match_starts_shift(hay: Seq<Seq<char>>, key: Seq<Seq<char>>, i: int)
    requires
        key.len() > 0,
        0 <= i,
        i + key.len() <= hay.len(),
    ensures
        match_starts(hay, key, i) == if window_is(hay, key, i) {
            seq![i] + match_starts(hay, key, i + key.len())
        } else {
            match_starts(hay, key, i + 1)
        },
{
}

/// The number of non-overlapping occurrences of `key` in `hay`, scanning
/// left to right.
pub fn count_token_matches(hay: &Vec<String>, key: &Vec<String>) -> (n: usize)
    ensures
        n == match_count(hay.deep_view(), key.deep_view()),
{
    let ghost h = hay.deep_view();
    let ghost k = key.deep_view();
    if key.len() == 0 || hay.len() < key.len() {
        return 0;
    }
    let mut matches: usize = 0;
    let mut i: usize = 0;
    while i <= hay.len() - key.len()
        invariant
            h == hay.deep_view(),
            k == key.deep_view(),
            0 < key.len() <= hay.len(),
            i <= hay.len(),
            matches <= i,
            matches + match_starts(h, k, i as int).len() == match_starts(h, k, 0).len(),
        decreases hay.len() - i,
    {
        proof {
            lemma_match_starts_shift(h, k, i as int);
        }
        if window_matches(hay, key, i) {
            matches = matches + 1;
            i = i + key.len();
        } else {
            i = i + 1;
        }
    }
    matches
}

/// The first position where `key` appears in `hay`.
pub fn first_token_match(hay: &Vec<String>, key: &Vec<String>) -> (r: Option<usize>)
    ensures
        r matches Some(i) ==> first_window(hay.deep_view(), key.deep_view(), 0) == Some(i as int),
        r is None ==> first_window(hay.deep_view(), key.deep_view(), 0) is None,
{
    let ghost h = hay.deep_view();
    let ghost k = key.deep_view();
    if key.len() == 0 || hay.len() < key.len() {
        return None;
    }
    let mut i: usize = 0;
    while i <= hay.len() - key.len()
        invariant
            h == hay.deep_view(),
            k == key.deep_view(),
            0 < key.len() <= hay.len(),
            i <= hay.len(),
            first_window(h, k, i as int) == first_window(h, k, 0),
        decreases hay.len() - i,
    {
        if window_matches(hay, key, i) {
            return Some(i);
        }
        i = i + 1;
    }
    None
}

/// The tokens at positions `from..to` joined into one string.
pub fn join_range(tokens: &Vec<String>, from: usize, to: usize) -> (s: String)
    requires
        from <= to <= tokens.len(),
    ensures
        s@ == joined(tokens.deep_view().subrange(from as int, to as int)),
{
    let ghost t = tokens.deep_view();
    let mut s = String::new();
    let mut i: usize = from;
    while i < to
        invariant
            t == tokens.deep_view(),
            from <= i <= to <= tokens.len(),
            s@ == joined(t.subrange(from as int, i as int)),
        decreases to - i,
    {
        assert(t.subrange(from as int, i + 1).drop_last() =~= t.subrange(from as int, i as int));
        assert(t[i as int] == tokens@[i as int]@);
        s.append(tokens[i].as_str());
        i = i + 1;
    }
    s
}

/// The text of every non-overlapping occurrence found by the scan: each is
/// the key's tokens joined.
pub open spec fn match_texts(hay: Seq<Seq<char>>, key: Seq<Seq<char>>) -> Seq<Seq<char>> {
    Seq::new(match_count(hay, key), |i: int| joined(key))
}

/// Every non-overlapping occurrence of `key` in `hay`, each as the matched
/// tokens joined into one string.
pub fn token_matches(hay: &Vec<String>, key: &Vec<String>) -> (m: Vec<String>)
    ensures
        m.deep_view() == match_texts(hay.deep_view(), key.deep_view()),
{
    let ghost h = hay.deep_view();
    let ghost k = key.deep_view();
    let mut matches: Vec<String> = Vec::new();
    if key.len() == 0 || hay.len() < key.len() {
        assert(matches.deep_view() =~= match_texts(h, k));
        return matches;
    }
    let mut i: usize = 0;
    while i <= hay.len() - key.len()
        invariant
            h == hay.deep_view(),
            k == key.deep_view(),
            0 < key.len() <= hay.len(),
            i <= hay.len(),
            matches.len() <= i,
            matches.len() + match_starts(h, k, i as int).len() == match_starts(h, k, 0).len(),
            forall|j: int| 0 <= j < matches.len() ==> #[trigger] matches@[j]@ == joined(k),
        decreases hay.len() - i,
    {
        proof {
            lemma_match_starts_shift(h, k, i as int);
        }
        if window_matches(hay, key, i) {
            let text = join_range(hay, i, i + key.len());
            matches.push(text);
            i = i + key.len();
        } else {
            i = i + 1;
        }
    }
    assert(matches.deep_view() =~= match_texts(h, k)) by {
        assert forall|j: int| 0 <= j < matches.len() implies matches.deep_view()[j] == match_texts(h, k)[j] by {
            assert(matches.deep_view()[j] == matches@[j]@);
        }
    }
    matches
}

proof fn lemma_starts_from(hay: Seq<Seq<char>>, key: Seq<Seq<char>>, i: int)
    ensures
        forall|j: int| 0 <= j < match_starts(hay, key, i).len() ==> {
            &&& i <= #[trigger] match_starts(hay, key, i)[j]
            &&& window_is(hay, key, match_starts(hay, key, i)[j])
        },
        forall|j: int| 0 <= j && j + 1 < match_starts(hay, key, i).len() ==>
            #[trigger] match_starts(hay, key, i)[j] + key.len() <= match_starts(hay, key, i)[j + 1],
    decreases hay.len() - i,
{
    if key.len() == 0 || i < 0 || i + key.len() > hay.len() {
        assert(match_starts(hay, key, i).len() == 0);
    } else if window_is(hay, key, i) {
        let rest = match_starts(hay, key, i + key.len());
        lemma_starts_from(hay, key, i + key.len());
        let ms = match_starts(hay, key, i);
        assert(ms == seq![i] + rest);
        assert forall|j: int| 0 <= j < ms.len() implies {
            &&& i <= #[trigger] ms[j]
            &&& window_is(hay, key, ms[j])
        } by {
            if j > 0 {
                assert(ms[j] == rest[j - 1]);
            }
        }
        assert forall|j: int| 0 <= j && j + 1 < ms.len() implies #[trigger] ms[j] + key.len() <= ms[j + 1] by {
            assert(ms[j + 1] == rest[j]);
            if j > 0 {
                assert(ms[j] == rest[j - 1]);
            }
        }
    } else {
        lemma_starts_from(hay, key, i + 1);
        let ms = match_starts(hay, key, i);
        assert(ms == match_starts(hay, key, i + 1));
        assert forall|j: int| 0 <= j < ms.len() implies {
            &&& i <= #[trigger] ms[j]
            &&& window_is(hay, key, ms[j])
        } by {
            assert(i + 1 <= match_starts(hay, key, i + 1)[j]);
        }
    }
}

/// Every occurrence the count includes is a real occurrence of the key in
/// the text, and no two of them overlap.
pub proof fn lemma_counted_matches_are_disjoint_occurrences(hay: Seq<Seq<char>>, key: Seq<Seq<char>>)
    ensures
        match_starts(hay, key, 0).len() == match_count(hay, key),
        forall|j: int| 0 <= j < match_count(hay, key) ==> window_is(hay, key, #[trigger] match_starts(hay, key, 0)[j]),
        forall|j: int| 0 <= j && j + 1 < match_count(hay, key) ==>
            #[trigger] match_starts(hay, key, 0)[j] + key.len() <= match_starts(hay, key, 0)[j + 1],
{
    lemma_starts_from(hay, key, 0);
}

proof fn lemma_found_from(hay: Seq<Seq<char>>, key: Seq<Seq<char>>, i: int)
    ensures
        match_starts(hay, key, i).len() > 0 <==> first_window(hay, key, i) is Some,
    decreases hay.len() - i,
{
    if key.len() == 0 || i < 0 || i + key.len() > hay.len() {
    } else if window_is(hay, key, i) {
    } else {
        lemma_found_from(hay, key, i + 1);
    }
}

/// The key is counted at least once exactly when a search finds it.
pub proof fn lemma_count_positive_iff_found(hay: Seq<Seq<char>>, key: Seq<Seq<char>>)
    ensures
        match_count(hay, key) > 0 <==> first_window(hay, key, 0) is Some,
{
    lemma_found_from(hay, key, 0);
}

proof fn lemma_starts_bound(hay: Seq<Seq<char>>, key: Seq<Seq<char>>, i: int)
    requires
        0 <= i <= hay.len(),
    ensures
        match_starts(hay, key, i).len() * key.len() <= hay.len() - i,
    decreases hay.len() - i,
{
    let n = match_starts(hay, key, i).len();
    if key.len() == 0 || i + key.len() > hay.len() {
        assert(n == 0);
        assert(n * key.len() == 0) by (nonlinear_arith)
            requires n == 0;
    } else if window_is(hay, key, i) {
        lemma_starts_bound(hay, key, i + key.len());
        let m = match_starts(hay, key, i + key.len()).len();
        assert(n == m + 1);
        assert(n * key.len() == m * key.len() + key.len()) by (nonlinear_arith)
            requires n == m + 1;
    } else {
        lemma_starts_bound(hay, key, i + 1);
    }
}

/// The counted occurrences fit in the text: their number times the key's
/// length is at most the text's length.
pub proof fn lemma_count_times_key_fits(hay: Seq<Seq<char>>, key: Seq<Seq<char>>)
    ensures
        match_count(hay, key) * key.len() <= hay.len(),
{
    lemma_starts_bound(hay, key, 0);
}

proof fn lemma_starts_shift(a: Seq<Seq<char>>, b: Seq<Seq<char>>, key: Seq<Seq<char>>, i: int)
    requires
        0 <= i,
    ensures
        match_starts(a + b, key, a.len() + i).len() == match_starts(b, key, i).len(),
    decreases b.len() - i,
{
    let h = a + b;
    let j = a.len() + i;
    if key.len() == 0 || i + key.len() > b.len() {
    } else {
        assert(h.subrange(j, j + key.len()) =~= b.subrange(i, i + key.len()));
        if window_is(b, key, i) {
            lemma_starts_shift(a, b, key, i + key.len());
        } else {
            lemma_starts_shift(a, b, key, i + 1);
        }
    }
}

/// An occurrence of the key at the front adds exactly one to the count of
/// what follows it.
pub proof fn lemma_count_key_in_front(key: Seq<Seq<char>>, rest: Seq<Seq<char>>)
    requires
        key.len() > 0,
    ensures
        match_count(key + rest, key) == 1 + match_count(rest, key),
{
    let h = key + rest;
    assert(h.subrange(0, key.len() as int) =~= key);
    lemma_starts_shift(key, rest, key, 0);
}

/// A token in front that cannot start the key leaves the count unchanged.
pub proof fn lemma_count_other_in_front(x: Seq<char>, rest: Seq<Seq<char>>, key: Seq<Seq<char>>)
    requires
        key.len() > 0,
        x != key[0],
    ensures
        match_count(seq![x] + rest, key) == match_count(rest, key),
{
    let h = seq![x] + rest;
    if key.len() <= h.len() {
        assert(h.subrange(0, key.len() as int)[0] == x);
        assert(h.subrange(0, key.len() as int) != key);
    }
    lemma_starts_shift(seq![x], rest, key, 0);
    if key.len() > h.len() {
        assert(match_starts(rest, key, 0).len() == 0);
    }
}

/// The key written `k` times in a row.
pub open spec fn repeated(key: Seq<Seq<char>>, k: nat) -> Seq<Seq<char>>
    decreases k,
{
    if k == 0 {
        Seq::empty()
    } else {
        key + repeated(key, (k - 1) as nat)
    }
}

/// The key written `k` times in a row is counted `k` times.
pub proof fn lemma_count_repeated(key: Seq<Seq<char>>, k: nat)
    requires
        key.len() > 0,
    ensures
        match_count(repeated(key, k), key) == k,
    decreases k,
{
    if k == 0 {
        assert(match_starts(Seq::<Seq<char>>::empty(), key, 0).len() == 0);
    } else {
        lemma_count_repeated(key, (k - 1) as nat);
        lemma_count_key_in_front(key, repeated(key, (k - 1) as nat));
    }
}

} // verus!
