//! The patterns the checks search for, the regex engine behind them, and the
//! text helpers every check shares: HTML stripping and particle-aware keyword
//! counting.

use vstd::prelude::*;
use vstd::string::StringSliceAdditionalSpecFns;
use crate::text::{is_white_space, lemma_trim_edges, lemma_trim_idempotent, trim, trim_str};

verus! {

/// Common Korean particles appended after nouns.
pub const PARTICLES: &'static str = "을|를|이|가|은|는|에|에서|의|와|과|도|만|보다|에게|께|로|으로|로서|으로서|로써|으로써|만큼|처럼|같이|마저|조차|이나|나|이라도|라도|이라고|라고|이라며|라며";

/// `<script>` and `<style>` elements with their contents.
pub const SCRIPT_STYLE: &'static str = r"(?si)<(script|style)[^>]*?>.*?</(?:script|style)>";

/// Any tag.
pub const TAG: &'static str = r"<[^>]*>";

/// A run of white space.
pub const WHITESPACE: &'static str = r"\s+";

/// An opening `<h2>` tag.
pub const H2: &'static str = r"(?i)<h2\b[^>]*>";

/// An `<h2>` element; group 1 is its inner HTML.
pub const H2_INNER: &'static str = r"(?is)<h2\b[^>]*>(.*?)</h2>";

/// A `<p>` element; group 1 is its inner HTML.
pub const P_INNER: &'static str = r"(?is)<p\b[^>]*>(.*?)</p>";

/// An `<img>` tag.
pub const IMG: &'static str = r"(?i)<img\b[^>]*>";

/// A non-empty quoted `alt` attribute.
pub const IMG_ALT: &'static str = r#"(?i)\balt\s*=\s*"[^"]+""#;

/// A character outside ASCII.
pub const NON_ASCII: &'static str = r"[^\x00-\x7F]";

/// An anchor with a quoted `href`; group 1 is the link target.
pub const A_HREF: &'static str = r#"(?is)<a\s+[^>]*?href\s*=\s*"([^"]+)""#;

/// An opening anchor tag; group 1 is its attribute text.
pub const A_TAG: &'static str = r"(?is)<a\s+([^>]*?)>";

/// Sentence-ending punctuation and the white space after it.
pub const SENTENCE_END: &'static str = r"[.!?。?]+\s*";

/// Korean transition words and connectors, preceded by a boundary character
/// (or the text's start). The longer of two words that share a start comes
/// first ('즉시' before '즉'), so that the word is taken whole; the check also
/// asks for a boundary after it (see `transition_boundary_follows`).
pub const TRANSITIONS: &'static str = r"(?:^|[\s,()\[\]。.!?])(그러나|그렇지만|하지만|반면|한편|따라서|그러므로|그래서|결국|결과적으로|예를\s?들어|구체적으로|말하자면|가령|또한|게다가|더불어|더욱이|즉시|즉|다시\s?말해|요컨대|우선|먼저|다음으로|마지막으로|끝으로|물론|사실|참고로|반대로|오히려|특히)";

/// 해요체 (informal-polite) sentence endings followed by a boundary.
pub const HAEYO: &'static str = r"(?:해요|예요|이에요|에요|네요|어요|아요|거예요|이지요|지요|나요|ㄴ가요|는가요)[\s.!?。]";

/// 합쇼체 (formal) sentence endings followed by a boundary.
pub const HAPSYO: &'static str = r"(?:합니다|입니다|습니다|됩니다|갑니다|옵니다|합니까|입니까|습니까|됩니까|십시오)[\s.!?。]";

/// Chat-style and casual markers.
pub const INFORMAL: &'static str = r"(?:ㅋㅋ+|ㅎㅎ+|ㅠㅠ+|ㅜㅜ+|ㅇㅇ|ㄴㄴ|헐\b|대박\b|레알\b|개꿀\b|쩐다\b|굿굿)";

/// The patterns whose group 1 takes part in every match.
pub open spec fn has_capture_group(pattern: Seq<char>) -> bool {
    ||| pattern == H2_INNER@
    ||| pattern == P_INNER@
    ||| pattern == A_HREF@
    ||| pattern == A_TAG@
}

/// Whether `regex::Regex::new` accepts `pattern`.
pub uninterp spec fn regex_is_valid(pattern: Seq<char>) -> bool;

/// The texts of the successive non-overlapping matches that
/// `regex::Regex::find_iter` reports for `pattern` in `haystack` (none when
/// the pattern does not compile).
pub uninterp spec fn regex_match_texts(pattern: Seq<char>, haystack: Seq<char>) -> Seq<Seq<char>>;

/// The byte span of the first match that `regex::Regex::find` reports for
/// `pattern` in `haystack` (`None` when the pattern does not compile).
pub uninterp spec fn regex_first_match(pattern: Seq<char>, haystack: Seq<char>) -> Option<(usize, usize)>;

/// For each successive match of `regex::Regex::captures_iter`, the whole
/// match and capture group 1.
pub uninterp spec fn regex_capture_pairs(pattern: Seq<char>, haystack: Seq<char>) -> Seq<(Seq<char>, Seq<char>)>;

/// The end byte offsets of the successive non-overlapping matches that
/// `regex::Regex::find_iter` reports for `pattern` in `haystack` (none when
/// the pattern does not compile).
pub uninterp spec fn regex_match_end_offsets(pattern: Seq<char>, haystack: Seq<char>) -> Seq<usize>;

/// What `regex::Regex::replace_all` makes of `haystack` with `replacement`
/// (the haystack itself when the pattern does not compile).
pub uninterp spec fn regex_replaced(pattern: Seq<char>, haystack: Seq<char>, replacement: Seq<char>) -> Seq<char>;

/// The pieces `regex::Regex::split` cuts `haystack` into (the haystack as one
/// piece when the pattern does not compile).
pub uninterp spec fn regex_pieces(pattern: Seq<char>, haystack: Seq<char>) -> Seq<Seq<char>>;

/// What `str::to_lowercase` returns for `s`.
pub uninterp spec fn lowercased(s: Seq<char>) -> Seq<char>;

/// The characters `regex::escape` puts a backslash in front of.
pub open spec fn is_regex_meta(c: char) -> bool {
    c == '\\' || c == '.' || c == '+' || c == '*' || c == '?' || c == '(' || c == ')' || c == '|'
        || c == '[' || c == ']' || c == '{' || c == '}' || c == '^' || c == '$' || c == '#' || c
        == '&' || c == '-' || c == '~'
}

/// `s` with a backslash before every regex meta character.
pub open spec fn regex_escaped(s: Seq<char>) -> Seq<char>
    decreases s.len(),
{
    if s.len() == 0 {
        Seq::empty()
    } else if is_regex_meta(s.last()) {
        regex_escaped(s.drop_last()) + seq!['\\', s.last()]
    } else {
        regex_escaped(s.drop_last()) + seq![s.last()]
    }
}

/// `regex::Regex::new(pattern).is_ok()`.
#[verifier::external_body]
pub(crate) fn regex_valid(pattern: &str) -> (b: bool)
    ensures
        b == regex_is_valid(pattern@),
{
    regex::Regex::new(pattern).is_ok()
}

/// The texts of all matches of `pattern` in `haystack`, through
/// `regex::Regex::find_iter`.
#[verifier::external_body]
pub(crate) fn regex_find_all(pattern: &str, haystack: &str) -> (r: Vec<String>)
    ensures
        r.deep_view() == regex_match_texts(pattern@, haystack@),
{
    match regex::Regex::new(pattern) {
        Ok(re) => re.find_iter(haystack).map(|m| m.as_str().to_string()).collect(),
        Err(_) => Vec::new(),
    }
}

/// The byte span of the first match of `pattern` in `haystack`, through
/// `regex::Regex::find`. The regex crate documents that both offsets fall on
/// character boundaries of the haystack, the start no later than the end.
#[verifier::external_body]
pub(crate) fn regex_find(pattern: &str, haystack: &str) -> (r: Option<(usize, usize)>)
    ensures
        r == regex_first_match(pattern@, haystack@),
        r matches Some(span) ==> {
            &&& span.0 <= span.1 <= haystack.spec_bytes().len()
            &&& vstd::utf8::is_char_boundary(haystack.spec_bytes(), span.0 as int)
            &&& vstd::utf8::is_char_boundary(haystack.spec_bytes(), span.1 as int)
        },
{
    match regex::Regex::new(pattern) {
        Ok(re) => re.find(haystack).map(|m| (m.start(), m.end())),
        Err(_) => None,
    }
}

/// The end byte offset of every match of `pattern` in `haystack`, through
/// `regex::Regex::find_iter`. The regex crate documents that match offsets
/// fall on character boundaries of the haystack.
#[verifier::external_body]
pub(crate) fn regex_match_ends(pattern: &str, haystack: &str) -> (r: Vec<usize>)
    ensures
        r@ == regex_match_end_offsets(pattern@, haystack@),
        forall|i: int| 0 <= i < r@.len() ==> {
            &&& #[trigger] r@[i] <= haystack.spec_bytes().len()
            &&& vstd::utf8::is_char_boundary(haystack.spec_bytes(), r@[i] as int)
        },
{
    match regex::Regex::new(pattern) {
        Ok(re) => re.find_iter(haystack).map(|m| m.end()).collect(),
        Err(_) => Vec::new(),
    }
}

/// Whole match and group 1 of every match of `pattern` in `haystack`, through
/// `regex::Regex::captures_iter`.
#[verifier::external_body]
pub(crate) fn regex_captures(pattern: &str, haystack: &str) -> (r: Vec<(String, String)>)
    requires
        has_capture_group(pattern@),
    ensures
        r.deep_view() == regex_capture_pairs(pattern@, haystack@),
{
    match regex::Regex::new(pattern) {
        Ok(re) => re.captures_iter(haystack).map(|c| (c[0].to_string(), c[1].to_string())).collect(),
        Err(_) => Vec::new(),
    }
}

/// `regex::Regex::replace_all` of `pattern` in `haystack` by `replacement`.
#[verifier::external_body]
pub(crate) fn regex_replace_all(pattern: &str, haystack: &str, replacement: &str) -> (r: String)
    ensures
        r@ == regex_replaced(pattern@, haystack@, replacement@),
{
    match regex::Regex::new(pattern) {
        Ok(re) => re.replace_all(haystack, replacement).into_owned(),
        Err(_) => haystack.to_string(),
    }
}

/// `regex::Regex::split` of `haystack` at the matches of `pattern`.
#[verifier::external_body]
pub(crate) fn regex_split(pattern: &str, haystack: &str) -> (r: Vec<String>)
    ensures
        r.deep_view() == regex_pieces(pattern@, haystack@),
{
    match regex::Regex::new(pattern) {
        Ok(re) => re.split(haystack).map(|s| s.to_string()).collect(),
        Err(_) => vec![haystack.to_string()],
    }
}

/// `regex::escape`: a backslash before each of the characters
/// `\ . + * ? ( ) | [ ] { } ^ $ # & - ~`, everything else kept.
#[verifier::external_body]
pub(crate) fn regex_escape(s: &str) -> (r: String)
    ensures
        r@ == regex_escaped(s@),
{
    regex::escape(s)
}

/// `str::to_lowercase`.
#[verifier::external_body]
pub(crate) fn to_lowercase(s: &str) -> (r: String)
    ensures
        r@ == lowercased(s@),
{
    s.to_lowercase()
}

/// Visible text of an HTML fragment: `<script>`/`<style>` elements removed,
/// every other tag replaced by a space, white-space runs collapsed to one
/// space, and the ends trimmed.
pub open spec fn stripped_text(html: Seq<char>) -> Seq<char> {
    let no_scripts = regex_replaced(SCRIPT_STYLE@, html, ""@);
    let no_tags = regex_replaced(TAG@, no_scripts, " "@);
    trim(regex_replaced(WHITESPACE@, no_tags, " "@))
}

/// The visible text neither starts nor ends with white space, and trimming
/// it again changes nothing.
pub proof fn lemma_visible_text_trimmed(html: Seq<char>)
    ensures
        trim(stripped_text(html)) == stripped_text(html),
        stripped_text(html).len() > 0 ==> !is_white_space(stripped_text(html)[0]) && !is_white_space(
            stripped_text(html).last(),
        ),
{
    let collapsed = regex_replaced(
        WHITESPACE@,
        regex_replaced(TAG@, regex_replaced(SCRIPT_STYLE@, html, ""@), " "@),
        " "@,
    );
    lemma_trim_idempotent(collapsed);
    lemma_trim_edges(collapsed);
}

/// The visible text of `html`.
pub fn strip_html(html: &str) -> (r: String)
    ensures
        r@ == stripped_text(html@),
{
    let stripped = regex_replace_all(SCRIPT_STYLE, html, "");
    let no_tags = regex_replace_all(TAG, stripped.as_str(), " ");
    let collapsed = regex_replace_all(WHITESPACE, no_tags.as_str(), " ");
    trim_str(collapsed.as_str())
}

/// The pattern that finds `keyword` optionally followed by one particle.
pub open spec fn keyword_pattern(keyword: Seq<char>) -> Seq<char> {
    regex_escaped(keyword) + "(?:"@ + PARTICLES@ + ")?"@
}

/// The particle-aware pattern for `keyword`, or `None` when the keyword is
/// empty or the pattern does not compile.
pub fn keyword_regex(keyword: &str) -> (r: Option<String>)
    ensures
        r matches Some(p) ==> p@ == keyword_pattern(keyword@),
        r is Some <==> (keyword@.len() > 0 && regex_is_valid(keyword_pattern(keyword@))),
{
    if keyword.unicode_len() == 0 {
        return None;
    }
    let mut pattern = regex_escape(keyword);
    pattern.append("(?:");
    pattern.append(PARTICLES);
    pattern.append(")?");
    if regex_valid(pattern.as_str()) {
        Some(pattern)
    } else {
        None
    }
}

/// How often the particle-aware pattern for `keyword` matches in `text`
/// (zero for an empty keyword or a pattern that does not compile).
pub open spec fn keyword_occurrences(text: Seq<char>, keyword: Seq<char>) -> nat {
    if keyword.len() > 0 && regex_is_valid(keyword_pattern(keyword)) {
        regex_match_texts(keyword_pattern(keyword), text).len()
    } else {
        0
    }
}

/// Particle-aware keyword count.
pub fn keyword_count(text: &str, keyword: &str) -> (n: usize)
    ensures
        n == keyword_occurrences(text@, keyword@),
{
    match keyword_regex(keyword) {
        Some(pattern) => regex_find_all(pattern.as_str(), text).len(),
        None => 0,
    }
}

} // verus!
