use seo_for_korean::analyzer::helpers::{keyword_count, keyword_regex, strip_html};
use seo_for_korean::analyzer::{KeywordCounter, RegexCounter};
use seo_for_korean::gateway::{contains_response, is_noun, tokenize_response};
use seo_for_korean::morph::Morpheme;
use seo_for_korean::token_match::{count_token_matches, first_token_match, join_range, token_matches};

fn words(ws: &[&str]) -> Vec<String> {
    ws.iter().map(|w| w.to_string()).collect()
}

fn morpheme(surface: &str, pos: Option<&str>) -> Morpheme {
    Morpheme {
        surface: surface.to_string(),
        byte_start: 0,
        byte_end: surface.len(),
        pos: pos.map(|p| p.to_string()),
    }
}

#[test]
fn regex_counter_picks_up_particles() {
    let c = RegexCounter;
    let text = "워드프레스를 사용하면 워드프레스 플러그인을 만들 수 있다. 워드프레스가 좋다.";
    assert_eq!(c.count(text, "워드프레스"), 3);
}

#[test]
fn regex_counter_find_first_returns_byte_offsets() {
    let c = RegexCounter;
    let text = "한국어 SEO 가이드";
    let (s, e) = c.find_first(text, "SEO").unwrap();
    assert_eq!(&text[s..e], "SEO");
}

#[test]
fn regex_counter_empty_keyword_zero() {
    let c = RegexCounter;
    assert_eq!(c.count("anything", ""), 0);
    assert_eq!(c.find_first("anything", ""), None);
}

#[test]
fn regex_counter_engine_is_regex() {
    assert_eq!(RegexCounter.engine(), "regex");
}

#[test]
fn keyword_pattern_escapes_meta_characters() {
    let p = keyword_regex("a.b").unwrap();
    assert!(p.starts_with("a\\.b(?:을|를|"));
    assert!(p.ends_with(")?"));
    assert_eq!(keyword_regex(""), None);
}

#[test]
fn keyword_count_takes_one_particle_and_escapes() {
    assert_eq!(keyword_count("a.b를 axb", "a.b"), 1);
    assert_eq!(keyword_count("SEO와 SEO", "SEO"), 2);
    assert_eq!(keyword_count("", "SEO"), 0);
}

#[test]
fn strip_html_drops_scripts_and_collapses_space() {
    let html = "<p>Hello <b>world</b></p><script>var x = 1;</script>\n <style>p{}</style>  ";
    assert_eq!(strip_html(html), "Hello world");
    assert_eq!(strip_html("   "), "");
}

#[test]
fn token_matches_do_not_overlap() {
    let hay = words(&["a", "b", "a", "b", "a"]);
    let key = words(&["a", "b", "a"]);
    assert_eq!(count_token_matches(&hay, &key), 1);
    assert_eq!(first_token_match(&hay, &key), Some(0));
    let hay2 = words(&["a", "b", "a", "a", "b", "a"]);
    assert_eq!(count_token_matches(&hay2, &key), 2);
}

#[test]
fn empty_key_matches_nowhere() {
    let hay = words(&["a", "b"]);
    let key: Vec<String> = Vec::new();
    assert_eq!(count_token_matches(&hay, &key), 0);
    assert_eq!(first_token_match(&hay, &key), None);
    assert!(token_matches(&hay, &key).is_empty());
}

#[test]
fn count_positive_exactly_when_found() {
    let hay = words(&["x", "y", "z"]);
    for key in [words(&["y"]), words(&["y", "z"]), words(&["z", "y"]), words(&["q"])] {
        let n = count_token_matches(&hay, &key);
        let f = first_token_match(&hay, &key);
        assert_eq!(n > 0, f.is_some());
    }
}

#[test]
fn joined_range_concatenates() {
    let t = words(&["워드", "프레스", "를"]);
    assert_eq!(join_range(&t, 0, 2), "워드프레스");
    assert_eq!(join_range(&t, 1, 1), "");
}

#[test]
fn contains_response_counts_readme_example() {
    let hay = words(&[
        "워드프레스", "를", "사용", ".", "워드프레스", "의", "장점", ".", "워드프레스", "가", "인기", ".",
    ]);
    let key = words(&["워드프레스"]);
    let r = contains_response(&hay, &key);
    assert_eq!(r.count, 3);
    assert_eq!(r.matches, words(&["워드프레스", "워드프레스", "워드프레스"]));
    assert_eq!(r.engine, "lindera");
}

#[test]
fn contains_response_joins_multi_morpheme_keys() {
    let hay = words(&["사용", "하", "면", "사용", "자"]);
    let key = words(&["사용", "하"]);
    let r = contains_response(&hay, &key);
    assert_eq!(r.count, 1);
    assert_eq!(r.matches, words(&["사용하"]));
}

#[test]
fn tokenize_response_tags_and_nouns() {
    let ms = vec![
        morpheme("워드프레스", Some("NNP")),
        morpheme("를", Some("JKO")),
        morpheme("사용", Some("NNG")),
        morpheme("하", Some("XSV")),
        morpheme("면", Some("EC")),
        morpheme("그", Some("NP")),
        morpheme("셋", Some("NR")),
        morpheme("뭐", None),
    ];
    let r = tokenize_response(&ms);
    let pos: Vec<&str> = r.tokens.iter().map(|t| t.pos.as_str()).collect();
    assert_eq!(pos, vec!["NNP", "JKO", "NNG", "XSV", "EC", "NP", "NR", "UNK"]);
    let surfaces: Vec<&str> = r.tokens.iter().map(|t| t.surface.as_str()).collect();
    assert_eq!(surfaces, vec!["워드프레스", "를", "사용", "하", "면", "그", "셋", "뭐"]);
    assert_eq!(r.nouns, words(&["워드프레스", "사용", "그", "셋"]));
    assert_eq!(r.engine, "lindera");
}

#[test]
fn noun_tags() {
    assert!(is_noun("NNG"));
    assert!(is_noun("NNP"));
    assert!(is_noun("NNB"));
    assert!(is_noun("NP"));
    assert!(is_noun("NR"));
    assert!(!is_noun("N"));
    assert!(!is_noun("NPX"));
    assert!(!is_noun("JKO"));
    assert!(!is_noun("UNK"));
    assert!(!is_noun(""));
}
