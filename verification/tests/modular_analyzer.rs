use seo_for_korean::analyzer::{analyze, AnalyzeRequest, AnalyzeResponse, Check, RegexCounter, Status};

fn req(title: &str, content: &str, slug: &str, kw: &str, meta: &str) -> AnalyzeRequest {
    AnalyzeRequest {
        title: title.into(),
        content: content.into(),
        slug: slug.into(),
        focus_keyword: kw.into(),
        meta_description: meta.into(),
    }
}

fn run(req: AnalyzeRequest) -> AnalyzeResponse {
    analyze(req, &RegexCounter)
}

fn find<'a>(r: &'a AnalyzeResponse, id: &str) -> &'a Check {
    r.checks.iter().find(|c| c.id == id).unwrap()
}

#[test]
fn mod_keyword_density_in_ideal_range_passes() {
    let filler = "한국어 본문이 충분히 길게 작성되어 있습니다. ".repeat(80);
    let kw_block = " 워드프레스 ".repeat(8);
    let content = format!("<p>{}{}</p>", filler, kw_block);
    let r = run(req("t", &content, "", "워드프레스", ""));
    let c = find(&r, "keyword_density");
    assert_eq!(c.status, Status::Pass, "got {:?}: {}", c.status, c.message);
}

#[test]
fn mod_keyword_density_excess_fails() {
    let content = format!("<p>{}</p>", "워드프레스 ".repeat(20));
    let r = run(req("t", &content, "", "워드프레스", ""));
    let c = find(&r, "keyword_density");
    assert_eq!(c.status, Status::Fail);
}

#[test]
fn mod_internal_and_outbound_links_counted_separately() {
    let html = r##"<p><a href="/about">about</a> <a href="https://example.com">ext</a> <a href="#top">anchor</a> <a href="mailto:x@y">m</a></p>"##;
    let r = run(req("t", html, "", "", ""));
    let i = find(&r, "internal_links");
    let o = find(&r, "outbound_links");
    assert_eq!(i.status, Status::Pass);
    assert!(i.message.contains("1개"));
    assert_eq!(o.status, Status::Pass);
    assert!(o.message.contains("1개"));
}

#[test]
fn mod_keyword_in_h2_passes_when_present() {
    let html = "<h2>워드프레스 입문</h2><p>본문</p><h2>설치</h2>";
    let r = run(req("t", html, "", "워드프레스", ""));
    let c = find(&r, "keyword_in_h2");
    assert_eq!(c.status, Status::Pass);
}

#[test]
fn mod_long_paragraph_warns() {
    let long = "가".repeat(600);
    let html = format!("<p>{long}</p>");
    let r = run(req("t", &html, "", "", ""));
    let c = find(&r, "paragraph_length");
    assert_eq!(c.status, Status::Warning);
}

#[test]
fn mod_well_formed_korean_post_is_at_least_good() {
    let content = "<h1>워드프레스 입문</h1>\
<p>워드프레스는 가장 널리 쓰이는 콘텐츠 관리 시스템입니다. \
워드프레스를 사용하면 누구나 쉽게 블로그나 웹사이트를 만들 수 있습니다. \
오픈소스이며 무료로 사용할 수 있고 한국어 지원도 잘 되어 있습니다. \
본 글에서는 워드프레스를 처음 접하는 분들을 위해 설치부터 운영까지 단계별로 자세히 안내합니다.</p>\
<h2>워드프레스의 장점</h2>\
<p>오픈소스이며 자유롭게 커스터마이징할 수 있습니다. 수많은 테마와 플러그인이 있어 확장성이 뛰어납니다. \
한국어 자료도 풍부해서 학습 곡선이 완만합니다. 워드프레스의 활발한 커뮤니티가 큰 강점입니다.</p>\
<h2>설치 방법</h2>\
<p>호스팅 업체에서 원클릭 설치를 제공하거나 wordpress.org에서 직접 받을 수 있습니다. \
워드프레스를 처음 다루는 분들은 원클릭 설치가 무난합니다. \
설치 후에는 기본 테마를 활성화하고 필요한 플러그인을 추가합니다.</p>\
<img src=\"d.jpg\" alt=\"워드프레스 대시보드\" />\
<p>대시보드에서 글 작성, 미디어 업로드, 댓글 관리 등 모든 작업을 할 수 있습니다. \
워드프레스는 이 단순함과 확장성을 동시에 제공한다는 점에서 매력적입니다.</p>";
    let r = run(req(
        "워드프레스 입문 가이드: 한국어 블로그를 시작하는 가장 쉬운 방법",
        content,
        "wordpress-guide-korean-blog",
        "워드프레스",
        "워드프레스로 한국어 블로그를 처음 만드는 분들을 위한 입문 가이드. 호스팅 선택부터 테마 적용, 플러그인 설치까지 단계별로 자세히 설명합니다.",
    ));
    assert!(r.score >= 65, "got {}", r.score);
    assert!(["good", "great"].contains(&r.grade));
}

#[test]
fn mod_korean_particles_caught_via_regex() {
    let r = run(req(
        "테스트",
        "<p>워드프레스를 사용하면 좋습니다. 워드프레스의 장점은 많습니다. 워드프레스가 인기있어요.</p>",
        "test",
        "워드프레스",
        "",
    ));
    let c = find(&r, "focus_keyword_in_content");
    assert_eq!(c.status, Status::Pass);
    assert!(c.message.contains("3회"), "got {}", c.message);
}

#[test]
fn mod_korean_slug_warns() {
    let r = run(req("제목입니다 적당하게", "<p>본문</p>", "한국어-슬러그", "", ""));
    let c = find(&r, "slug_quality");
    assert_eq!(c.status, Status::Warning);
}

#[test]
fn mod_h2_count_pass_at_two() {
    let r = run(req("t", "<h2>a</h2><p>b</p><h2>c</h2>", "x", "", ""));
    let c = find(&r, "h2_count");
    assert_eq!(c.status, Status::Pass);
}

#[test]
fn mod_image_alt_full_coverage_passes() {
    let r = run(req("t", "<img src=x alt=\"a\" /><img src=y alt=\"b\" />", "x", "", ""));
    let c = find(&r, "image_alt_coverage");
    assert_eq!(c.status, Status::Pass);
}

#[test]
fn modular_analyzer_reports_counter_engine() {
    let r = run(req("t", "<p>x</p>", "", "", ""));
    assert_eq!(r.engine, "regex");
}

#[test]
fn sentence_length_counts_split_sentences() {
    let long = "가".repeat(90);
    let html = format!("<p>{long}. 짧은 문장. 또 짧은 문장!</p>");
    let r = run(req("t", &html, "", "", ""));
    let c = find(&r, "sentence_length");
    assert_eq!(c.status, Status::Warning);
    assert!(c.message.contains("1/3"), "got {}", c.message);
    let r2 = run(req("t", "<p>하나. 둘. 셋.</p>", "", "", ""));
    let c2 = find(&r2, "sentence_length");
    assert_eq!(c2.status, Status::Pass);
    assert!(c2.message.contains("총 3 문장"), "got {}", c2.message);
}

#[test]
fn title_start_ignores_case() {
    let r = run(req("SEO Guide for Korean blogs", "<p>x</p>", "", "seo", ""));
    let c = find(&r, "title_starts_with_keyword");
    assert_eq!(c.status, Status::Pass);
    let r2 = run(req("A Guide to SEO", "<p>x</p>", "", "seo", ""));
    assert_eq!(find(&r2, "title_starts_with_keyword").status, Status::Warning);
}

#[test]
fn missing_keyword_leaves_keyword_checks_not_applicable() {
    let r = run(req("제목", "<p>본문</p><h2>소제목</h2>", "slug", "", "설명"));
    assert_eq!(find(&r, "focus_keyword_present").status, Status::Fail);
    for id in [
        "focus_keyword_in_title",
        "focus_keyword_in_first_paragraph",
        "focus_keyword_in_content",
        "keyword_density",
        "keyword_in_meta_description",
        "keyword_in_h2",
        "keyword_in_slug",
    ] {
        assert_eq!(find(&r, id).status, Status::Na, "{}", id);
    }
}

#[test]
fn modular_score_stays_within_bounds() {
    let r = run(req("워드프레스", "<p>워드프레스를 씁니다.</p>", "wp", "워드프레스", "워드프레스 설명"));
    assert!(r.score <= 100);
    let expected = if r.score >= 85 { "great" } else if r.score >= 65 { "good" } else if r.score >= 40 { "needs_work" } else { "poor" };
    assert_eq!(r.grade, expected);
}

#[test]
fn transition_word_needs_boundary_after() {
    let filler = "본문 문장입니다. ".repeat(30);
    let inside = format!("<p>{filler}사실상 그렇습니다.</p>");
    let r = run(req("t", &inside, "", "", ""));
    let c = find(&r, "transition_words");
    assert_eq!(c.status, Status::Warning);
    assert!(c.message.contains("없습니다"), "got {}", c.message);
    let alone = format!("<p>{filler}사실 그렇습니다. 따라서 좋습니다.</p>");
    let r2 = run(req("t", &alone, "", "", ""));
    let c2 = find(&r2, "transition_words");
    assert!(c2.message.contains("2회"), "got {}", c2.message);
}

#[test]
fn adjacent_transition_words_both_count() {
    let filler = "본문 문장입니다. ".repeat(29);
    let pair = format!("<p>{filler}그러나 따라서 좋습니다.</p>");
    let r = run(req("t", &pair, "", "", ""));
    let c = find(&r, "transition_words");
    assert_eq!(c.status, Status::Pass, "got {}", c.message);
    assert!(c.message.contains("2회, 문장의 7%"), "got {}", c.message);
    let soon = format!("<p>{filler}즉시 시작합니다.</p>");
    let r2 = run(req("t", &soon, "", "", ""));
    let c2 = find(&r2, "transition_words");
    assert!(c2.message.contains("1회"), "got {}", c2.message);
}

#[test]
fn title_position_uses_counter_first_match() {
    let r = run(req("가이드: 워드프레스를 배우자", "<p>x</p>", "", "워드프레스", ""));
    let c = find(&r, "title_keyword_position");
    assert_eq!(c.status, Status::Warning);
    assert!(c.message.contains("33%"), "got {}", c.message);
    let r2 = run(req("워드프레스 입문 가이드", "<p>x</p>", "", "워드프레스", ""));
    let c2 = find(&r2, "title_keyword_position");
    assert_eq!(c2.status, Status::Pass);
    assert!(c2.message.contains("(0%)"), "got {}", c2.message);
    let r3 = run(req("아무 관계 없는 제목", "<p>x</p>", "", "워드프레스", ""));
    assert_eq!(find(&r3, "title_keyword_position").status, Status::Fail);
}
