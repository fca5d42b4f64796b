//! Focus-keyword distribution checks: is the keyword set, and where and how
//! often does it appear.

use vstd::prelude::*;
use crate::analyzer::ctx::Ctx;
use crate::analyzer::helpers::{
    keyword_count, keyword_occurrences, lowercased, regex_capture_pairs, regex_captures,
    regex_find_all, regex_match_texts, strip_html, stripped_text, to_lowercase, H2_INNER,
    NON_ASCII,
};
use crate::analyzer::keyword::KeywordCounter;
use crate::analyzer::types::{check_view, mk, views, Check, CheckView, Status};
use crate::text::{
    chars_of, contains_chars, decimal, fixed2, has_infix, percent_fixed2, with_number,
};

verus! {

/// The focus-keyword-present check.
pub open spec fn focus_keyword_present_check(ctx: Ctx) -> CheckView {
    let id = "focus_keyword_present"@;
    let label = "포커스 키워드 설정"@;
    if ctx.focus_keyword@.len() == 0 {
        check_view(id, label, Status::Fail, "포커스 키워드를 입력해 주세요."@, 5)
    } else {
        check_view(id, label, Status::Pass, "포커스 키워드: "@ + ctx.focus_keyword@, 5)
    }
}

/// The keyword-in-title check, given `n` keyword occurrences in the title.
pub open spec fn focus_keyword_in_title_given(ctx: Ctx, n: nat) -> CheckView {
    let id = "focus_keyword_in_title"@;
    let label = "제목에 포커스 키워드"@;
    if ctx.focus_keyword@.len() == 0 {
        check_view(id, label, Status::Na, Seq::empty(), 10)
    } else if n > 0 {
        check_view(id, label, Status::Pass, "제목에 포커스 키워드가 포함되어 있습니다."@, 10)
    } else {
        check_view(id, label, Status::Fail, "제목에 포커스 키워드가 없습니다."@, 10)
    }
}

/// The first 200 characters of the visible text.
pub open spec fn opening_text(ctx: Ctx) -> Seq<char> {
    if ctx.content_text@.len() <= 200 {
        ctx.content_text@
    } else {
        ctx.content_text@.take(200)
    }
}

/// The keyword-in-first-paragraph check, given `n` occurrences in the first
/// 200 characters.
pub open spec fn focus_keyword_in_first_paragraph_given(ctx: Ctx, n: nat) -> CheckView {
    let id = "focus_keyword_in_first_paragraph"@;
    let label = "첫 단락에 포커스 키워드"@;
    if ctx.focus_keyword@.len() == 0 {
        check_view(id, label, Status::Na, Seq::empty(), 10)
    } else if n > 0 {
        check_view(id, label, Status::Pass, "첫 단락에 포커스 키워드가 등장합니다."@, 10)
    } else {
        check_view(id, label, Status::Warning, "첫 200자 안에 포커스 키워드가 없습니다."@, 10)
    }
}

/// The keyword-in-content check, given `n` occurrences in the visible text.
pub open spec fn focus_keyword_in_content_given(ctx: Ctx, n: nat) -> CheckView {
    let id = "focus_keyword_in_content"@;
    let label = "본문에 포커스 키워드"@;
    if ctx.focus_keyword@.len() == 0 {
        check_view(id, label, Status::Na, Seq::empty(), 10)
    } else if n == 0 {
        check_view(id, label, Status::Fail, "본문에 포커스 키워드가 없습니다."@, 10)
    } else if n >= 2 {
        check_view(id, label, Status::Pass, "본문에 포커스 키워드가 "@ + decimal(n) + "회 등장합니다."@, 10)
    } else {
        check_view(id, label, Status::Warning, "본문에 포커스 키워드가 1회만 등장합니다."@, 10)
    }
}

/// The keyword-density check, given `n` occurrences in the visible text. The
/// density is `n` times the keyword's length in characters, as a percentage
/// of the text's length: above 4% fails, above 2.5% warns, from 0.5% passes,
/// below that warns.
pub open spec fn keyword_density_given(ctx: Ctx, n: nat) -> CheckView {
    let id = "keyword_density"@;
    let label = "키워드 밀도"@;
    let len = ctx.content_length as nat;
    let x = n * ctx.focus_keyword@.len();
    let d = fixed2(100 * x, len);
    if ctx.focus_keyword@.len() == 0 {
        check_view(id, label, Status::Na, Seq::empty(), 5)
    } else if len == 0 {
        check_view(id, label, Status::Na, "본문이 비어 있습니다."@, 5)
    } else if n == 0 {
        check_view(id, label, Status::Fail, "본문에 키워드가 없습니다."@, 5)
    } else if 25 * x > len {
        check_view(id, label, Status::Fail, "키워드 밀도가 너무 높습니다 ("@ + d + "%). 키워드 스터핑으로 보일 수 있습니다."@, 5)
    } else if 40 * x > len {
        check_view(id, label, Status::Warning, "키워드 밀도가 다소 높습니다 ("@ + d + "%). 0.5~2.5% 권장."@, 5)
    } else if 200 * x >= len {
        check_view(id, label, Status::Pass, "키워드 밀도가 적절합니다 ("@ + d + "%)."@, 5)
    } else {
        check_view(id, label, Status::Warning, "키워드 밀도가 낮습니다 ("@ + d + "%). 0.5~2.5% 권장."@, 5)
    }
}

/// The keyword-in-meta-description check, given `n` occurrences there.
pub open spec fn keyword_in_meta_description_given(ctx: Ctx, n: nat) -> CheckView {
    let id = "keyword_in_meta_description"@;
    let label = "메타 설명에 키워드"@;
    if ctx.focus_keyword@.len() == 0 {
        check_view(id, label, Status::Na, Seq::empty(), 5)
    } else if ctx.meta_description_length == 0 {
        check_view(id, label, Status::Warning, "메타 설명이 비어 있습니다."@, 5)
    } else if n > 0 {
        check_view(id, label, Status::Pass, "메타 설명에 키워드가 포함되어 있습니다."@, 5)
    } else {
        check_view(id, label, Status::Warning, "메타 설명에 키워드가 없습니다."@, 5)
    }
}

/// The visible text of every `<h2>` element of `html`, in order.
pub open spec fn heading_texts(html: Seq<char>) -> Seq<Seq<char>> {
    regex_capture_pairs(H2_INNER@, html).map_values(|p: (Seq<char>, Seq<char>)| stripped_text(p.1))
}

/// The visible text of every `<h2>` element of the content, in order.
pub open spec fn h2_texts(ctx: Ctx) -> Seq<Seq<char>> {
    heading_texts(ctx.content_html@)
}

/// The keyword-in-H2 check, given that `hits` of the headings contain the
/// keyword.
pub open spec fn keyword_in_h2_given(ctx: Ctx, hits: nat) -> CheckView {
    let id = "keyword_in_h2"@;
    let label = "H2에 키워드"@;
    if ctx.focus_keyword@.len() == 0 {
        check_view(id, label, Status::Na, Seq::empty(), 5)
    } else if h2_texts(ctx).len() == 0 {
        check_view(id, label, Status::Na, "H2 헤딩이 없습니다."@, 5)
    } else if hits > 0 {
        check_view(id, label, Status::Pass, decimal(hits) + "개 H2에 키워드가 포함되어 있습니다."@, 5)
    } else {
        check_view(id, label, Status::Warning, "어떤 H2에도 키워드가 없습니다."@, 5)
    }
}

/// How many of `texts` contain the keyword by the particle-aware pattern.
pub open spec fn texts_with_keyword(texts: Seq<Seq<char>>, keyword: Seq<char>) -> nat
    decreases texts.len(),
{
    if texts.len() == 0 {
        0
    } else {
        texts_with_keyword(texts.drop_last(), keyword) + if keyword_occurrences(
            texts.last(),
            keyword,
        ) > 0 {
            1nat
        } else {
            0nat
        }
    }
}

/// The keyword-in-slug check. Keywords with non-ASCII characters cannot be
/// compared with an ASCII slug and report `Na`.
pub open spec fn keyword_in_slug_check(ctx: Ctx) -> CheckView {
    let id = "keyword_in_slug"@;
    let label = "슬러그에 키워드"@;
    if ctx.focus_keyword@.len() == 0 {
        check_view(id, label, Status::Na, Seq::empty(), 5)
    } else if ctx.slug@.len() == 0 {
        check_view(id, label, Status::Warning, "슬러그가 비어 있습니다."@, 5)
    } else if regex_match_texts(NON_ASCII@, ctx.focus_keyword@).len() > 0 {
        check_view(id, label, Status::Na, "한국어 키워드는 영문 슬러그와 직접 비교가 어렵습니다."@, 5)
    } else if has_infix(lowercased(ctx.slug@), lowercased(ctx.focus_keyword@)) {
        check_view(id, label, Status::Pass, "슬러그에 키워드가 포함되어 있습니다."@, 5)
    } else {
        check_view(id, label, Status::Warning, "슬러그에 키워드가 포함되어 있지 않습니다."@, 5)
    }
}

/// The keyword checks in order, given the counts the keyword matcher gave:
/// in the title, in the first 200 characters, in the text (twice: once for
/// the content check, once for the density check), in the meta description,
/// and the number of headings that contain the keyword.
pub open spec fn keyword_checks(
    ctx: Ctx,
    title: nat,
    opening: nat,
    content: nat,
    density: nat,
    meta: nat,
    h2_hits: nat,
) -> Seq<CheckView> {
    seq![
        focus_keyword_present_check(ctx),
        focus_keyword_in_title_given(ctx, title),
        focus_keyword_in_first_paragraph_given(ctx, opening),
        focus_keyword_in_content_given(ctx, content),
        keyword_density_given(ctx, density),
        keyword_in_meta_description_given(ctx, meta),
        keyword_in_h2_given(ctx, h2_hits),
        keyword_in_slug_check(ctx),
    ]
}

/// How many of `texts` the counter finds the keyword in.
pub open spec fn texts_counted<C: KeywordCounter>(counter: C, texts: Seq<Seq<char>>, keyword: Seq<char>) -> nat
    decreases texts.len(),
{
    if texts.len() == 0 {
        0
    } else {
        texts_counted(counter, texts.drop_last(), keyword) + if counter.counted(
            texts.last(),
            keyword,
        ) > 0 {
            1nat
        } else {
            0nat
        }
    }
}

/// The keyword checks with the counts the given matcher reports: in the
/// title, in the first 200 characters, in the visible text (for the content
/// and the density checks), in the meta description, and over the headings.
pub open spec fn keyword_checks_with<C: KeywordCounter>(ctx: Ctx, counter: C) -> Seq<CheckView> {
    let kw = ctx.focus_keyword@;
    keyword_checks(
        ctx,
        counter.counted(ctx.title@, kw),
        counter.counted(opening_text(ctx), kw),
        counter.counted(ctx.content_text@, kw),
        counter.counted(ctx.content_text@, kw),
        counter.counted(ctx.meta_description@, kw),
        texts_counted(counter, h2_texts(ctx), kw),
    )
}

/// Without a focus keyword the presence check fails and every other keyword
/// check is `Na`, whatever the matcher reports.
pub proof fn lemma_no_keyword_checks(
    ctx: Ctx,
    title: nat,
    opening: nat,
    content: nat,
    density: nat,
    meta: nat,
    h2_hits: nat,
)
    requires
        ctx.focus_keyword@.len() == 0,
    ensures
        keyword_checks(ctx, title, opening, content, density, meta, h2_hits)[0].status == Status::Fail,
        forall|i: int| 1 <= i < keyword_checks(ctx, title, opening, content, density, meta, h2_hits).len()
            ==> #[trigger] keyword_checks(ctx, title, opening, content, density, meta, h2_hits)[i].status == Status::Na,
{
    let ks = keyword_checks(ctx, title, opening, content, density, meta, h2_hits);
    assert forall|i: int| 1 <= i < ks.len() implies #[trigger] ks[i].status == Status::Na by {
        assert(ks[1].status == Status::Na);
        assert(ks[2].status == Status::Na);
        assert(ks[3].status == Status::Na);
        assert(ks[4].status == Status::Na);
        assert(ks[5].status == Status::Na);
        assert(ks[6].status == Status::Na);
        assert(ks[7].status == Status::Na);
    }
}

/// Runs the keyword checks with the given matcher.
pub fn run<C: KeywordCounter>(ctx: &Ctx, counter: &C) -> (r: Vec<Check>)
    requires
        ctx.wf(),
    ensures
        views(r@) == keyword_checks_with(*ctx, *counter),
{
    let a = focus_keyword_present(ctx);
    let b = focus_keyword_in_title(ctx, counter);
    let c = focus_keyword_in_first_paragraph(ctx, counter);
    let d = focus_keyword_in_content(ctx, counter);
    let e = keyword_density(ctx, counter);
    let f = keyword_in_meta_description(ctx, counter);
    let g = keyword_in_h2(ctx, counter);
    let h = keyword_in_slug(ctx);
    let r = vec![a, b, c, d, e, f, g, h];
    assert(views(r@) =~= keyword_checks_with(*ctx, *counter));
    r
}

/// Whether a focus keyword is set.
pub fn focus_keyword_present(ctx: &Ctx) -> (c: Check)
    ensures
        c@ == focus_keyword_present_check(*ctx),
{
    if ctx.focus_keyword.as_str().unicode_len() == 0 {
        mk(
            "focus_keyword_present",
            "포커스 키워드 설정",
            Status::Fail,
            String::from_str("포커스 키워드를 입력해 주세요."),
            5,
        )
    } else {
        let mut msg = String::from_str("포커스 키워드: ");
        msg.append(ctx.focus_keyword.as_str());
        mk("focus_keyword_present", "포커스 키워드 설정", Status::Pass, msg, 5)
    }
}

/// The keyword-in-title check for a given occurrence count.
pub fn focus_keyword_in_title_from(ctx: &Ctx, n: usize) -> (c: Check)
    ensures
        c@ == focus_keyword_in_title_given(*ctx, n as nat),
{
    let id = "focus_keyword_in_title";
    let label = "제목에 포커스 키워드";
    if ctx.focus_keyword.as_str().unicode_len() == 0 {
        mk(id, label, Status::Na, String::new(), 10)
    } else if n > 0 {
        mk(id, label, Status::Pass, String::from_str("제목에 포커스 키워드가 포함되어 있습니다."), 10)
    } else {
        mk(id, label, Status::Fail, String::from_str("제목에 포커스 키워드가 없습니다."), 10)
    }
}

/// Whether the title contains the focus keyword.
pub fn focus_keyword_in_title<C: KeywordCounter>(ctx: &Ctx, counter: &C) -> (c: Check)
    ensures
        c@ == focus_keyword_in_title_given(*ctx, counter.counted(ctx.title@, ctx.focus_keyword@)),
{
    if ctx.focus_keyword.as_str().unicode_len() == 0 {
        return focus_keyword_in_title_from(ctx, 0);
    }
    let n = counter.count(ctx.title.as_str(), ctx.focus_keyword.as_str());
    focus_keyword_in_title_from(ctx, n)
}

/// The first 200 characters of the visible text.
pub fn opening_slice(ctx: &Ctx) -> (s: String)
    requires
        ctx.wf(),
    ensures
        s@ == opening_text(*ctx),
{
    let n = if ctx.content_length <= 200 {
        ctx.content_length
    } else {
        200
    };
    String::from_str(ctx.content_text.as_str().substring_char(0, n))
}

/// The keyword-in-first-paragraph check for a given occurrence count.
pub fn focus_keyword_in_first_paragraph_from(ctx: &Ctx, n: usize) -> (c: Check)
    ensures
        c@ == focus_keyword_in_first_paragraph_given(*ctx, n as nat),
{
    let id = "focus_keyword_in_first_paragraph";
    let label = "첫 단락에 포커스 키워드";
    if ctx.focus_keyword.as_str().unicode_len() == 0 {
        mk(id, label, Status::Na, String::new(), 10)
    } else if n > 0 {
        mk(id, label, Status::Pass, String::from_str("첫 단락에 포커스 키워드가 등장합니다."), 10)
    } else {
        mk(id, label, Status::Warning, String::from_str("첫 200자 안에 포커스 키워드가 없습니다."), 10)
    }
}

/// Whether the keyword appears in the first 200 characters of the text.
pub fn focus_keyword_in_first_paragraph<C: KeywordCounter>(ctx: &Ctx, counter: &C) -> (c: Check)
    requires
        ctx.wf(),
    ensures
        c@ == focus_keyword_in_first_paragraph_given(
            *ctx,
            counter.counted(opening_text(*ctx), ctx.focus_keyword@),
        ),
{
    if ctx.focus_keyword.as_str().unicode_len() == 0 {
        return focus_keyword_in_first_paragraph_from(ctx, 0);
    }
    let first = opening_slice(ctx);
    let n = counter.count(first.as_str(), ctx.focus_keyword.as_str());
    focus_keyword_in_first_paragraph_from(ctx, n)
}

/// The keyword-in-content check for a given occurrence count.
pub fn focus_keyword_in_content_from(ctx: &Ctx, n: usize) -> (c: Check)
    ensures
        c@ == focus_keyword_in_content_given(*ctx, n as nat),
{
    let id = "focus_keyword_in_content";
    let label = "본문에 포커스 키워드";
    if ctx.focus_keyword.as_str().unicode_len() == 0 {
        mk(id, label, Status::Na, String::new(), 10)
    } else if n == 0 {
        mk(id, label, Status::Fail, String::from_str("본문에 포커스 키워드가 없습니다."), 10)
    } else if n >= 2 {
        mk(id, label, Status::Pass, with_number("본문에 포커스 키워드가 ", n as u128, "회 등장합니다."), 10)
    } else {
        mk(id, label, Status::Warning, String::from_str("본문에 포커스 키워드가 1회만 등장합니다."), 10)
    }
}

/// How often the keyword appears in the visible text.
pub fn focus_keyword_in_content<C: KeywordCounter>(ctx: &Ctx, counter: &C) -> (c: Check)
    ensures
        c@ == focus_keyword_in_content_given(*ctx, counter.counted(ctx.content_text@, ctx.focus_keyword@)),
{
    if ctx.focus_keyword.as_str().unicode_len() == 0 {
        return focus_keyword_in_content_from(ctx, 0);
    }
    let n = counter.count(ctx.content_text.as_str(), ctx.focus_keyword.as_str());
    focus_keyword_in_content_from(ctx, n)
}

proof fn lemma_density_thresholds(x: nat, len: nat)
    ensures
        (25 * x > len) == (x > len / 25),
        (40 * x > len) == (x > len / 40),
        (200 * x >= len) == (x >= (len + 199) / 200),
{
    assert((25 * x > len) == (x > len / 25)) by (nonlinear_arith);
    assert((40 * x > len) == (x > len / 40)) by (nonlinear_arith);
    assert((200 * x >= len) == (x >= (len + 199) / 200)) by (nonlinear_arith);
}

/// The keyword-density check for a given occurrence count.
pub fn keyword_density_from(ctx: &Ctx, n: usize) -> (c: Check)
    ensures
        c@ == keyword_density_given(*ctx, n as nat),
{
    let id = "keyword_density";
    let label = "키워드 밀도";
    let kw_chars = ctx.focus_keyword.as_str().unicode_len();
    if kw_chars == 0 {
        return mk(id, label, Status::Na, String::new(), 5);
    }
    if ctx.content_length == 0 {
        return mk(id, label, Status::Na, String::from_str("본문이 비어 있습니다."), 5);
    }
    let len = ctx.content_length as u128;
    proof {
        assert(n as nat * kw_chars as nat <= 0xffff_ffff_ffff_ffff * 0xffff_ffff_ffff_ffffnat) by (nonlinear_arith)
            requires n <= 0xffff_ffff_ffff_ffffnat, kw_chars <= 0xffff_ffff_ffff_ffffnat;
    }
    let x = (n as u128) * (kw_chars as u128);
    proof {
        lemma_density_thresholds(x as nat, len as nat);
        assert(100 * x as nat == 100 * (n as nat * ctx.focus_keyword@.len()));
    }
    let d = percent_fixed2(x, len);
    if n == 0 {
        mk(id, label, Status::Fail, String::from_str("본문에 키워드가 없습니다."), 5)
    } else if x > len / 25 {
        let mut msg = String::from_str("키워드 밀도가 너무 높습니다 (");
        msg.append(d.as_str());
        msg.append("%). 키워드 스터핑으로 보일 수 있습니다.");
        mk(id, label, Status::Fail, msg, 5)
    } else if x > len / 40 {
        let mut msg = String::from_str("키워드 밀도가 다소 높습니다 (");
        msg.append(d.as_str());
        msg.append("%). 0.5~2.5% 권장.");
        mk(id, label, Status::Warning, msg, 5)
    } else if x >= (len + 199) / 200 {
        let mut msg = String::from_str("키워드 밀도가 적절합니다 (");
        msg.append(d.as_str());
        msg.append("%).");
        mk(id, label, Status::Pass, msg, 5)
    } else {
        let mut msg = String::from_str("키워드 밀도가 낮습니다 (");
        msg.append(d.as_str());
        msg.append("%). 0.5~2.5% 권장.");
        mk(id, label, Status::Warning, msg, 5)
    }
}

/// Keyword density in the visible text.
pub fn keyword_density<C: KeywordCounter>(ctx: &Ctx, counter: &C) -> (c: Check)
    ensures
        c@ == keyword_density_given(*ctx, counter.counted(ctx.content_text@, ctx.focus_keyword@)),
{
    if ctx.focus_keyword.as_str().unicode_len() == 0 || ctx.content_length == 0 {
        return keyword_density_from(ctx, 0);
    }
    let n = counter.count(ctx.content_text.as_str(), ctx.focus_keyword.as_str());
    keyword_density_from(ctx, n)
}

/// The keyword-in-meta-description check for a given occurrence count.
pub fn keyword_in_meta_description_from(ctx: &Ctx, n: usize) -> (c: Check)
    ensures
        c@ == keyword_in_meta_description_given(*ctx, n as nat),
{
    let id = "keyword_in_meta_description";
    let label = "메타 설명에 키워드";
    if ctx.focus_keyword.as_str().unicode_len() == 0 {
        mk(id, label, Status::Na, String::new(), 5)
    } else if ctx.meta_description_length == 0 {
        mk(id, label, Status::Warning, String::from_str("메타 설명이 비어 있습니다."), 5)
    } else if n > 0 {
        mk(id, label, Status::Pass, String::from_str("메타 설명에 키워드가 포함되어 있습니다."), 5)
    } else {
        mk(id, label, Status::Warning, String::from_str("메타 설명에 키워드가 없습니다."), 5)
    }
}

/// Whether the meta description contains the keyword.
pub fn keyword_in_meta_description<C: KeywordCounter>(ctx: &Ctx, counter: &C) -> (c: Check)
    ensures
        c@ == keyword_in_meta_description_given(
            *ctx,
            counter.counted(ctx.meta_description@, ctx.focus_keyword@),
        ),
{
    if ctx.focus_keyword.as_str().unicode_len() == 0 || ctx.meta_description_length == 0 {
        return keyword_in_meta_description_from(ctx, 0);
    }
    let n = counter.count(ctx.meta_description.as_str(), ctx.focus_keyword.as_str());
    keyword_in_meta_description_from(ctx, n)
}

/// The keyword-in-H2 check for a given number of headings with the keyword.
pub fn keyword_in_h2_from(ctx: &Ctx, headings: usize, hits: usize) -> (c: Check)
    requires
        headings == h2_texts(*ctx).len(),
    ensures
        c@ == keyword_in_h2_given(*ctx, hits as nat),
{
    let id = "keyword_in_h2";
    let label = "H2에 키워드";
    if ctx.focus_keyword.as_str().unicode_len() == 0 {
        mk(id, label, Status::Na, String::new(), 5)
    } else if headings == 0 {
        mk(id, label, Status::Na, String::from_str("H2 헤딩이 없습니다."), 5)
    } else if hits > 0 {
        let mut msg = crate::text::decimal_string(hits as u128);
        msg.append("개 H2에 키워드가 포함되어 있습니다.");
        mk(id, label, Status::Pass, msg, 5)
    } else {
        mk(id, label, Status::Warning, String::from_str("어떤 H2에도 키워드가 없습니다."), 5)
    }
}

/// Whether any `<h2>` heading contains the keyword.
pub fn keyword_in_h2<C: KeywordCounter>(ctx: &Ctx, counter: &C) -> (c: Check)
    ensures
        c@ == keyword_in_h2_given(*ctx, texts_counted(*counter, h2_texts(*ctx), ctx.focus_keyword@)),
{
    let caps = regex_captures(H2_INNER, ctx.content_html.as_str());
    let ghost texts = h2_texts(*ctx);
    let ghost kw = ctx.focus_keyword@;
    proof {
        assert(texts.len() == caps.len()) by {
            assert(caps.deep_view().len() == caps.len());
        }
    }
    if ctx.focus_keyword.as_str().unicode_len() == 0 {
        return keyword_in_h2_from(ctx, caps.len(), 0);
    }
    let mut hits: usize = 0;
    let mut i: usize = 0;
    while i < caps.len()
        invariant
            caps.deep_view() == regex_capture_pairs(H2_INNER@, ctx.content_html@),
            texts == h2_texts(*ctx),
            kw == ctx.focus_keyword@,
            texts.len() == caps.len(),
            i <= caps.len(),
            hits == texts_counted(*counter, texts.take(i as int), kw),
            hits <= i,
        decreases caps.len() - i,
    {
        assert(texts[i as int] == stripped_text(caps@[i as int].1@)) by {
            assert(caps.deep_view()[i as int] == caps@[i as int].deep_view());
        }
        assert(texts.take(i + 1).drop_last() =~= texts.take(i as int));
        let heading = strip_html(caps[i].1.as_str());
        if counter.count(heading.as_str(), ctx.focus_keyword.as_str()) > 0 {
            hits = hits + 1;
        }
        i = i + 1;
    }
    assert(texts.take(caps.len() as int) =~= texts);
    keyword_in_h2_from(ctx, caps.len(), hits)
}

/// How many `<h2>` headings of `html` contain `keyword` by the
/// particle-aware pattern.
fn headings_with_keyword(html: &str, keyword: &str) -> (hits: usize)
    ensures
        hits == texts_with_keyword(heading_texts(html@), keyword@),
{
    let caps = regex_captures(H2_INNER, html);
    let ghost texts = heading_texts(html@);
    let mut hits: usize = 0;
    let mut i: usize = 0;
    while i < caps.len()
        invariant
            caps.deep_view() == regex_capture_pairs(H2_INNER@, html@),
            texts == heading_texts(html@),
            texts.len() == caps.len(),
            i <= caps.len(),
            hits == texts_with_keyword(texts.take(i as int), keyword@),
            hits <= i,
        decreases caps.len() - i,
    {
        assert(texts[i as int] == stripped_text(caps@[i as int].1@)) by {
            assert(caps.deep_view()[i as int] == caps@[i as int].deep_view());
        }
        assert(texts.take(i + 1).drop_last() =~= texts.take(i as int));
        let heading = strip_html(caps[i].1.as_str());
        if keyword_count(heading.as_str(), keyword) > 0 {
            hits = hits + 1;
        }
        i = i + 1;
    }
    assert(texts.take(caps.len() as int) =~= texts);
    hits
}

/// The keyword-in-H2 check with the particle-aware regex matcher.
pub fn keyword_in_h2_by_regex(ctx: &Ctx) -> (c: Check)
    ensures
        c@ == keyword_in_h2_given(*ctx, texts_with_keyword(h2_texts(*ctx), ctx.focus_keyword@)),
{
    let caps = regex_captures(H2_INNER, ctx.content_html.as_str());
    let hits = headings_with_keyword(ctx.content_html.as_str(), ctx.focus_keyword.as_str());
    keyword_in_h2_from(ctx, caps.len(), hits)
}

/// Whether the slug contains the (ASCII) keyword, ignoring case.
pub fn keyword_in_slug(ctx: &Ctx) -> (c: Check)
    ensures
        c@ == keyword_in_slug_check(*ctx),
{
    let id = "keyword_in_slug";
    let label = "슬러그에 키워드";
    if ctx.focus_keyword.as_str().unicode_len() == 0 {
        return mk(id, label, Status::Na, String::new(), 5);
    }
    if ctx.slug.as_str().unicode_len() == 0 {
        return mk(id, label, Status::Warning, String::from_str("슬러그가 비어 있습니다."), 5);
    }
    if regex_find_all(NON_ASCII, ctx.focus_keyword.as_str()).len() > 0 {
        return mk(
            id,
            label,
            Status::Na,
            String::from_str("한국어 키워드는 영문 슬러그와 직접 비교가 어렵습니다."),
            5,
        );
    }
    let slug_l = to_lowercase(ctx.slug.as_str());
    let kw_l = to_lowercase(ctx.focus_keyword.as_str());
    if contains_chars(&chars_of(slug_l.as_str()), &chars_of(kw_l.as_str())) {
        mk(id, label, Status::Pass, String::from_str("슬러그에 키워드가 포함되어 있습니다."), 5)
    } else {
        mk(id, label, Status::Warning, String::from_str("슬러그에 키워드가 포함되어 있지 않습니다."), 5)
    }
}

/// With a focus keyword set, the content check fails only when the keyword
/// does not occur; a single occurrence warns and two or more pass.
pub proof fn lemma_content_check_by_occurrences(ctx: Ctx, n: nat)
    requires
        ctx.focus_keyword@.len() > 0,
    ensures
        focus_keyword_in_content_given(ctx, n).status == Status::Fail <==> n == 0,
        n == 1 ==> focus_keyword_in_content_given(ctx, n).status == Status::Warning,
        n >= 2 ==> focus_keyword_in_content_given(ctx, n).status == Status::Pass,
{
}

} // verus!
