//! Body structure checks: length and `<h2>` count.

use vstd::prelude::*;
use crate::analyzer::ctx::Ctx;
use crate::analyzer::helpers::{regex_find_all, regex_match_texts, H2};
use crate::analyzer::types::{check_view, mk, views, Check, CheckView, Status};
use crate::text::{decimal, with_number};

verus! {

/// The content-length check for a text of `len` characters.
pub open spec fn content_length_check(len: nat) -> CheckView {
    let id = "content_length"@;
    let label = "본문 길이"@;
    if len < 100 {
        check_view(id, label, Status::Fail, "본문이 너무 짧습니다 ("@ + decimal(len) + "자). 최소 600자 권장."@, 10)
    } else if len < 300 {
        check_view(id, label, Status::Fail, "본문이 짧습니다 ("@ + decimal(len) + "자). 600자 이상 권장."@, 10)
    } else if len < 600 {
        check_view(id, label, Status::Warning, "본문이 다소 짧습니다 ("@ + decimal(len) + "자). 600자 이상 권장."@, 10)
    } else {
        check_view(id, label, Status::Pass, "본문 길이가 충분합니다 ("@ + decimal(len) + "자)."@, 10)
    }
}

/// The number of opening `<h2>` tags in `html`.
pub open spec fn h2_tag_count(html: Seq<char>) -> nat {
    regex_match_texts(H2@, html).len()
}

/// The H2-count check for `count` headings.
pub open spec fn h2_count_given(count: nat) -> CheckView {
    let id = "h2_count"@;
    let label = "H2 헤딩"@;
    if count == 0 {
        check_view(id, label, Status::Warning, "H2 헤딩이 없습니다. 글이 길다면 2개 이상 추가하세요."@, 5)
    } else if count == 1 {
        check_view(id, label, Status::Warning, "H2 헤딩이 "@ + decimal(count) + "개 있습니다. 본문이 길면 더 추가하세요."@, 5)
    } else {
        check_view(id, label, Status::Pass, "H2 헤딩이 "@ + decimal(count) + "개로 적절합니다."@, 5)
    }
}

/// The content checks, in order.
pub open spec fn content_checks(ctx: Ctx) -> Seq<CheckView> {
    seq![
        content_length_check(ctx.content_length as nat),
        h2_count_given(h2_tag_count(ctx.content_html@)),
    ]
}

/// Runs the content checks.
pub fn run(ctx: &Ctx) -> (r: Vec<Check>)
    ensures
        views(r@) == content_checks(*ctx),
{
    let a = content_length(ctx);
    let b = h2_count(ctx);
    let r = vec![a, b];
    assert(views(r@) =~= content_checks(*ctx));
    r
}

/// The content-length check.
pub fn content_length(ctx: &Ctx) -> (c: Check)
    ensures
        c@ == content_length_check(ctx.content_length as nat),
{
    let len = ctx.content_length;
    let n = len as u128;
    let id = "content_length";
    let label = "본문 길이";
    if len < 100 {
        return mk(id, label, Status::Fail, with_number("본문이 너무 짧습니다 (", n, "자). 최소 600자 권장."), 10);
    }
    if len < 300 {
        return mk(id, label, Status::Fail, with_number("본문이 짧습니다 (", n, "자). 600자 이상 권장."), 10);
    }
    if len < 600 {
        return mk(id, label, Status::Warning, with_number("본문이 다소 짧습니다 (", n, "자). 600자 이상 권장."), 10);
    }
    mk(id, label, Status::Pass, with_number("본문 길이가 충분합니다 (", n, "자)."), 10)
}

/// The H2-count check for a given number of headings.
pub fn h2_count_from(count: usize) -> (c: Check)
    ensures
        c@ == h2_count_given(count as nat),
{
    let id = "h2_count";
    let label = "H2 헤딩";
    if count == 0 {
        mk(id, label, Status::Warning, String::from_str("H2 헤딩이 없습니다. 글이 길다면 2개 이상 추가하세요."), 5)
    } else if count == 1 {
        mk(id, label, Status::Warning, with_number("H2 헤딩이 ", count as u128, "개 있습니다. 본문이 길면 더 추가하세요."), 5)
    } else {
        mk(id, label, Status::Pass, with_number("H2 헤딩이 ", count as u128, "개로 적절합니다."), 5)
    }
}

/// How many `<h2>` headings the content has.
pub fn h2_count(ctx: &Ctx) -> (c: Check)
    ensures
        c@ == h2_count_given(h2_tag_count(ctx.content_html@)),
{
    let count = regex_find_all(H2, ctx.content_html.as_str()).len();
    h2_count_from(count)
}

} // verus!
