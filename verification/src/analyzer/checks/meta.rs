//! Meta-description checks: length and keyword at the start.

use vstd::prelude::*;
use crate::analyzer::ctx::Ctx;
use crate::analyzer::helpers::{lowercased, to_lowercase};
use crate::analyzer::types::{check_view, mk, views, Check, CheckView, Status};
use crate::text::{chars_of, decimal, has_prefix, starts_with_chars, with_number};

verus! {

/// The meta-description-length check for a description of `len` characters.
pub open spec fn meta_description_length_check(len: nat) -> CheckView {
    let id = "meta_description_length"@;
    let label = "메타 설명"@;
    if len == 0 {
        check_view(id, label, Status::Warning, "메타 설명이 비어 있습니다. 80~155자 권장."@, 10)
    } else if len < 40 {
        check_view(id, label, Status::Fail, "메타 설명이 너무 짧습니다 ("@ + decimal(len) + "자)."@, 10)
    } else if len > 200 {
        check_view(id, label, Status::Warning, "메타 설명이 너무 깁니다 ("@ + decimal(len) + "자). 검색 결과에서 잘립니다."@, 10)
    } else if len < 80 || len > 155 {
        check_view(id, label, Status::Warning, "메타 설명 길이가 이상적이지 않습니다 ("@ + decimal(len) + "자). 80~155자 권장."@, 10)
    } else {
        check_view(id, label, Status::Pass, "메타 설명이 적절합니다 ("@ + decimal(len) + "자)."@, 10)
    }
}

/// The meta-starts-with-keyword check.
pub open spec fn meta_starts_with_keyword_check(ctx: Ctx) -> CheckView {
    let id = "meta_starts_with_keyword"@;
    let label = "메타 시작 키워드"@;
    if ctx.focus_keyword@.len() == 0 {
        check_view(id, label, Status::Na, Seq::empty(), 5)
    } else if ctx.meta_description@.len() == 0 {
        check_view(id, label, Status::Warning, "메타 설명이 비어 있습니다."@, 5)
    } else if has_prefix(lowercased(ctx.meta_description@), lowercased(ctx.focus_keyword@)) {
        check_view(id, label, Status::Pass, "메타 설명이 키워드로 시작합니다."@, 5)
    } else {
        check_view(id, label, Status::Warning, "메타 설명을 키워드로 시작하면 클릭률이 올라갑니다."@, 5)
    }
}

/// The meta checks, in order.
pub open spec fn meta_checks(ctx: Ctx) -> Seq<CheckView> {
    seq![
        meta_description_length_check(ctx.meta_description_length as nat),
        meta_starts_with_keyword_check(ctx),
    ]
}

/// Runs the meta checks.
pub fn run(ctx: &Ctx) -> (r: Vec<Check>)
    ensures
        views(r@) == meta_checks(*ctx),
{
    let a = meta_description_length(ctx);
    let b = meta_starts_with_keyword(ctx);
    let r = vec![a, b];
    assert(views(r@) =~= meta_checks(*ctx));
    r
}

/// Whether the meta description starts with the focus keyword, ignoring case.
pub fn meta_starts_with_keyword(ctx: &Ctx) -> (c: Check)
    ensures
        c@ == meta_starts_with_keyword_check(*ctx),
{
    let id = "meta_starts_with_keyword";
    let label = "메타 시작 키워드";
    if ctx.focus_keyword.as_str().unicode_len() == 0 {
        return mk(id, label, Status::Na, String::new(), 5);
    }
    if ctx.meta_description.as_str().unicode_len() == 0 {
        return mk(id, label, Status::Warning, String::from_str("메타 설명이 비어 있습니다."), 5);
    }
    let meta_l = to_lowercase(ctx.meta_description.as_str());
    let kw_l = to_lowercase(ctx.focus_keyword.as_str());
    if starts_with_chars(&chars_of(meta_l.as_str()), &chars_of(kw_l.as_str())) {
        mk(id, label, Status::Pass, String::from_str("메타 설명이 키워드로 시작합니다."), 5)
    } else {
        mk(id, label, Status::Warning, String::from_str("메타 설명을 키워드로 시작하면 클릭률이 올라갑니다."), 5)
    }
}

/// The meta-description-length check.
pub fn meta_description_length(ctx: &Ctx) -> (c: Check)
    ensures
        c@ == meta_description_length_check(ctx.meta_description_length as nat),
{
    let len = ctx.meta_description_length;
    let n = len as u128;
    let id = "meta_description_length";
    let label = "메타 설명";
    if len == 0 {
        return mk(id, label, Status::Warning, String::from_str("메타 설명이 비어 있습니다. 80~155자 권장."), 10);
    }
    if len < 40 {
        return mk(id, label, Status::Fail, with_number("메타 설명이 너무 짧습니다 (", n, "자)."), 10);
    }
    if len > 200 {
        return mk(id, label, Status::Warning, with_number("메타 설명이 너무 깁니다 (", n, "자). 검색 결과에서 잘립니다."), 10);
    }
    if len < 80 || len > 155 {
        return mk(id, label, Status::Warning, with_number("메타 설명 길이가 이상적이지 않습니다 (", n, "자). 80~155자 권장."), 10);
    }
    mk(id, label, Status::Pass, with_number("메타 설명이 적절합니다 (", n, "자)."), 10)
}

} // verus!
