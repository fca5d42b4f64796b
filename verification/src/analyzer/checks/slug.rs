//! URL slug checks: quality, separators, length.

use vstd::prelude::*;
use vstd::string::StringSliceAdditionalSpecFns;
use crate::analyzer::ctx::Ctx;
use crate::analyzer::helpers::{regex_find_all, regex_match_texts, NON_ASCII};
use crate::analyzer::types::{check_view, mk, views, Check, CheckView, Status};
use crate::text::{chars_of, contains_chars, decimal, has_infix, with_number};

verus! {

/// The slug's length in bytes of UTF-8, as `str::len` reports it.
pub open spec fn slug_bytes(ctx: Ctx) -> nat {
    (vstd::utf8::encode_utf8(ctx.slug@).len() as usize) as nat
}

/// The slug-quality check: non-empty, ASCII only, at most 75 bytes.
pub open spec fn slug_quality_check(ctx: Ctx) -> CheckView {
    let id = "slug_quality"@;
    let label = "슬러그"@;
    if ctx.slug@.len() == 0 {
        check_view(id, label, Status::Warning, "슬러그가 비어 있습니다."@, 5)
    } else if regex_match_texts(NON_ASCII@, ctx.slug@).len() > 0 {
        check_view(id, label, Status::Warning, "슬러그에 비-ASCII 문자가 포함되어 있습니다. URL 가독성을 위해 영문 hyphen 권장."@, 5)
    } else if slug_bytes(ctx) > 75 {
        check_view(id, label, Status::Warning, "슬러그가 너무 깁니다 ("@ + ctx.slug@ + "). 75자 이하 권장."@, 5)
    } else {
        check_view(id, label, Status::Pass, "슬러그가 적절합니다."@, 5)
    }
}

/// The slug-separator check: underscores warn.
pub open spec fn slug_uses_dashes_check(ctx: Ctx) -> CheckView {
    let id = "slug_uses_dashes"@;
    let label = "슬러그 구분자"@;
    if ctx.slug@.len() == 0 {
        check_view(id, label, Status::Na, Seq::empty(), 5)
    } else if ctx.slug@.contains('_') {
        check_view(id, label, Status::Warning, "슬러그에 언더스코어(_)가 있습니다. 검색엔진은 하이픈(-)을 권장합니다."@, 5)
    } else {
        check_view(id, label, Status::Pass, "슬러그 구분자가 적절합니다."@, 5)
    }
}

/// The slug-length check, in bytes.
pub open spec fn slug_length_check(ctx: Ctx) -> CheckView {
    let id = "slug_length"@;
    let label = "슬러그 길이"@;
    let len = slug_bytes(ctx);
    if ctx.slug@.len() == 0 {
        check_view(id, label, Status::Na, Seq::empty(), 5)
    } else if len > 75 {
        check_view(id, label, Status::Fail, "슬러그가 너무 깁니다 ("@ + decimal(len) + "자). 75자 이하 권장."@, 5)
    } else if len > 50 {
        check_view(id, label, Status::Warning, "슬러그가 다소 깁니다 ("@ + decimal(len) + "자). 50자 이하가 이상적입니다."@, 5)
    } else if len < 3 {
        check_view(id, label, Status::Warning, "슬러그가 너무 짧습니다 ("@ + decimal(len) + "자)."@, 5)
    } else {
        check_view(id, label, Status::Pass, "슬러그 길이가 적절합니다 ("@ + decimal(len) + "자)."@, 5)
    }
}

/// The slug checks, in order.
pub open spec fn slug_checks(ctx: Ctx) -> Seq<CheckView> {
    seq![slug_quality_check(ctx), slug_uses_dashes_check(ctx), slug_length_check(ctx)]
}

/// Runs the slug checks.
pub fn run(ctx: &Ctx) -> (r: Vec<Check>)
    ensures
        views(r@) == slug_checks(*ctx),
{
    let a = slug_quality(ctx);
    let b = slug_uses_dashes(ctx);
    let c = slug_length(ctx);
    let r = vec![a, b, c];
    assert(views(r@) =~= slug_checks(*ctx));
    r
}

/// The slug-length check.
pub fn slug_length(ctx: &Ctx) -> (c: Check)
    ensures
        c@ == slug_length_check(*ctx),
{
    let id = "slug_length";
    let label = "슬러그 길이";
    if ctx.slug.as_str().unicode_len() == 0 {
        return mk(id, label, Status::Na, String::new(), 5);
    }
    let len = ctx.slug.as_str().len();
    let n = len as u128;
    if len > 75 {
        return mk(id, label, Status::Fail, with_number("슬러그가 너무 깁니다 (", n, "자). 75자 이하 권장."), 5);
    }
    if len > 50 {
        return mk(id, label, Status::Warning, with_number("슬러그가 다소 깁니다 (", n, "자). 50자 이하가 이상적입니다."), 5);
    }
    if len < 3 {
        return mk(id, label, Status::Warning, with_number("슬러그가 너무 짧습니다 (", n, "자)."), 5);
    }
    mk(id, label, Status::Pass, with_number("슬러그 길이가 적절합니다 (", n, "자)."), 5)
}

/// Whether the slug separates words with dashes rather than underscores.
pub fn slug_uses_dashes(ctx: &Ctx) -> (c: Check)
    ensures
        c@ == slug_uses_dashes_check(*ctx),
{
    let id = "slug_uses_dashes";
    let label = "슬러그 구분자";
    if ctx.slug.as_str().unicode_len() == 0 {
        return mk(id, label, Status::Na, String::new(), 5);
    }
    let underscore = chars_of("_");
    let s = chars_of(ctx.slug.as_str());
    proof {
        reveal_strlit("_");
        if s@.contains('_') {
            let i = choose|i: int| 0 <= i < s@.len() && s@[i] == '_';
            assert(s@.subrange(i, i + 1) =~= underscore@);
        }
        if has_infix(s@, underscore@) {
            let i = choose|i: int| 0 <= i && i + underscore@.len() <= s@.len() && #[trigger] s@.subrange(i, i + underscore@.len()) == underscore@;
            assert(s@.subrange(i, i + 1)[0] == s@[i]);
        }
    }
    if contains_chars(&s, &underscore) {
        return mk(
            id,
            label,
            Status::Warning,
            String::from_str("슬러그에 언더스코어(_)가 있습니다. 검색엔진은 하이픈(-)을 권장합니다."),
            5,
        );
    }
    mk(id, label, Status::Pass, String::from_str("슬러그 구분자가 적절합니다."), 5)
}

/// Whether the slug is non-empty, ASCII and at most 75 bytes long.
pub fn slug_quality(ctx: &Ctx) -> (c: Check)
    ensures
        c@ == slug_quality_check(*ctx),
{
    let id = "slug_quality";
    let label = "슬러그";
    if ctx.slug.as_str().unicode_len() == 0 {
        return mk(id, label, Status::Warning, String::from_str("슬러그가 비어 있습니다."), 5);
    }
    if regex_find_all(NON_ASCII, ctx.slug.as_str()).len() > 0 {
        return mk(
            id,
            label,
            Status::Warning,
            String::from_str("슬러그에 비-ASCII 문자가 포함되어 있습니다. URL 가독성을 위해 영문 hyphen 권장."),
            5,
        );
    }
    if ctx.slug.as_str().len() > 75 {
        let mut msg = String::from_str("슬러그가 너무 깁니다 (");
        msg.append(ctx.slug.as_str());
        msg.append("). 75자 이하 권장.");
        return mk(id, label, Status::Warning, msg, 5);
    }
    mk(id, label, Status::Pass, String::from_str("슬러그가 적절합니다."), 5)
}

} // verus!
