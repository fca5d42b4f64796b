//! Image checks: alt-text coverage and image density.

use vstd::prelude::*;
use crate::analyzer::ctx::Ctx;
use crate::analyzer::helpers::{regex_find_all, regex_match_texts, IMG, IMG_ALT};
use crate::analyzer::types::{check_view, mk, views, Check, CheckView, Status};
use crate::text::{count_if, decimal, push_number};

verus! {

/// The `<img>` tags of `html`, in order.
pub open spec fn image_tags(html: Seq<char>) -> Seq<Seq<char>> {
    regex_match_texts(IMG@, html)
}

/// Whether an `<img>` tag carries a non-empty quoted `alt` attribute.
pub open spec fn has_alt(tag: Seq<char>) -> bool {
    regex_match_texts(IMG_ALT@, tag).len() > 0
}

/// The alt-coverage check.
pub open spec fn image_alt_coverage_check(ctx: Ctx) -> CheckView {
    let id = "image_alt_coverage"@;
    let label = "이미지 alt"@;
    let imgs = image_tags(ctx.content_html@);
    let total = imgs.len();
    let with_alt = count_if(imgs, |t: Seq<char>| has_alt(t));
    if total == 0 {
        check_view(id, label, Status::Na, "본문에 이미지가 없습니다."@, 5)
    } else if with_alt == total {
        check_view(id, label, Status::Pass, "모든 이미지("@ + decimal(total) + "개)에 alt 속성이 있습니다."@, 5)
    } else {
        check_view(id, label, Status::Warning, decimal((total - with_alt) as nat) + "개 이미지에 alt 속성이 없습니다 (총 "@ + decimal(total) + "개)."@, 5)
    }
}

/// The number of images recommended for a text of `len` characters: one per
/// 600 characters, at least one.
pub open spec fn recommended_images(len: nat) -> nat {
    if len / 600 > 1 {
        len / 600
    } else {
        1
    }
}

/// The image-density check.
pub open spec fn image_density_check(ctx: Ctx) -> CheckView {
    let id = "image_density"@;
    let label = "이미지 밀도"@;
    let len = ctx.content_length as nat;
    let count = image_tags(ctx.content_html@).len();
    let rec = recommended_images(len);
    if len < 300 {
        check_view(id, label, Status::Na, "본문이 짧아 평가 생략."@, 5)
    } else if count == 0 {
        check_view(id, label, Status::Warning, "이미지가 없습니다. 약 "@ + decimal(rec) + "개 권장 ("@ + decimal(len) + "자 본문)."@, 5)
    } else if count >= rec {
        check_view(id, label, Status::Pass, "이미지 "@ + decimal(count) + "개 (본문 "@ + decimal(len) + "자에 적절)."@, 5)
    } else {
        check_view(id, label, Status::Warning, "이미지 "@ + decimal(count) + "개. 본문 "@ + decimal(len) + "자에는 약 "@ + decimal(rec) + "개 권장."@, 5)
    }
}

/// The image checks, in order.
pub open spec fn image_checks(ctx: Ctx) -> Seq<CheckView> {
    seq![image_alt_coverage_check(ctx), image_density_check(ctx)]
}

/// Runs the image checks.
pub fn run(ctx: &Ctx) -> (r: Vec<Check>)
    ensures
        views(r@) == image_checks(*ctx),
{
    let a = image_alt_coverage(ctx);
    let b = image_density(ctx);
    let r = vec![a, b];
    assert(views(r@) =~= image_checks(*ctx));
    r
}

/// How many images the content has against how many its length calls for.
pub fn image_density(ctx: &Ctx) -> (c: Check)
    ensures
        c@ == image_density_check(*ctx),
{
    let id = "image_density";
    let label = "이미지 밀도";
    let len = ctx.content_length as u128;
    if ctx.content_length < 300 {
        return mk(id, label, Status::Na, String::from_str("본문이 짧아 평가 생략."), 5);
    }
    let count = regex_find_all(IMG, ctx.content_html.as_str()).len() as u128;
    let recommended = if len / 600 > 1 {
        len / 600
    } else {
        1
    };
    if count == 0 {
        let mut msg = String::from_str("이미지가 없습니다. 약 ");
        push_number(&mut msg, recommended);
        msg.append("개 권장 (");
        push_number(&mut msg, len);
        msg.append("자 본문).");
        return mk(id, label, Status::Warning, msg, 5);
    }
    if count >= recommended {
        let mut msg = String::from_str("이미지 ");
        push_number(&mut msg, count);
        msg.append("개 (본문 ");
        push_number(&mut msg, len);
        msg.append("자에 적절).");
        mk(id, label, Status::Pass, msg, 5)
    } else {
        let mut msg = String::from_str("이미지 ");
        push_number(&mut msg, count);
        msg.append("개. 본문 ");
        push_number(&mut msg, len);
        msg.append("자에는 약 ");
        push_number(&mut msg, recommended);
        msg.append("개 권장.");
        mk(id, label, Status::Warning, msg, 5)
    }
}

/// How many images carry alt text.
pub fn image_alt_coverage(ctx: &Ctx) -> (c: Check)
    ensures
        c@ == image_alt_coverage_check(*ctx),
{
    let id = "image_alt_coverage";
    let label = "이미지 alt";
    let imgs = regex_find_all(IMG, ctx.content_html.as_str());
    let total = imgs.len();
    if total == 0 {
        return mk(id, label, Status::Na, String::from_str("본문에 이미지가 없습니다."), 5);
    }
    let ghost tags = image_tags(ctx.content_html@);
    let ghost f = |t: Seq<char>| has_alt(t);
    let mut with_alt: usize = 0;
    let mut i: usize = 0;
    while i < total
        invariant
            imgs.deep_view() == tags,
            total == imgs.len(),
            i <= total,
            with_alt == count_if(tags.take(i as int), f),
            with_alt <= i,
            f == (|t: Seq<char>| has_alt(t)),
        decreases total - i,
    {
        assert(tags[i as int] == imgs@[i as int]@) by {
            assert(imgs.deep_view()[i as int] == imgs@[i as int].deep_view());
        }
        assert(tags.take(i + 1).drop_last() =~= tags.take(i as int));
        if regex_find_all(IMG_ALT, imgs[i].as_str()).len() > 0 {
            with_alt = with_alt + 1;
        }
        i = i + 1;
    }
    assert(tags.take(total as int) =~= tags);
    if with_alt == total {
        let mut msg = String::from_str("모든 이미지(");
        push_number(&mut msg, total as u128);
        msg.append("개)에 alt 속성이 있습니다.");
        mk(id, label, Status::Pass, msg, 5)
    } else {
        let mut msg = crate::text::decimal_string((total - with_alt) as u128);
        msg.append("개 이미지에 alt 속성이 없습니다 (총 ");
        push_number(&mut msg, total as u128);
        msg.append("개).");
        mk(id, label, Status::Warning, msg, 5)
    }
}

} // verus!
