//! Link checks: internal and outbound counts, nofollow share, link excess.

use vstd::prelude::*;
use crate::analyzer::ctx::{classify_href, link_kind, Ctx, LinkKind};
use crate::analyzer::helpers::{
    lowercased, regex_capture_pairs, regex_captures, to_lowercase, A_HREF, A_TAG,
};
use crate::analyzer::types::{check_view, mk, views, Check, CheckView, Status};
use crate::text::{chars_of, contains_chars, count_if, decimal, has_infix, push_number, round_ratio};

verus! {

/// The internal-links check.
pub open spec fn internal_links_check(ctx: Ctx) -> CheckView {
    let n = ctx.link_counts.internal as nat;
    if n == 0 {
        check_view("internal_links"@, "내부 링크"@, Status::Warning, "내부 링크가 없습니다. 관련 글로 1개 이상 링크하세요."@, 5)
    } else {
        check_view("internal_links"@, "내부 링크"@, Status::Pass, "내부 링크 "@ + decimal(n) + "개."@, 5)
    }
}

/// The outbound-links check.
pub open spec fn outbound_links_check(ctx: Ctx) -> CheckView {
    let n = ctx.link_counts.outbound as nat;
    if n == 0 {
        check_view("outbound_links"@, "외부 링크"@, Status::Warning, "외부 링크가 없습니다. 권위 있는 출처로 1개 이상 링크하면 신뢰도가 올라갑니다."@, 5)
    } else {
        check_view("outbound_links"@, "외부 링크"@, Status::Pass, "외부 링크 "@ + decimal(n) + "개."@, 5)
    }
}

/// An opening anchor tag (whole tag, attribute text) whose first quoted
/// `href` is outbound.
pub open spec fn is_outbound_tag(tag: (Seq<char>, Seq<char>)) -> bool {
    let hrefs = regex_capture_pairs(A_HREF@, tag.0);
    hrefs.len() > 0 && link_kind(hrefs[0].1) == LinkKind::Outbound
}

/// Attribute text that marks a link `nofollow`, `ugc` or `sponsored`,
/// ignoring case.
pub open spec fn is_nofollow_attrs(attrs: Seq<char>) -> bool {
    let a = lowercased(attrs);
    has_infix(a, "nofollow"@) || has_infix(a, "ugc"@) || has_infix(a, "sponsored"@)
}

/// The opening anchor tags of `html`.
pub open spec fn anchor_tags(html: Seq<char>) -> Seq<(Seq<char>, Seq<char>)> {
    regex_capture_pairs(A_TAG@, html)
}

/// How many anchor tags of `html` are outbound.
pub open spec fn outbound_tag_count(html: Seq<char>) -> nat {
    count_if(anchor_tags(html), |t: (Seq<char>, Seq<char>)| is_outbound_tag(t))
}

/// How many anchor tags of `html` are outbound and marked nofollow.
pub open spec fn nofollow_tag_count(html: Seq<char>) -> nat {
    count_if(
        anchor_tags(html),
        |t: (Seq<char>, Seq<char>)| is_outbound_tag(t) && is_nofollow_attrs(t.1),
    )
}

/// The nofollow-share check: the share of outbound anchors marked nofollow,
/// rounded to a whole percentage.
pub open spec fn nofollow_outbound_check(ctx: Ctx) -> CheckView {
    let id = "nofollow_outbound"@;
    let label = "외부 링크 nofollow"@;
    let total = outbound_tag_count(ctx.content_html@);
    let nofollow = nofollow_tag_count(ctx.content_html@);
    let ratio = round_ratio(nofollow * 100, total);
    if ctx.link_counts.outbound == 0 || total == 0 {
        check_view(id, label, Status::Na, "외부 링크가 없습니다."@, 5)
    } else if ratio == 0 {
        check_view(id, label, Status::Pass, "외부 링크 "@ + decimal(total) + "개 모두 dofollow (추천 의미가 살아있음)."@, 5)
    } else if ratio > 80 {
        check_view(id, label, Status::Warning, "외부 링크 nofollow 비율 "@ + decimal(ratio) + "%로 높음. 너무 보수적이면 신뢰도 신호가 약화됩니다."@, 5)
    } else {
        check_view(id, label, Status::Pass, "외부 링크 nofollow 비율 "@ + decimal(ratio) + "% ("@ + decimal(nofollow) + "/"@ + decimal(total) + ")."@, 5)
    }
}

/// The number of links allowed for a text of `len` characters: one per 100
/// characters, at least five.
pub open spec fn link_limit(len: nat) -> nat {
    if len / 100 > 5 {
        len / 100
    } else {
        5
    }
}

/// The excessive-links check.
pub open spec fn excessive_links_check(ctx: Ctx) -> CheckView {
    let id = "excessive_links"@;
    let label = "과도한 링크"@;
    let total = (ctx.link_counts.internal + ctx.link_counts.outbound) as nat;
    let len = ctx.content_length as nat;
    let limit = link_limit(len);
    if len < 300 {
        check_view(id, label, Status::Na, "본문이 짧아 평가 생략."@, 5)
    } else if total == 0 {
        check_view(id, label, Status::Na, "링크가 없습니다."@, 5)
    } else if total > limit {
        check_view(id, label, Status::Warning, "링크 "@ + decimal(total) + "개가 본문 "@ + decimal(len) + "자에 비해 많습니다 (약 "@ + decimal(limit) + "개 권장). 스팸으로 보일 수 있습니다."@, 5)
    } else {
        check_view(id, label, Status::Pass, "링크 "@ + decimal(total) + "개 (본문 "@ + decimal(len) + "자에 적절)."@, 5)
    }
}

/// The link checks, in order.
pub open spec fn link_checks(ctx: Ctx) -> Seq<CheckView> {
    seq![
        internal_links_check(ctx),
        outbound_links_check(ctx),
        nofollow_outbound_check(ctx),
        excessive_links_check(ctx),
    ]
}

/// Runs the link checks.
pub fn run(ctx: &Ctx) -> (r: Vec<Check>)
    ensures
        views(r@) == link_checks(*ctx),
{
    let a = internal_links(ctx);
    let b = outbound_links(ctx);
    let c = nofollow_outbound(ctx);
    let d = excessive_links(ctx);
    let r = vec![a, b, c, d];
    assert(views(r@) =~= link_checks(*ctx));
    r
}

/// Whether the links are too many for the length of the text.
pub fn excessive_links(ctx: &Ctx) -> (c: Check)
    ensures
        c@ == excessive_links_check(*ctx),
{
    let id = "excessive_links";
    let label = "과도한 링크";
    let total = ctx.link_counts.internal as u128 + ctx.link_counts.outbound as u128;
    let len = ctx.content_length as u128;
    if ctx.content_length < 300 {
        return mk(id, label, Status::Na, String::from_str("본문이 짧아 평가 생략."), 5);
    }
    if total == 0 {
        return mk(id, label, Status::Na, String::from_str("링크가 없습니다."), 5);
    }
    let limit = if len / 100 > 5 {
        len / 100
    } else {
        5
    };
    if total > limit {
        let mut msg = String::from_str("링크 ");
        push_number(&mut msg, total);
        msg.append("개가 본문 ");
        push_number(&mut msg, len);
        msg.append("자에 비해 많습니다 (약 ");
        push_number(&mut msg, limit);
        msg.append("개 권장). 스팸으로 보일 수 있습니다.");
        return mk(id, label, Status::Warning, msg, 5);
    }
    let mut msg = String::from_str("링크 ");
    push_number(&mut msg, total);
    msg.append("개 (본문 ");
    push_number(&mut msg, len);
    msg.append("자에 적절).");
    mk(id, label, Status::Pass, msg, 5)
}

/// Whether attribute text marks a link nofollow, ugc or sponsored.
fn nofollow_attrs(attrs: &str) -> (b: bool)
    ensures
        b == is_nofollow_attrs(attrs@),
{
    let lower = chars_of(to_lowercase(attrs).as_str());
    contains_chars(&lower, &chars_of("nofollow")) || contains_chars(&lower, &chars_of("ugc"))
        || contains_chars(&lower, &chars_of("sponsored"))
}

/// Counts the outbound anchor tags of `html` and how many of them are
/// nofollow.
fn tally_outbound(html: &str) -> (r: (u128, u128))
    ensures
        r.0 == outbound_tag_count(html@),
        r.1 == nofollow_tag_count(html@),
        r.1 <= r.0 <= usize::MAX,
{
    let tags = regex_captures(A_TAG, html);
    let ghost all = anchor_tags(html@);
    let ghost f = |t: (Seq<char>, Seq<char>)| is_outbound_tag(t);
    let ghost g = |t: (Seq<char>, Seq<char>)| is_outbound_tag(t) && is_nofollow_attrs(t.1);
    let mut total: u128 = 0;
    let mut nofollow: u128 = 0;
    let mut i: usize = 0;
    while i < tags.len()
        invariant
            tags.deep_view() == all,
            all == anchor_tags(html@),
            f == (|t: (Seq<char>, Seq<char>)| is_outbound_tag(t)),
            g == (|t: (Seq<char>, Seq<char>)| is_outbound_tag(t) && is_nofollow_attrs(t.1)),
            i <= tags.len(),
            total == count_if(all.take(i as int), f),
            nofollow == count_if(all.take(i as int), g),
            nofollow <= total <= i,
        decreases tags.len() - i,
    {
        assert(all[i as int] == tags@[i as int].deep_view()) by {
            assert(tags.deep_view()[i as int] == tags@[i as int].deep_view());
        }
        assert(all.take(i + 1).drop_last() =~= all.take(i as int));
        let hrefs = regex_captures(A_HREF, tags[i].0.as_str());
        if hrefs.len() > 0 {
            assert(hrefs.deep_view()[0] == hrefs@[0].deep_view());
            if classify_href(hrefs[0].1.as_str()) == LinkKind::Outbound {
                total = total + 1;
                if nofollow_attrs(tags[i].1.as_str()) {
                    nofollow = nofollow + 1;
                }
            }
        }
        i = i + 1;
    }
    assert(all.take(tags.len() as int) =~= all);
    (total, nofollow)
}

/// The share of outbound links marked nofollow.
pub fn nofollow_outbound(ctx: &Ctx) -> (c: Check)
    ensures
        c@ == nofollow_outbound_check(*ctx),
{
    let id = "nofollow_outbound";
    let label = "외부 링크 nofollow";
    if ctx.link_counts.outbound == 0 {
        return mk(id, label, Status::Na, String::from_str("외부 링크가 없습니다."), 5);
    }
    let (total, nofollow) = tally_outbound(ctx.content_html.as_str());
    if total == 0 {
        return mk(id, label, Status::Na, String::from_str("외부 링크가 없습니다."), 5);
    }
    proof {
        assert(usize::MAX <= 0xffff_ffff_ffff_ffffu64);
    }
    let ratio = (2 * (nofollow * 100) + total) / (2 * total);
    if ratio == 0 {
        let mut msg = String::from_str("외부 링크 ");
        push_number(&mut msg, total);
        msg.append("개 모두 dofollow (추천 의미가 살아있음).");
        return mk(id, label, Status::Pass, msg, 5);
    }
    if ratio > 80 {
        let mut msg = String::from_str("외부 링크 nofollow 비율 ");
        push_number(&mut msg, ratio);
        msg.append("%로 높음. 너무 보수적이면 신뢰도 신호가 약화됩니다.");
        return mk(id, label, Status::Warning, msg, 5);
    }
    let mut msg = String::from_str("외부 링크 nofollow 비율 ");
    push_number(&mut msg, ratio);
    msg.append("% (");
    push_number(&mut msg, nofollow);
    msg.append("/");
    push_number(&mut msg, total);
    msg.append(").");
    mk(id, label, Status::Pass, msg, 5)
}

/// The internal-links check.
pub fn internal_links(ctx: &Ctx) -> (c: Check)
    ensures
        c@ == internal_links_check(*ctx),
{
    let n = ctx.link_counts.internal;
    if n == 0 {
        mk("internal_links", "내부 링크", Status::Warning, String::from_str("내부 링크가 없습니다. 관련 글로 1개 이상 링크하세요."), 5)
    } else {
        mk("internal_links", "내부 링크", Status::Pass, crate::text::with_number("내부 링크 ", n as u128, "개."), 5)
    }
}

/// The outbound-links check.
pub fn outbound_links(ctx: &Ctx) -> (c: Check)
    ensures
        c@ == outbound_links_check(*ctx),
{
    let n = ctx.link_counts.outbound;
    if n == 0 {
        mk("outbound_links", "외부 링크", Status::Warning, String::from_str("외부 링크가 없습니다. 권위 있는 출처로 1개 이상 링크하면 신뢰도가 올라갑니다."), 5)
    } else {
        mk("outbound_links", "외부 링크", Status::Pass, crate::text::with_number("외부 링크 ", n as u128, "개."), 5)
    }
}

/// With at least 300 characters of text and at least one link, the check
/// warns exactly when there are more links than allowed (five, or one per
/// 100 characters once the text reaches 600 characters) and passes
/// otherwise.
pub proof fn lemma_excessive_links_threshold(ctx: Ctx)
    requires
        ctx.content_length >= 300,
        ctx.link_counts.internal + ctx.link_counts.outbound > 0,
    ensures
        ({
            let links = ctx.link_counts.internal + ctx.link_counts.outbound;
            let allowed = if ctx.content_length < 600 { 5 } else { ctx.content_length / 100 };
            &&& (excessive_links_check(ctx).status == Status::Warning <==> links > allowed)
            &&& (excessive_links_check(ctx).status == Status::Pass <==> links <= allowed)
        }),
{
}

} // verus!
