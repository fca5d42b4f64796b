//! The normalized context every check reads: trimmed fields, visible text,
//! character lengths, and the link counts several checks share.

use vstd::prelude::*;
use crate::analyzer::helpers::{regex_capture_pairs, regex_captures, strip_html, stripped_text, A_HREF};
use crate::analyzer::types::AnalyzeRequest;
use crate::text::{chars_of, has_prefix, starts_with_chars, trim, trim_str};

verus! {

/// The normalized form of a request.
pub struct Ctx {
    pub title: String,
    pub title_length: usize,
    pub content_html: String,
    pub content_text: String,
    pub content_length: usize,
    pub slug: String,
    pub focus_keyword: String,
    pub meta_description: String,
    pub meta_description_length: usize,
    pub link_counts: LinkCounts,
}

/// Internal and outbound anchors in the content.
#[derive(Debug, Clone, Copy)]
pub struct LinkCounts {
    pub internal: usize,
    pub outbound: usize,
}

/// How a link target is classified.
#[derive(Debug, Clone, Copy, PartialEq, Eq, Structural)]
pub enum LinkKind {
    /// `http://`, `https://` or protocol-relative `//`.
    Outbound,
    /// Any other non-empty target that is not a fragment, `javascript:`,
    /// `mailto:` or `tel:`.
    Internal,
    /// Everything else.
    Ignored,
}

/// The class of a (not yet trimmed) link target.
pub open spec fn link_kind(href: Seq<char>) -> LinkKind {
    let h = trim(href);
    if has_prefix(h, "http://"@) || has_prefix(h, "https://"@) || has_prefix(h, "//"@) {
        LinkKind::Outbound
    } else if h.len() > 0 && !has_prefix(h, "#"@) && !has_prefix(h, "javascript:"@) && !has_prefix(
        h,
        "mailto:"@,
    ) && !has_prefix(h, "tel:"@) {
        LinkKind::Internal
    } else {
        LinkKind::Ignored
    }
}

/// The quoted `href` targets of the anchors in `html`, in order.
pub open spec fn href_targets(html: Seq<char>) -> Seq<Seq<char>> {
    regex_capture_pairs(A_HREF@, html).map_values(|p: (Seq<char>, Seq<char>)| p.1)
}

/// How many of `hrefs` are of the given kind.
pub open spec fn count_kind(hrefs: Seq<Seq<char>>, kind: LinkKind) -> nat
    decreases hrefs.len(),
{
    if hrefs.len() == 0 {
        0
    } else {
        count_kind(hrefs.drop_last(), kind) + if link_kind(hrefs.last()) == kind {
            1nat
        } else {
            0nat
        }
    }
}

/// `ctx` is the normalization of a request with these fields.
pub open spec fn normalizes(
    ctx: Ctx,
    title: Seq<char>,
    content: Seq<char>,
    slug: Seq<char>,
    focus_keyword: Seq<char>,
    meta_description: Seq<char>,
) -> bool {
    &&& ctx.title@ == trim(title)
    &&& ctx.content_html@ == content
    &&& ctx.content_text@ == stripped_text(content)
    &&& ctx.slug@ == trim(slug)
    &&& ctx.focus_keyword@ == trim(focus_keyword)
    &&& ctx.meta_description@ == trim(meta_description)
    &&& ctx.link_counts.internal == count_kind(href_targets(content), LinkKind::Internal)
    &&& ctx.link_counts.outbound == count_kind(href_targets(content), LinkKind::Outbound)
    &&& ctx.wf()
}

impl Ctx {
    /// The cached lengths are the character counts of their fields.
    pub open spec fn wf(&self) -> bool {
        &&& self.title_length == self.title@.len()
        &&& self.content_length == self.content_text@.len()
        &&& self.meta_description_length == self.meta_description@.len()
    }
}

/// The class of a link target.
pub fn classify_href(href: &str) -> (k: LinkKind)
    ensures
        k == link_kind(href@),
{
    let trimmed = trim_str(href);
    let h = chars_of(trimmed.as_str());
    if starts_with_chars(&h, &chars_of("http://")) || starts_with_chars(&h, &chars_of("https://"))
        || starts_with_chars(&h, &chars_of("//")) {
        LinkKind::Outbound
    } else if h.len() > 0 && !starts_with_chars(&h, &chars_of("#")) && !starts_with_chars(
        &h,
        &chars_of("javascript:"),
    ) && !starts_with_chars(&h, &chars_of("mailto:")) && !starts_with_chars(
        &h,
        &chars_of("tel:"),
    ) {
        LinkKind::Internal
    } else {
        LinkKind::Ignored
    }
}

/// Counts the internal and outbound anchors of `html`.
pub fn count_links(html: &str) -> (lc: LinkCounts)
    ensures
        lc.internal == count_kind(href_targets(html@), LinkKind::Internal),
        lc.outbound == count_kind(href_targets(html@), LinkKind::Outbound),
{
    let caps = regex_captures(A_HREF, html);
    let ghost hrefs = href_targets(html@);
    let mut internal: usize = 0;
    let mut outbound: usize = 0;
    let mut i: usize = 0;
    while i < caps.len()
        invariant
            caps.deep_view() == regex_capture_pairs(A_HREF@, html@),
            hrefs == href_targets(html@),
            hrefs.len() == caps.len(),
            i <= caps.len(),
            internal == count_kind(hrefs.take(i as int), LinkKind::Internal),
            outbound == count_kind(hrefs.take(i as int), LinkKind::Outbound),
            internal + outbound <= i,
        decreases caps.len() - i,
    {
        assert(hrefs[i as int] == caps@[i as int].1@) by {
            assert(caps.deep_view()[i as int] == caps@[i as int].deep_view());
        }
        let k = classify_href(caps[i].1.as_str());
        assert(hrefs.take(i + 1).drop_last() =~= hrefs.take(i as int));
        match k {
            LinkKind::Outbound => {
                outbound = outbound + 1;
            },
            LinkKind::Internal => {
                internal = internal + 1;
            },
            LinkKind::Ignored => {},
        }
        i = i + 1;
    }
    assert(hrefs.take(caps.len() as int) =~= hrefs);
    LinkCounts { internal, outbound }
}

/// Normalizes a request: trims the fields, extracts the visible text, counts
/// characters and links.
pub fn normalize(req: AnalyzeRequest) -> (ctx: Ctx)
    ensures
        normalizes(
            ctx,
            req.title@,
            req.content@,
            req.slug@,
            req.focus_keyword@,
            req.meta_description@,
        ),
{
    let title = trim_str(req.title.as_str());
    let content_text = strip_html(req.content.as_str());
    let meta_desc = trim_str(req.meta_description.as_str());
    let link_counts = count_links(req.content.as_str());
    let title_length = title.as_str().unicode_len();
    let content_length = content_text.as_str().unicode_len();
    let meta_description_length = meta_desc.as_str().unicode_len();
    let slug = trim_str(req.slug.as_str());
    let focus_keyword = trim_str(req.focus_keyword.as_str());
    Ctx {
        title,
        title_length,
        content_html: req.content,
        content_text,
        content_length,
        slug,
        focus_keyword,
        meta_description: meta_desc,
        meta_description_length,
        link_counts,
    }
}

/// Each link target is internal, outbound or neither, so the two counts
/// together never exceed the number of targets.
pub proof fn lemma_link_counts_within_targets(hrefs: Seq<Seq<char>>)
    ensures
        count_kind(hrefs, LinkKind::Internal) + count_kind(hrefs, LinkKind::Outbound) <= hrefs.len(),
    decreases hrefs.len(),
{
    if hrefs.len() > 0 {
        lemma_link_counts_within_targets(hrefs.drop_last());
    }
}

} // verus!
