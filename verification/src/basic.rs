//! The core analyzer: eighteen essential checks on title, meta description,
//! focus keyword, body, images, slug, links and readability, with keyword
//! matching by the particle-aware pattern.

use vstd::prelude::*;
use crate::analyzer::checks::content::{content_length, content_length_check, h2_count, h2_count_given, h2_tag_count};
use crate::analyzer::checks::images::{image_alt_coverage, image_alt_coverage_check};
use crate::analyzer::checks::keywords::{
    focus_keyword_in_content_from, focus_keyword_in_content_given,
    focus_keyword_in_first_paragraph_from, focus_keyword_in_first_paragraph_given,
    focus_keyword_in_title_from, focus_keyword_in_title_given, focus_keyword_present,
    focus_keyword_present_check, h2_texts, keyword_density_from, keyword_density_given,
    keyword_in_h2_by_regex, keyword_in_h2_given, keyword_in_meta_description_from,
    keyword_in_meta_description_given, keyword_in_slug, keyword_in_slug_check, opening_slice,
    opening_text, texts_with_keyword,
};
use crate::analyzer::checks::links::{
    internal_links, internal_links_check, outbound_links, outbound_links_check,
};
use crate::analyzer::checks::meta::{meta_description_length, meta_description_length_check};
use crate::analyzer::checks::readability::{
    paragraph_length, paragraph_length_check, sentence_length, sentence_length_check,
};
use crate::analyzer::checks::slug::{slug_quality, slug_quality_check};
use crate::analyzer::checks::title::{title_length, title_length_check};
use crate::analyzer::ctx::{normalize, normalizes, Ctx};
use crate::analyzer::helpers::{keyword_count, keyword_occurrences};
use crate::analyzer::types::{views, CheckView};
use crate::analyzer::{compute_score, grade, grade_of, score_of, total_weight};
pub use crate::analyzer::types::{AnalyzeRequest, AnalyzeResponse, Check, Status};

verus! {

/// The eighteen core checks, in order.
pub open spec fn core_checks(ctx: Ctx) -> Seq<CheckView> {
    let kw = ctx.focus_keyword@;
    seq![
        title_length_check(ctx.title_length as nat),
        meta_description_length_check(ctx.meta_description_length as nat),
        focus_keyword_present_check(ctx),
        focus_keyword_in_title_given(ctx, keyword_occurrences(ctx.title@, kw)),
        focus_keyword_in_first_paragraph_given(ctx, keyword_occurrences(opening_text(ctx), kw)),
        focus_keyword_in_content_given(ctx, keyword_occurrences(ctx.content_text@, kw)),
        keyword_density_given(ctx, keyword_occurrences(ctx.content_text@, kw)),
        keyword_in_meta_description_given(ctx, keyword_occurrences(ctx.meta_description@, kw)),
        keyword_in_h2_given(ctx, texts_with_keyword(h2_texts(ctx), kw)),
        keyword_in_slug_check(ctx),
        content_length_check(ctx.content_length as nat),
        h2_count_given(h2_tag_count(ctx.content_html@)),
        image_alt_coverage_check(ctx),
        slug_quality_check(ctx),
        internal_links_check(ctx),
        outbound_links_check(ctx),
        paragraph_length_check(ctx),
        sentence_length_check(ctx),
    ]
}

/// Runs the core checks.
pub fn run_core_checks(ctx: &Ctx) -> (r: Vec<Check>)
    requires
        ctx.wf(),
    ensures
        views(r@) == core_checks(*ctx),
{
    let kw = ctx.focus_keyword.as_str();
    let opening = opening_slice(ctx);
    let r = vec![
        title_length(ctx),
        meta_description_length(ctx),
        focus_keyword_present(ctx),
        focus_keyword_in_title_from(ctx, keyword_count(ctx.title.as_str(), kw)),
        focus_keyword_in_first_paragraph_from(ctx, keyword_count(opening.as_str(), kw)),
        focus_keyword_in_content_from(ctx, keyword_count(ctx.content_text.as_str(), kw)),
        keyword_density_from(ctx, keyword_count(ctx.content_text.as_str(), kw)),
        keyword_in_meta_description_from(ctx, keyword_count(ctx.meta_description.as_str(), kw)),
        keyword_in_h2_by_regex(ctx),
        keyword_in_slug(ctx),
        content_length(ctx),
        h2_count(ctx),
        image_alt_coverage(ctx),
        slug_quality(ctx),
        internal_links(ctx),
        outbound_links(ctx),
        paragraph_length(ctx),
        sentence_length(ctx),
    ];
    assert(views(r@) =~= core_checks(*ctx));
    r
}

/// Runs the core checks on a post and scores them.
pub fn analyze(req: AnalyzeRequest) -> (r: AnalyzeResponse)
    ensures
        exists|ctx: Ctx|
            {
                &&& normalizes(
                    ctx,
                    req.title@,
                    req.content@,
                    req.slug@,
                    req.focus_keyword@,
                    req.meta_description@,
                )
                &&& views(r.checks@) == core_checks(ctx)
            },
        r.checks@.len() == 18,
        r.score == score_of(views(r.checks@)),
        r.grade@ == grade_of(r.score as nat),
        r.engine@ == "regex"@,
{
    let ghost (title, content, slug, kw, meta) = (req.title@, req.content@, req.slug@, req.focus_keyword@, req.meta_description@);
    let context = normalize(req);
    let checks = run_core_checks(&context);
    proof {
        let cs = core_checks(context);
        assert forall|i: int| 0 <= i < cs.len() implies #[trigger] cs[i].weight <= 10 by {}
        crate::analyzer::lemma_weight_bounded(cs, 10);
        assert(views(checks@).len() == checks@.len());
    }
    let score = compute_score(checks.as_slice());
    let r = AnalyzeResponse { score, grade: grade(score), checks, engine: "regex" };
    assert(normalizes(context, title, content, slug, kw, meta));
    r
}

} // verus!
