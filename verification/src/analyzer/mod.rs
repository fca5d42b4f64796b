//! SEO content analyzer.
//!
//! Layout:
//!   types.rs         request, response, check and status types
//!   ctx.rs           the normalized context every check reads
//!   helpers.rs       the patterns, the regex engine, HTML stripping, keyword counting
//!   keyword.rs       keyword matching backends
//!   checks/<domain>  one module per SEO concern, each with its own `run`

pub mod checks;
pub mod ctx;
pub mod helpers;
pub mod keyword;
pub mod types;

use vstd::prelude::*;
use crate::analyzer::checks::content::content_checks;
use crate::analyzer::checks::images::image_checks;
use crate::analyzer::checks::keywords::keyword_checks_with;
use crate::analyzer::checks::links::link_checks;
use crate::analyzer::checks::meta::meta_checks;
use crate::analyzer::checks::readability::readability_checks;
use crate::analyzer::checks::slug::slug_checks;
use crate::analyzer::checks::title::title_checks;
use crate::analyzer::ctx::{normalize, normalizes, Ctx};
pub use crate::analyzer::keyword::{KeywordCounter, RegexCounter};
pub use crate::analyzer::types::{AnalyzeRequest, AnalyzeResponse, Check, CheckView, Status};
use crate::analyzer::types::views;

verus! {

/// The weight a check contributes to the total: nothing when it is `Na`.
pub open spec fn counted_weight(c: CheckView) -> nat {
    if c.status == Status::Na {
        0
    } else {
        c.weight as nat
    }
}

/// What a check earns, in half points: its weight twice for `Pass`, once
/// for `Warning`, nothing for `Fail` or `Na`.
pub open spec fn earned_halves(c: CheckView) -> nat {
    match c.status {
        Status::Pass => 2 * c.weight as nat,
        Status::Warning => c.weight as nat,
        _ => 0,
    }
}

/// The total weight of the checks that count.
pub open spec fn total_weight(checks: Seq<CheckView>) -> nat
    decreases checks.len(),
{
    if checks.len() == 0 {
        0
    } else {
        total_weight(checks.drop_last()) + counted_weight(checks.last())
    }
}

/// The half points earned over all checks.
pub open spec fn total_earned_halves(checks: Seq<CheckView>) -> nat
    decreases checks.len(),
{
    if checks.len() == 0 {
        0
    } else {
        total_earned_halves(checks.drop_last()) + earned_halves(checks.last())
    }
}

/// The score: the points earned (a pass earns the check's weight, a warning
/// half of it) as a percentage of the weight of the checks that count,
/// rounded half up; 0 when no check counts.
pub open spec fn score_of(checks: Seq<CheckView>) -> nat {
    let total = total_weight(checks);
    if total > 0 {
        (100 * total_earned_halves(checks) + total) / (2 * total)
    } else {
        0
    }
}

/// The grade for a score.
pub open spec fn grade_of(score: nat) -> Seq<char> {
    if score >= 85 {
        "great"@
    } else if score >= 65 {
        "good"@
    } else if score >= 40 {
        "needs_work"@
    } else {
        "poor"@
    }
}

/// Every check of the full analysis, in order, with the given keyword
/// matcher.
pub open spec fn analysis_checks<C: KeywordCounter>(ctx: Ctx, counter: C) -> Seq<CheckView> {
    title_checks(ctx, counter) + meta_checks(ctx) + keyword_checks_with(ctx, counter)
        + content_checks(ctx) + image_checks(ctx) + slug_checks(ctx) + link_checks(ctx)
        + readability_checks(ctx)
}

proof fn lemma_earned_bounded(checks: Seq<CheckView>)
    ensures
        total_earned_halves(checks) <= 2 * total_weight(checks),
    decreases checks.len(),
{
    if checks.len() > 0 {
        lemma_earned_bounded(checks.drop_last());
    }
}

pub(crate) proof fn lemma_weight_bounded(checks: Seq<CheckView>, bound: nat)
    requires
        forall|i: int| 0 <= i < checks.len() ==> #[trigger] checks[i].weight <= bound,
    ensures
        total_weight(checks) <= bound * checks.len(),
    decreases checks.len(),
{
    if checks.len() > 0 {
        let rest = checks.drop_last();
        assert forall|i: int| 0 <= i < rest.len() implies #[trigger] rest[i].weight <= bound by {
            assert(rest[i] == checks[i]);
        }
        lemma_weight_bounded(rest, bound);
        assert(bound * rest.len() + bound == bound * checks.len()) by (nonlinear_arith)
            requires rest.len() + 1 == checks.len();
    }
}

/// The score of a list of checks.
pub fn compute_score(checks: &[Check]) -> (score: u32)
    requires
        total_weight(views(checks@)) <= u32::MAX,
    ensures
        score == score_of(views(checks@)),
        score <= 100,
{
    let ghost cs = views(checks@);
    let mut total: u64 = 0;
    let mut earned: u64 = 0;
    let mut i: usize = 0;
    while i < checks.len()
        invariant
            cs == views(checks@),
            total_weight(cs) <= u32::MAX,
            i <= checks.len(),
            total == total_weight(cs.take(i as int)),
            earned == total_earned_halves(cs.take(i as int)),
            earned <= 2 * total,
        decreases checks.len() - i,
    {
        assert(cs.take(i + 1).drop_last() =~= cs.take(i as int));
        proof {
            lemma_total_weight_prefix(cs, i + 1);
        }
        let c = &checks[i];
        if c.status != Status::Na {
            total = total + c.weight as u64;
            match c.status {
                Status::Pass => {
                    earned = earned + 2 * (c.weight as u64);
                },
                Status::Warning => {
                    earned = earned + c.weight as u64;
                },
                _ => {},
            }
        }
        i = i + 1;
    }
    assert(cs.take(checks.len() as int) =~= cs);
    if total > 0 {
        proof {
            assert((100 * earned + total) / (2 * total) <= 100) by (nonlinear_arith)
                requires earned <= 2 * total, total > 0;
        }
        ((100 * earned + total) / (2 * total)) as u32
    } else {
        0
    }
}

proof fn lemma_total_weight_prefix(cs: Seq<CheckView>, k: int)
    requires
        0 <= k <= cs.len(),
    ensures
        total_weight(cs.take(k)) <= total_weight(cs),
    decreases cs.len() - k,
{
    if k < cs.len() {
        lemma_total_weight_prefix(cs, k + 1);
        assert(cs.take(k + 1).drop_last() =~= cs.take(k));
    } else {
        assert(cs.take(k) =~= cs);
    }
}

/// The grade for a score: `great` from 85, `good` from 65, `needs_work`
/// from 40, `poor` below.
pub fn grade(score: u32) -> (g: &'static str)
    ensures
        g@ == grade_of(score as nat),
{
    if score >= 85 {
        "great"
    } else if score >= 65 {
        "good"
    } else if score >= 40 {
        "needs_work"
    } else {
        "poor"
    }
}

proof fn lemma_total_weight_append(a: Seq<CheckView>, b: Seq<CheckView>)
    ensures
        total_weight(a + b) == total_weight(a) + total_weight(b),
    decreases b.len(),
{
    if b.len() > 0 {
        lemma_total_weight_append(a, b.drop_last());
        assert((a + b).drop_last() =~= a + b.drop_last());
    } else {
        assert(a + b =~= a);
    }
}

proof fn lemma_part_weight(part: Seq<CheckView>)
    requires
        forall|i: int| 0 <= i < part.len() ==> #[trigger] part[i].weight <= 10,
    ensures
        total_weight(part) <= 10 * part.len(),
{
    lemma_weight_bounded(part, 10);
}

/// The checks of a full analysis carry at most 300 points of weight.
proof fn lemma_analysis_weight<C: KeywordCounter>(ctx: Ctx, counter: C)
    ensures
        total_weight(analysis_checks(ctx, counter)) <= 300,
        analysis_checks(ctx, counter).len() == 30,
{
    let p1 = title_checks(ctx, counter);
    let p2 = meta_checks(ctx);
    let p3 = keyword_checks_with(ctx, counter);
    let p4 = content_checks(ctx);
    let p5 = image_checks(ctx);
    let p6 = slug_checks(ctx);
    let p7 = link_checks(ctx);
    let p8 = readability_checks(ctx);
    lemma_part_weight(p1);
    lemma_part_weight(p2);
    lemma_part_weight(p3);
    lemma_part_weight(p4);
    lemma_part_weight(p5);
    lemma_part_weight(p6);
    lemma_part_weight(p7);
    lemma_part_weight(p8);
    lemma_total_weight_append(p1, p2);
    lemma_total_weight_append(p1 + p2, p3);
    lemma_total_weight_append(p1 + p2 + p3, p4);
    lemma_total_weight_append(p1 + p2 + p3 + p4, p5);
    lemma_total_weight_append(p1 + p2 + p3 + p4 + p5, p6);
    lemma_total_weight_append(p1 + p2 + p3 + p4 + p5 + p6, p7);
    lemma_total_weight_append(p1 + p2 + p3 + p4 + p5 + p6 + p7, p8);
}

proof fn lemma_views_append(a: Seq<Check>, b: Seq<Check>)
    ensures
        views(a + b) == views(a) + views(b),
{
    assert(views(a + b) =~= views(a) + views(b));
}

/// Runs every check, in order, with the given keyword matcher.
pub fn run_checks<C: KeywordCounter>(ctx: &Ctx, counter: &C) -> (all: Vec<Check>)
    requires
        ctx.wf(),
    ensures
        views(all@) == analysis_checks(*ctx, *counter),
{
    let mut all = checks::title::run(ctx, counter);
    let mut part = checks::meta::run(ctx);
    proof { lemma_views_append(all@, part@); }
    all.append(&mut part);
    let mut part = checks::keywords::run(ctx, counter);
    proof { lemma_views_append(all@, part@); }
    all.append(&mut part);
    let mut part = checks::content::run(ctx);
    proof { lemma_views_append(all@, part@); }
    all.append(&mut part);
    let mut part = checks::images::run(ctx);
    proof { lemma_views_append(all@, part@); }
    all.append(&mut part);
    let mut part = checks::slug::run(ctx);
    proof { lemma_views_append(all@, part@); }
    all.append(&mut part);
    let mut part = checks::links::run(ctx);
    proof { lemma_views_append(all@, part@); }
    all.append(&mut part);
    let mut part = checks::readability::run(ctx);
    proof { lemma_views_append(all@, part@); }
    all.append(&mut part);
    all
}

/// Runs every check on a post with the given keyword matcher and scores it.
pub fn analyze<C: KeywordCounter>(req: AnalyzeRequest, counter: &C) -> (r: AnalyzeResponse)
    ensures
        exists|ctx: Ctx|
            {
                &&& normalizes(
                    ctx,
                    req.title@,
                    req.content@,
                    req.slug@,
                    req.focus_keyword@,
                    req.meta_description@,
                )
                &&& views(r.checks@) == analysis_checks(ctx, *counter)
            },
        r.checks@.len() == 30,
        r.score == score_of(views(r.checks@)),
        r.grade@ == grade_of(r.score as nat),
        r.engine@ == counter.engine_name(),
{
    let engine = counter.engine();
    let ghost (title, content, slug, kw, meta) = (req.title@, req.content@, req.slug@, req.focus_keyword@, req.meta_description@);
    let context = normalize(req);
    let all = run_checks(&context, counter);
    proof {
        lemma_analysis_weight(context, *counter);
        assert(views(all@).len() == all@.len());
    }
    let score = compute_score(all.as_slice());
    let r = AnalyzeResponse { score, grade: grade(score), checks: all, engine };
    assert(normalizes(context, title, content, slug, kw, meta));
    r
}

/// The rank of a status among the counted ones: `Fail` < `Warning` < `Pass`.
pub open spec fn status_rank(s: Status) -> nat {
    match s {
        Status::Pass => 2,
        Status::Warning => 1,
        _ => 0,
    }
}

/// `c` with its status replaced by `s`.
pub open spec fn with_status(c: CheckView, s: Status) -> CheckView {
    CheckView { status: s, ..c }
}

/// A score never exceeds 100.
pub proof fn lemma_score_at_most_100(checks: Seq<CheckView>)
    ensures
        score_of(checks) <= 100,
{
    lemma_earned_bounded(checks);
    let total = total_weight(checks);
    let earned = total_earned_halves(checks);
    if total > 0 {
        assert((100 * earned + total) / (2 * total) <= 100) by (nonlinear_arith)
            requires earned <= 2 * total, total > 0;
    }
}

proof fn lemma_all_pass_earned(checks: Seq<CheckView>)
    requires
        forall|i: int| 0 <= i < checks.len() ==> #[trigger] checks[i].status == Status::Pass
            || checks[i].status == Status::Na,
    ensures
        total_earned_halves(checks) == 2 * total_weight(checks),
    decreases checks.len(),
{
    if checks.len() > 0 {
        let rest = checks.drop_last();
        assert forall|i: int| 0 <= i < rest.len() implies #[trigger] rest[i].status == Status::Pass
            || rest[i].status == Status::Na by {
            assert(rest[i] == checks[i]);
        }
        lemma_all_pass_earned(rest);
        assert(checks.last() == checks[checks.len() - 1]);
    }
}

/// When every check passes or does not apply, and at least one counts, the
/// score is 100.
pub proof fn lemma_all_pass_full_score(checks: Seq<CheckView>)
    requires
        forall|i: int| 0 <= i < checks.len() ==> #[trigger] checks[i].status == Status::Pass
            || checks[i].status == Status::Na,
        total_weight(checks) > 0,
    ensures
        score_of(checks) == 100,
{
    lemma_all_pass_earned(checks);
    let total = total_weight(checks);
    assert((100 * (2 * total) + total) / (2 * total) == 100) by (nonlinear_arith)
        requires total > 0;
}

proof fn lemma_nothing_earned(checks: Seq<CheckView>)
    requires
        forall|i: int| 0 <= i < checks.len() ==> #[trigger] checks[i].status == Status::Fail
            || checks[i].status == Status::Na,
    ensures
        total_earned_halves(checks) == 0,
    decreases checks.len(),
{
    if checks.len() > 0 {
        let rest = checks.drop_last();
        assert forall|i: int| 0 <= i < rest.len() implies #[trigger] rest[i].status == Status::Fail
            || rest[i].status == Status::Na by {
            assert(rest[i] == checks[i]);
        }
        lemma_nothing_earned(rest);
        assert(checks.last() == checks[checks.len() - 1]);
    }
}

/// When every check fails or does not apply, the score is 0.
pub proof fn lemma_all_fail_zero_score(checks: Seq<CheckView>)
    requires
        forall|i: int| 0 <= i < checks.len() ==> #[trigger] checks[i].status == Status::Fail
            || checks[i].status == Status::Na,
    ensures
        score_of(checks) == 0,
{
    lemma_nothing_earned(checks);
    let total = total_weight(checks);
    if total > 0 {
        assert(total / (2 * total) == 0) by (nonlinear_arith)
            requires total > 0;
    }
}

proof fn lemma_earned_append(a: Seq<CheckView>, b: Seq<CheckView>)
    ensures
        total_earned_halves(a + b) == total_earned_halves(a) + total_earned_halves(b),
    decreases b.len(),
{
    if b.len() > 0 {
        lemma_earned_append(a, b.drop_last());
        assert((a + b).drop_last() =~= a + b.drop_last());
    } else {
        assert(a + b =~= a);
    }
}

/// A check that does not apply leaves the score as it is, wherever it
/// stands among the others.
pub proof fn lemma_na_check_neutral(before: Seq<CheckView>, c: CheckView, after: Seq<CheckView>)
    requires
        c.status == Status::Na,
    ensures
        score_of(before + seq![c] + after) == score_of(before + after),
{
    lemma_total_weight_append(before, seq![c]);
    lemma_total_weight_append(before + seq![c], after);
    lemma_total_weight_append(before, after);
    lemma_earned_append(before, seq![c]);
    lemma_earned_append(before + seq![c], after);
    lemma_earned_append(before, after);
    assert(seq![c].drop_last() =~= Seq::<CheckView>::empty());
    assert(seq![c].last() == c);
    assert(total_weight(Seq::<CheckView>::empty()) == 0);
    assert(total_earned_halves(Seq::<CheckView>::empty()) == 0);
    assert(total_weight(seq![c]) == 0);
    assert(total_earned_halves(seq![c]) == 0);
}

/// Raising one counted check's status (`Fail` to `Warning` to `Pass`) never
/// lowers the score.
pub proof fn lemma_better_status_never_lowers(checks: Seq<CheckView>, i: int, s: Status)
    requires
        0 <= i < checks.len(),
        checks[i].status != Status::Na,
        s != Status::Na,
        status_rank(checks[i].status) <= status_rank(s),
    ensures
        score_of(checks) <= score_of(checks.update(i, with_status(checks[i], s))),
{
    let c = checks[i];
    let before = checks.take(i);
    let after = checks.skip(i + 1);
    let better = checks.update(i, with_status(c, s));
    assert(checks =~= before + seq![c] + after);
    assert(better =~= before + seq![with_status(c, s)] + after);
    lemma_total_weight_append(before, seq![c]);
    lemma_total_weight_append(before + seq![c], after);
    lemma_total_weight_append(before, seq![with_status(c, s)]);
    lemma_total_weight_append(before + seq![with_status(c, s)], after);
    lemma_earned_append(before, seq![c]);
    lemma_earned_append(before + seq![c], after);
    lemma_earned_append(before, seq![with_status(c, s)]);
    lemma_earned_append(before + seq![with_status(c, s)], after);
    assert(seq![c].drop_last() =~= Seq::<CheckView>::empty());
    assert(seq![with_status(c, s)].drop_last() =~= Seq::<CheckView>::empty());
    let total = total_weight(checks);
    let e1 = total_earned_halves(checks);
    let e2 = total_earned_halves(better);
    assert(total_weight(better) == total);
    assert(e1 <= e2);
    if total > 0 {
        assert((100 * e1 + total) / (2 * total) <= (100 * e2 + total) / (2 * total)) by (nonlinear_arith)
            requires e1 <= e2, total > 0;
    }
}

/// The rank of a grade: `poor` < `needs_work` < `good` < `great`.
pub open spec fn grade_rank(g: Seq<char>) -> nat {
    if g == "great"@ {
        3
    } else if g == "good"@ {
        2
    } else if g == "needs_work"@ {
        1
    } else {
        0
    }
}

/// A higher score never gets a lower grade.
pub proof fn lemma_grade_monotone(a: nat, b: nat)
    requires
        a <= b,
    ensures
        grade_rank(grade_of(a)) <= grade_rank(grade_of(b)),
{
    reveal_strlit("great");
    reveal_strlit("good");
    reveal_strlit("needs_work");
    reveal_strlit("poor");
    assert("great"@[1] != "good"@[1]);
    assert("great"@.len() != "needs_work"@.len());
    assert("great"@.len() != "poor"@.len());
    assert("good"@.len() != "needs_work"@.len());
    assert("good"@[0] != "poor"@[0]);
    assert("needs_work"@.len() != "poor"@.len());
}

proof fn lemma_sums_remove(cs: Seq<CheckView>, j: int)
    requires
        0 <= j < cs.len(),
    ensures
        total_weight(cs) == total_weight(cs.remove(j)) + counted_weight(cs[j]),
        total_earned_halves(cs) == total_earned_halves(cs.remove(j)) + earned_halves(cs[j]),
{
    let a = cs.take(j);
    let b = cs.skip(j + 1);
    let x = seq![cs[j]];
    assert(cs =~= a + x + b);
    assert(cs.remove(j) =~= a + b);
    lemma_total_weight_append(a, x);
    lemma_total_weight_append(a + x, b);
    lemma_total_weight_append(a, b);
    lemma_earned_append(a, x);
    lemma_earned_append(a + x, b);
    lemma_earned_append(a, b);
    assert(x.drop_last() =~= Seq::<CheckView>::empty());
    assert(x.last() == cs[j]);
    assert(total_weight(Seq::<CheckView>::empty()) == 0);
    assert(total_earned_halves(Seq::<CheckView>::empty()) == 0);
}

proof fn lemma_sums_by_multiset(a: Seq<CheckView>, b: Seq<CheckView>)
    requires
        a.to_multiset() == b.to_multiset(),
    ensures
        total_weight(a) == total_weight(b),
        total_earned_halves(a) == total_earned_halves(b),
    decreases a.len(),
{
    broadcast use vstd::seq_lib::group_to_multiset_ensures, vstd::multiset::group_multiset_axioms;

    if a.len() == 0 {
        assert(b.to_multiset().len() == 0);
        assert(b.len() == 0);
        assert(a =~= b);
    } else {
        let x = a.last();
        let a2 = a.drop_last();
        assert(a2.push(x) =~= a);
        assert(a.to_multiset() == a2.to_multiset().insert(x));
        assert(b.to_multiset().count(x) > 0);
        assert(b.contains(x));
        let j = choose|j: int| 0 <= j < b.len() && b[j] == x;
        let b2 = b.remove(j);
        assert(b2.to_multiset() == b.to_multiset().remove(x));
        assert(a2.to_multiset() =~= b2.to_multiset());
        lemma_sums_by_multiset(a2, b2);
        lemma_sums_remove(b, j);
    }
}

/// The score does not depend on the order of the checks.
pub proof fn lemma_score_order_free(a: Seq<CheckView>, b: Seq<CheckView>)
    requires
        a.to_multiset() == b.to_multiset(),
    ensures
        score_of(a) == score_of(b),
{
    lemma_sums_by_multiset(a, b);
}

/// The ids of the checks of a full analysis, in order.
pub open spec fn analysis_ids() -> Seq<Seq<char>> {
    seq![
        "title_length"@,
        "title_keyword_position"@,
        "title_starts_with_keyword"@,
        "meta_description_length"@,
        "meta_starts_with_keyword"@,
        "focus_keyword_present"@,
        "focus_keyword_in_title"@,
        "focus_keyword_in_first_paragraph"@,
        "focus_keyword_in_content"@,
        "keyword_density"@,
        "keyword_in_meta_description"@,
        "keyword_in_h2"@,
        "keyword_in_slug"@,
        "content_length"@,
        "h2_count"@,
        "image_alt_coverage"@,
        "image_density"@,
        "slug_quality"@,
        "slug_uses_dashes"@,
        "slug_length"@,
        "internal_links"@,
        "outbound_links"@,
        "nofollow_outbound"@,
        "excessive_links"@,
        "paragraph_length"@,
        "sentence_length"@,
        "transition_words"@,
        "ending_consistency"@,
        "hanja_ratio"@,
        "informal_text"@,
    ]
}

proof fn lemma_analysis_ids_distinct()
    ensures
        forall|i: int, j: int| 0 <= i < j < 30 ==> analysis_ids()[i] != analysis_ids()[j],
{
    reveal_strlit("title_length");
    reveal_strlit("title_keyword_position");
    reveal_strlit("title_starts_with_keyword");
    reveal_strlit("meta_description_length");
    reveal_strlit("meta_starts_with_keyword");
    reveal_strlit("focus_keyword_present");
    reveal_strlit("focus_keyword_in_title");
    reveal_strlit("focus_keyword_in_first_paragraph");
    reveal_strlit("focus_keyword_in_content");
    reveal_strlit("keyword_density");
    reveal_strlit("keyword_in_meta_description");
    reveal_strlit("keyword_in_h2");
    reveal_strlit("keyword_in_slug");
    reveal_strlit("content_length");
    reveal_strlit("h2_count");
    reveal_strlit("image_alt_coverage");
    reveal_strlit("image_density");
    reveal_strlit("slug_quality");
    reveal_strlit("slug_uses_dashes");
    reveal_strlit("slug_length");
    reveal_strlit("internal_links");
    reveal_strlit("outbound_links");
    reveal_strlit("nofollow_outbound");
    reveal_strlit("excessive_links");
    reveal_strlit("paragraph_length");
    reveal_strlit("sentence_length");
    reveal_strlit("transition_words");
    reveal_strlit("ending_consistency");
    reveal_strlit("hanja_ratio");
    reveal_strlit("informal_text");
    assert("title_length"@.len() == 12);
    assert("title_length"@[0] == 't');
    assert("title_keyword_position"@.len() == 22);
    assert("title_keyword_position"@[0] == 't');
    assert("title_starts_with_keyword"@.len() == 25);
    assert("meta_description_length"@.len() == 23);
    assert("meta_starts_with_keyword"@.len() == 24);
    assert("meta_starts_with_keyword"@[0] == 'm');
    assert("focus_keyword_present"@.len() == 21);
    assert("focus_keyword_in_title"@.len() == 22);
    assert("focus_keyword_in_title"@[0] == 'f');
    assert("focus_keyword_in_first_paragraph"@.len() == 32);
    assert("focus_keyword_in_content"@.len() == 24);
    assert("focus_keyword_in_content"@[0] == 'f');
    assert("keyword_density"@.len() == 15);
    assert("keyword_density"@[0] == 'k');
    assert("keyword_density"@[8] == 'd');
    assert("keyword_in_meta_description"@.len() == 27);
    assert("keyword_in_h2"@.len() == 13);
    assert("keyword_in_h2"@[0] == 'k');
    assert("keyword_in_slug"@.len() == 15);
    assert("keyword_in_slug"@[0] == 'k');
    assert("keyword_in_slug"@[8] == 'i');
    assert("content_length"@.len() == 14);
    assert("content_length"@[0] == 'c');
    assert("h2_count"@.len() == 8);
    assert("image_alt_coverage"@.len() == 18);
    assert("image_alt_coverage"@[0] == 'i');
    assert("image_density"@.len() == 13);
    assert("image_density"@[0] == 'i');
    assert("image_density"@[1] == 'm');
    assert("slug_quality"@.len() == 12);
    assert("slug_quality"@[0] == 's');
    assert("slug_uses_dashes"@.len() == 16);
    assert("slug_uses_dashes"@[0] == 's');
    assert("slug_length"@.len() == 11);
    assert("slug_length"@[0] == 's');
    assert("internal_links"@.len() == 14);
    assert("internal_links"@[0] == 'i');
    assert("outbound_links"@.len() == 14);
    assert("outbound_links"@[0] == 'o');
    assert("nofollow_outbound"@.len() == 17);
    assert("excessive_links"@.len() == 15);
    assert("excessive_links"@[0] == 'e');
    assert("paragraph_length"@.len() == 16);
    assert("paragraph_length"@[0] == 'p');
    assert("sentence_length"@.len() == 15);
    assert("sentence_length"@[0] == 's');
    assert("transition_words"@.len() == 16);
    assert("transition_words"@[0] == 't');
    assert("ending_consistency"@.len() == 18);
    assert("ending_consistency"@[0] == 'e');
    assert("hanja_ratio"@.len() == 11);
    assert("hanja_ratio"@[0] == 'h');
    assert("informal_text"@.len() == 13);
    assert("informal_text"@[0] == 'i');
    assert("informal_text"@[1] == 'n');
}

/// Every check of a full analysis has its own id.
pub proof fn lemma_check_ids_distinct<C: KeywordCounter>(ctx: Ctx, counter: C)
    ensures
        analysis_checks(ctx, counter).len() == 30,
        forall|i: int, j: int| 0 <= i < j < 30 ==> analysis_checks(ctx, counter)[i].id != analysis_checks(ctx, counter)[j].id,
{
    let cs = analysis_checks(ctx, counter);
    assert(cs.map_values(|c: CheckView| c.id) =~= analysis_ids());
    lemma_analysis_ids_distinct();
    assert forall|i: int, j: int| 0 <= i < j < 30 implies cs[i].id != cs[j].id by {
        assert(cs.map_values(|c: CheckView| c.id)[i] == cs[i].id);
        assert(cs.map_values(|c: CheckView| c.id)[j] == cs[j].id);
    }
}

} // verus!
