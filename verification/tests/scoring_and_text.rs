use seo_for_korean::analyzer::ctx::{classify_href, count_links, LinkKind};
use seo_for_korean::analyzer::types::mk;
use seo_for_korean::analyzer::{compute_score, grade, Check, Status};
use seo_for_korean::text::{decimal_string, fixed1_string, percent_fixed2, round_even, trim_str};

fn check(status: Status, weight: u32) -> Check {
    mk("c", "c", status, String::new(), weight)
}

#[test]
fn score_all_pass_is_full() {
    let cs = vec![check(Status::Pass, 10), check(Status::Pass, 5), check(Status::Na, 10)];
    assert_eq!(compute_score(&cs), 100);
}

#[test]
fn score_all_fail_is_zero() {
    let cs = vec![check(Status::Fail, 10), check(Status::Na, 5)];
    assert_eq!(compute_score(&cs), 0);
}

#[test]
fn score_without_counted_checks_is_zero() {
    assert_eq!(compute_score(&[]), 0);
    assert_eq!(compute_score(&[check(Status::Na, 10)]), 0);
}

#[test]
fn score_warning_earns_half() {
    assert_eq!(compute_score(&[check(Status::Warning, 10)]), 50);
    let cs = vec![check(Status::Pass, 10), check(Status::Warning, 10), check(Status::Fail, 10)];
    assert_eq!(compute_score(&cs), 50);
}

#[test]
fn score_rounds_half_up() {
    assert_eq!(compute_score(&[check(Status::Pass, 1), check(Status::Fail, 7)]), 13);
    assert_eq!(compute_score(&[check(Status::Pass, 1), check(Status::Fail, 2)]), 33);
    assert_eq!(compute_score(&[check(Status::Pass, 2), check(Status::Fail, 1)]), 67);
}

#[test]
fn score_ignores_not_applicable_checks() {
    let a = vec![check(Status::Pass, 10), check(Status::Fail, 5)];
    let b = vec![check(Status::Pass, 10), check(Status::Na, 10), check(Status::Fail, 5)];
    assert_eq!(compute_score(&a), 67);
    assert_eq!(compute_score(&a), compute_score(&b));
}

#[test]
fn score_rises_with_better_status() {
    let fail = vec![check(Status::Fail, 10), check(Status::Pass, 5)];
    let warn = vec![check(Status::Warning, 10), check(Status::Pass, 5)];
    let pass = vec![check(Status::Pass, 10), check(Status::Pass, 5)];
    assert_eq!(compute_score(&fail), 33);
    assert_eq!(compute_score(&warn), 67);
    assert_eq!(compute_score(&pass), 100);
}

#[test]
fn grade_thresholds() {
    assert_eq!(grade(100), "great");
    assert_eq!(grade(85), "great");
    assert_eq!(grade(84), "good");
    assert_eq!(grade(65), "good");
    assert_eq!(grade(64), "needs_work");
    assert_eq!(grade(40), "needs_work");
    assert_eq!(grade(39), "poor");
    assert_eq!(grade(0), "poor");
}

#[test]
fn trim_matches_str_trim() {
    for s in ["  a b \n", "\u{3000}본문\u{3000}", "", "   ", "x", "\t\u{a0}y z\u{2029}"] {
        assert_eq!(trim_str(s), s.trim());
        assert_eq!(trim_str(&trim_str(s)), trim_str(s));
    }
}

#[test]
fn decimal_rendering() {
    assert_eq!(decimal_string(0), "0");
    assert_eq!(decimal_string(7), "7");
    assert_eq!(decimal_string(12345), "12345");
    assert_eq!(decimal_string(u64::MAX as u128), u64::MAX.to_string());
}

#[test]
fn rounding_halves_to_even() {
    assert_eq!(round_even(5, 2), 2);
    assert_eq!(round_even(7, 2), 4);
    assert_eq!(round_even(10, 4), 2);
    assert_eq!(round_even(11, 4), 3);
    assert_eq!(round_even(0, 3), 0);
}

#[test]
fn percent_with_two_decimals() {
    assert_eq!(percent_fixed2(40, 2000), "2.00");
    assert_eq!(percent_fixed2(1, 8), "12.50");
    assert_eq!(percent_fixed2(1, 3), "33.33");
    assert_eq!(percent_fixed2(2, 3), "66.67");
    assert_eq!(percent_fixed2(100, 20), "500.00");
    assert_eq!(percent_fixed2(0, 9), "0.00");
}

#[test]
fn percent_agrees_with_float_formatting() {
    for (x, den) in [(40u128, 2000u128), (1, 8), (1, 3), (2, 3), (1, 16), (1, 32), (3, 32), (7, 400), (100, 20), (5, 7)] {
        let f = x as f64 / den as f64 * 100.0;
        assert_eq!(percent_fixed2(x, den), format!("{:.2}", f), "{}/{}", x, den);
    }
}

#[test]
fn one_decimal_agrees_with_float_formatting() {
    for (num, den) in [(25u128, 10u128), (1, 3), (10, 4), (3, 4), (200, 7), (0, 5)] {
        let f = num as f64 / den as f64;
        assert_eq!(fixed1_string(num, den), format!("{:.1}", f), "{}/{}", num, den);
    }
}

#[test]
fn link_targets_are_classified() {
    assert_eq!(classify_href("/about"), LinkKind::Internal);
    assert_eq!(classify_href("page.html"), LinkKind::Internal);
    assert_eq!(classify_href(" https://example.com "), LinkKind::Outbound);
    assert_eq!(classify_href("http://example.com"), LinkKind::Outbound);
    assert_eq!(classify_href("//cdn.example.com/x.js"), LinkKind::Outbound);
    assert_eq!(classify_href("#top"), LinkKind::Ignored);
    assert_eq!(classify_href("javascript:void(0)"), LinkKind::Ignored);
    assert_eq!(classify_href("mailto:x@y"), LinkKind::Ignored);
    assert_eq!(classify_href("tel:010"), LinkKind::Ignored);
    assert_eq!(classify_href("   "), LinkKind::Ignored);
}

#[test]
fn link_counts_never_exceed_targets() {
    let html = r##"<p><a href="/about">about</a> <a href="https://example.com">ext</a> <a href="#top">anchor</a> <a href="mailto:x@y">m</a> <A HREF="/b">b</A></p>"##;
    let lc = count_links(html);
    assert_eq!(lc.internal, 2);
    assert_eq!(lc.outbound, 1);
    assert!(lc.internal + lc.outbound <= 5);
}
