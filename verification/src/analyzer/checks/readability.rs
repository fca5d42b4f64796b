//! Korean readability heuristics: paragraph and sentence length, transition
//! words, consistency of sentence endings, Hanja share, chat-style markers.

use vstd::prelude::*;
use crate::analyzer::ctx::Ctx;
use crate::analyzer::helpers::{
    regex_capture_pairs, regex_captures, regex_find_all, regex_match_end_offsets, regex_match_ends,
    regex_match_texts, regex_pieces, regex_split, strip_html, stripped_text, HAEYO, HAPSYO,
    INFORMAL, P_INNER, SENTENCE_END, TRANSITIONS,
};
use crate::analyzer::types::{check_view, mk, views, Check, CheckView, Status};
use crate::text::{
    chars_of, count_if, decimal, fixed1, fixed1_string, is_white_space, is_white_space_char,
    max_of, push_number, round_ratio, sum_of, trim, trim_str,
};
use vstd::string::StringSliceAdditionalSpecFns;

verus! {

/// The visible length of a `<p>` element (whole match, inner HTML).
pub open spec fn paragraph_chars(p: (Seq<char>, Seq<char>)) -> nat {
    stripped_text(p.1).len()
}

/// The `<p>` elements of `html`.
pub open spec fn paragraphs(html: Seq<char>) -> Seq<(Seq<char>, Seq<char>)> {
    regex_capture_pairs(P_INNER@, html)
}

/// The paragraph-length check: paragraphs over 500 visible characters warn;
/// paragraphs without visible text are ignored.
pub open spec fn paragraph_length_check(ctx: Ctx) -> CheckView {
    let id = "paragraph_length"@;
    let label = "문단 길이"@;
    let ps = paragraphs(ctx.content_html@);
    let non_empty = count_if(ps, |p: (Seq<char>, Seq<char>)| paragraph_chars(p) > 0);
    let max = max_of(ps, |p: (Seq<char>, Seq<char>)| paragraph_chars(p));
    let too_long = count_if(ps, |p: (Seq<char>, Seq<char>)| paragraph_chars(p) > 500);
    if non_empty == 0 {
        check_view(id, label, Status::Na, "문단이 없습니다."@, 5)
    } else if too_long > 0 {
        check_view(id, label, Status::Warning, decimal(too_long) + "개 문단이 500자보다 깁니다 (최대 "@ + decimal(max) + "자). 가독성을 위해 분할하세요."@, 5)
    } else {
        check_view(id, label, Status::Pass, "문단 길이가 적절합니다 (최대 "@ + decimal(max) + "자)."@, 5)
    }
}

/// The pieces the visible text splits into at sentence-ending punctuation.
pub open spec fn sentence_pieces(ctx: Ctx) -> Seq<Seq<char>> {
    regex_pieces(SENTENCE_END@, ctx.content_text@)
}

/// How many sentences (pieces with visible characters) there are.
pub open spec fn sentence_count(pieces: Seq<Seq<char>>) -> nat {
    count_if(pieces, |p: Seq<char>| trim(p).len() > 0)
}

/// The sentence-length check: too many sentences over 80 characters warn.
pub open spec fn sentence_length_check(ctx: Ctx) -> CheckView {
    let id = "sentence_length"@;
    let label = "문장 길이"@;
    let pieces = sentence_pieces(ctx);
    let total = sentence_count(pieces);
    let chars = sum_of(pieces, |p: Seq<char>| trim(p).len());
    let over = count_if(pieces, |p: Seq<char>| trim(p).len() > 80);
    let avg = chars / total;
    if ctx.content_length == 0 || total == 0 {
        check_view(id, label, Status::Na, Seq::empty(), 5)
    } else if over > total / 4 && over > 0 {
        check_view(id, label, Status::Warning, "긴 문장이 많습니다 ("@ + decimal(over) + "/"@ + decimal(total) + " 문장이 80자 초과). 평균 "@ + decimal(avg) + "자."@, 5)
    } else {
        check_view(id, label, Status::Pass, "문장 길이가 적절합니다 (평균 "@ + decimal(avg) + "자, 총 "@ + decimal(total) + " 문장)."@, 5)
    }
}

/// A character that may stand around a transition word: white space or
/// one of `, ( ) [ ] 。 . ! ?`.
pub open spec fn is_transition_boundary(c: char) -> bool {
    is_white_space(c) || c == ',' || c == '(' || c == ')' || c == '[' || c == ']' || c == '。'
        || c == '.' || c == '!' || c == '?'
}

/// The characters of `s` from byte offset `byte` of its UTF-8 encoding on.
pub open spec fn chars_after_byte(s: Seq<char>, byte: int) -> Seq<char> {
    vstd::utf8::decode_utf8(
        vstd::utf8::encode_utf8(s).subrange(byte, vstd::utf8::encode_utf8(s).len() as int),
    )
}

/// The text ends at byte offset `byte`, or a boundary character follows it.
pub open spec fn transition_boundary_follows(text: Seq<char>, byte: usize) -> bool {
    let rest = chars_after_byte(text, byte as int);
    rest.len() == 0 || is_transition_boundary(rest[0])
}

/// The transition words of `text`: matches of the pattern (a boundary
/// before the word) that a boundary also follows.
pub open spec fn transition_count(text: Seq<char>) -> nat {
    count_if(
        regex_match_end_offsets(TRANSITIONS@, text),
        |e: usize| transition_boundary_follows(text, e),
    )
}

/// The transition-word check: transition words per sentence, as a rounded
/// percentage; under 5% warns.
pub open spec fn transition_words_check(ctx: Ctx) -> CheckView {
    let id = "transition_words"@;
    let label = "접속어 사용"@;
    let count = transition_count(ctx.content_text@);
    let sentences = sentence_count(sentence_pieces(ctx));
    let ratio = round_ratio(count * 100, sentences);
    if ctx.content_length < 200 {
        check_view(id, label, Status::Na, "본문이 짧아 평가 생략."@, 5)
    } else if sentences == 0 {
        check_view(id, label, Status::Na, Seq::empty(), 5)
    } else if count == 0 {
        check_view(id, label, Status::Warning, "접속어(그러나/따라서/즉 등)가 없습니다. 글의 흐름을 매끄럽게 해보세요."@, 5)
    } else if ratio < 5 {
        check_view(id, label, Status::Warning, "접속어가 적습니다 ("@ + decimal(count) + "회, 문장의 "@ + decimal(ratio) + "%). 더 추가하면 가독성이 좋아집니다."@, 5)
    } else {
        check_view(id, label, Status::Pass, "접속어를 잘 사용했습니다 ("@ + decimal(count) + "회, 문장의 "@ + decimal(ratio) + "%)."@, 5)
    }
}

/// The ending-consistency check: the share of the dominant sentence-ending
/// style (해요체 or 합쇼체), as a rounded percentage.
pub open spec fn ending_consistency_check(ctx: Ctx) -> CheckView {
    let id = "ending_consistency"@;
    let label = "어미 일관성"@;
    let haeyo = regex_match_texts(HAEYO@, ctx.content_text@).len();
    let hapsyo = regex_match_texts(HAPSYO@, ctx.content_text@).len();
    let total = haeyo + hapsyo;
    let dominant = if haeyo >= hapsyo { haeyo } else { hapsyo };
    let minor = if haeyo >= hapsyo { hapsyo } else { haeyo };
    let consistency = round_ratio(dominant * 100, total);
    let style = if haeyo >= hapsyo { "해요체"@ } else { "합쇼체"@ };
    if ctx.content_length < 200 {
        check_view(id, label, Status::Na, "본문이 짧아 평가 생략."@, 5)
    } else if total < 3 {
        check_view(id, label, Status::Na, "어미가 적어 평가 생략."@, 5)
    } else if consistency >= 90 {
        check_view(id, label, Status::Pass, style + " 일관됨 ("@ + decimal(consistency) + "%)."@, 5)
    } else if consistency >= 70 {
        check_view(id, label, Status::Warning, style + " 위주이나 다른 어미 "@ + decimal(minor) + "회 섞여 있습니다 ("@ + decimal(consistency) + "%)."@, 5)
    } else {
        check_view(id, label, Status::Fail, "해요체("@ + decimal(haeyo) + ")와 합쇼체("@ + decimal(hapsyo) + ") 혼용. 일관된 어조 권장."@, 5)
    }
}

/// A CJK unified ideograph (U+4E00..U+9FFF or Extension A, U+3400..U+4DBF).
pub open spec fn is_hanja(c: char) -> bool {
    (0x4E00 <= c as u32 <= 0x9FFF) || (0x3400 <= c as u32 <= 0x4DBF)
}

/// The Hanja check: over 5% Hanja characters warns.
pub open spec fn hanja_ratio_check(ctx: Ctx) -> CheckView {
    let id = "hanja_ratio"@;
    let label = "한자 사용"@;
    let len = ctx.content_length as nat;
    let hanja = count_if(ctx.content_text@, |c: char| is_hanja(c));
    let r = fixed1(100 * hanja, len);
    if len < 200 {
        check_view(id, label, Status::Na, "본문이 짧아 평가 생략."@, 5)
    } else if hanja == 0 {
        check_view(id, label, Status::Pass, "한자 사용 없음 (한국어 독자에게 친화적)."@, 5)
    } else if 20 * hanja > len {
        check_view(id, label, Status::Warning, "한자 비율 "@ + r + "% (높음). 일반 독자에게 어려울 수 있습니다."@, 5)
    } else {
        check_view(id, label, Status::Pass, "한자 비율 "@ + r + "% (적절)."@, 5)
    }
}

/// The chat-style check: any marker warns, three or more fail.
pub open spec fn informal_text_check(ctx: Ctx) -> CheckView {
    let id = "informal_text"@;
    let label = "구어체/채팅체"@;
    let count = regex_match_texts(INFORMAL@, ctx.content_text@).len();
    if ctx.content_length < 100 {
        check_view(id, label, Status::Na, "본문이 짧아 평가 생략."@, 5)
    } else if count == 0 {
        check_view(id, label, Status::Pass, "구어체/채팅체 없음."@, 5)
    } else if count >= 3 {
        check_view(id, label, Status::Fail, "구어체/채팅체가 "@ + decimal(count) + "회 등장 (ㅋㅋ/ㅠㅠ/헐 등). SEO 글에는 권장되지 않습니다."@, 5)
    } else {
        check_view(id, label, Status::Warning, "구어체/채팅체 "@ + decimal(count) + "회 등장. 정식 글에서는 자제하세요."@, 5)
    }
}

/// The readability checks, in order.
pub open spec fn readability_checks(ctx: Ctx) -> Seq<CheckView> {
    seq![
        paragraph_length_check(ctx),
        sentence_length_check(ctx),
        transition_words_check(ctx),
        ending_consistency_check(ctx),
        hanja_ratio_check(ctx),
        informal_text_check(ctx),
    ]
}

/// Runs the readability checks.
pub fn run(ctx: &Ctx) -> (r: Vec<Check>)
    requires
        ctx.wf(),
    ensures
        views(r@) == readability_checks(*ctx),
{
    let a = paragraph_length(ctx);
    let b = sentence_length(ctx);
    let c = transition_words(ctx);
    let d = ending_consistency(ctx);
    let e = hanja_ratio(ctx);
    let f = informal_text(ctx);
    let r = vec![a, b, c, d, e, f];
    assert(views(r@) =~= readability_checks(*ctx));
    r
}

/// Counts the Hanja characters of the visible text.
pub fn hanja_ratio(ctx: &Ctx) -> (c: Check)
    requires
        ctx.wf(),
    ensures
        c@ == hanja_ratio_check(*ctx),
{
    let id = "hanja_ratio";
    let label = "한자 사용";
    if ctx.content_length < 200 {
        return mk(id, label, Status::Na, String::from_str("본문이 짧아 평가 생략."), 5);
    }
    let chars = chars_of(ctx.content_text.as_str());
    let ghost f = |c: char| is_hanja(c);
    let mut hanja: usize = 0;
    let mut i: usize = 0;
    while i < chars.len()
        invariant
            chars@ == ctx.content_text@,
            f == (|c: char| is_hanja(c)),
            i <= chars.len(),
            hanja == count_if(chars@.take(i as int), f),
            hanja <= i,
        decreases chars.len() - i,
    {
        assert(chars@.take(i + 1).drop_last() =~= chars@.take(i as int));
        let code = chars[i] as u32;
        if (0x4E00 <= code && code <= 0x9FFF) || (0x3400 <= code && code <= 0x4DBF) {
            hanja = hanja + 1;
        }
        i = i + 1;
    }
    assert(chars@.take(chars.len() as int) =~= chars@);
    if hanja == 0 {
        return mk(id, label, Status::Pass, String::from_str("한자 사용 없음 (한국어 독자에게 친화적)."), 5);
    }
    let len = ctx.content_length as u128;
    let h = hanja as u128;
    proof {
        assert(usize::MAX <= 0xffff_ffff_ffff_ffffu64);
    }
    let r = fixed1_string(100 * h, len);
    if 20 * h > len {
        let mut msg = String::from_str("한자 비율 ");
        msg.append(r.as_str());
        msg.append("% (높음). 일반 독자에게 어려울 수 있습니다.");
        mk(id, label, Status::Warning, msg, 5)
    } else {
        let mut msg = String::from_str("한자 비율 ");
        msg.append(r.as_str());
        msg.append("% (적절).");
        mk(id, label, Status::Pass, msg, 5)
    }
}

/// Counts chat-style markers in the visible text.
pub fn informal_text(ctx: &Ctx) -> (c: Check)
    ensures
        c@ == informal_text_check(*ctx),
{
    let id = "informal_text";
    let label = "구어체/채팅체";
    if ctx.content_length < 100 {
        return mk(id, label, Status::Na, String::from_str("본문이 짧아 평가 생략."), 5);
    }
    let count = regex_find_all(INFORMAL, ctx.content_text.as_str()).len() as u128;
    if count == 0 {
        return mk(id, label, Status::Pass, String::from_str("구어체/채팅체 없음."), 5);
    }
    if count >= 3 {
        return mk(id, label, Status::Fail, crate::text::with_number("구어체/채팅체가 ", count, "회 등장 (ㅋㅋ/ㅠㅠ/헐 등). SEO 글에는 권장되지 않습니다."), 5);
    }
    mk(id, label, Status::Warning, crate::text::with_number("구어체/채팅체 ", count, "회 등장. 정식 글에서는 자제하세요."), 5)
}

/// Paragraph statistics: paragraphs with visible text, the longest, and
/// those over 500 characters.
fn paragraph_stats(html: &str) -> (r: (u128, u128, u128))
    ensures
        r.0 == count_if(paragraphs(html@), |p: (Seq<char>, Seq<char>)| paragraph_chars(p) > 0),
        r.1 == max_of(paragraphs(html@), |p: (Seq<char>, Seq<char>)| paragraph_chars(p)),
        r.2 == count_if(paragraphs(html@), |p: (Seq<char>, Seq<char>)| paragraph_chars(p) > 500),
{
    let caps = regex_captures(P_INNER, html);
    let ghost ps = paragraphs(html@);
    let ghost fne = |p: (Seq<char>, Seq<char>)| paragraph_chars(p) > 0;
    let ghost flen = |p: (Seq<char>, Seq<char>)| paragraph_chars(p);
    let ghost flong = |p: (Seq<char>, Seq<char>)| paragraph_chars(p) > 500;
    let mut non_empty: u128 = 0;
    let mut max: u128 = 0;
    let mut too_long: u128 = 0;
    let mut i: usize = 0;
    while i < caps.len()
        invariant
            caps.deep_view() == ps,
            ps == paragraphs(html@),
            fne == (|p: (Seq<char>, Seq<char>)| paragraph_chars(p) > 0),
            flen == (|p: (Seq<char>, Seq<char>)| paragraph_chars(p)),
            flong == (|p: (Seq<char>, Seq<char>)| paragraph_chars(p) > 500),
            i <= caps.len(),
            non_empty == count_if(ps.take(i as int), fne),
            max == max_of(ps.take(i as int), flen),
            too_long == count_if(ps.take(i as int), flong),
            non_empty <= i,
            too_long <= i,
            max <= usize::MAX,
        decreases caps.len() - i,
    {
        assert(ps[i as int] == caps@[i as int].deep_view()) by {
            assert(caps.deep_view()[i as int] == caps@[i as int].deep_view());
        }
        assert(ps.take(i + 1).drop_last() =~= ps.take(i as int));
        let l = strip_html(caps[i].1.as_str()).as_str().unicode_len() as u128;
        if l > 0 {
            non_empty = non_empty + 1;
        }
        if l > max {
            max = l;
        }
        if l > 500 {
            too_long = too_long + 1;
        }
        i = i + 1;
    }
    assert(ps.take(caps.len() as int) =~= ps);
    (non_empty, max, too_long)
}

/// Flags paragraphs longer than 500 visible characters.
pub fn paragraph_length(ctx: &Ctx) -> (c: Check)
    ensures
        c@ == paragraph_length_check(*ctx),
{
    let id = "paragraph_length";
    let label = "문단 길이";
    let (non_empty, max, too_long) = paragraph_stats(ctx.content_html.as_str());
    if non_empty == 0 {
        return mk(id, label, Status::Na, String::from_str("문단이 없습니다."), 5);
    }
    if too_long > 0 {
        let mut msg = crate::text::decimal_string(too_long);
        msg.append("개 문단이 500자보다 깁니다 (최대 ");
        push_number(&mut msg, max);
        msg.append("자). 가독성을 위해 분할하세요.");
        mk(id, label, Status::Warning, msg, 5)
    } else {
        mk(id, label, Status::Pass, crate::text::with_number("문단 길이가 적절합니다 (최대 ", max, "자)."), 5)
    }
}

/// Sentence statistics over the pieces of a split text: how many have
/// visible characters, their total length, and how many exceed 80.
fn sentence_stats(pieces: &Vec<String>) -> (r: (u128, u128, u128))
    ensures
        r.0 == sentence_count(pieces.deep_view()),
        r.1 == sum_of(pieces.deep_view(), |p: Seq<char>| trim(p).len()),
        r.2 == count_if(pieces.deep_view(), |p: Seq<char>| trim(p).len() > 80),
        r.2 <= r.0 <= usize::MAX,
{
    let ghost ps = pieces.deep_view();
    let ghost fne = |p: Seq<char>| trim(p).len() > 0;
    let ghost flen = |p: Seq<char>| trim(p).len();
    let ghost flong = |p: Seq<char>| trim(p).len() > 80;
    let mut count: u128 = 0;
    let mut chars: u128 = 0;
    let mut over: u128 = 0;
    let mut i: usize = 0;
    while i < pieces.len()
        invariant
            ps == pieces.deep_view(),
            fne == (|p: Seq<char>| trim(p).len() > 0),
            flen == (|p: Seq<char>| trim(p).len()),
            flong == (|p: Seq<char>| trim(p).len() > 80),
            i <= pieces.len(),
            count == count_if(ps.take(i as int), fne),
            chars == sum_of(ps.take(i as int), flen),
            over == count_if(ps.take(i as int), flong),
            count <= i,
            over <= count,
            chars <= i * 0xffff_ffff_ffff_ffffnat,
        decreases pieces.len() - i,
    {
        assert(ps[i as int] == pieces@[i as int]@) by {
            assert(pieces.deep_view()[i as int] == pieces@[i as int].deep_view());
        }
        assert(ps.take(i + 1).drop_last() =~= ps.take(i as int));
        let l = trim_str(pieces[i].as_str()).as_str().unicode_len() as u128;
        proof {
            assert(usize::MAX <= 0xffff_ffff_ffff_ffffu64);
            assert(chars + l <= (i + 1) * 0xffff_ffff_ffff_ffffnat) by (nonlinear_arith)
                requires chars <= i * 0xffff_ffff_ffff_ffffnat, l <= 0xffff_ffff_ffff_ffffnat;
            assert((i + 1) * 0xffff_ffff_ffff_ffffnat < 0x1_0000_0000_0000_0000_0000_0000_0000_0000nat) by (nonlinear_arith)
                requires i < 0xffff_ffff_ffff_ffffnat;
        }
        chars = chars + l;
        if l > 0 {
            count = count + 1;
        }
        if l > 80 {
            over = over + 1;
        }
        i = i + 1;
    }
    assert(ps.take(pieces.len() as int) =~= ps);
    (count, chars, over)
}

/// Average sentence length and the share of sentences over 80 characters.
pub fn sentence_length(ctx: &Ctx) -> (c: Check)
    ensures
        c@ == sentence_length_check(*ctx),
{
    let id = "sentence_length";
    let label = "문장 길이";
    if ctx.content_length == 0 {
        return mk(id, label, Status::Na, String::new(), 5);
    }
    let pieces = regex_split(SENTENCE_END, ctx.content_text.as_str());
    let (total, chars, over) = sentence_stats(&pieces);
    if total == 0 {
        return mk(id, label, Status::Na, String::new(), 5);
    }
    let avg = chars / total;
    if over > total / 4 && over > 0 {
        let mut msg = String::from_str("긴 문장이 많습니다 (");
        push_number(&mut msg, over);
        msg.append("/");
        push_number(&mut msg, total);
        msg.append(" 문장이 80자 초과). 평균 ");
        push_number(&mut msg, avg);
        msg.append("자.");
        mk(id, label, Status::Warning, msg, 5)
    } else {
        let mut msg = String::from_str("문장 길이가 적절합니다 (평균 ");
        push_number(&mut msg, avg);
        msg.append("자, 총 ");
        push_number(&mut msg, total);
        msg.append(" 문장).");
        mk(id, label, Status::Pass, msg, 5)
    }
}

/// Whether `c` may stand around a transition word.
fn is_transition_boundary_char(c: char) -> (b: bool)
    ensures
        b == is_transition_boundary(c),
{
    is_white_space_char(c) || c == ',' || c == '(' || c == ')' || c == '[' || c == ']' || c
        == '。' || c == '.' || c == '!' || c == '?'
}

/// How many transition words `text` holds, with a boundary on both sides.
pub fn count_transitions(text: &str) -> (n: usize)
    ensures
        n == transition_count(text@),
{
    let ends = regex_match_ends(TRANSITIONS, text);
    let ghost f = |e: usize| transition_boundary_follows(text@, e);
    let mut n: usize = 0;
    let mut i: usize = 0;
    while i < ends.len()
        invariant
            ends@ == regex_match_end_offsets(TRANSITIONS@, text@),
            forall|k: int| 0 <= k < ends@.len() ==> {
                &&& #[trigger] ends@[k] <= text.spec_bytes().len()
                &&& vstd::utf8::is_char_boundary(text.spec_bytes(), ends@[k] as int)
            },
            f == (|e: usize| transition_boundary_follows(text@, e)),
            i <= ends.len(),
            n <= i,
            n == count_if(ends@.take(i as int), f),
        decreases ends.len() - i,
    {
        assert(ends@.take(i + 1).drop_last() =~= ends@.take(i as int));
        let e = ends[i];
        assert(ends@[i as int] <= text.spec_bytes().len());
        let (_, rest) = text.split_at(e);
        proof {
            vstd::utf8::encode_utf8_decode_utf8(rest@);
            assert(rest@ == chars_after_byte(text@, e as int));
        }
        let follows = rest.unicode_len() == 0 || is_transition_boundary_char(rest.get_char(0));
        if follows {
            n = n + 1;
        }
        i = i + 1;
    }
    assert(ends@.take(ends.len() as int) =~= ends@);
    n
}

/// Transition words per sentence.
pub fn transition_words(ctx: &Ctx) -> (c: Check)
    ensures
        c@ == transition_words_check(*ctx),
{
    let id = "transition_words";
    let label = "접속어 사용";
    if ctx.content_length < 200 {
        return mk(id, label, Status::Na, String::from_str("본문이 짧아 평가 생략."), 5);
    }
    let count = count_transitions(ctx.content_text.as_str()) as u128;
    let pieces = regex_split(SENTENCE_END, ctx.content_text.as_str());
    let (sentences, _, _) = sentence_stats(&pieces);
    if sentences == 0 {
        return mk(id, label, Status::Na, String::new(), 5);
    }
    proof {
        assert(usize::MAX <= 0xffff_ffff_ffff_ffffu64);
    }
    let ratio = (2 * (count * 100) + sentences) / (2 * sentences);
    if count == 0 {
        return mk(
            id,
            label,
            Status::Warning,
            String::from_str("접속어(그러나/따라서/즉 등)가 없습니다. 글의 흐름을 매끄럽게 해보세요."),
            5,
        );
    }
    if ratio < 5 {
        let mut msg = String::from_str("접속어가 적습니다 (");
        push_number(&mut msg, count);
        msg.append("회, 문장의 ");
        push_number(&mut msg, ratio);
        msg.append("%). 더 추가하면 가독성이 좋아집니다.");
        return mk(id, label, Status::Warning, msg, 5);
    }
    let mut msg = String::from_str("접속어를 잘 사용했습니다 (");
    push_number(&mut msg, count);
    msg.append("회, 문장의 ");
    push_number(&mut msg, ratio);
    msg.append("%).");
    mk(id, label, Status::Pass, msg, 5)
}

/// Whether the text keeps to one sentence-ending style.
pub fn ending_consistency(ctx: &Ctx) -> (c: Check)
    ensures
        c@ == ending_consistency_check(*ctx),
{
    let id = "ending_consistency";
    let label = "어미 일관성";
    if ctx.content_length < 200 {
        return mk(id, label, Status::Na, String::from_str("본문이 짧아 평가 생략."), 5);
    }
    let haeyo = regex_find_all(HAEYO, ctx.content_text.as_str()).len() as u128;
    let hapsyo = regex_find_all(HAPSYO, ctx.content_text.as_str()).len() as u128;
    let total = haeyo + hapsyo;
    if total < 3 {
        return mk(id, label, Status::Na, String::from_str("어미가 적어 평가 생략."), 5);
    }
    let dominant = if haeyo >= hapsyo {
        haeyo
    } else {
        hapsyo
    };
    let minor = if haeyo >= hapsyo {
        hapsyo
    } else {
        haeyo
    };
    proof {
        assert(usize::MAX <= 0xffff_ffff_ffff_ffffu64);
    }
    let consistency = (2 * (dominant * 100) + total) / (2 * total);
    let style = if haeyo >= hapsyo {
        "해요체"
    } else {
        "합쇼체"
    };
    if consistency >= 90 {
        let mut msg = String::from_str(style);
        msg.append(" 일관됨 (");
        push_number(&mut msg, consistency);
        msg.append("%).");
        mk(id, label, Status::Pass, msg, 5)
    } else if consistency >= 70 {
        let mut msg = String::from_str(style);
        msg.append(" 위주이나 다른 어미 ");
        push_number(&mut msg, minor);
        msg.append("회 섞여 있습니다 (");
        push_number(&mut msg, consistency);
        msg.append("%).");
        mk(id, label, Status::Warning, msg, 5)
    } else {
        let mut msg = String::from_str("해요체(");
        push_number(&mut msg, haeyo);
        msg.append(")와 합쇼체(");
        push_number(&mut msg, hapsyo);
        msg.append(") 혼용. 일관된 어조 권장.");
        mk(id, label, Status::Fail, msg, 5)
    }
}

/// With 200 or more characters and at least three recognized endings, the
/// check depends on the share of the more frequent style: it passes from
/// 89.5% (rounded to 90%), fails below 69.5% (rounded under 70%), and warns
/// between. In particular equal numbers of both styles always fail.
pub proof fn lemma_ending_mix_decides(ctx: Ctx)
    requires
        ctx.content_length >= 200,
        regex_match_texts(HAEYO@, ctx.content_text@).len() + regex_match_texts(HAPSYO@, ctx.content_text@).len() >= 3,
    ensures
        ({
            let h = regex_match_texts(HAEYO@, ctx.content_text@).len();
            let f = regex_match_texts(HAPSYO@, ctx.content_text@).len();
            let larger = if f > h { f } else { h };
            &&& (ending_consistency_check(ctx).status == Status::Pass <==> 200 * larger >= 179 * (h + f))
            &&& (ending_consistency_check(ctx).status == Status::Fail <==> 200 * larger < 139 * (h + f))
            &&& (h == f ==> ending_consistency_check(ctx).status == Status::Fail)
        }),
{
    let h = regex_match_texts(HAEYO@, ctx.content_text@).len();
    let f = regex_match_texts(HAPSYO@, ctx.content_text@).len();
    let t = h + f;
    let larger = if f > h { f } else { h };
    let c = round_ratio(larger * 100, t);
    assert(c == (200 * larger + t) / (2 * t));
    assert(c >= 90 <==> 200 * larger >= 179 * t) by (nonlinear_arith)
        requires c == (200 * larger + t) / (2 * t), t >= 3;
    assert(c >= 70 <==> 200 * larger >= 139 * t) by (nonlinear_arith)
        requires c == (200 * larger + t) / (2 * t), t >= 3;
}

} // verus!
