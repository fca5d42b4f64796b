//! Title checks: length, keyword position, keyword at the start.

use vstd::prelude::*;
use vstd::string::StringSliceAdditionalSpecFns;
use crate::analyzer::ctx::Ctx;
use crate::analyzer::keyword::KeywordCounter;
use crate::analyzer::helpers::{lowercased, to_lowercase};
use crate::analyzer::types::{check_view, mk, views, Check, CheckView, Status};
use crate::text::{chars_of, decimal, has_prefix, round_ratio, starts_with_chars, with_number};

verus! {

/// The title-length check for a title of `len` characters.
pub open spec fn title_length_check(len: nat) -> CheckView {
    let id = "title_length"@;
    let label = "제목 길이"@;
    if len == 0 {
        check_view(id, label, Status::Fail, "제목이 비어 있습니다."@, 10)
    } else if len < 15 {
        check_view(id, label, Status::Fail, "제목이 너무 짧습니다 ("@ + decimal(len) + "자). 최소 15자 권장."@, 10)
    } else if len > 70 {
        check_view(id, label, Status::Warning, "제목이 너무 깁니다 ("@ + decimal(len) + "자). 검색 결과에서 잘릴 수 있습니다."@, 10)
    } else if len < 30 || len > 60 {
        check_view(id, label, Status::Warning, "제목 길이가 이상적이지 않습니다 ("@ + decimal(len) + "자). 30~60자 권장."@, 10)
    } else {
        check_view(id, label, Status::Pass, "제목 길이가 적절합니다 ("@ + decimal(len) + "자)."@, 10)
    }
}

/// The number of bytes UTF-8 takes for `c`.
pub open spec fn utf8_len(c: char) -> nat {
    let u = c as u32;
    if u < 0x80 {
        1
    } else if u < 0x800 {
        2
    } else if u < 0x10000 {
        3
    } else {
        4
    }
}

/// How many characters of `s` start before byte offset `byte` of its UTF-8
/// encoding (at a character boundary: the characters of the prefix).
pub open spec fn chars_before_byte(s: Seq<char>, byte: int) -> nat
    decreases s.len(),
{
    if s.len() == 0 || byte <= 0 {
        0
    } else {
        1 + chars_before_byte(s.drop_first(), byte - utf8_len(s[0]))
    }
}

/// The keyword-position check, given where the keyword first occurs in the
/// title (`None`: it does not occur; `Some(p)`: it starts at character `p`).
pub open spec fn title_keyword_position_given(ctx: Ctx, first: Option<nat>) -> CheckView {
    let id = "title_keyword_position"@;
    let label = "제목 내 키워드 위치"@;
    if ctx.focus_keyword@.len() == 0 || ctx.title_length == 0 {
        check_view(id, label, Status::Na, Seq::empty(), 5)
    } else {
        match first {
            None => check_view(id, label, Status::Fail, "제목에 키워드가 없습니다."@, 5),
            Some(pos) => {
                let percent = round_ratio(pos * 100, ctx.title_length as nat);
                if percent <= 30 {
                    check_view(id, label, Status::Pass, "키워드가 제목 앞부분 ("@ + decimal(percent) + "%)에 있습니다."@, 5)
                } else {
                    check_view(id, label, Status::Warning, "키워드가 제목의 "@ + decimal(percent) + "% 위치에 있습니다. 앞쪽으로 옮겨보세요."@, 5)
                }
            },
        }
    }
}

/// Where the matcher first finds the keyword in the title, in characters.
pub open spec fn title_keyword_first<C: KeywordCounter>(ctx: Ctx, counter: C) -> Option<nat> {
    match counter.first_found(ctx.title@, ctx.focus_keyword@) {
        None => None,
        Some(span) => Some(chars_before_byte(ctx.title@, span.0 as int)),
    }
}

/// The keyword-position check with the given matcher.
pub open spec fn title_keyword_position_check<C: KeywordCounter>(ctx: Ctx, counter: C) -> CheckView {
    title_keyword_position_given(ctx, title_keyword_first(ctx, counter))
}

/// The title-starts-with-keyword check.
pub open spec fn title_starts_with_keyword_check(ctx: Ctx) -> CheckView {
    let id = "title_starts_with_keyword"@;
    let label = "제목 시작 키워드"@;
    if ctx.focus_keyword@.len() == 0 || ctx.title@.len() == 0 {
        check_view(id, label, Status::Na, Seq::empty(), 5)
    } else if has_prefix(lowercased(ctx.title@), lowercased(ctx.focus_keyword@)) {
        check_view(id, label, Status::Pass, "제목이 키워드로 시작합니다."@, 5)
    } else {
        check_view(id, label, Status::Warning, "제목을 키워드로 시작하면 SEO에 더 효과적입니다."@, 5)
    }
}

/// The title checks, in order, with the given matcher.
pub open spec fn title_checks<C: KeywordCounter>(ctx: Ctx, counter: C) -> Seq<CheckView> {
    seq![
        title_length_check(ctx.title_length as nat),
        title_keyword_position_check(ctx, counter),
        title_starts_with_keyword_check(ctx),
    ]
}

/// Runs the title checks with the given matcher.
pub fn run<C: KeywordCounter>(ctx: &Ctx, counter: &C) -> (r: Vec<Check>)
    requires
        ctx.wf(),
    ensures
        views(r@) == title_checks(*ctx, *counter),
{
    let a = title_length(ctx);
    let b = title_keyword_position(ctx, counter);
    let c = title_starts_with_keyword(ctx);
    let r = vec![a, b, c];
    assert(views(r@) =~= title_checks(*ctx, *counter));
    r
}

/// Whether the title starts with the focus keyword, ignoring case.
pub fn title_starts_with_keyword(ctx: &Ctx) -> (c: Check)
    ensures
        c@ == title_starts_with_keyword_check(*ctx),
{
    if ctx.focus_keyword.as_str().unicode_len() == 0 || ctx.title.as_str().unicode_len() == 0 {
        return mk("title_starts_with_keyword", "제목 시작 키워드", Status::Na, String::new(), 5);
    }
    let title_l = to_lowercase(ctx.title.as_str());
    let kw_l = to_lowercase(ctx.focus_keyword.as_str());
    if starts_with_chars(&chars_of(title_l.as_str()), &chars_of(kw_l.as_str())) {
        mk(
            "title_starts_with_keyword",
            "제목 시작 키워드",
            Status::Pass,
            String::from_str("제목이 키워드로 시작합니다."),
            5,
        )
    } else {
        mk(
            "title_starts_with_keyword",
            "제목 시작 키워드",
            Status::Warning,
            String::from_str("제목을 키워드로 시작하면 SEO에 더 효과적입니다."),
            5,
        )
    }
}

/// The keyword-position check, given where the keyword first occurs in the
/// title, in characters.
pub fn title_keyword_position_from(ctx: &Ctx, first: Option<usize>) -> (c: Check)
    ensures
        c@ == title_keyword_position_given(
            *ctx,
            match first {
                None => None,
                Some(p) => Some(p as nat),
            },
        ),
{
    let id = "title_keyword_position";
    let label = "제목 내 키워드 위치";
    if ctx.focus_keyword.as_str().unicode_len() == 0 || ctx.title_length == 0 {
        return mk(id, label, Status::Na, String::new(), 5);
    }
    match first {
        None => mk(id, label, Status::Fail, String::from_str("제목에 키워드가 없습니다."), 5),
        Some(pos) => {
            let len = ctx.title_length as u128;
            let percent = (2 * (pos as u128) * 100 + len) / (2 * len);
            if percent <= 30 {
                mk(id, label, Status::Pass, with_number("키워드가 제목 앞부분 (", percent, "%)에 있습니다."), 5)
            } else {
                mk(id, label, Status::Warning, with_number("키워드가 제목의 ", percent, "% 위치에 있습니다. 앞쪽으로 옮겨보세요."), 5)
            }
        },
    }
}

/// The UTF-8 length of `c`.
fn char_utf8_len(c: char) -> (n: u128)
    ensures
        n == utf8_len(c),
{
    let u = c as u32;
    if u < 0x80 {
        1
    } else if u < 0x800 {
        2
    } else if u < 0x10000 {
        3
    } else {
        4
    }
}

/// How many characters of `s` start before byte offset `byte`.
pub fn chars_before(s: &str, byte: usize) -> (n: usize)
    ensures
        n == chars_before_byte(s@, byte as int),
{
    let v = chars_of(s);
    let mut i: usize = 0;
    let mut off: u128 = 0;
    assert(v@.skip(0) =~= v@);
    while i < v.len() && off < byte as u128
        invariant
            v@ == s@,
            i <= v.len(),
            off <= byte,
            i + chars_before_byte(v@.skip(i as int), byte - off) == chars_before_byte(s@, byte as int),
        decreases v.len() - i,
    {
        proof {
            assert(v@.skip(i as int).drop_first() =~= v@.skip(i + 1));
            assert(v@.skip(i as int)[0] == v@[i as int]);
        }
        let w = char_utf8_len(v[i]);
        if off + w > byte as u128 {
            proof {
                let rest = v@.skip(i + 1);
                assert(byte - (off + w) <= 0);
                assert(chars_before_byte(rest, byte - (off + w)) == 0);
            }
            i = i + 1;
            proof {
                assert(i + chars_before_byte(v@.skip(i as int), byte - (off + w)) == chars_before_byte(s@, byte as int));
            }
            return i;
        }
        off = off + w;
        i = i + 1;
    }
    proof {
        if i < v.len() {
            assert(byte - off <= 0);
        } else {
            assert(v@.skip(i as int).len() == 0);
        }
    }
    i
}

/// Where in the title the matcher first finds the focus keyword, as a
/// percentage of the title's length.
pub fn title_keyword_position<C: KeywordCounter>(ctx: &Ctx, counter: &C) -> (c: Check)
    ensures
        c@ == title_keyword_position_check(*ctx, *counter),
{
    if ctx.focus_keyword.as_str().unicode_len() == 0 || ctx.title_length == 0 {
        return title_keyword_position_from(ctx, None);
    }
    let first = match counter.find_first(ctx.title.as_str(), ctx.focus_keyword.as_str()) {
        None => None,
        Some(span) => Some(chars_before(ctx.title.as_str(), span.0)),
    };
    title_keyword_position_from(ctx, first)
}

/// The title-length check.
pub fn title_length(ctx: &Ctx) -> (c: Check)
    ensures
        c@ == title_length_check(ctx.title_length as nat),
{
    let len = ctx.title_length;
    let n = len as u128;
    let id = "title_length";
    let label = "제목 길이";
    if len == 0 {
        return mk(id, label, Status::Fail, String::from_str("제목이 비어 있습니다."), 10);
    }
    if len < 15 {
        return mk(id, label, Status::Fail, with_number("제목이 너무 짧습니다 (", n, "자). 최소 15자 권장."), 10);
    }
    if len > 70 {
        return mk(id, label, Status::Warning, with_number("제목이 너무 깁니다 (", n, "자). 검색 결과에서 잘릴 수 있습니다."), 10);
    }
    if len < 30 || len > 60 {
        return mk(id, label, Status::Warning, with_number("제목 길이가 이상적이지 않습니다 (", n, "자). 30~60자 권장."), 10);
    }
    mk(id, label, Status::Pass, with_number("제목 길이가 적절합니다 (", n, "자)."), 10)
}

} // verus!
