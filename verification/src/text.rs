//! Verified character-level string utilities: whitespace trimming, prefix and
//! substring tests, decimal rendering of numbers and fixed-point percentages.

use vstd::prelude::*;

verus! {

/// The Unicode `White_Space` property, the definition `str::trim` and
/// `char::is_whitespace` use.
pub open spec fn is_white_space(c: char) -> bool {
    let u = c as u32;
    ||| 0x09 <= u <= 0x0D
    ||| u == 0x20
    ||| u == 0x85
    ||| u == 0xA0
    ||| u == 0x1680
    ||| 0x2000 <= u <= 0x200A
    ||| u == 0x2028
    ||| u == 0x2029
    ||| u == 0x202F
    ||| u == 0x205F
    ||| u == 0x3000
}

/// `s` without its leading white space.
pub open spec fn trim_start(s: Seq<char>) -> Seq<char>
    decreases s.len(),
{
    if s.len() > 0 && is_white_space(s[0]) {
        trim_start(s.drop_first())
    } else {
        s
    }
}

/// `s` without its trailing white space.
pub open spec fn trim_end(s: Seq<char>) -> Seq<char>
    decreases s.len(),
{
    if s.len() > 0 && is_white_space(s.last()) {
        trim_end(s.drop_last())
    } else {
        s
    }
}

/// `s` without leading and trailing white space (what `str::trim` returns).
pub open spec fn trim(s: Seq<char>) -> Seq<char> {
    trim_end(trim_start(s))
}

/// `p` is a prefix of `s`.
pub open spec fn has_prefix(s: Seq<char>, p: Seq<char>) -> bool {
    p.len() <= s.len() && s.subrange(0, p.len() as int) == p
}

/// `p` occurs in `s` as a contiguous run of characters.
pub open spec fn has_infix(s: Seq<char>, p: Seq<char>) -> bool {
    exists|i: int| 0 <= i && i + p.len() <= s.len() && #[trigger] s.subrange(i, i + p.len()) == p
}

/// The decimal digit character for `d` (`0 <= d < 10`).
pub open spec fn digit_char(d: nat) -> char {
    if d == 0 { '0' }
    else if d == 1 { '1' }
    else if d == 2 { '2' }
    else if d == 3 { '3' }
    else if d == 4 { '4' }
    else if d == 5 { '5' }
    else if d == 6 { '6' }
    else if d == 7 { '7' }
    else if d == 8 { '8' }
    else { '9' }
}

/// The decimal rendering of `n`, without leading zeros (what `{}` prints for
/// an unsigned integer).
pub open spec fn decimal(n: nat) -> Seq<char>
    decreases n,
{
    if n < 10 {
        seq![digit_char(n)]
    } else {
        decimal(n / 10).push(digit_char(n % 10))
    }
}

/// `n` rendered with exactly two digits (`n < 100`), as `{:02}` prints it.
pub open spec fn two_digits(n: nat) -> Seq<char> {
    seq![digit_char(n / 10), digit_char(n % 10)]
}

/// `num / den` rounded to the nearest integer, halves rounded up.
pub open spec fn round_ratio(num: nat, den: nat) -> nat
    recommends
        den > 0,
{
    ((2 * num + den) / (2 * den)) as nat
}

/// `num / den` rounded to the nearest integer, halves rounded to the even
/// neighbour.
pub open spec fn round_ratio_even(num: nat, den: nat) -> nat
    recommends
        den > 0,
{
    let q = num / den;
    let r = num % den;
    if 2 * r > den || (2 * r == den && q % 2 == 1) {
        (q + 1) as nat
    } else {
        q
    }
}

/// `num / den` with two decimals, as `{:.2}` prints it.
pub open spec fn fixed2(num: nat, den: nat) -> Seq<char>
    recommends
        den > 0,
{
    let hundredths = round_ratio_even(100 * num, den);
    decimal(hundredths / 100) + seq!['.'] + two_digits(hundredths % 100)
}

/// `num / den` with one decimal, as `{:.1}` prints it.
pub open spec fn fixed1(num: nat, den: nat) -> Seq<char>
    recommends
        den > 0,
{
    let tenths = round_ratio_even(10 * num, den);
    decimal(tenths / 10) + seq!['.'] + seq![digit_char(tenths % 10)]
}

/// Whether `c` is white space.
pub fn is_white_space_char(c: char) -> (b: bool)
    ensures
        b == is_white_space(c),
{
    let u = c as u32;
    (0x09 <= u && u <= 0x0D) || u == 0x20 || u == 0x85 || u == 0xA0 || u == 0x1680 || (0x2000
        <= u && u <= 0x200A) || u == 0x2028 || u == 0x2029 || u == 0x202F || u == 0x205F || u
        == 0x3000
}

/// The characters of `s`, in order.
pub fn chars_of(s: &str) -> (v: Vec<char>)
    ensures
        v@ == s@,
{
    let mut v: Vec<char> = Vec::new();
    for c in it: s.chars()
        invariant
            v@ == it.seq().take(it.index() as int),
    {
        v.push(c);
    }
    v
}

proof fn lemma_trim_start_skip(s: Seq<char>, i: int)
    requires
        0 <= i <= s.len(),
        forall|j: int| 0 <= j < i ==> is_white_space(#[trigger] s[j]),
    ensures
        trim_start(s) == trim_start(s.subrange(i, s.len() as int)),
    decreases i,
{
    if i > 0 {
        assert(s.drop_first().subrange(i - 1, s.drop_first().len() as int) =~= s.subrange(
            i,
            s.len() as int,
        ));
        lemma_trim_start_skip(s.drop_first(), i - 1);
    } else {
        assert(s.subrange(0, s.len() as int) =~= s);
    }
}

proof fn lemma_trim_end_cut(s: Seq<char>, k: int)
    requires
        0 <= k <= s.len(),
        forall|j: int| k <= j < s.len() ==> is_white_space(#[trigger] s[j]),
    ensures
        trim_end(s) == trim_end(s.subrange(0, k)),
    decreases s.len() - k,
{
    if k < s.len() {
        assert(s.drop_last().subrange(0, k) =~= s.subrange(0, k));
        lemma_trim_end_cut(s.drop_last(), k);
    } else {
        assert(s.subrange(0, k) =~= s);
    }
}

/// `s` with leading and trailing white space removed (`str::trim`).
pub fn trim_str(s: &str) -> (r: String)
    ensures
        r@ == trim(s@),
{
    let v = chars_of(s);
    let n = v.len();
    let mut i: usize = 0;
    while i < n && is_white_space_char(v[i])
        invariant
            v@ == s@,
            n == v.len(),
            i <= n,
            forall|j: int| 0 <= j < i ==> is_white_space(#[trigger] v@[j]),
        decreases n - i,
    {
        i = i + 1;
    }
    let mut k: usize = n;
    while k > i && is_white_space_char(v[k - 1])
        invariant
            v@ == s@,
            n == v.len(),
            i <= k <= n,
            forall|j: int| k <= j < n ==> is_white_space(#[trigger] v@[j]),
        decreases k,
    {
        k = k - 1;
    }
    proof {
        lemma_trim_start_skip(s@, i as int);
        let rest = s@.subrange(i as int, n as int);
        if i < n {
            assert(rest[0] == s@[i as int]);
        }
        assert(trim_start(rest) == rest);
        assert forall|j: int| (k - i) <= j < rest.len() implies is_white_space(#[trigger] rest[j]) by {
            assert(rest[j] == s@[j + i]);
        }
        lemma_trim_end_cut(rest, (k - i) as int);
        let kept = rest.subrange(0, (k - i) as int);
        assert(kept =~= s@.subrange(i as int, k as int));
        if k > i {
            assert(kept.last() == s@[k - 1]);
        }
        assert(trim_end(kept) == kept);
    }
    let piece = s.substring_char(i, k);
    String::from_str(piece)
}

/// Whether `p` is a prefix of `s`.
pub fn starts_with_chars(s: &Vec<char>, p: &Vec<char>) -> (b: bool)
    ensures
        b == has_prefix(s@, p@),
{
    if p.len() > s.len() {
        return false;
    }
    let mut i: usize = 0;
    while i < p.len()
        invariant
            p.len() <= s.len(),
            i <= p.len(),
            forall|j: int| 0 <= j < i ==> s@[j] == p@[j],
        decreases p.len() - i,
    {
        if s[i] != p[i] {
            assert(s@.subrange(0, p.len() as int)[i as int] != p@[i as int]);
            return false;
        }
        i = i + 1;
    }
    assert(s@.subrange(0, p.len() as int) =~= p@);
    true
}

/// Whether `p` occurs in `s` starting at position `at`.
fn occurs_at(s: &Vec<char>, p: &Vec<char>, at: usize) -> (b: bool)
    requires
        at + p.len() <= s.len(),
    ensures
        b == (s@.subrange(at as int, at + p.len()) == p@),
{
    let mut i: usize = 0;
    while i < p.len()
        invariant
            at + p.len() <= s.len(),
            i <= p.len(),
            forall|j: int| 0 <= j < i ==> s@[at + j] == p@[j],
        decreases p.len() - i,
    {
        if s[at + i] != p[i] {
            assert(s@.subrange(at as int, at + p.len())[i as int] != p@[i as int]);
            return false;
        }
        i = i + 1;
    }
    assert(s@.subrange(at as int, at + p.len()) =~= p@);
    true
}

/// Whether `p` occurs anywhere in `s` (`str::contains` with a string pattern).
pub fn contains_chars(s: &Vec<char>, p: &Vec<char>) -> (b: bool)
    ensures
        b == has_infix(s@, p@),
{
    if p.len() > s.len() {
        return false;
    }
    let last = s.len() - p.len();
    let mut at: usize = 0;
    loop
        invariant
            last == s.len() - p.len(),
            p.len() <= s.len(),
            at <= last,
            forall|j: int| 0 <= j < at ==> #[trigger] s@.subrange(j, j + p.len()) != p@,
        decreases last - at,
    {
        if occurs_at(s, p, at) {
            return true;
        }
        if at == last {
            return false;
        }
        at = at + 1;
    }
}

fn digit_str(d: usize) -> (r: &'static str)
    requires
        d < 10,
    ensures
        r@ == seq![digit_char(d as nat)],
{
    proof {
        reveal_strlit("0");
        reveal_strlit("1");
        reveal_strlit("2");
        reveal_strlit("3");
        reveal_strlit("4");
        reveal_strlit("5");
        reveal_strlit("6");
        reveal_strlit("7");
        reveal_strlit("8");
        reveal_strlit("9");
    }
    if d == 0 {
        "0"
    } else if d == 1 {
        "1"
    } else if d == 2 {
        "2"
    } else if d == 3 {
        "3"
    } else if d == 4 {
        "4"
    } else if d == 5 {
        "5"
    } else if d == 6 {
        "6"
    } else if d == 7 {
        "7"
    } else if d == 8 {
        "8"
    } else {
        "9"
    }
}

/// The decimal rendering of `n`.
pub fn decimal_string(n: u128) -> (r: String)
    ensures
        r@ == decimal(n as nat),
    decreases n,
{
    if n < 10 {
        String::from_str(digit_str(n as usize))
    } else {
        let mut r = decimal_string(n / 10);
        r.append(digit_str((n % 10) as usize));
        r
    }
}

/// `a`, then `n` in decimal, then `b`.
pub fn with_number(a: &str, n: u128, b: &str) -> (r: String)
    ensures
        r@ == a@ + decimal(n as nat) + b@,
{
    let mut r = String::from_str(a);
    let d = decimal_string(n);
    r.append(d.as_str());
    r.append(b);
    r
}


/// `num / den` rounded to the nearest integer, halves to the even neighbour.
pub fn round_even(num: u128, den: u128) -> (r: u128)
    requires
        den > 0,
        den <= u64::MAX,
    ensures
        r == round_ratio_even(num as nat, den as nat),
{
    let q = num / den;
    let rem = num % den;
    proof {
        if den >= 2 {
            assert(q * den <= num) by (nonlinear_arith)
                requires q == num / den, den > 0;
            assert(q * 2 <= q * den) by (nonlinear_arith)
                requires den >= 2;
        }
    }
    if 2 * rem > den || (2 * rem == den && q % 2 == 1) {
        q + 1
    } else {
        q
    }
}

proof fn lemma_decimal_append_two(q: nat, e: nat)
    requires
        q > 0,
        e < 100,
    ensures
        decimal(100 * q + e) == decimal(q) + two_digits(e),
{
    let n = 100 * q + e;
    assert(n / 10 == 10 * q + e / 10 && n % 10 == e % 10) by (nonlinear_arith)
        requires n == 100 * q + e, e < 100;
    let m = 10 * q + e / 10;
    assert(m / 10 == q && m % 10 == e / 10) by (nonlinear_arith)
        requires m == 10 * q + e / 10, e < 100;
    assert(n >= 10 && m >= 10) by (nonlinear_arith)
        requires n == 100 * q + e, m == 10 * q + e / 10, q > 0;
    assert(decimal(n) == decimal(m).push(digit_char(e % 10)));
    assert(decimal(m) == decimal(q).push(digit_char(e / 10)));
    assert(decimal(n) =~= decimal(q) + two_digits(e));
}

proof fn lemma_round_even_split(x: nat, den: nat)
    requires
        den > 0,
    ensures
        round_ratio_even(10000 * x, den) == 10000 * (x / den) + round_ratio_even(10000 * (x % den), den),
        round_ratio_even(10000 * (x % den), den) <= 10000,
{
    let q = x / den;
    let r = x % den;
    let b = 10000 * r;
    assert(x == q * den + r && r < den) by (nonlinear_arith)
        requires den > 0, q == x / den, r == x % den;
    assert(10000 * x == (10000 * q) * den + b) by (nonlinear_arith)
        requires x == q * den + r, b == 10000 * r;
    assert((10000 * x) / den == 10000 * q + b / den && (10000 * x) % den == b % den) by (nonlinear_arith)
        requires 10000 * x == (10000 * q) * den + b, den > 0;
    assert(b / den < 10000) by (nonlinear_arith)
        requires b == 10000 * r, r < den, den > 0;
    let k = b / den;
    assert(10000 * q == 2 * (5000 * q));
    assert((2 * (5000 * q) + k) % 2 == k % 2);
}

proof fn lemma_hundredths_split(q: nat, t: nat)
    requires
        t <= 10000,
    ensures
        (10000 * q + t) / 100 == 100 * q + t / 100,
        (10000 * q + t) % 100 == t % 100,
        t / 100 <= 100,
        t / 100 == 100 ==> t % 100 == 0,
{
    assert((10000 * q + t) / 100 == 100 * q + t / 100 && (10000 * q + t) % 100 == t % 100) by (nonlinear_arith)
        requires t <= 10000;
}

fn two_digit_string(n: u128) -> (r: String)
    requires
        n < 100,
    ensures
        r@ == two_digits(n as nat),
{
    let mut r = String::from_str(digit_str((n / 10) as usize));
    r.append(digit_str((n % 10) as usize));
    assert(r@ =~= two_digits(n as nat));
    r
}

/// `100 * x / den` with two decimals, as `{:.2}` prints it.
pub fn percent_fixed2(x: u128, den: u128) -> (r: String)
    requires
        0 < den <= u64::MAX,
    ensures
        r@ == fixed2(100 * x as nat, den as nat),
{
    let q = x / den;
    let rem = x % den;
    let t = round_even(10000 * rem, den);
    proof {
        assert(rem < den);
        assert(100 * (100 * x as nat) == 10000 * x as nat);
        lemma_round_even_split(x as nat, den as nat);
        lemma_hundredths_split(q as nat, t as nat);
    }
    let e = t / 100;
    let f = t % 100;
    let mut r = if q == 0 {
        decimal_string(e)
    } else if e < 100 {
        proof {
            lemma_decimal_append_two(q as nat, e as nat);
        }
        let mut s = decimal_string(q);
        s.append(two_digit_string(e).as_str());
        s
    } else {
        proof {
            lemma_decimal_append_two((q + 1) as nat, 0);
            assert(100 * q as nat + e == 100 * (q + 1) as nat + 0);
        }
        let mut s = decimal_string(q + 1);
        s.append(two_digit_string(0).as_str());
        s
    };
    r.append(".");
    r.append(two_digit_string(f).as_str());
    proof {
        reveal_strlit(".");
    }
    r
}

/// `num / den` with one decimal, as `{:.1}` prints it.
pub fn fixed1_string(num: u128, den: u128) -> (r: String)
    requires
        0 < den <= u64::MAX,
        num <= 100 * 0xffff_ffff_ffff_ffffnat,
    ensures
        r@ == fixed1(num as nat, den as nat),
{
    let t = round_even(10 * num, den);
    let mut r = decimal_string(t / 10);
    r.append(".");
    r.append(digit_str((t % 10) as usize));
    proof {
        reveal_strlit(".");
    }
    r
}

/// Appends `n` in decimal to `s`.
pub fn push_number(s: &mut String, n: u128)
    ensures
        final(s)@ == old(s)@ + decimal(n as nat),
{
    let d = decimal_string(n);
    s.append(d.as_str());
}

/// How many elements of `s` satisfy `f`.
pub open spec fn count_if<A>(s: Seq<A>, f: spec_fn(A) -> bool) -> nat
    decreases s.len(),
{
    if s.len() == 0 {
        0
    } else {
        count_if(s.drop_last(), f) + if f(s.last()) {
            1nat
        } else {
            0nat
        }
    }
}

/// The sum of `f` over `s`.
pub open spec fn sum_of<A>(s: Seq<A>, f: spec_fn(A) -> nat) -> nat
    decreases s.len(),
{
    if s.len() == 0 {
        0
    } else {
        sum_of(s.drop_last(), f) + f(s.last())
    }
}

/// The largest value of `f` over `s` (zero for an empty sequence).
pub open spec fn max_of<A>(s: Seq<A>, f: spec_fn(A) -> nat) -> nat
    decreases s.len(),
{
    if s.len() == 0 {
        0
    } else if f(s.last()) > max_of(s.drop_last(), f) {
        f(s.last())
    } else {
        max_of(s.drop_last(), f)
    }
}

proof fn lemma_trim_start_head(s: Seq<char>)
    ensures
        trim_start(s).len() > 0 ==> !is_white_space(trim_start(s)[0]),
    decreases s.len(),
{
    if s.len() > 0 && is_white_space(s[0]) {
        lemma_trim_start_head(s.drop_first());
    }
}

proof fn lemma_trim_end_prefix(s: Seq<char>)
    ensures
        trim_end(s).len() <= s.len(),
        trim_end(s) == s.subrange(0, trim_end(s).len() as int),
        trim_end(s).len() > 0 ==> !is_white_space(trim_end(s).last()),
    decreases s.len(),
{
    if s.len() > 0 && is_white_space(s.last()) {
        lemma_trim_end_prefix(s.drop_last());
        let t = trim_end(s.drop_last());
        assert(s.drop_last().subrange(0, t.len() as int) =~= s.subrange(0, t.len() as int));
    } else {
        assert(s.subrange(0, s.len() as int) =~= s);
    }
}

/// What `trim` returns neither starts nor ends with white space.
pub proof fn lemma_trim_edges(s: Seq<char>)
    ensures
        trim(s).len() > 0 ==> !is_white_space(trim(s)[0]) && !is_white_space(trim(s).last()),
{
    lemma_trim_start_head(s);
    let t = trim_start(s);
    lemma_trim_end_prefix(t);
    if trim(s).len() > 0 {
        assert(trim(s)[0] == t.subrange(0, trim(s).len() as int)[0]);
    }
}

/// Trimming twice is trimming once.
pub proof fn lemma_trim_idempotent(s: Seq<char>)
    ensures
        trim(trim(s)) == trim(s),
{
    lemma_trim_edges(s);
    let t = trim(s);
    if t.len() > 0 {
        assert(trim_start(t) == t);
        assert(trim_end(t) == t);
    } else {
        assert(trim_start(t) == t);
        assert(trim_end(t) == t);
    }
}

} // verus!
