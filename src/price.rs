//! Reading a store's formatted price text as integer micro-units.
use vstd::prelude::*;

verus! {

/// Whether `c` is an ASCII decimal digit.
pub open spec fn is_digit(c: char) -> bool {
    '0' <= c <= '9'
}

/// The value of the ASCII digit `c`.
pub open spec fn digit_value(c: char) -> nat {
    ((c as u32) - ('0' as u32)) as nat
}

/// The characters of a price text that carry its amount: digits and dots,
/// in order.
pub open spec fn price_chars(s: Seq<char>) -> Seq<char>
    decreases s.len(),
{
    if s.len() == 0 {
        s
    } else if is_digit(s.last()) || s.last() == '.' {
        price_chars(s.drop_last()).push(s.last())
    } else {
        price_chars(s.drop_last())
    }
}

/// The number of dots in `s`.
pub open spec fn dot_count(s: Seq<char>) -> nat
    decreases s.len(),
{
    if s.len() == 0 {
        0
    } else if s.last() == '.' {
        dot_count(s.drop_last()) + 1
    } else {
        dot_count(s.drop_last())
    }
}

/// The index of the first dot in `s`, or its length when it has none.
pub open spec fn first_dot(s: Seq<char>) -> int
    decreases s.len(),
{
    if s.len() == 0 {
        0
    } else if first_dot(s.drop_last()) < s.len() - 1 {
        first_dot(s.drop_last())
    } else if s.last() == '.' {
        s.len() - 1
    } else {
        s.len() as int
    }
}

/// The number that a string of decimal digits spells.
pub open spec fn digits_value(s: Seq<char>) -> nat
    decreases s.len(),
{
    if s.len() == 0 {
        0
    } else {
        digits_value(s.drop_last()) * 10 + digit_value(s.last())
    }
}

pub open spec fn pow10(n: nat) -> nat
    decreases n,
{
    if n == 0 {
        1
    } else {
        10 * pow10((n - 1) as nat)
    }
}

pub open spec fn min_int(a: int, b: int) -> int {
    if a < b {
        a
    } else {
        b
    }
}

/// The amount of a price text in micro-units. Only ASCII digits and dots
/// count. With more than one dot, or no digit at all, the amount is 0.
/// Fraction digits past the sixth are dropped; an amount past `i64::MAX`
/// is `i64::MAX`.
pub open spec fn price_micros(text: Seq<char>) -> int {
    let p = price_chars(text);
    let d = first_dot(p);
    if dot_count(p) > 1 || dot_count(p) == p.len() {
        0
    } else {
        let f = p.subrange(min_int(d + 1, p.len() as int), min_int(d + 7, p.len() as int));
        let v = digits_value(p.subrange(0, d)) * 1_000_000 + digits_value(f) * pow10(
            (6 - f.len()) as nat,
        );
        min_int(v as int, i64::MAX as int)
    }
}

proof fn lemma_pow10_small()
    ensures
        pow10(0) == 1,
        pow10(1) == 10,
        pow10(2) == 100,
        pow10(3) == 1000,
        pow10(4) == 10000,
        pow10(5) == 100_000,
        pow10(6) == 1_000_000,
{
    assert(pow10(0) == 1);
    assert(pow10(1) == 10);
    assert(pow10(2) == 100);
    assert(pow10(3) == 1000);
    assert(pow10(4) == 10000);
    assert(pow10(5) == 100_000);
    assert(pow10(6) == 1_000_000);
}

proof fn lemma_digits_value_bound(s: Seq<char>)
    requires
        forall|i: int| 0 <= i < s.len() ==> is_digit(#[trigger] s[i]),
    ensures
        digits_value(s) < pow10(s.len()),
    decreases s.len(),
{
    if s.len() > 0 {
        let t = s.drop_last();
        assert forall|i: int| 0 <= i < t.len() implies is_digit(#[trigger] t[i]) by {
            assert(t[i] == s[i]);
        }
        lemma_digits_value_bound(t);
        let a = digits_value(t);
        let b = pow10(t.len());
        assert(digit_value(s.last()) <= 9);
        assert(a * 10 + 9 < b * 10) by (nonlinear_arith)
            requires
                a < b,
        ;
    }
}

proof fn lemma_price_chars_only(s: Seq<char>)
    ensures
        forall|i: int|
            0 <= i < price_chars(s).len() ==> is_digit(#[trigger] price_chars(s)[i])
                || price_chars(s)[i] == '.',
    decreases s.len(),
{
    if s.len() > 0 {
        let t = s.drop_last();
        lemma_price_chars_only(t);
        let p = price_chars(s);
        assert forall|i: int| 0 <= i < p.len() implies is_digit(#[trigger] p[i]) || p[i] == '.' by {
            if i < price_chars(t).len() {
                assert(p[i] == price_chars(t)[i]);
            }
        }
    }
}

proof fn lemma_first_dot(s: Seq<char>)
    ensures
        0 <= first_dot(s) <= s.len(),
        forall|i: int| 0 <= i < first_dot(s) ==> #[trigger] s[i] != '.',
        first_dot(s) < s.len() ==> s[first_dot(s)] == '.',
        dot_count(s) == 0 <==> first_dot(s) == s.len(),
    decreases s.len(),
{
    if s.len() > 0 {
        let t = s.drop_last();
        lemma_first_dot(t);
        assert forall|i: int| 0 <= i < first_dot(s) implies #[trigger] s[i] != '.' by {
            if i < t.len() {
                assert(s[i] == t[i]);
            }
        }
    }
}

proof fn lemma_single_dot(s: Seq<char>)
    requires
        dot_count(s) <= 1,
    ensures
        forall|x: int| first_dot(s) < x < s.len() ==> #[trigger] s[x] != '.',
    decreases s.len(),
{
    if s.len() > 0 {
        let t = s.drop_last();
        lemma_first_dot(t);
        if first_dot(t) < t.len() {
            lemma_single_dot(t);
            assert forall|x: int| first_dot(s) < x < s.len() implies #[trigger] s[x] != '.' by {
                if x < t.len() {
                    assert(s[x] == t[x]);
                }
            }
        }
    }
}

/// The characters of `text` that are digits or dots.
fn price_chars_of(text: &str) -> (p: Vec<char>)
    ensures
        p@ == price_chars(text@),
{
    let n = text.unicode_len();
    let mut p: Vec<char> = Vec::new();
    let mut i: usize = 0;
    while i < n
        invariant
            n == text@.len(),
            i <= n,
            p@ == price_chars(text@.subrange(0, i as int)),
        decreases n - i,
    {
        let c = text.get_char(i);
        assert(text@.subrange(0, i + 1).drop_last() =~= text@.subrange(0, i as int));
        if ('0' <= c && c <= '9') || c == '.' {
            p.push(c);
        }
        i = i + 1;
    }
    assert(text@.subrange(0, n as int) =~= text@);
    p
}

/// The number of dots in `p` and the index of the first one.
fn scan_dots(p: &Vec<char>) -> (r: (usize, usize))
    ensures
        r.0 as int == dot_count(p@),
        r.1 as int == first_dot(p@),
{
    let len = p.len();
    let mut dots: usize = 0;
    let mut fd: usize = 0;
    let mut j: usize = 0;
    while j < len
        invariant
            len == p@.len(),
            j <= len,
            dots as int == dot_count(p@.subrange(0, j as int)),
            fd as int == first_dot(p@.subrange(0, j as int)),
            dots <= j,
        decreases len - j,
    {
        assert(p@.subrange(0, j + 1).drop_last() =~= p@.subrange(0, j as int));
        proof {
            lemma_first_dot(p@.subrange(0, j as int));
        }
        if fd < j {
        } else if p[j] == '.' {
            fd = j;
        } else {
            fd = j + 1;
        }
        if p[j] == '.' {
            dots = dots + 1;
        }
        j = j + 1;
    }
    assert(p@.subrange(0, len as int) =~= p@);
    (dots, fd)
}

/// The value of the digits `p[0..end]`, held at most at 10^13.
fn capped_whole(p: &Vec<char>, end: usize) -> (r: u64)
    requires
        end <= p@.len(),
        forall|x: int| 0 <= x < end ==> is_digit(#[trigger] p@[x]),
    ensures
        r as int == min_int(digits_value(p@.subrange(0, end as int)) as int, 10_000_000_000_000),
{
    let cap: u64 = 10_000_000_000_000;
    let mut whole: u64 = 0;
    let mut k: usize = 0;
    while k < end
        invariant
            end <= p@.len(),
            forall|x: int| 0 <= x < end ==> is_digit(#[trigger] p@[x]),
            k <= end,
            cap == 10_000_000_000_000,
            whole as int == min_int(digits_value(p@.subrange(0, k as int)) as int, cap as int),
        decreases end - k,
    {
        let c = p[k];
        assert(p@.subrange(0, k + 1).drop_last() =~= p@.subrange(0, k as int));
        assert(is_digit(c));
        let d = ((c as u32) - ('0' as u32)) as u64;
        let ghost prev = digits_value(p@.subrange(0, k as int));
        if whole >= cap {
            assert(prev * 10 + d >= cap) by (nonlinear_arith)
                requires
                    prev >= cap,
            ;
            whole = cap;
        } else {
            let next = whole * 10 + d;
            whole = if next >= cap {
                cap
            } else {
                next
            };
        }
        k = k + 1;
    }
    whole
}

/// The digits `p[start..stop]` (at most six) as a fraction in micro-units.
fn fraction_micros(p: &Vec<char>, start: usize, stop: usize) -> (r: u64)
    requires
        start <= stop <= p@.len(),
        stop <= start + 6,
        forall|x: int| start <= x < stop ==> is_digit(#[trigger] p@[x]),
    ensures
        r as int == digits_value(p@.subrange(start as int, stop as int)) * pow10(
            (6 - (stop - start)) as nat,
        ),
        r < 1_000_000,
{
    proof {
        lemma_pow10_small();
    }
    let mut frac: u64 = 0;
    let mut m: usize = start;
    while m < stop
        invariant
            start <= stop <= p@.len(),
            stop <= start + 6,
            forall|x: int| start <= x < stop ==> is_digit(#[trigger] p@[x]),
            start <= m <= stop,
            frac as int == digits_value(p@.subrange(start as int, m as int)),
            frac < pow10((m - start) as nat),
            pow10((m - start) as nat) <= 1_000_000,
        decreases stop - m,
    {
        let c = p[m];
        assert(p@.subrange(start as int, m + 1).drop_last() =~= p@.subrange(
            start as int,
            m as int,
        ));
        assert(is_digit(c));
        let d = ((c as u32) - ('0' as u32)) as u64;
        proof {
            lemma_pow10_small();
            assert(pow10((m + 1 - start) as nat) == 10 * pow10((m - start) as nat));
            assert(m - start == 0 || m - start == 1 || m - start == 2 || m - start == 3 || m
                - start == 4 || m - start == 5);
        }
        frac = frac * 10 + d;
        m = m + 1;
    }
    let ghost f = frac as int;
    let mut scaled: u64 = frac;
    let mut t: usize = stop - start;
    assert(((t - (stop - start)) as nat) == 0nat);
    assert(f * pow10(0) == f);
    while t < 6
        invariant
            stop - start <= t <= 6,
            f == frac,
            scaled as int == f * pow10((t - (stop - start)) as nat),
            scaled < pow10(t as nat),
        decreases 6 - t,
    {
        proof {
            lemma_pow10_small();
            assert(pow10((t + 1 - (stop - start)) as nat) == 10 * pow10(
                (t - (stop - start)) as nat,
            ));
            assert(pow10((t + 1) as nat) == 10 * pow10(t as nat));
            assert(t == 0 || t == 1 || t == 2 || t == 3 || t == 4 || t == 5);
            let b = pow10((t - (stop - start)) as nat) as int;
            assert(f * (10 * b) == (f * b) * 10) by (nonlinear_arith);
        }
        scaled = scaled * 10;
        t = t + 1;
    }
    scaled
}

/// The decimal amount of a price text in micro-units.
pub fn price_amount_micros(text: &str) -> (r: i64)
    ensures
        r as int == price_micros(text@),
{
    let p = price_chars_of(text);
    proof {
        lemma_price_chars_only(text@);
        lemma_first_dot(p@);
    }
    let len = p.len();
    let (dots, fd) = scan_dots(&p);
    if dots > 1 || dots == len {
        return 0;
    }
    proof {
        lemma_single_dot(p@);
    }
    let whole = capped_whole(&p, fd);
    let start: usize = if fd < len {
        fd + 1
    } else {
        len
    };
    let stop: usize = if len - fd > 7 {
        fd + 7
    } else {
        len
    };
    let scaled = fraction_micros(&p, start, stop);
    proof {
        let f = p@.subrange(start as int, stop as int);
        assert(f =~= p@.subrange(min_int(fd + 1, len as int), min_int(fd + 7, len as int)));
    }
    if whole >= 10_000_000_000_000 {
        proof {
            let w = digits_value(p@.subrange(0, fd as int));
            assert(w * 1_000_000 >= 10_000_000_000_000 * 1_000_000) by (nonlinear_arith)
                requires
                    w >= 10_000_000_000_000,
            ;
        }
        return i64::MAX;
    }
    let total: u64 = whole * 1_000_000 + scaled;
    if total > i64::MAX as u64 {
        i64::MAX
    } else {
        total as i64
    }
}

} // verus!
