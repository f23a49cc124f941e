//! Reading numbers from command-line text.
use vstd::prelude::*;

verus! {

/// The largest magnitude a parsed setting may have.
pub const PARSE_LIMIT: i64 = 1_099_511_627_776;

pub open spec fn is_digit(c: char) -> bool {
    '0' <= c && c <= '9'
}

pub open spec fn digit_of(c: char) -> nat {
    (c as u32 - '0' as u32) as nat
}

pub open spec fn all_digits(s: Seq<char>) -> bool {
    forall|i: int| 0 <= i < s.len() ==> is_digit(#[trigger] s[i])
}

/// The number a run of decimal digits spells.
pub open spec fn digits_value(s: Seq<char>) -> nat
    decreases s.len(),
{
    if s.len() == 0 {
        0
    } else {
        digits_value(s.drop_last()) * 10 + digit_of(s.last())
    }
}

/// The integer `s` spells: an optional sign (a minus only where `signed`)
/// followed by at least one decimal digit and nothing else.
pub open spec fn integer_value(s: Seq<char>, signed: bool) -> Option<int> {
    if s.len() > 0 && (s[0] == '+' || (signed && s[0] == '-')) {
        let rest = s.drop_first();
        if rest.len() > 0 && all_digits(rest) {
            Some(
                if s[0] == '-' {
                    -digits_value(rest)
                } else {
                    digits_value(rest) as int
                },
            )
        } else {
            None
        }
    } else if s.len() > 0 && all_digits(s) {
        Some(digits_value(s) as int)
    } else {
        None
    }
}

/// The integer `s` spells when it lies in `min..=max`.
pub open spec fn parsed_in(s: Seq<char>, signed: bool, min: int, max: int) -> Option<int> {
    match integer_value(s, signed) {
        Some(v) => if min <= v <= max {
            Some(v)
        } else {
            None
        },
        None => None,
    }
}

/// The value of an optional setting read as an integer in `min..=max`,
/// `default` when it is absent or reads otherwise.
pub open spec fn setting_or(s: Option<Seq<char>>, signed: bool, min: int, max: int, default: int) -> int {
    match s {
        Some(t) => match parsed_in(t, signed, min, max) {
            Some(v) => v,
            None => default,
        },
        None => default,
    }
}

proof fn lemma_digits_value_grows(s: Seq<char>, c: char)
    requires
        is_digit(c),
    ensures
        digits_value(s.push(c)) >= digits_value(s),
        digits_value(s.push(c)) == digits_value(s) * 10 + digit_of(c),
{
    assert(s.push(c).drop_last() =~= s);
}

/// The text of an optional value.
pub open spec fn text_of(s: Option<String>) -> Option<Seq<char>> {
    match s {
        Some(t) => Some(t@),
        None => None,
    }
}

/// Reads `s` as an integer in `min..=max`: an optional sign (a minus only
/// where `signed`) and decimal digits, as Rust's integer parsing takes them.
pub fn parse_integer(s: &str, signed: bool, min: i64, max: i64) -> (r: Option<i64>)
    requires
        -PARSE_LIMIT <= min <= max <= PARSE_LIMIT,
    ensures
        match r {
            Some(v) => parsed_in(s@, signed, min as int, max as int) == Some(v as int),
            None => parsed_in(s@, signed, min as int, max as int) is None,
        },
{
    let n = s.unicode_len();
    if n == 0 {
        return None;
    }
    let first = s.get_char(0);
    let negative = signed && first == '-';
    let start: usize = if first == '+' || negative {
        1
    } else {
        0
    };
    if start == n {
        return None;
    }
    let ghost digits = s@.subrange(start as int, n as int);
    assert(start == 1 ==> digits =~= s@.drop_first());
    assert(start == 0 ==> digits =~= s@);
    let mut acc: i64 = 0;
    let mut too_big = false;
    let mut i: usize = start;
    while i < n
        invariant
            n == s@.len(),
            start <= i <= n,
            digits == s@.subrange(start as int, n as int),
            n > 0,
            negative == (signed && s@[0] == '-'),
            (start == 1) == (s@[0] == '+' || negative),
            start == 0 || start == 1,
            start == 1 ==> digits == s@.drop_first(),
            start == 0 ==> digits == s@,
            all_digits(s@.subrange(start as int, i as int)),
            !too_big ==> acc == digits_value(s@.subrange(start as int, i as int)) && acc <= PARSE_LIMIT,
            too_big ==> digits_value(s@.subrange(start as int, i as int)) > PARSE_LIMIT,
        decreases n - i,
    {
        let c = s.get_char(i);
        if c < '0' || c > '9' {
            assert(!all_digits(digits)) by {
                assert(digits[i - start] == c);
            }
            return None;
        }
        proof {
            lemma_digits_value_grows(s@.subrange(start as int, i as int), c);
            assert(s@.subrange(start as int, i as int).push(c) =~= s@.subrange(start as int, i + 1));
        }
        if !too_big {
            let d = (c as u32 - '0' as u32) as i64;
            if acc > (PARSE_LIMIT - d) / 10 {
                too_big = true;
            } else {
                acc = acc * 10 + d;
            }
        }
        i = i + 1;
    }
    assert(s@.subrange(start as int, n as int) =~= digits);
    if too_big {
        return None;
    }
    let v: i64 = if negative {
        -acc
    } else {
        acc
    };
    if v < min || v > max {
        None
    } else {
        Some(v)
    }
}

/// Reads an optional setting as an integer in `min..=max`, falling back to
/// `default` when it is absent or reads otherwise.
pub fn setting(s: &Option<String>, signed: bool, min: i64, max: i64, default: i64) -> (r: i64)
    requires
        -PARSE_LIMIT <= min <= max <= PARSE_LIMIT,
    ensures
        r == setting_or(
            text_of(*s),
            signed,
            min as int,
            max as int,
            default as int,
        ),
{
    match s {
        Some(t) => match parse_integer(t.as_str(), signed, min, max) {
            Some(v) => v,
            None => default,
        },
        None => default,
    }
}


/// A point splits `s` at `k` into two runs of digits, with at least one
/// digit in all.
pub open spec fn point_at(s: Seq<char>, k: int) -> bool {
    &&& 0 <= k < s.len()
    &&& s[k] == '.'
    &&& s.len() > 1
    &&& all_digits(s.take(k))
    &&& all_digits(s.skip(k + 1))
}

/// The first three digits after a point, in thousandths.
pub open spec fn fraction_millis(f: Seq<char>) -> nat {
    if f.len() >= 3 {
        digits_value(f.take(3))
    } else if f.len() == 2 {
        digits_value(f) * 10
    } else if f.len() == 1 {
        digits_value(f) * 100
    } else {
        0
    }
}

/// A number of seconds written as digits, optionally with a point and more
/// digits, in whole milliseconds (further digits are dropped); nothing when
/// `s` is written otherwise or its whole seconds exceed the parse limit.
pub open spec fn millis_value(s: Seq<char>) -> Option<nat> {
    if s.len() > 0 && all_digits(s) {
        if digits_value(s) <= PARSE_LIMIT {
            Some(digits_value(s) * 1000)
        } else {
            None
        }
    } else if exists|k: int| point_at(s, k) {
        let k = choose|k: int| point_at(s, k);
        if digits_value(s.take(k)) <= PARSE_LIMIT {
            Some(digits_value(s.take(k)) * 1000 + fraction_millis(s.skip(k + 1)))
        } else {
            None
        }
    } else {
        None
    }
}

/// The characters of `s` from `from` to `to` read as decimal digits, while
/// their value stays within `PARSE_LIMIT`.
fn digits_between(s: &str, from: usize, to: usize) -> (r: Option<u64>)
    requires
        from <= to <= s@.len(),
    ensures
        match r {
            Some(v) => all_digits(s@.subrange(from as int, to as int)) && v == digits_value(
                s@.subrange(from as int, to as int),
            ) && v <= PARSE_LIMIT,
            None => !all_digits(s@.subrange(from as int, to as int)) || digits_value(
                s@.subrange(from as int, to as int),
            ) > PARSE_LIMIT,
        },
{
    let mut acc: u64 = 0;
    let mut too_big = false;
    let mut i: usize = from;
    assert(s@.subrange(from as int, from as int) =~= Seq::<char>::empty());
    while i < to
        invariant
            from <= i <= to <= s@.len(),
            all_digits(s@.subrange(from as int, i as int)),
            !too_big ==> acc == digits_value(s@.subrange(from as int, i as int)) && acc <= PARSE_LIMIT,
            too_big ==> digits_value(s@.subrange(from as int, i as int)) > PARSE_LIMIT,
        decreases to - i,
    {
        let c = s.get_char(i);
        if c < '0' || c > '9' {
            assert(!all_digits(s@.subrange(from as int, to as int))) by {
                assert(s@.subrange(from as int, to as int)[i - from] == c);
            }
            return None;
        }
        proof {
            lemma_digits_value_grows(s@.subrange(from as int, i as int), c);
            assert(s@.subrange(from as int, i as int).push(c) =~= s@.subrange(from as int, i + 1));
        }
        if !too_big {
            let d = (c as u32 - '0' as u32) as u64;
            if acc > (PARSE_LIMIT as u64 - d) / 10 {
                too_big = true;
            } else {
                acc = acc * 10 + d;
            }
        }
        i = i + 1;
    }
    if too_big {
        None
    } else {
        Some(acc)
    }
}

/// Whether the characters of `s` from `from` to `to` are all decimal digits.
fn digits_only(s: &str, from: usize, to: usize) -> (r: bool)
    requires
        from <= to <= s@.len(),
    ensures
        r == all_digits(s@.subrange(from as int, to as int)),
{
    let mut i: usize = from;
    while i < to
        invariant
            from <= i <= to <= s@.len(),
            all_digits(s@.subrange(from as int, i as int)),
        decreases to - i,
    {
        let c = s.get_char(i);
        if c < '0' || c > '9' {
            assert(s@.subrange(from as int, to as int)[i - from] == c);
            return false;
        }
        assert(s@.subrange(from as int, i + 1) =~= s@.subrange(from as int, i as int).push(c));
        i = i + 1;
    }
    true
}

proof fn lemma_point_unique(s: Seq<char>, k: int, j: int)
    requires
        point_at(s, k),
        0 <= j < s.len(),
        s[j] == '.',
    ensures
        j == k,
{
    if j < k {
        assert(s.take(k)[j] == s[j]);
    } else if j > k {
        assert(s.skip(k + 1)[j - k - 1] == s[j]);
    }
}

/// Reads a number of seconds, digits with an optional point and fraction,
/// as whole milliseconds.
pub fn parse_millis(s: &str) -> (r: Option<u64>)
    ensures
        match r {
            Some(v) => millis_value(s@) == Some(v as nat),
            None => millis_value(s@) is None,
        },
{
    let n = s.unicode_len();
    if n == 0 {
        return None;
    }
    let mut k: usize = 0;
    while k < n && s.get_char(k) != '.'
        invariant
            k <= n == s@.len(),
            forall|j: int| 0 <= j < k ==> s@[j] != '.',
        decreases n - k,
    {
        k = k + 1;
    }
    if k == n {
        assert(s@.subrange(0, n as int) =~= s@);
        let v = digits_between(s, 0, n);
        return match v {
            Some(v) => Some(v * 1000),
            None => None,
        };
    }
    assert(!all_digits(s@)) by {
        assert(s@[k as int] == '.');
    }
    assert(s@.subrange(0, k as int) =~= s@.take(k as int));
    assert(s@.subrange(k + 1, n as int) =~= s@.skip(k + 1));
    if n == 1 || !digits_only(s, k + 1, n) {
        assert(forall|j: int| !point_at(s@, j)) by {
            assert forall|j: int| point_at(s@, j) implies false by {
                lemma_point_unique(s@, j, k as int);
            }
        }
        return None;
    }
    let whole = digits_between(s, 0, k);
    let whole = match whole {
        Some(w) => w,
        None => {
            proof {
                if !all_digits(s@.take(k as int)) {
                    assert forall|j: int| point_at(s@, j) implies false by {
                        lemma_point_unique(s@, j, k as int);
                    }
                } else {
                    assert(point_at(s@, k as int));
                    assert forall|j: int| point_at(s@, j) implies j == k by {
                        lemma_point_unique(s@, j, k as int);
                    }
                }
            }
            return None;
        },
    };
    assert(point_at(s@, k as int));
    assert forall|j: int| point_at(s@, j) implies j == k by {
        lemma_point_unique(s@, j, k as int);
    }
    let f = n - (k + 1);
    let frac: u64 = if f >= 3 {
        assert(s@.subrange(k + 1, k + 4) =~= s@.skip(k + 1).take(3));
        match digits_between(s, k + 1, k + 4) {
            Some(v) => v,
            None => 0,
        }
    } else if f == 2 {
        match digits_between(s, k + 1, n) {
            Some(v) => v * 10,
            None => 0,
        }
    } else if f == 1 {
        match digits_between(s, k + 1, n) {
            Some(v) => v * 100,
            None => 0,
        }
    } else {
        0
    };
    proof {
        let t = s@.skip(k + 1);
        if f >= 3 {
            assert forall|i: int| 0 <= i < 3 implies is_digit(#[trigger] t.take(3)[i]) by {
                assert(t.take(3)[i] == t[i]);
            }
            assert(digits_value(t.take(3)) < 1000) by {
                lemma_small_digits(t.take(3));
            }
        } else if f >= 1 {
            lemma_small_digits(t);
        }
    }
    Some(whole * 1000 + frac)
}

proof fn lemma_small_digits(t: Seq<char>)
    requires
        t.len() <= 3,
        all_digits(t),
    ensures
        t.len() == 3 ==> digits_value(t) < 1000,
        t.len() == 2 ==> digits_value(t) < 100,
        t.len() == 1 ==> digits_value(t) < 10,
    decreases t.len(),
{
    if t.len() > 0 {
        let u = t.drop_last();
        assert forall|i: int| 0 <= i < u.len() implies is_digit(#[trigger] u[i]) by {
            assert(u[i] == t[i]);
        }
        lemma_small_digits(u);
        assert(is_digit(t[t.len() - 1]));
    }
}


/// An optional number of seconds in milliseconds, zero when it is absent or
/// reads otherwise.
pub open spec fn millis_or_zero(s: Option<Seq<char>>) -> nat {
    match s {
        Some(t) => match millis_value(t) {
            Some(v) => v,
            None => 0,
        },
        None => 0,
    }
}

/// Reads an optional number of seconds as milliseconds, zero when it is
/// absent or reads otherwise.
pub fn millis_setting(s: &Option<String>) -> (r: u64)
    ensures
        r == millis_or_zero(text_of(*s)),
{
    match s {
        Some(t) => match parse_millis(t.as_str()) {
            Some(v) => v,
            None => 0,
        },
        None => 0,
    }
}

} // verus!
