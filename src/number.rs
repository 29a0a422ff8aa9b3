//! Integers written as decimal text: reading them, as Rust's `str::parse` does,
//! and writing them.

use vstd::prelude::*;

verus! {

/// Whether every character of `d` is an ASCII digit.
pub open spec fn all_digits(d: Seq<char>) -> bool {
    forall|i: int| 0 <= i < d.len() ==> '0' <= #[trigger] d[i] <= '9'
}

/// The value of the digits `d`, most significant first.
pub open spec fn digits_value(d: Seq<char>) -> int
    decreases d.len(),
{
    if d.len() == 0 {
        0
    } else {
        digits_value(d.drop_last()) * 10 + (d.last() as int - '0' as int)
    }
}

/// The integer that `s` writes: an optional sign (`-` only where `signed`) and
/// one digit or more. Nothing where `s` is not of that form.
pub open spec fn integer_text(s: Seq<char>, signed: bool) -> Option<int> {
    if s.len() > 0 && s[0] == '+' {
        if s.len() > 1 && all_digits(s.drop_first()) {
            Some(digits_value(s.drop_first()))
        } else {
            None
        }
    } else if s.len() > 0 && s[0] == '-' {
        if signed && s.len() > 1 && all_digits(s.drop_first()) {
            Some(-digits_value(s.drop_first()))
        } else {
            None
        }
    } else if s.len() > 0 && all_digits(s) {
        Some(digits_value(s))
    } else {
        None
    }
}

proof fn lemma_digits_nonneg(d: Seq<char>)
    requires
        all_digits(d),
    ensures
        digits_value(d) >= 0,
    decreases d.len(),
{
    if d.len() > 0 {
        lemma_digits_nonneg(d.drop_last());
    }
}

/// A longer run of digits is worth at least as much as its prefix.
proof fn lemma_prefix_value(d: Seq<char>, k: int)
    requires
        all_digits(d),
        0 <= k <= d.len(),
    ensures
        digits_value(d.subrange(0, k)) <= digits_value(d),
    decreases d.len(),
{
    if k < d.len() {
        let p = d.drop_last();
        lemma_prefix_value(p, k);
        assert(p.subrange(0, k) =~= d.subrange(0, k));
        lemma_digits_nonneg(p);
    } else {
        assert(d.subrange(0, k) =~= d);
    }
}

const MAGNITUDE_BOUND: u128 = 9223372036854775808;

/// The value of the digits of `s` from `start` on, or nothing where one is not
/// a digit, where there is none, or where the value passes 2^63.
fn digits_from(s: &str, start: usize) -> (r: Option<u128>)
    requires
        start <= s@.len(),
    ensures
        match r {
            Some(v) => start < s@.len() && all_digits(s@.subrange(start as int, s@.len() as int))
                && v == digits_value(s@.subrange(start as int, s@.len() as int))
                && v <= MAGNITUDE_BOUND,
            None => !(start < s@.len() && all_digits(s@.subrange(start as int, s@.len() as int))
                && digits_value(s@.subrange(start as int, s@.len() as int)) <= MAGNITUDE_BOUND),
        },
{
    let n = s.unicode_len();
    if start >= n {
        return None;
    }
    let mut acc: u128 = 0;
    let mut i: usize = start;
    while i < n
        invariant
            n == s@.len(),
            start <= i <= n,
            all_digits(s@.subrange(start as int, i as int)),
            acc == digits_value(s@.subrange(start as int, i as int)),
            acc <= MAGNITUDE_BOUND,
        decreases n - i,
    {
        let c = s.get_char(i);
        if c < '0' || c > '9' {
            assert(s@.subrange(start as int, n as int)[i - start] == c);
            return None;
        }
        let next = acc * 10 + (c as u128 - '0' as u128);
        assert(s@.subrange(start as int, i + 1).drop_last() =~= s@.subrange(start as int, i as int));
        assert(all_digits(s@.subrange(start as int, i + 1)));
        if next > MAGNITUDE_BOUND {
            proof {
                let whole = s@.subrange(start as int, n as int);
                if all_digits(whole) {
                    lemma_prefix_value(whole, i + 1 - start);
                    assert(whole.subrange(0, i + 1 - start) =~= s@.subrange(start as int, i + 1));
                }
            }
            return None;
        }
        acc = next;
        i = i + 1;
    }
    Some(acc)
}

/// Reads an integer in the way `str::parse` does for a type with the bounds given.
fn parse_integer(s: &str, signed: bool, min: i128, max: i128) -> (r: Option<i128>)
    requires
        -MAGNITUDE_BOUND <= min <= 0 < max < MAGNITUDE_BOUND,
    ensures
        match r {
            Some(v) => integer_text(s@, signed) == Some(v as int) && min <= v <= max,
            None => !(integer_text(s@, signed) matches Some(v) && min <= v <= max),
        },
{
    let n = s.unicode_len();
    if n == 0 {
        return None;
    }
    let first = s.get_char(0);
    let negative = first == '-';
    let start: usize = if first == '+' || first == '-' { 1 } else { 0 };
    if negative && !signed {
        return None;
    }
    proof {
        assert(s@.subrange(1, s@.len() as int) =~= s@.drop_first());
        assert(s@.subrange(0, s@.len() as int) =~= s@);
    }
    match digits_from(s, start) {
        Some(m) => {
            let v: i128 = if negative { -(m as i128) } else { m as i128 };
            if min <= v && v <= max {
                Some(v)
            } else {
                None
            }
        },
        None => None,
    }
}

/// Whether `v` lies in the range of `i64`.
pub open spec fn fits_i64(v: int) -> bool {
    i64::MIN <= v <= i64::MAX
}

/// Reads a signed 64-bit integer from decimal text, as `str::parse::<i64>` does.
pub fn parse_i64(s: &str) -> (r: Option<i64>)
    ensures
        match r {
            Some(v) => integer_text(s@, true) == Some(v as int),
            None => !(integer_text(s@, true) matches Some(v) && fits_i64(v)),
        },
{
    match parse_integer(s, true, i64::MIN as i128, i64::MAX as i128) {
        Some(v) => Some(v as i64),
        None => None,
    }
}

/// Reads an unsigned 32-bit integer from decimal text, as `str::parse::<u32>` does.
pub fn parse_u32(s: &str) -> (r: Option<u32>)
    ensures
        match r {
            Some(v) => integer_text(s@, false) == Some(v as int),
            None => !(integer_text(s@, false) matches Some(v) && 0 <= v <= u32::MAX),
        },
{
    match parse_integer(s, false, 0, u32::MAX as i128) {
        Some(v) => Some(v as u32),
        None => None,
    }
}

/// The decimal digits of `n`, most significant first, without leading zeros.
pub open spec fn decimal(n: nat) -> Seq<char>
    decreases n,
{
    if n < 10 {
        seq![digit_char(n)]
    } else {
        decimal(n / 10).push(digit_char(n % 10))
    }
}

/// The ASCII digit for `d`, which is below 10.
pub open spec fn digit_char(d: nat) -> char {
    ((d + '0' as nat) as u8) as char
}

/// The one-character text of the digit `d`.
fn digit_str(d: u64) -> (r: &'static str)
    requires
        d < 10,
    ensures
        r@ == seq![digit_char(d as nat)],
{
    proof {
        reveal_strlit("0");
        reveal_strlit("1");
        reveal_strlit("2");
        reveal_strlit("3");
        reveal_strlit("4");
        reveal_strlit("5");
        reveal_strlit("6");
        reveal_strlit("7");
        reveal_strlit("8");
        reveal_strlit("9");
    }
    match d {
        0 => "0",
        1 => "1",
        2 => "2",
        3 => "3",
        4 => "4",
        5 => "5",
        6 => "6",
        7 => "7",
        8 => "8",
        _ => "9",
    }
}

/// Writes `n` in decimal.
pub fn to_decimal(n: u64) -> (r: String)
    ensures
        r@ == decimal(n as nat),
    decreases n,
{
    if n < 10 {
        digit_str(n).to_owned()
    } else {
        let mut s = to_decimal(n / 10);
        s.append(digit_str(n % 10));
        s
    }
}

} // verus!
