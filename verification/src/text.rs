//! Text groundwork shared by the query composer and the decoder: character
//! classes, string comparison, and decimal rendering and reading of integers.

use vstd::prelude::*;
use vstd::string::*;

verus! {

pub open spec fn is_digit(c: char) -> bool {
    '0' <= c && c <= '9'
}

pub open spec fn digit_val(c: char) -> nat
    recommends
        is_digit(c),
{
    (c as nat - '0' as nat) as nat
}

pub open spec fn digit_char(d: nat) -> char
    recommends
        d < 10,
{
    if d == 0 {
        '0'
    } else if d == 1 {
        '1'
    } else if d == 2 {
        '2'
    } else if d == 3 {
        '3'
    } else if d == 4 {
        '4'
    } else if d == 5 {
        '5'
    } else if d == 6 {
        '6'
    } else if d == 7 {
        '7'
    } else if d == 8 {
        '8'
    } else {
        '9'
    }
}

/// Decimal rendering of a natural number, most significant digit first.
pub open spec fn dec_of(n: nat) -> Seq<char>
    decreases n,
{
    if n < 10 {
        seq![digit_char(n)]
    } else {
        dec_of(n / 10) + seq![digit_char(n % 10)]
    }
}

/// Value of a sequence of decimal digits (empty reads as zero).
pub open spec fn dec_val(s: Seq<char>) -> nat
    decreases s.len(),
{
    if s.len() == 0 {
        0
    } else {
        dec_val(s.drop_last()) * 10 + digit_val(s.last())
    }
}

pub open spec fn all_digits(s: Seq<char>) -> bool {
    forall|i: int| 0 <= i < s.len() ==> is_digit(#[trigger] s[i])
}

fn digit_str(d: u64) -> (s: &'static str)
    requires
        d < 10,
    ensures
        s@ == seq![digit_char(d as nat)],
{
    proof {
        reveal_strlit("0");
        reveal_strlit("1");
        reveal_strlit("2");
        reveal_strlit("3");
        reveal_strlit("4");
        reveal_strlit("5");
        reveal_strlit("6");
        reveal_strlit("7");
        reveal_strlit("8");
        reveal_strlit("9");
    }
    let s = match d {
        0 => "0",
        1 => "1",
        2 => "2",
        3 => "3",
        4 => "4",
        5 => "5",
        6 => "6",
        7 => "7",
        8 => "8",
        _ => "9",
    };
    proof {
        assert(s@ =~= seq![digit_char(d as nat)]);
    }
    s
}

/// Renders `n` in decimal, as it appears in a query string.
pub fn u64_to_dec(n: u64) -> (s: String)
    ensures
        s@ == dec_of(n as nat),
    decreases n,
{
    if n < 10 {
        digit_str(n).to_owned()
    } else {
        let mut s = u64_to_dec(n / 10);
        s.append(digit_str(n % 10));
        s
    }
}

/// Round trip of the decimal text layer: what the composer renders, the
/// decoder reads back as the same value, for every natural number.
pub proof fn lemma_dec_round_trip(n: nat)
    ensures
        all_digits(dec_of(n)),
        dec_of(n).len() >= 1,
        dec_val(dec_of(n)) == n,
    decreases n,
{
    if n < 10 {
        reveal_with_fuel(dec_val, 2);
        assert(dec_of(n) =~= seq![digit_char(n)]);
        assert(seq![digit_char(n)].drop_last() =~= Seq::<char>::empty());
        assert(digit_val(digit_char(n)) == n);
    } else {
        lemma_dec_round_trip(n / 10);
        let prefix = dec_of(n / 10);
        let whole = prefix + seq![digit_char(n % 10)];
        assert(whole.drop_last() =~= prefix);
        assert(whole.last() == digit_char(n % 10));
        assert forall|i: int| 0 <= i < whole.len() implies is_digit(#[trigger] whole[i]) by {
            if i < prefix.len() {
                assert(whole[i] == prefix[i]);
            }
        }
    }
}

/// Prefixes of a digit string never read as more than the whole string.
pub proof fn lemma_dec_val_prefix(s: Seq<char>, i: int)
    requires
        0 <= i <= s.len(),
    ensures
        dec_val(s.subrange(0, i)) <= dec_val(s),
    decreases s.len() - i,
{
    if i < s.len() {
        lemma_dec_val_prefix(s, i + 1);
        assert(s.subrange(0, i + 1).drop_last() =~= s.subrange(0, i));
        assert(dec_val(s.subrange(0, i)) * 10 >= dec_val(s.subrange(0, i)));
    } else {
        assert(s.subrange(0, i) =~= s);
    }
}

/// Reads a decimal digit string as a `u64`; `None` on anything that is not
/// a plain digit string, or on a value that does not fit.
pub fn parse_u64(s: &str) -> (r: Option<u64>)
    ensures
        r == if s@.len() > 0 && all_digits(s@) && dec_val(s@) <= u64::MAX {
            Some(dec_val(s@) as u64)
        } else {
            None::<u64>
        },
{
    let len = s.unicode_len();
    if len == 0 {
        return None;
    }
    let mut acc: u64 = 0;
    let mut i: usize = 0;
    while i < len
        invariant
            len == s@.len(),
            0 < len,
            i <= len,
            all_digits(s@.subrange(0, i as int)),
            acc == dec_val(s@.subrange(0, i as int)),
        decreases len - i,
    {
        let c = s.get_char(i);
        if c < '0' || c > '9' {
            proof {
                assert(!is_digit(s@[i as int]));
            }
            return None;
        }
        let d: u64 = (c as u32 as u64) - 48;
        proof {
            assert(d == digit_val(s@[i as int]));
        }
        if acc > (u64::MAX - d) / 10 {
            proof {
                let p = s@.subrange(0, i as int + 1);
                assert(p.drop_last() =~= s@.subrange(0, i as int));
                assert(p.last() == s@[i as int]);
                assert(acc * 10 + d > u64::MAX) by (nonlinear_arith)
                    requires
                        acc > (u64::MAX - d) / 10,
                        d <= 9,
                ;
                assert(dec_val(p) > u64::MAX);
                lemma_dec_val_prefix(s@, i as int + 1);
            }
            return None;
        }
        proof {
            assert(acc * 10 + d <= u64::MAX) by (nonlinear_arith)
                requires
                    acc <= (u64::MAX - d) / 10,
                    d <= 9,
            ;
            let p = s@.subrange(0, i as int + 1);
            assert(p.drop_last() =~= s@.subrange(0, i as int));
            assert(p.last() == s@[i as int]);
        }
        acc = acc * 10 + d;
        i = i + 1;
    }
    proof {
        assert(s@.subrange(0, len as int) =~= s@);
    }
    Some(acc)
}

/// A signed decimal integer token: an optional minus sign, then digits.
pub open spec fn is_int_token(s: Seq<char>) -> bool {
    if s.len() > 0 && s[0] == '-' {
        s.len() >= 2 && all_digits(s.subrange(1, s.len() as int))
    } else {
        s.len() >= 1 && all_digits(s)
    }
}

/// Value of a signed decimal integer token.
pub open spec fn int_val(s: Seq<char>) -> int {
    if s.len() > 0 && s[0] == '-' {
        -(dec_val(s.subrange(1, s.len() as int)) as int)
    } else {
        dec_val(s) as int
    }
}

/// Reads a signed decimal integer as an `i64`; `None` on any other text,
/// or on a value outside the `i64` range.
pub fn parse_i64(s: &str) -> (r: Option<i64>)
    ensures
        r == if is_int_token(s@) && i64::MIN <= int_val(s@) <= i64::MAX {
            Some(int_val(s@) as i64)
        } else {
            None::<i64>
        },
{
    let len = s.unicode_len();
    if len > 0 && s.get_char(0) == '-' {
        let digits = s.substring_char(1, len);
        match parse_u64(digits) {
            Some(v) => {
                if v > 9223372036854775808u64 {
                    None
                } else if v == 9223372036854775808u64 {
                    Some(i64::MIN)
                } else {
                    Some(-(v as i64))
                }
            },
            None => {
                proof {
                    if is_int_token(s@) {
                        assert(dec_val(s@.subrange(1, s@.len() as int)) > u64::MAX);
                    }
                }
                None
            },
        }
    } else {
        match parse_u64(s) {
            Some(v) => {
                if v <= i64::MAX as u64 {
                    Some(v as i64)
                } else {
                    None
                }
            },
            None => None,
        }
    }
}

/// First position at or after `i` that does not hold a decimal digit.
pub open spec fn digits_end(s: Seq<char>, i: int) -> int
    decreases s.len() - i,
{
    if 0 <= i < s.len() && is_digit(s[i]) {
        digits_end(s, i + 1)
    } else {
        i
    }
}

pub proof fn lemma_digits_end_bounds(s: Seq<char>, i: int)
    requires
        0 <= i <= s.len(),
    ensures
        i <= digits_end(s, i) <= s.len(),
    decreases s.len() - i,
{
    if i < s.len() && is_digit(s[i]) {
        lemma_digits_end_bounds(s, i + 1);
    }
}

fn digits_end_exec(s: &str, i: usize) -> (r: usize)
    requires
        i <= s@.len(),
    ensures
        r == digits_end(s@, i as int),
        i <= r <= s@.len(),
    decreases s@.len() - i,
{
    let len = s.unicode_len();
    if i < len && { let c = s.get_char(i); '0' <= c && c <= '9' } {
        digits_end_exec(s, i + 1)
    } else {
        i
    }
}

proof fn lemma_digits_end_shift(s: Seq<char>, i: int, e: int, k: int)
    requires
        0 <= i <= k <= e <= s.len(),
        digits_end(s, k) <= e,
    ensures
        digits_end(s.subrange(i, e), k - i) == digits_end(s, k) - i,
    decreases e - k,
{
    let t = s.subrange(i, e);
    lemma_digits_end_bounds(s, k);
    if k < e && is_digit(s[k]) {
        assert(t[k - i] == s[k]);
        lemma_digits_end_shift(s, i, e, k + 1);
    } else if k < e {
        assert(t[k - i] == s[k]);
    } else {
        assert(k == e);
    }
}

/// End of an unsigned numeric mantissa at `i`: digits with at most one
/// decimal point among them (at least one digit in all), then an optional
/// exponent part. `None` when no such mantissa starts at `i`. This is the
/// base-10 floating-point shape — leading zeros, `5.` and `.5` included —
/// shared by the string-coercion grammar; the wire-side JSON scanner
/// below is stricter.
pub open spec fn scan_mantissa(s: Seq<char>, i: int) -> Option<int> {
    let a = digits_end(s, i);
    let b = if a < s.len() && s[a] == '.' {
        digits_end(s, a + 1)
    } else {
        a
    };
    let mantissa_digits = if a < s.len() && s[a] == '.' {
        (a - i) + (b - (a + 1))
    } else {
        a - i
    };
    if i < 0 || mantissa_digits <= 0 {
        None
    } else if b < s.len() && (s[b] == 'e' || s[b] == 'E') {
        let c = if b + 1 < s.len() && (s[b + 1] == '+' || s[b + 1] == '-') {
            b + 2
        } else {
            b + 1
        };
        let d = digits_end(s, c);
        if d > c {
            Some(d)
        } else {
            None
        }
    } else {
        Some(b)
    }
}

fn scan_mantissa_exec(s: &str, i: usize) -> (r: Option<usize>)
    requires
        i <= s@.len(),
    ensures
        match r {
            Some(e) => scan_mantissa(s@, i as int) == Some(e as int) && i < e <= s@.len(),
            None => scan_mantissa(s@, i as int) is None,
        },
{
    let len = s.unicode_len();
    let a = digits_end_exec(s, i);
    let dot = a < len && s.get_char(a) == '.';
    let b = if dot {
        digits_end_exec(s, a + 1)
    } else {
        a
    };
    let mantissa_digits = if dot {
        (a - i) + (b - (a + 1))
    } else {
        a - i
    };
    if mantissa_digits == 0 {
        return None;
    }
    if b < len && {
        let c = s.get_char(b);
        c == 'e' || c == 'E'
    } {
        let c = if b + 1 < len && {
            let x = s.get_char(b + 1);
            x == '+' || x == '-'
        } {
            b + 2
        } else {
            b + 1
        };
        let d = digits_end_exec(s, c);
        if d > c {
            Some(d)
        } else {
            None
        }
    } else {
        Some(b)
    }
}

/// Case-insensitive match of one character against a letter.
pub open spec fn ci(c: char, lower: char, upper: char) -> bool {
    c == lower || c == upper
}

/// The word `inf` or `infinity`, in any letter case.
pub open spec fn is_inf_word(s: Seq<char>) -> bool {
    (s.len() == 3 && ci(s[0], 'i', 'I') && ci(s[1], 'n', 'N') && ci(s[2], 'f', 'F')) || (s.len()
        == 8 && ci(s[0], 'i', 'I') && ci(s[1], 'n', 'N') && ci(s[2], 'f', 'F') && ci(
        s[3],
        'i',
        'I',
    ) && ci(s[4], 'n', 'N') && ci(s[5], 'i', 'I') && ci(s[6], 't', 'T') && ci(s[7], 'y', 'Y'))
}

/// The word `nan`, in any letter case.
pub open spec fn is_nan_word(s: Seq<char>) -> bool {
    s.len() == 3 && ci(s[0], 'n', 'N') && ci(s[1], 'a', 'A') && ci(s[2], 'n', 'N')
}

/// Text that float parsing reads as positive infinity: the infinity word,
/// with an optional plus sign.
pub open spec fn is_pos_inf_text(s: Seq<char>) -> bool {
    if s.len() > 0 && s[0] == '+' {
        is_inf_word(s.drop_first())
    } else {
        is_inf_word(s)
    }
}

/// Text that float parsing reads as negative infinity.
pub open spec fn is_neg_inf_text(s: Seq<char>) -> bool {
    s.len() > 0 && s[0] == '-' && is_inf_word(s.drop_first())
}

/// Text that float parsing reads as not-a-number, the sign ignored.
pub open spec fn is_nan_text(s: Seq<char>) -> bool {
    if s.len() > 0 && (s[0] == '+' || s[0] == '-') {
        is_nan_word(s.drop_first())
    } else {
        is_nan_word(s)
    }
}

/// Text that float parsing reads as a number written in digits: an
/// optional sign, then one mantissa filling the rest.
pub open spec fn is_number_text(s: Seq<char>) -> bool {
    let b: int = if s.len() > 0 && (s[0] == '+' || s[0] == '-') {
        1
    } else {
        0
    };
    scan_mantissa(s, b) == Some(s.len() as int)
}

fn inf_word_exec(s: &str) -> (r: bool)
    ensures
        r == is_inf_word(s@),
{
    let len = s.unicode_len();
    if len == 3 {
        let a = s.get_char(0);
        let b = s.get_char(1);
        let c = s.get_char(2);
        (a == 'i' || a == 'I') && (b == 'n' || b == 'N') && (c == 'f' || c == 'F')
    } else if len == 8 {
        let c0 = s.get_char(0);
        let c1 = s.get_char(1);
        let c2 = s.get_char(2);
        let c3 = s.get_char(3);
        let c4 = s.get_char(4);
        let c5 = s.get_char(5);
        let c6 = s.get_char(6);
        let c7 = s.get_char(7);
        (c0 == 'i' || c0 == 'I') && (c1 == 'n' || c1 == 'N') && (c2 == 'f' || c2 == 'F') && (c3
            == 'i' || c3 == 'I') && (c4 == 'n' || c4 == 'N') && (c5 == 'i' || c5 == 'I') && (c6
            == 't' || c6 == 'T') && (c7 == 'y' || c7 == 'Y')
    } else {
        false
    }
}

fn nan_word_exec(s: &str) -> (r: bool)
    ensures
        r == is_nan_word(s@),
{
    let len = s.unicode_len();
    if len == 3 {
        let a = s.get_char(0);
        let b = s.get_char(1);
        let c = s.get_char(2);
        (a == 'n' || a == 'N') && (b == 'a' || b == 'A') && (c == 'n' || c == 'N')
    } else {
        false
    }
}

pub(crate) fn is_pos_inf_text_exec(s: &str) -> (r: bool)
    ensures
        r == is_pos_inf_text(s@),
{
    let len = s.unicode_len();
    if len > 0 && s.get_char(0) == '+' {
        let body = s.substring_char(1, len);
        proof {
            assert(body@ =~= s@.drop_first());
        }
        inf_word_exec(body)
    } else {
        inf_word_exec(s)
    }
}

pub(crate) fn is_neg_inf_text_exec(s: &str) -> (r: bool)
    ensures
        r == is_neg_inf_text(s@),
{
    let len = s.unicode_len();
    if len > 0 && s.get_char(0) == '-' {
        let body = s.substring_char(1, len);
        proof {
            assert(body@ =~= s@.drop_first());
        }
        inf_word_exec(body)
    } else {
        false
    }
}

pub(crate) fn is_nan_text_exec(s: &str) -> (r: bool)
    ensures
        r == is_nan_text(s@),
{
    let len = s.unicode_len();
    if len > 0 && {
        let c = s.get_char(0);
        c == '+' || c == '-'
    } {
        let body = s.substring_char(1, len);
        proof {
            assert(body@ =~= s@.drop_first());
        }
        nan_word_exec(body)
    } else {
        nan_word_exec(s)
    }
}

pub(crate) fn is_number_text_exec(s: &str) -> (r: bool)
    ensures
        r == is_number_text(s@),
{
    let len = s.unicode_len();
    let b: usize = if len > 0 && {
        let c = s.get_char(0);
        c == '+' || c == '-'
    } {
        1
    } else {
        0
    };
    match scan_mantissa_exec(s, b) {
        Some(e) => e == len,
        None => false,
    }
}

/// End of a strict JSON number at `i`: an optional minus sign, an integer
/// part that is `0` alone or starts with a nonzero digit, then an optional
/// fraction and an optional exponent, each with at least one digit. A
/// malformed fraction or exponent simply ends the token early; whatever
/// is left over then fails the parse of the enclosing value.
pub open spec fn scan_json_number(s: Seq<char>, i: int) -> Option<int> {
    let j = if 0 <= i < s.len() && s[i] == '-' {
        i + 1
    } else {
        i
    };
    if !(0 <= j < s.len() && is_digit(s[j])) {
        None
    } else {
        let k = if s[j] == '0' {
            j + 1
        } else {
            digits_end(s, j)
        };
        let m = if k < s.len() && s[k] == '.' && digits_end(s, k + 1) > k + 1 {
            digits_end(s, k + 1)
        } else {
            k
        };
        if m < s.len() && (s[m] == 'e' || s[m] == 'E') {
            let c = if m + 1 < s.len() && (s[m + 1] == '+' || s[m + 1] == '-') {
                m + 2
            } else {
                m + 1
            };
            let d = digits_end(s, c);
            if d > c {
                Some(d)
            } else {
                Some(m)
            }
        } else {
            Some(m)
        }
    }
}

pub(crate) fn scan_json_number_exec(s: &str, i: usize) -> (r: Option<usize>)
    requires
        i <= s@.len(),
    ensures
        match r {
            Some(e) => scan_json_number(s@, i as int) == Some(e as int) && i < e <= s@.len(),
            None => scan_json_number(s@, i as int) is None,
        },
{
    let len = s.unicode_len();
    let j = if i < len && s.get_char(i) == '-' {
        i + 1
    } else {
        i
    };
    if !(j < len && {
        let c = s.get_char(j);
        '0' <= c && c <= '9'
    }) {
        return None;
    }
    let k = if s.get_char(j) == '0' {
        j + 1
    } else {
        proof {
            lemma_digits_end_bounds(s@, j as int + 1);
        }
        digits_end_exec(s, j)
    };
    let m = if k < len && s.get_char(k) == '.' && digits_end_exec(s, k + 1) > k + 1 {
        digits_end_exec(s, k + 1)
    } else {
        k
    };
    if m < len && {
        let c = s.get_char(m);
        c == 'e' || c == 'E'
    } {
        let c = if m + 1 < len && {
            let x = s.get_char(m + 1);
            x == '+' || x == '-'
        } {
            m + 2
        } else {
            m + 1
        };
        let d = digits_end_exec(s, c);
        if d > c {
            Some(d)
        } else {
            Some(m)
        }
    } else {
        Some(m)
    }
}

/// A scanned strict JSON number, taken out of its surrounding text, is a
/// numeric text on its own.
pub proof fn lemma_scan_json_number_token(s: Seq<char>, i: int)
    requires
        0 <= i <= s.len(),
    ensures
        match scan_json_number(s, i) {
            Some(e) => i < e <= s.len() && is_number_text(s.subrange(i, e)),
            None => true,
        },
{
    if scan_json_number(s, i) is Some {
        let e = scan_json_number(s, i)->0;
        let j = if i < s.len() && s[i] == '-' {
            i + 1
        } else {
            i
        };
        lemma_digits_end_bounds(s, j);
        lemma_digits_end_bounds(s, j + 1);
        let k = if s[j] == '0' {
            j + 1
        } else {
            digits_end(s, j)
        };
        assert(j < k <= s.len());
        let frac = k < s.len() && s[k] == '.' && digits_end(s, k + 1) > k + 1;
        let m = if frac {
            digits_end(s, k + 1)
        } else {
            k
        };
        if frac {
            lemma_digits_end_bounds(s, k + 1);
        }
        let has_exp = m < s.len() && (s[m] == 'e' || s[m] == 'E');
        let c = if m + 1 < s.len() && (s[m + 1] == '+' || s[m + 1] == '-') {
            m + 2
        } else {
            m + 1
        };
        if has_exp {
            lemma_digits_end_bounds(s, c);
        }
        assert(i < e <= s.len());
        let t = s.subrange(i, e);
        assert forall|x: int| 0 <= x < e - i implies t[x] == s[i + x] by {}
        let b: int = if t.len() > 0 && (t[0] == '+' || t[0] == '-') {
            1
        } else {
            0
        };
        assert(b == j - i);
        // the integer digit run of `t` ends exactly where the token's does
        if s[j] == '0' {
            assert(k == j + 1);
            if k < e {
                assert(t[k - i] == s[k]);
                assert(!is_digit(s[k]));
            }
            assert(digits_end(t, b) == k - i) by {
                reveal_with_fuel(digits_end, 3);
            }
        } else {
            lemma_digits_end_shift(s, i, e, j);
        }
        let a2 = digits_end(t, b);
        assert(a2 == k - i);
        if frac {
            assert(t[a2] == s[k]);
            lemma_digits_end_shift(s, i, e, k + 1);
        } else {
            if k < e {
                assert(t[k - i] == s[k]);
            }
        }
        let b2 = if a2 < t.len() && t[a2] == '.' {
            digits_end(t, a2 + 1)
        } else {
            a2
        };
        assert(b2 == m - i);
        if has_exp && e > m {
            assert(t[b2] == s[m]);
            assert(m + 1 < e);
            assert(t[b2 + 1] == s[m + 1]);
            lemma_digits_end_shift(s, i, e, c);
        } else {
            if m < e {
                assert(t[m - i] == s[m]);
            }
        }
        assert(scan_mantissa(t, b) == Some(t.len() as int));
    }
}

/// Character-for-character string comparison, proved equivalent to view
/// equality.
pub fn str_eq(a: &str, b: &str) -> (r: bool)
    ensures
        r <==> a@ == b@,
{
    let la = a.unicode_len();
    let lb = b.unicode_len();
    if la != lb {
        proof {
            assert(a@ != b@) by {
                assert(a@.len() != b@.len());
            }
        }
        return false;
    }
    let mut i: usize = 0;
    while i < la
        invariant
            la == a@.len(),
            la == b@.len(),
            i <= la,
            forall|k: int| 0 <= k < i ==> a@[k] == b@[k],
        decreases la - i,
    {
        if a.get_char(i) != b.get_char(i) {
            proof {
                assert(a@[i as int] != b@[i as int]);
            }
            return false;
        }
        i = i + 1;
    }
    proof {
        assert(a@ =~= b@);
    }
    true
}

} // verus!
