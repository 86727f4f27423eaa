//! Verified text utilities used throughout the runner: decimal rendering of
//! counters and indices, decimal parsing of counts and counter values, and
//! ASCII-case-insensitive comparison for title assertions.

use vstd::prelude::*;

verus! {

/// The decimal digit character for a value below ten.
pub open spec fn digit_char(d: nat) -> char {
    if d == 0 {
        '0'
    } else if d == 1 {
        '1'
    } else if d == 2 {
        '2'
    } else if d == 3 {
        '3'
    } else if d == 4 {
        '4'
    } else if d == 5 {
        '5'
    } else if d == 6 {
        '6'
    } else if d == 7 {
        '7'
    } else if d == 8 {
        '8'
    } else {
        '9'
    }
}

/// The decimal rendering of `n`, most significant digit first, no sign and no
/// leading zeros (except for `n == 0`, rendered as `"0"`).
pub open spec fn dec_digits(n: nat) -> Seq<char>
    decreases n,
{
    if n < 10 {
        seq![digit_char(n)]
    } else {
        dec_digits(n / 10).push(digit_char(n % 10))
    }
}

/// Whether `c` is one of the ten decimal digit characters.
pub open spec fn is_dec_digit(c: char) -> bool {
    48 <= c as int && c as int <= 57
}

/// The numeric value of a decimal digit character.
pub open spec fn digit_val(c: char) -> nat {
    (c as int - 48) as nat
}

/// Whether every character of `s` is a decimal digit.
pub open spec fn all_digits(s: Seq<char>) -> bool {
    forall|i: int| 0 <= i < s.len() ==> is_dec_digit(#[trigger] s[i])
}

/// The numeric value of a digit sequence read as a base-ten numeral.
pub open spec fn dec_value(s: Seq<char>) -> nat
    decreases s.len(),
{
    if s.len() == 0 {
        0
    } else {
        dec_value(s.drop_last()) * 10 + digit_val(s.last())
    }
}

/// Whether `s` is a numeral that a `u64` count accepts: non-empty, digits
/// only, and within range.
pub open spec fn valid_u64_numeral(s: Seq<char>) -> bool {
    s.len() > 0 && all_digits(s) && dec_value(s) <= u64::MAX
}

fn digit_str(d: u64) -> (r: &'static str)
    requires
        d < 10,
    ensures
        r@ == seq![digit_char(d as nat)],
{
    proof {
        reveal_strlit("0");
        reveal_strlit("1");
        reveal_strlit("2");
        reveal_strlit("3");
        reveal_strlit("4");
        reveal_strlit("5");
        reveal_strlit("6");
        reveal_strlit("7");
        reveal_strlit("8");
        reveal_strlit("9");
    }
    let r: &'static str = if d == 0 {
        "0"
    } else if d == 1 {
        "1"
    } else if d == 2 {
        "2"
    } else if d == 3 {
        "3"
    } else if d == 4 {
        "4"
    } else if d == 5 {
        "5"
    } else if d == 6 {
        "6"
    } else if d == 7 {
        "7"
    } else if d == 8 {
        "8"
    } else {
        "9"
    };
    proof {
        assert(r@ =~= seq![digit_char(d as nat)]);
    }
    r
}

/// Render `n` in decimal, as `dec_digits` describes.
pub fn u64_to_dec(n: u64) -> (r: String)
    ensures
        r@ == dec_digits(n as nat),
    decreases n,
{
    let d: u64 = n % 10;
    let ds = digit_str(d);
    if n < 10 {
        ds.to_owned()
    } else {
        assert(n / 10 < n);
        let mut prefix = u64_to_dec(n / 10);
        prefix.append(ds);
        proof {
            assert(prefix@ =~= dec_digits((n / 10) as nat).push(digit_char((n % 10) as nat)));
        }
        prefix
    }
}

/// A shorter numeral never names a larger value: the value of a prefix is at
/// most the value of the whole sequence.
proof fn lemma_dec_value_prefix(s: Seq<char>, k: int)
    requires
        0 <= k <= s.len(),
    ensures
        dec_value(s.take(k)) <= dec_value(s),
    decreases s.len() - k,
{
    if k == s.len() {
        assert(s.take(k) =~= s);
    } else {
        assert(s.take(k + 1).drop_last() =~= s.take(k));
        assert(dec_value(s.take(k + 1)) == dec_value(s.take(k)) * 10 + digit_val(s.take(k + 1).last()));
        lemma_dec_value_prefix(s, k + 1);
    }
}

/// Parse a non-negative decimal count, as the run configuration requires:
/// returns the value exactly when the text is a non-empty all-digit numeral
/// that fits in a `u64`.
pub fn parse_u64(s: &str) -> (r: Option<u64>)
    ensures
        r is Some <==> valid_u64_numeral(s@),
        r is Some ==> r->0 == dec_value(s@),
{
    let len: usize = s.unicode_len();
    if len == 0 {
        return None;
    }
    let mut i: usize = 0;
    let mut val: u64 = 0;
    while i < len
        invariant
            0 <= i <= len,
            len == s@.len(),
            all_digits(s@.take(i as int)),
            val == dec_value(s@.take(i as int)),
        decreases len - i,
    {
        let c = s.get_char(i);
        let code: u32 = c as u32;
        if code < 48 || code > 57 {
            assert(!is_dec_digit(s@[i as int]));
            return None;
        }
        let d: u64 = (code - 48) as u64;
        proof {
            assert(s@.take(i + 1).drop_last() =~= s@.take(i as int));
            assert(s@.take(i + 1).last() == s@[i as int]);
            assert(dec_value(s@.take(i + 1)) == dec_value(s@.take(i as int)) * 10 + digit_val(s@[i as int]));
        }
        if val > (u64::MAX - d) / 10 {
            proof {
                let q = ((u64::MAX - d) / 10) as nat;
                assert(val * 10 >= (q + 1) * 10);
                assert(10 * q + 10 > u64::MAX - d);
                assert(dec_value(s@.take(i + 1)) > u64::MAX);
                lemma_dec_value_prefix(s@, i + 1);
            }
            return None;
        }
        proof {
            let q = ((u64::MAX - d) / 10) as nat;
            assert(val * 10 <= q * 10);
            assert(10 * q <= u64::MAX - d);
        }
        val = val * 10 + d;
        i = i + 1;
    }
    proof {
        assert(s@.take(len as int) =~= s@);
    }
    Some(val)
}

/// The decimal rendering of a signed value: a minus sign before the digits
/// of the magnitude when negative.
pub open spec fn signed_dec(v: int) -> Seq<char> {
    if v < 0 {
        seq!['-'] + dec_digits((-v) as nat)
    } else {
        dec_digits(v as nat)
    }
}

/// Render a signed value in decimal, as `signed_dec` describes.
pub fn i64_to_dec(v: i64) -> (r: String)
    requires
        v != i64::MIN,
    ensures
        r@ == signed_dec(v as int),
{
    if v < 0 {
        proof {
            reveal_strlit("-");
            assert("-"@ =~= seq!['-']);
        }
        let mut s = "-".to_owned();
        let magnitude = u64_to_dec((-v) as u64);
        s.append(magnitude.as_str());
        s
    } else {
        u64_to_dec(v as u64)
    }
}

/// Compare two strings character for character.
pub fn str_eq(a: &str, b: &str) -> (r: bool)
    ensures
        r == (a@ == b@),
{
    let alen: usize = a.unicode_len();
    let blen: usize = b.unicode_len();
    if alen != blen {
        proof {
            assert(a@.len() != b@.len());
        }
        return false;
    }
    let mut i: usize = 0;
    while i < alen
        invariant
            0 <= i <= alen,
            alen == a@.len(),
            alen == b@.len(),
            forall|j: int| 0 <= j < i ==> a@[j] == b@[j],
        decreases alen - i,
    {
        let ca: char = a.get_char(i);
        let cb: char = b.get_char(i);
        if ca != cb {
            return false;
        }
        i = i + 1;
    }
    proof {
        assert(a@ =~= b@);
    }
    true
}

/// The code of `c` with an ASCII capital letter folded to its small form;
/// every other character keeps its own code.
pub open spec fn ascii_lower(c: char) -> int {
    if 65 <= c as int && c as int <= 90 {
        c as int + 32
    } else {
        c as int
    }
}

/// Character-for-character equality up to ASCII letter case.
pub open spec fn eq_ascii_ci(a: Seq<char>, b: Seq<char>) -> bool {
    a.len() == b.len() && (forall|i: int|
        0 <= i < a.len() ==> ascii_lower(#[trigger] a[i]) == ascii_lower(b[i]))
}

/// Compare two strings ignoring ASCII letter case, as the title assertion
/// does.
pub fn str_eq_ignore_ascii_case(a: &str, b: &str) -> (r: bool)
    ensures
        r == eq_ascii_ci(a@, b@),
{
    let alen: usize = a.unicode_len();
    let blen: usize = b.unicode_len();
    if alen != blen {
        return false;
    }
    let mut i: usize = 0;
    while i < alen
        invariant
            0 <= i <= alen,
            alen == a@.len(),
            alen == b@.len(),
            forall|j: int| 0 <= j < i ==> ascii_lower(#[trigger] a@[j]) == ascii_lower(b@[j]),
        decreases alen - i,
    {
        let ca: u32 = a.get_char(i) as u32;
        let cb: u32 = b.get_char(i) as u32;
        let la: u32 = if 65 <= ca && ca <= 90 {
            ca + 32
        } else {
            ca
        };
        let lb: u32 = if 65 <= cb && cb <= 90 {
            cb + 32
        } else {
            cb
        };
        if la != lb {
            return false;
        }
        i = i + 1;
    }
    true
}

/// Which sign, if any, starts a signed numeral, and the digits after it.
pub open spec fn sign_split(s: Seq<char>) -> (bool, Seq<char>) {
    if s.len() > 0 && s[0] == '-' {
        (true, s.skip(1))
    } else if s.len() > 0 && s[0] == '+' {
        (false, s.skip(1))
    } else {
        (false, s)
    }
}

/// Whether `s` is a numeral an `i32` accepts: an optional sign, then a
/// non-empty all-digit body whose value is within `i32` range.
pub open spec fn valid_i32_numeral(s: Seq<char>) -> bool {
    let (neg, digits) = sign_split(s);
    digits.len() > 0 && all_digits(digits) && (if neg {
        dec_value(digits) <= 0x8000_0000
    } else {
        dec_value(digits) <= 0x7fff_ffff
    })
}

/// The value a valid `i32` numeral names.
pub open spec fn i32_numeral_value(s: Seq<char>) -> int {
    let (neg, digits) = sign_split(s);
    if neg {
        -(dec_value(digits) as int)
    } else {
        dec_value(digits) as int
    }
}

/// Parse a signed decimal value, as the counter assertion requires: returns
/// the value exactly when the text is an optionally signed numeral within
/// `i32` range.
pub fn parse_i32(s: &str) -> (r: Option<i32>)
    ensures
        r is Some <==> valid_i32_numeral(s@),
        r is Some ==> r->0 as int == i32_numeral_value(s@),
{
    let len: usize = s.unicode_len();
    if len == 0 {
        return None;
    }
    let head: char = s.get_char(0);
    let neg: bool = head == '-';
    let signed: bool = neg || head == '+';
    let body: &str = if signed {
        let b = s.substring_char(1, len);
        proof {
            assert(b@ =~= s@.skip(1));
        }
        b
    } else {
        s
    };
    assert(body@ == sign_split(s@).1);
    let magnitude: Option<u64> = parse_u64(body);
    match magnitude {
        None => {
            assert(!valid_i32_numeral(s@));
            None
        },
        Some(m) => {
            if neg {
                if m > 0x8000_0000 {
                    None
                } else {
                    let wide: i64 = -(m as i64);
                    Some(wide as i32)
                }
            } else {
                if m > 0x7fff_ffff {
                    None
                } else {
                    Some(m as i32)
                }
            }
        },
    }
}

} // verus!
