//! Canonical wire text forms for the scalar field types: base-10 integers and
//! lowercase booleans, with verified formatting, parsing, and round trips.
use vstd::prelude::*;
use vstd::string::*;

verus! {

/// A character standing for a decimal digit.
pub open spec fn is_dec_digit(c: char) -> bool {
    '0' <= c && c <= '9'
}

/// The numeric value of a decimal digit character.
pub open spec fn digit_val(c: char) -> nat {
    ((c as nat) - ('0' as nat)) as nat
}

/// The character standing for a decimal digit value below ten.
pub open spec fn digit_char(d: nat) -> char {
    if d == 0 {
        '0'
    } else if d == 1 {
        '1'
    } else if d == 2 {
        '2'
    } else if d == 3 {
        '3'
    } else if d == 4 {
        '4'
    } else if d == 5 {
        '5'
    } else if d == 6 {
        '6'
    } else if d == 7 {
        '7'
    } else if d == 8 {
        '8'
    } else {
        '9'
    }
}

/// The canonical base-10 digit string of a nonnegative value: no sign, no
/// leading zero except for the value zero itself.
pub open spec fn dec_digits(n: nat) -> Seq<char>
    decreases n,
{
    if n < 10 {
        seq![digit_char(n)]
    } else {
        dec_digits(n / 10).push(digit_char(n % 10))
    }
}

/// The canonical base-10 text of a signed value: a leading minus sign for
/// negative values, digits only otherwise.
pub open spec fn dec_int(v: int) -> Seq<char> {
    if v < 0 {
        seq!['-'] + dec_digits((-v) as nat)
    } else {
        dec_digits(v as nat)
    }
}

/// The canonical lowercase text of a boolean.
pub open spec fn bool_text(b: bool) -> Seq<char> {
    if b {
        "true"@
    } else {
        "false"@
    }
}

/// Every character of the string is a decimal digit.
pub open spec fn all_dec_digits(s: Seq<char>) -> bool {
    forall|i: int| 0 <= i < s.len() ==> is_dec_digit(#[trigger] s[i])
}

/// The value of a digit string read in base 10.
pub open spec fn digits_val(s: Seq<char>) -> nat
    decreases s.len(),
{
    if s.len() == 0 {
        0
    } else {
        digits_val(s.drop_last()) * 10 + digit_val(s.last())
    }
}

/// What a bare digit string (no sign) parses to: its base-10 value if it is
/// nonempty and all digits, nothing otherwise.
pub open spec fn parse_unsigned_text(s: Seq<char>) -> Option<nat> {
    if s.len() > 0 && all_dec_digits(s) {
        Some(digits_val(s))
    } else {
        None
    }
}

/// What signed integer text parses to, before any range check: an optional
/// leading sign followed by one or more digits.
pub open spec fn parse_int_text(s: Seq<char>) -> Option<int> {
    if s.len() > 0 && (s[0] == '-' || s[0] == '+') {
        match parse_unsigned_text(s.subrange(1, s.len() as int)) {
            Some(n) => Some(if s[0] == '-' { -(n as int) } else { n as int }),
            None => None,
        }
    } else {
        match parse_unsigned_text(s) {
            Some(n) => Some(n as int),
            None => None,
        }
    }
}

/// What `i64` field text parses to: signed integer text whose value fits.
pub open spec fn parse_i64_text(s: Seq<char>) -> Option<i64> {
    match parse_int_text(s) {
        Some(v) => if i64::MIN <= v <= i64::MAX {
            Some(v as i64)
        } else {
            None
        },
        None => None,
    }
}

/// What `i32` field text parses to: signed integer text whose value fits.
pub open spec fn parse_i32_text(s: Seq<char>) -> Option<i32> {
    match parse_int_text(s) {
        Some(v) => if i32::MIN <= v <= i32::MAX {
            Some(v as i32)
        } else {
            None
        },
        None => None,
    }
}

/// What `u32` field text parses to: an optional plus sign and digits, never a
/// minus sign, with a value that fits.
pub open spec fn parse_u32_text(s: Seq<char>) -> Option<u32> {
    if s.len() > 0 && s[0] == '-' {
        None
    } else {
        match parse_int_text(s) {
            Some(v) => if v <= u32::MAX {
                Some(v as u32)
            } else {
                None
            },
            None => None,
        }
    }
}

/// What boolean field text parses to: exactly `"true"` or `"false"`.
pub open spec fn parse_bool_text(s: Seq<char>) -> Option<bool> {
    if s == "true"@ {
        Some(true)
    } else if s == "false"@ {
        Some(false)
    } else {
        None
    }
}

fn digit_str(d: u64) -> (r: &'static str)
    requires
        d < 10,
    ensures
        r@ == seq![digit_char(d as nat)],
{
    match d {
        0 => {
            proof {
                reveal_strlit("0");
                assert("0"@ =~= seq![digit_char(0)]);
            }
            "0"
        },
        1 => {
            proof {
                reveal_strlit("1");
                assert("1"@ =~= seq![digit_char(1)]);
            }
            "1"
        },
        2 => {
            proof {
                reveal_strlit("2");
                assert("2"@ =~= seq![digit_char(2)]);
            }
            "2"
        },
        3 => {
            proof {
                reveal_strlit("3");
                assert("3"@ =~= seq![digit_char(3)]);
            }
            "3"
        },
        4 => {
            proof {
                reveal_strlit("4");
                assert("4"@ =~= seq![digit_char(4)]);
            }
            "4"
        },
        5 => {
            proof {
                reveal_strlit("5");
                assert("5"@ =~= seq![digit_char(5)]);
            }
            "5"
        },
        6 => {
            proof {
                reveal_strlit("6");
                assert("6"@ =~= seq![digit_char(6)]);
            }
            "6"
        },
        7 => {
            proof {
                reveal_strlit("7");
                assert("7"@ =~= seq![digit_char(7)]);
            }
            "7"
        },
        8 => {
            proof {
                reveal_strlit("8");
                assert("8"@ =~= seq![digit_char(8)]);
            }
            "8"
        },
        _ => {
            proof {
                reveal_strlit("9");
                assert("9"@ =~= seq![digit_char(9)]);
            }
            "9"
        },
    }
}

/// Formats an unsigned value in its canonical base-10 form.
pub fn format_u64(n: u64) -> (r: String)
    ensures
        r@ == dec_digits(n as nat),
    decreases n,
{
    if n < 10 {
        String::from_str(digit_str(n))
    } else {
        let mut s = format_u64(n / 10);
        s.append(digit_str(n % 10));
        proof {
            assert(s@ =~= dec_digits((n / 10) as nat).push(digit_char((n % 10) as nat)));
        }
        s
    }
}

/// Formats a signed value in its canonical base-10 form.
pub fn format_i64(v: i64) -> (r: String)
    ensures
        r@ == dec_int(v as int),
{
    if v >= 0 {
        format_u64(v as u64)
    } else {
        let wide: i128 = -(v as i128);
        let mag: u64 = wide as u64;
        let mut s = String::from_str("-");
        let digits = format_u64(mag);
        s.append(digits.as_str());
        proof {
            reveal_strlit("-");
            assert(s@ =~= seq!['-'] + dec_digits((-(v as int)) as nat));
        }
        s
    }
}

/// Formats an unsigned 32-bit value in its canonical base-10 form.
pub fn format_u32(n: u32) -> (r: String)
    ensures
        r@ == dec_digits(n as nat),
{
    format_u64(n as u64)
}

/// Formats a signed 32-bit value in its canonical base-10 form.
pub fn format_i32(v: i32) -> (r: String)
    ensures
        r@ == dec_int(v as int),
{
    format_i64(v as i64)
}

/// Formats a boolean in its canonical lowercase form.
pub fn format_bool(b: bool) -> (r: String)
    ensures
        r@ == bool_text(b),
{
    if b {
        String::from_str("true")
    } else {
        String::from_str("false")
    }
}

/// A prefix of a digit string never has a larger value than the whole.
proof fn lemma_digits_val_prefix(s: Seq<char>, k: int)
    requires
        0 <= k <= s.len(),
    ensures
        digits_val(s.subrange(0, k)) <= digits_val(s),
    decreases s.len() - k,
{
    if k == s.len() {
        assert(s.subrange(0, k) =~= s);
    } else {
        assert(s.subrange(0, k + 1).drop_last() =~= s.subrange(0, k));
        assert(s.subrange(0, k + 1).last() == s[k]);
        lemma_digits_val_prefix(s, k + 1);
    }
}

fn parse_digits_bounded(s: &str, from: usize, bound: u64) -> (r: Option<u64>)
    requires
        from as int <= s@.len(),
    ensures
        (match parse_unsigned_text(s@.subrange(from as int, s@.len() as int)) {
            Some(n) => if n <= bound as nat {
                r == Some(n as u64)
            } else {
                r is None
            },
            None => r is None,
        }),
{
    let n = s.unicode_len();
    if from >= n {
        return None;
    }
    let mut i: usize = from;
    let mut acc: u64 = 0;
    while i < n
        invariant
            from <= i <= n,
            from < n,
            n == s@.len(),
            acc <= bound,
            acc as nat == digits_val(s@.subrange(from as int, i as int)),
            all_dec_digits(s@.subrange(from as int, i as int)),
        decreases n - i,
    {
        let c = s.get_char(i);
        if c < '0' || c > '9' {
            proof {
                assert(s@.subrange(from as int, s@.len() as int)[i - from] == s@[i as int]);
                assert(!all_dec_digits(s@.subrange(from as int, s@.len() as int)));
            }
            return None;
        }
        let d: u64 = ((c as u32) - 48) as u64;
        let wide: u128 = (acc as u128) * 10 + (d as u128);
        proof {
            assert(s@.subrange(from as int, i + 1).drop_last() =~= s@.subrange(
                from as int,
                i as int,
            ));
            assert(s@.subrange(from as int, i + 1).last() == s@[i as int]);
            assert(digits_val(s@.subrange(from as int, i + 1)) == wide as nat);
            assert(all_dec_digits(s@.subrange(from as int, i + 1)));
        }
        if wide > bound as u128 {
            proof {
                let whole = s@.subrange(from as int, s@.len() as int);
                if all_dec_digits(whole) {
                    assert(whole.subrange(0, i + 1 - from) =~= s@.subrange(from as int, i + 1));
                    lemma_digits_val_prefix(whole, i + 1 - from);
                }
            }
            return None;
        }
        acc = wide as u64;
        i += 1;
    }
    proof {
        assert(s@.subrange(from as int, i as int) =~= s@.subrange(from as int, s@.len() as int));
    }
    Some(acc)
}

/// Parses `i64` field text, as written by `format_i64`.
pub fn parse_i64(s: &str) -> (r: Option<i64>)
    ensures
        r == parse_i64_text(s@),
{
    let n = s.unicode_len();
    if n == 0 {
        return None;
    }
    let c0 = s.get_char(0);
    if c0 == '-' {
        match parse_digits_bounded(s, 1, 9223372036854775808u64) {
            Some(m) => {
                let r: i64 = if m >= 9223372036854775808u64 {
                    i64::MIN
                } else {
                    -(m as i64)
                };
                Some(r)
            },
            None => None,
        }
    } else if c0 == '+' {
        match parse_digits_bounded(s, 1, 9223372036854775807u64) {
            Some(m) => Some(m as i64),
            None => None,
        }
    } else {
        proof {
            assert(s@.subrange(0, s@.len() as int) =~= s@);
        }
        match parse_digits_bounded(s, 0, 9223372036854775807u64) {
            Some(m) => Some(m as i64),
            None => None,
        }
    }
}

/// Parses `i32` field text, as written by `format_i32`.
pub fn parse_i32(s: &str) -> (r: Option<i32>)
    ensures
        r == parse_i32_text(s@),
{
    let n = s.unicode_len();
    if n == 0 {
        return None;
    }
    let c0 = s.get_char(0);
    if c0 == '-' {
        match parse_digits_bounded(s, 1, 2147483648u64) {
            Some(m) => {
                let r: i32 = if m >= 2147483648u64 {
                    i32::MIN
                } else {
                    -(m as i32)
                };
                Some(r)
            },
            None => None,
        }
    } else if c0 == '+' {
        match parse_digits_bounded(s, 1, 2147483647u64) {
            Some(m) => Some(m as i32),
            None => None,
        }
    } else {
        proof {
            assert(s@.subrange(0, s@.len() as int) =~= s@);
        }
        match parse_digits_bounded(s, 0, 2147483647u64) {
            Some(m) => Some(m as i32),
            None => None,
        }
    }
}

/// Parses `u32` field text, as written by `format_u32`.
pub fn parse_u32(s: &str) -> (r: Option<u32>)
    ensures
        r == parse_u32_text(s@),
{
    let n = s.unicode_len();
    if n == 0 {
        return None;
    }
    let c0 = s.get_char(0);
    if c0 == '-' {
        None
    } else if c0 == '+' {
        match parse_digits_bounded(s, 1, 4294967295u64) {
            Some(m) => Some(m as u32),
            None => None,
        }
    } else {
        proof {
            assert(s@.subrange(0, s@.len() as int) =~= s@);
        }
        match parse_digits_bounded(s, 0, 4294967295u64) {
            Some(m) => Some(m as u32),
            None => None,
        }
    }
}

/// Parses boolean field text, as written by `format_bool`.
pub fn parse_bool(s: &str) -> (r: Option<bool>)
    ensures
        r == parse_bool_text(s@),
{
    let o = s.to_owned();
    let t = String::from_str("true");
    let f = String::from_str("false");
    if o == t {
        Some(true)
    } else if o == f {
        Some(false)
    } else {
        None
    }
}

/// The canonical digit string of a value is nonempty, all digits, and reads
/// back to the same value.
pub proof fn lemma_dec_digits_wf(n: nat)
    ensures
        dec_digits(n).len() >= 1,
        all_dec_digits(dec_digits(n)),
        digits_val(dec_digits(n)) == n,
    decreases n,
{
    if n < 10 {
        assert(seq![digit_char(n)].drop_last() =~= Seq::<char>::empty());
        assert(digits_val(Seq::<char>::empty()) == 0);
        assert(digit_val(digit_char(n)) == n);
    } else {
        lemma_dec_digits_wf(n / 10);
        assert(dec_digits(n / 10).push(digit_char(n % 10)).drop_last() =~= dec_digits(n / 10));
        assert forall|i: int| 0 <= i < dec_digits(n).len() implies is_dec_digit(
            #[trigger] dec_digits(n)[i],
        ) by {
            if i < dec_digits(n / 10).len() {
                assert(dec_digits(n)[i] == dec_digits(n / 10)[i]);
            }
        }
    }
}

/// Law: signed 64-bit canonical text parses back to the value it was
/// formatted from.
pub proof fn lemma_i64_text_round_trip(v: i64)
    ensures
        parse_i64_text(dec_int(v as int)) == Some(v),
{
    let s = dec_int(v as int);
    if v >= 0 {
        lemma_dec_digits_wf(v as nat);
        assert(s[0] != '-' && s[0] != '+');
    } else {
        let m = (-(v as int)) as nat;
        lemma_dec_digits_wf(m);
        assert(s[0] == '-');
        assert(s.subrange(1, s.len() as int) =~= dec_digits(m));
    }
}

/// Law: signed 32-bit canonical text parses back to the value it was
/// formatted from.
pub proof fn lemma_i32_text_round_trip(v: i32)
    ensures
        parse_i32_text(dec_int(v as int)) == Some(v),
{
    let s = dec_int(v as int);
    if v >= 0 {
        lemma_dec_digits_wf(v as nat);
        assert(s[0] != '-' && s[0] != '+');
    } else {
        let m = (-(v as int)) as nat;
        lemma_dec_digits_wf(m);
        assert(s[0] == '-');
        assert(s.subrange(1, s.len() as int) =~= dec_digits(m));
    }
}

/// Law: unsigned 32-bit canonical text parses back to the value it was
/// formatted from.
pub proof fn lemma_u32_text_round_trip(v: u32)
    ensures
        parse_u32_text(dec_digits(v as nat)) == Some(v),
{
    lemma_dec_digits_wf(v as nat);
    let s = dec_digits(v as nat);
    assert(s[0] != '-' && s[0] != '+');
}

/// Law: canonical boolean text parses back to the value it was formatted
/// from.
pub proof fn lemma_bool_text_round_trip(b: bool)
    ensures
        parse_bool_text(bool_text(b)) == Some(b),
{
    if !b {
        reveal_strlit("true");
        reveal_strlit("false");
        assert("true"@.len() == 4);
        assert("false"@.len() == 5);
    }
}

} // verus!
