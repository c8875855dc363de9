//! Textual integers: the exact grammar and value of decimal integer text,
//! verified parsers for the 32-bit and 64-bit kinds, and a verified
//! decimal renderer for results.
//!
//! Integer text is an optional `+` or `-` sign followed by one or more
//! decimal digits; out-of-range text for a kind is rejected, never
//! silently truncated.

use vstd::prelude::*;
use vstd::string::StrSliceExecFns;
use vstd::string::StringExecFns;

verus! {

/// Whether `c` is a decimal digit.
pub open spec fn is_dec_digit(c: char) -> bool {
    48 <= c as int <= 57
}

/// The numeric value of a digit character.
pub open spec fn digit_val(c: char) -> int {
    c as int - 48
}

/// Whether every character of `s` is a decimal digit.
pub open spec fn all_digits(s: Seq<char>) -> bool {
    forall|i: int| 0 <= i < s.len() ==> is_dec_digit(s[i])
}

/// The value of a run of decimal digits, most significant first.
pub open spec fn digits_val(s: Seq<char>) -> int
    decreases s.len(),
{
    if s.len() == 0 {
        0
    } else {
        10 * digits_val(s.drop_last()) + digit_val(s.last())
    }
}

/// Whether `s` is well-formed integer text: an optional sign followed by
/// at least one decimal digit.
pub open spec fn int_text_ok(s: Seq<char>) -> bool {
    if s.len() > 0 && (s[0] == '+' || s[0] == '-') {
        s.len() > 1 && all_digits(s.skip(1))
    } else {
        s.len() > 0 && all_digits(s)
    }
}

/// The signed value of well-formed integer text.
pub open spec fn int_text_val(s: Seq<char>) -> int
    recommends
        int_text_ok(s),
{
    if s.len() > 0 && s[0] == '-' {
        -digits_val(s.skip(1))
    } else if s.len() > 0 && s[0] == '+' {
        digits_val(s.skip(1))
    } else {
        digits_val(s)
    }
}

/// A run of digits has a nonnegative value.
pub proof fn lemma_digits_val_nonneg(s: Seq<char>)
    requires
        all_digits(s),
    ensures
        digits_val(s) >= 0,
    decreases s.len(),
{
    if s.len() > 0 {
        assert(all_digits(s.drop_last()));
        lemma_digits_val_nonneg(s.drop_last());
    }
}

/// Extending a digit run by one digit multiplies its value by ten and adds
/// the new digit.
pub proof fn lemma_digits_val_take_step(s: Seq<char>, i: int)
    requires
        0 <= i < s.len(),
    ensures
        digits_val(s.take(i + 1)) == 10 * digits_val(s.take(i)) + digit_val(s[i]),
{
    assert(s.take(i + 1).drop_last() =~= s.take(i));
    assert(s.take(i + 1).last() == s[i]);
}

/// A prefix of a digit run never has a larger value than the whole run.
pub proof fn lemma_digits_val_prefix_le(s: Seq<char>, i: int)
    requires
        all_digits(s),
        0 <= i <= s.len(),
    ensures
        digits_val(s.take(i)) <= digits_val(s),
    decreases s.len() - i,
{
    if i == s.len() {
        assert(s.take(i) =~= s);
    } else {
        lemma_digits_val_take_step(s, i);
        assert(all_digits(s.take(i)));
        lemma_digits_val_nonneg(s.take(i));
        lemma_digits_val_prefix_le(s, i + 1);
    }
}

/// Parses `s[from..]` as a nonempty run of decimal digits whose value is at
/// most `cap`; returns its value, or nothing when the run is empty, holds a
/// non-digit, or its value exceeds `cap`.
pub fn parse_magnitude(s: &str, from: usize, cap: u128) -> (r: Option<u128>)
    requires
        from <= s@.len(),
        cap <= 0x8000_0000_0000_0000,
    ensures
        r is Some <==> (s@.len() - from > 0 && all_digits(s@.skip(from as int)) && digits_val(
            s@.skip(from as int),
        ) <= cap),
        r matches Some(m) ==> m as int == digits_val(s@.skip(from as int)),
{
    let ghost sub = s@.skip(from as int);
    let len = s.unicode_len();
    if len == from {
        return None;
    }
    let mut acc: u128 = 0;
    let mut i: usize = from;
    while i < len
        invariant
            from <= i <= len,
            len == s@.len(),
            sub == s@.skip(from as int),
            cap <= 0x8000_0000_0000_0000,
            all_digits(sub.take(i - from)),
            acc as int == digits_val(sub.take(i - from)),
            acc <= cap,
        decreases len - i,
    {
        let c = s.get_char(i);
        let d = c as u32;
        proof {
            assert(sub[i - from] == s@[i as int]);
        }
        if d < 48 || d > 57 {
            proof {
                assert(!is_dec_digit(sub[i - from]));
            }
            return None;
        }
        let v = acc * 10 + ((d - 48) as u128);
        proof {
            lemma_digits_val_take_step(sub, i - from);
            assert(sub.take(i - from + 1) =~= sub.take((i + 1 - from) as int));
        }
        if v > cap {
            proof {
                if all_digits(sub) {
                    lemma_digits_val_prefix_le(sub, i - from + 1);
                }
            }
            return None;
        }
        acc = v;
        i = i + 1;
    }
    proof {
        assert(sub.take(len - from) =~= sub);
    }
    Some(acc)
}

/// Parses integer text as a 32-bit signed integer: the exact value where the
/// text is well formed and in range, and nothing otherwise.
pub fn parse_i32(s: &str) -> (r: Option<i32>)
    ensures
        r is Some <==> (int_text_ok(s@) && i32::MIN <= int_text_val(s@) <= i32::MAX),
        r matches Some(v) ==> v as int == int_text_val(s@),
{
    let len = s.unicode_len();
    if len == 0 {
        return None;
    }
    let c0 = s.get_char(0);
    let neg = c0 == '-';
    let from: usize = if neg || c0 == '+' {
        1
    } else {
        0
    };
    let cap: u128 = if neg {
        0x8000_0000
    } else {
        0x7FFF_FFFF
    };
    proof {
        if from == 0 {
            assert(s@.skip(0) =~= s@);
        }
    }
    match parse_magnitude(s, from, cap) {
        None => None,
        Some(m) => {
            if neg {
                Some((-(m as i64)) as i32)
            } else {
                Some(m as i32)
            }
        },
    }
}

/// Parses integer text as a 64-bit signed integer: the exact value where the
/// text is well formed and in range, and nothing otherwise.
pub fn parse_i64(s: &str) -> (r: Option<i64>)
    ensures
        r is Some <==> (int_text_ok(s@) && i64::MIN <= int_text_val(s@) <= i64::MAX),
        r matches Some(v) ==> v as int == int_text_val(s@),
{
    let len = s.unicode_len();
    if len == 0 {
        return None;
    }
    let c0 = s.get_char(0);
    let neg = c0 == '-';
    let from: usize = if neg || c0 == '+' {
        1
    } else {
        0
    };
    let cap: u128 = if neg {
        0x8000_0000_0000_0000
    } else {
        0x7FFF_FFFF_FFFF_FFFF
    };
    proof {
        if from == 0 {
            assert(s@.skip(0) =~= s@);
        }
    }
    match parse_magnitude(s, from, cap) {
        None => None,
        Some(m) => {
            if neg {
                Some((-(m as i128)) as i64)
            } else {
                Some(m as i64)
            }
        },
    }
}

/// The digit character for a digit value.
pub open spec fn digit_char(d: int) -> char {
    ((48 + d) as u8) as char
}

/// The decimal digits of a nonnegative number, most significant first.
pub open spec fn dec_digits(n: nat) -> Seq<char>
    decreases n,
{
    if n < 10 {
        seq![digit_char(n as int)]
    } else {
        dec_digits(n / 10) + seq![digit_char((n % 10) as int)]
    }
}

/// The decimal text of a signed number: a `-` sign for negatives, then the
/// digits of its magnitude.
pub open spec fn dec_text(v: int) -> Seq<char> {
    if v < 0 {
        seq!['-'] + dec_digits((-v) as nat)
    } else {
        dec_digits(v as nat)
    }
}

/// The one-character string for a digit value.
fn digit_str(d: u64) -> (r: &'static str)
    requires
        d < 10,
    ensures
        r@ =~= seq![digit_char(d as int)],
{
    proof {
        reveal_strlit("0");
        reveal_strlit("1");
        reveal_strlit("2");
        reveal_strlit("3");
        reveal_strlit("4");
        reveal_strlit("5");
        reveal_strlit("6");
        reveal_strlit("7");
        reveal_strlit("8");
        reveal_strlit("9");
    }
    match d {
        0 => "0",
        1 => "1",
        2 => "2",
        3 => "3",
        4 => "4",
        5 => "5",
        6 => "6",
        7 => "7",
        8 => "8",
        _ => "9",
    }
}

/// Appends the decimal digits of `n` to `out`.
fn push_digits(n: u64, out: &mut String)
    ensures
        final(out)@ == old(out)@ + dec_digits(n as nat),
    decreases n,
{
    if n < 10 {
        out.append(digit_str(n));
    } else {
        assert(n / 10 < n) by (nonlinear_arith)
            requires
                n >= 10,
        ;
        push_digits(n / 10, out);
        out.append(digit_str(n % 10));
        proof {
            assert(final(out)@ =~= old(out)@ + dec_digits(n as nat));
        }
    }
}

/// Renders a 64-bit signed integer as decimal text.
pub fn i64_to_dec(v: i64) -> (r: String)
    ensures
        r@ == dec_text(v as int),
{
    let mut out = String::new();
    if v < 0 {
        proof {
            reveal_strlit("-");
        }
        out.append("-");
        let mag: u64 = (-(v as i128)) as u64;
        push_digits(mag, &mut out);
        proof {
            assert(out@ =~= dec_text(v as int));
        }
    } else {
        push_digits(v as u64, &mut out);
        proof {
            assert(out@ =~= dec_text(v as int));
        }
    }
    out
}

} // verus!
