use vstd::prelude::*;

verus! {

/// True of the ten decimal digit characters.
pub open spec fn is_dec_digit(c: char) -> bool {
    '0' <= c && c <= '9'
}

/// The numeric value of a decimal digit character.
pub open spec fn digit_val(c: char) -> nat
    recommends
        is_dec_digit(c),
{
    (c as int - '0' as int) as nat
}

/// The decimal digit character for a value below ten.
pub open spec fn digit_char(d: nat) -> char
    recommends
        d < 10,
{
    if d == 0 {
        '0'
    } else if d == 1 {
        '1'
    } else if d == 2 {
        '2'
    } else if d == 3 {
        '3'
    } else if d == 4 {
        '4'
    } else if d == 5 {
        '5'
    } else if d == 6 {
        '6'
    } else if d == 7 {
        '7'
    } else if d == 8 {
        '8'
    } else {
        '9'
    }
}

/// True when every character of `s` is a decimal digit.
pub open spec fn all_dec_digits(s: Seq<char>) -> bool {
    forall|i: int| 0 <= i < s.len() ==> is_dec_digit(#[trigger] s[i])
}

/// The canonical decimal representation of `n`: no sign, no leading zero
/// except for zero itself.
pub open spec fn dec_rep(n: nat) -> Seq<char>
    decreases n,
{
    if n < 10 {
        seq![digit_char(n)]
    } else {
        dec_rep(n / 10) + seq![digit_char(n % 10)]
    }
}

/// The value of a digit string, most significant digit first.
pub open spec fn digits_to_nat(s: Seq<char>) -> nat
    decreases s.len(),
{
    if s.len() == 0 {
        0
    } else {
        digits_to_nat(s.drop_last()) * 10 + digit_val(s.last())
    }
}

/// What parsing an unsigned decimal number accepts: an optional leading
/// plus sign, then a non-empty string of digits only, whose value fits in
/// 64 bits; anything else is rejected.
pub open spec fn spec_parse_u64(s: Seq<char>) -> Option<u64> {
    let digits = if s.len() > 0 && s[0] == '+' {
        s.skip(1)
    } else {
        s
    };
    if digits.len() > 0 && all_dec_digits(digits) && digits_to_nat(digits) <= u64::MAX {
        Some(digits_to_nat(digits) as u64)
    } else {
        None
    }
}

/// Appending one digit multiplies the value by ten and adds that digit.
proof fn lemma_digits_to_nat_push(s: Seq<char>, c: char)
    ensures
        digits_to_nat(s + seq![c]) == digits_to_nat(s) * 10 + digit_val(c),
{
    let t = s + seq![c];
    assert(t.drop_last() =~= s);
    assert(t.last() == c);
}

/// A decimal representation is never empty and consists of digits only.
pub proof fn lemma_dec_rep_digits(n: nat)
    ensures
        dec_rep(n).len() >= 1,
        all_dec_digits(dec_rep(n)),
    decreases n,
{
    if n < 10 {
    } else {
        lemma_dec_rep_digits(n / 10);
        let prefix = dec_rep(n / 10);
        let whole = dec_rep(n);
        assert forall|i: int| 0 <= i < whole.len() implies is_dec_digit(#[trigger] whole[i]) by {
            if i < prefix.len() {
                assert(whole[i] == prefix[i]);
            } else {
                assert(whole[i] == digit_char(n % 10));
            }
        }
    }
}

/// Reading the decimal representation of `n` back as a number yields `n`.
pub proof fn lemma_dec_rep_value(n: nat)
    ensures
        digits_to_nat(dec_rep(n)) == n,
    decreases n,
{
    if n < 10 {
        let t = dec_rep(n);
        assert(t.drop_last() =~= Seq::<char>::empty());
        assert(digits_to_nat(Seq::<char>::empty()) == 0);
        assert(digits_to_nat(t) == digits_to_nat(t.drop_last()) * 10 + digit_val(t.last()));
        assert(digit_val(digit_char(n)) == n);
    } else {
        lemma_dec_rep_value(n / 10);
        lemma_digits_to_nat_push(dec_rep(n / 10), digit_char(n % 10));
        assert(digit_val(digit_char(n % 10)) == n % 10);
        vstd::arithmetic::div_mod::lemma_fundamental_div_mod(n as int, 10);
    }
}

/// The value of a digit string only grows as digits are appended: any
/// prefix is worth no more than the whole.
proof fn lemma_digits_to_nat_prefix_le(s: Seq<char>, p: int)
    requires
        0 <= p <= s.len(),
    ensures
        digits_to_nat(s.take(p)) <= digits_to_nat(s),
    decreases s.len(),
{
    if p == s.len() {
        assert(s.take(p) =~= s);
    } else {
        assert(s.take(p) =~= s.drop_last().take(p));
        lemma_digits_to_nat_prefix_le(s.drop_last(), p);
    }
}

/// Parsing back the decimal representation of any 64-bit value succeeds and
/// recovers that value.
pub proof fn lemma_parse_dec_rep(n: u64)
    ensures
        spec_parse_u64(dec_rep(n as nat)) == Some(n),
{
    lemma_dec_rep_digits(n as nat);
    lemma_dec_rep_value(n as nat);
    assert(is_dec_digit(dec_rep(n as nat)[0]));
    assert(dec_rep(n as nat)[0] != '+');
}

/// Parses a non-negative decimal integer, exactly as `spec_parse_u64`
/// describes: an optional leading plus sign, then digits, non-empty, and
/// no overflow.
pub fn parse_u64(s: &str) -> (r: Option<u64>)
    ensures
        r == spec_parse_u64(s@),
{
    let n = s.unicode_len();
    let start: usize = if n > 0 && s.get_char(0) == '+' {
        1
    } else {
        0
    };
    let ghost digits: Seq<char> = if start == 1 {
        s@.skip(1)
    } else {
        s@
    };
    if n == start {
        return None;
    }
    let mut acc: u64 = 0;
    let mut i: usize = start;
    while i < n
        invariant
            start <= i <= n,
            n == s@.len(),
            start == 0 || start == 1,
            (start == 1) <==> (s@.len() > 0 && s@[0] == '+'),
            digits == (if start == 1 {
                s@.skip(1)
            } else {
                s@
            }),
            digits.len() == n - start,
            forall|k: int| 0 <= k < digits.len() ==> digits[k] == s@[k + start],
            all_dec_digits(digits.take(i - start)),
            acc == digits_to_nat(digits.take(i - start)),
        decreases n - i,
    {
        let c = s.get_char(i);
        let cv = c as u32;
        if cv < 48 || cv > 57 {
            assert(!is_dec_digit(digits[i - start]));
            return None;
        }
        let d = (cv - 48) as u64;
        proof {
            assert(is_dec_digit(digits[i - start]));
            assert(d == digit_val(digits[i - start]));
            assert(digits.take(i - start + 1).drop_last() =~= digits.take(i - start));
            lemma_digits_to_nat_push(digits.take(i - start), digits[i - start]);
        }
        let scaled = match acc.checked_mul(10) {
            Some(x) => x,
            None => {
                proof {
                    overflow_means_reject(digits, i - start, acc, d);
                }
                return None;
            },
        };
        acc = match scaled.checked_add(d) {
            Some(x) => x,
            None => {
                proof {
                    overflow_means_reject(digits, i - start, acc, d);
                }
                return None;
            },
        };
        i = i + 1;
    }
    proof {
        assert(digits.take(n - start) =~= digits);
    }
    Some(acc)
}

/// When the accumulated value would leave 64 bits at position `i`, the whole
/// string's value is out of range, so parsing rejects it.
proof fn overflow_means_reject(s: Seq<char>, i: int, acc: u64, d: u64)
    requires
        0 <= i < s.len(),
        acc == digits_to_nat(s.take(i)),
        d == digit_val(s[i]),
        acc * 10 + d > u64::MAX,
    ensures
        digits_to_nat(s) > u64::MAX,
{
    assert(s.take(i + 1).drop_last() =~= s.take(i));
    lemma_digits_to_nat_push(s.take(i), s[i]);
    assert(digits_to_nat(s.take(i + 1)) == acc * 10 + d);
    lemma_digits_to_nat_prefix_le(s, i + 1);
}

/// The single-character string for one decimal digit.
fn digit_str(d: u64) -> (s: &'static str)
    requires
        d < 10,
    ensures
        s@ == seq![digit_char(d as nat)],
{
    proof {
        reveal_strlit("0");
        reveal_strlit("1");
        reveal_strlit("2");
        reveal_strlit("3");
        reveal_strlit("4");
        reveal_strlit("5");
        reveal_strlit("6");
        reveal_strlit("7");
        reveal_strlit("8");
        reveal_strlit("9");
    }
    let s: &'static str = if d == 0 {
        "0"
    } else if d == 1 {
        "1"
    } else if d == 2 {
        "2"
    } else if d == 3 {
        "3"
    } else if d == 4 {
        "4"
    } else if d == 5 {
        "5"
    } else if d == 6 {
        "6"
    } else if d == 7 {
        "7"
    } else if d == 8 {
        "8"
    } else {
        "9"
    };
    proof {
        assert(s@ =~= seq![digit_char(d as nat)]);
    }
    s
}

/// Formats `n` in decimal, producing exactly `dec_rep(n)`.
pub fn u64_to_string(n: u64) -> (s: String)
    ensures
        s@ == dec_rep(n as nat),
    decreases n,
{
    let d = n % 10;
    let ds = digit_str(d);
    if n < 10 {
        ds.to_owned()
    } else {
        let mut s = u64_to_string(n / 10);
        s.append(ds);
        s
    }
}

} // verus!
