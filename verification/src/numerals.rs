//! What decimal numerals say and which texts are read as numbers.

use vstd::prelude::*;

verus! {

/// `k` zeros.
pub open spec fn zeros(k: nat) -> Seq<char> {
    Seq::new(k, |i: int| '0')
}

/// The digit of a numeral at position `i` from the right is that of the number: its last digit
/// after division by ten to the power of `i`. There is no digit beyond the number, and there are
/// no leading zeros.
pub proof fn numeral_digits(n: nat, i: nat)
    requires
        i < crate::text::decimal(n).len(),
    ensures
        crate::text::decimal(n)[crate::text::decimal(n).len() - 1 - i] as nat == 48 + (n as int / vstd::arithmetic::power::pow(10, i)) % 10,
        n < vstd::arithmetic::power::pow(10, crate::text::decimal(n).len()),
        n > 0 ==> n >= vstd::arithmetic::power::pow(10, (crate::text::decimal(n).len() - 1) as nat),
        n == 0 ==> crate::text::decimal(n).len() == 1,
    decreases n,
{
    vstd::arithmetic::power::lemma_pow0(10);
    vstd::arithmetic::power::lemma_pow1(10);
    if n >= 10 {
        let len = crate::text::decimal(n).len();
        assert(len == crate::text::decimal(n / 10).len() + 1);
        lemma_ten_times((len - 1) as nat);
        numeral_digits(n / 10, if i == 0 {
            0
        } else {
            (i - 1) as nat
        });
        lemma_ten_times((len - 2) as nat);
        if i == 0 {
        } else {
            lemma_ten_times((i - 1) as nat);
            vstd::arithmetic::power::lemma_pow_positive(10, (i - 1) as nat);
            vstd::arithmetic::div_mod::lemma_div_denominator(n as int, 10, vstd::arithmetic::power::pow(10, (i - 1) as nat));
            assert(crate::text::decimal(n)[len - 1 - i] == crate::text::decimal(n / 10)[len - 1 - 1 - (i - 1)]);
        }
    }
}

/// A further power of ten.
proof fn lemma_ten_times(k: nat)
    ensures
        vstd::arithmetic::power::pow(10, k + 1) == 10 * vstd::arithmetic::power::pow(10, k),
{
    reveal(vstd::arithmetic::power::pow);
}

/// Leading zeros do not count.
proof fn lemma_leading_zeros(k: nat, s: Seq<char>)
    requires
        crate::text::all_digits(s),
    ensures
        crate::text::digits_value(zeros(k) + s) == crate::text::digits_value(s),
        crate::text::all_digits(zeros(k) + s),
    decreases k + s.len(),
{
    if s.len() > 0 {
        assert((zeros(k) + s).drop_last() =~= zeros(k) + s.drop_last());
        assert forall|i: int| 0 <= i < s.drop_last().len() implies crate::text::is_digit(
            #[trigger] s.drop_last()[i],
        ) by {
            assert(s.drop_last()[i] == s[i]);
        }
        lemma_leading_zeros(k, s.drop_last());
    } else if k > 0 {
        assert((zeros(k) + s).drop_last() =~= zeros((k - 1) as nat) + s);
        lemma_leading_zeros((k - 1) as nat, s);
    }
    assert forall|i: int| 0 <= i < (zeros(k) + s).len() implies crate::text::is_digit(
        #[trigger] (zeros(k) + s)[i],
    ) by {
        if i >= k {
            assert((zeros(k) + s)[i] == s[i - k]);
        }
    }
}

/// Digits are the numeral of their value behind some zeros.
proof fn lemma_digits_are_numeral(s: Seq<char>) -> (k: nat)
    requires
        s.len() > 0,
        crate::text::all_digits(s),
    ensures
        s == zeros(k) + crate::text::decimal(crate::text::digits_value(s)),
    decreases s.len(),
{
    let front = s.drop_last();
    let last = s[s.len() - 1];
    assert(crate::text::is_digit(last));
    let d = crate::text::digit_value(last);
    assert(crate::text::digit_char(d) == last);
    if s.len() == 1 {
        assert(crate::text::digits_value(front) == 0);
        assert(s =~= zeros(0) + crate::text::decimal(d));
        0
    } else {
        assert forall|i: int| 0 <= i < front.len() implies crate::text::is_digit(
            #[trigger] front[i],
        ) by {
            assert(front[i] == s[i]);
        }
        let k = lemma_digits_are_numeral(front);
        let v = crate::text::digits_value(front);
        assert(crate::text::digits_value(s) == v * 10 + d);
        assert(s =~= front.push(last));
        if v == 0 {
            assert(crate::text::decimal(0) =~= seq!['0']);
            assert(zeros(k + 1) =~= zeros(k) + seq!['0']);
            assert(crate::text::decimal(d) =~= seq![last]);
            assert(front.push(last) =~= zeros(k + 1) + seq![last]);
            k + 1
        } else {
            assert((v * 10 + d) / 10 == v && (v * 10 + d) % 10 == d);
            assert(crate::text::decimal(v * 10 + d) == crate::text::decimal(v).push(last));
            assert(front.push(last) =~= zeros(k) + crate::text::decimal(v).push(last));
            k
        }
    }
}

/// A 32-bit number is read from its numeral, with any number of zeros before it and with or without
/// a plus sign.
pub proof fn numerals_are_read(n: u32, k: nat)
    ensures
        crate::text::parsed_u32(zeros(k) + crate::text::decimal(n as nat)) == Some(n),
        crate::text::parsed_u32(seq!['+'] + (zeros(k) + crate::text::decimal(n as nat))) == Some(n),
{
    crate::text::lemma_decimal(n as nat);
    lemma_leading_zeros(k, crate::text::decimal(n as nat));
    let digits = zeros(k) + crate::text::decimal(n as nat);
    assert(crate::text::is_digit(digits[0]));
    assert((seq!['+'] + digits).drop_first() =~= digits);
}

/// Nothing else is read as a number: a text that is read as `n` is the numeral of `n`, behind zeros
/// and possibly a plus sign.
pub proof fn only_numerals_are_read(s: Seq<char>, n: u32)
    requires
        crate::text::parsed_u32(s) == Some(n),
    ensures
        exists|k: nat|
            s == #[trigger] zeros(k) + crate::text::decimal(n as nat) || s == seq!['+'] + (zeros(k) + crate::text::decimal(
                n as nat,
            )),
{
    if s.len() > 0 && s[0] == '+' {
        let k = lemma_digits_are_numeral(s.drop_first());
        assert(s =~= seq!['+'] + (zeros(k) + crate::text::decimal(n as nat)));
    } else {
        let k = lemma_digits_are_numeral(s);
        assert(s == zeros(k) + crate::text::decimal(n as nat));
    }
}

} // verus!
