//! Decimal numerals and the UTF-8 facts the topic and identifier code relies on.

use crate::storage::Numeral;
use vstd::prelude::*;

verus! {

/// Number of bytes of the UTF-8 encoding of `s`.
pub open spec fn utf8_len(s: Seq<char>) -> nat {
    vstd::utf8::encode_utf8(s).len()
}

/// Encoding distributes over concatenation.
pub proof fn lemma_utf8_concat(a: Seq<char>, b: Seq<char>)
    ensures
        vstd::utf8::encode_utf8(a + b) == vstd::utf8::encode_utf8(a) + vstd::utf8::encode_utf8(b),
        utf8_len(a + b) == utf8_len(a) + utf8_len(b),
    decreases a.len(),
{
    if a.len() == 0 {
        assert(a + b =~= b);
        assert(vstd::utf8::encode_utf8(a) + vstd::utf8::encode_utf8(b)
            =~= vstd::utf8::encode_utf8(b));
    } else {
        assert((a + b).drop_first() =~= a.drop_first() + b);
        lemma_utf8_concat(a.drop_first(), b);
        assert(vstd::utf8::encode_utf8(a + b) =~= vstd::utf8::encode_utf8(a)
            + vstd::utf8::encode_utf8(b));
    }
}

/// Two texts with the same encoding are the same text.
pub proof fn lemma_utf8_injective(a: Seq<char>, b: Seq<char>)
    requires
        vstd::utf8::encode_utf8(a) == vstd::utf8::encode_utf8(b),
    ensures
        a == b,
{
    vstd::utf8::encode_utf8_decode_utf8(a);
    vstd::utf8::encode_utf8_decode_utf8(b);
}

/// Whether `c` is one of the ASCII digits `0` to `9`.
pub open spec fn is_digit(c: char) -> bool {
    '0' <= c <= '9'
}

/// Value of a digit.
pub open spec fn digit_value(c: char) -> nat {
    (c as u32 - '0' as u32) as nat
}

/// The digit that stands for `d`, for `d` below ten.
pub open spec fn digit_char(d: nat) -> char {
    ('0' as u32 + d) as char
}

/// Whether `s` consists of digits only.
pub open spec fn all_digits(s: Seq<char>) -> bool {
    forall|i: int| 0 <= i < s.len() ==> is_digit(#[trigger] s[i])
}

/// Value of a sequence of digits, most significant first.
pub open spec fn digits_value(s: Seq<char>) -> nat
    decreases s.len(),
{
    if s.len() == 0 {
        0
    } else {
        digits_value(s.drop_last()) * 10 + digit_value(s.last())
    }
}

/// Decimal numeral of `n`, without leading zeros.
pub open spec fn decimal(n: nat) -> Seq<char>
    decreases n,
{
    if n < 10 {
        seq![digit_char(n)]
    } else {
        decimal(n / 10).push(digit_char(n % 10))
    }
}

/// Number written by `s`: an optional `+` followed by at least one digit, with a value that
/// fits 32 bits. Any other text writes no number.
pub open spec fn parsed_u32(s: Seq<char>) -> Option<u32> {
    let digits = if s.len() > 0 && s[0] == '+' {
        s.drop_first()
    } else {
        s
    };
    if digits.len() > 0 && all_digits(digits) && digits_value(digits) <= u32::MAX {
        Some(digits_value(digits) as u32)
    } else {
        None
    }
}

/// A longer run of digits never has a smaller value.
proof fn lemma_digits_value_grows(s: Seq<char>, i: int)
    requires
        0 <= i <= s.len(),
    ensures
        digits_value(s.take(i)) <= digits_value(s),
    decreases s.len() - i,
{
    if i == s.len() {
        assert(s.take(i) =~= s);
    } else {
        lemma_digits_value_grows(s, i + 1);
        assert(s.take(i + 1).drop_last() =~= s.take(i));
    }
}

/// Parse an unsigned decimal number as MQTT user properties carry it.
pub fn parse_u32(s: &str) -> (r: Option<u32>)
    ensures
        r == parsed_u32(s@),
{
    let mut value: u32 = 0;
    let mut first: bool = true;
    let mut any: bool = false;
    let ghost signed = s@.len() > 0 && s@[0] == '+';
    let ghost digits = if signed {
        s@.drop_first()
    } else {
        s@
    };
    let ghost skip: int = if signed {
        1
    } else {
        0
    };
    for c in it: s.chars()
        invariant
            it.seq() == s@,
            signed == (s@.len() > 0 && s@[0] == '+'),
            skip == if signed {
                1int
            } else {
                0int
            },
            digits == if signed {
                s@.drop_first()
            } else {
                s@
            },
            first == (it.index() == 0),
            any == (it.index() > skip),
            it.index() >= skip ==> value == digits_value(digits.take(it.index() - skip)),
            it.index() >= skip ==> all_digits(digits.take(it.index() - skip)),
            it.index() < skip ==> value == 0,
    {
        if first && c == '+' {
            first = false;
            assert(digits.take(0) =~= Seq::<char>::empty());
        } else {
            first = false;
            let ghost k = it.index() - skip;
            assert(digits[k] == c);
            if c < '0' || c > '9' {
                assert(!is_digit(digits[k]));
                return None;
            }
            let digit: u32 = c as u32 - '0' as u32;
            proof {
                assert(digits.take(k + 1).drop_last() =~= digits.take(k));
                assert(digits_value(digits.take(k + 1)) == value * 10 + digit);
                assert forall|i: int| 0 <= i < k + 1 implies is_digit(
                    #[trigger] digits.take(k + 1)[i],
                ) by {
                    if i < k {
                        assert(digits.take(k)[i] == digits[i]);
                    }
                }
            }
            if value > (u32::MAX - digit) / 10 {
                proof {
                    lemma_digits_value_grows(digits, k + 1);
                }
                return None;
            }
            value = value * 10 + digit;
            any = true;
        }
    }
    assert(any ==> digits.take(digits.len() as int) =~= digits);
    if any {
        Some(value)
    } else {
        None
    }
}

/// Shape and value of a decimal numeral: digits only, at least one, and they write `n`.
pub proof fn lemma_decimal(n: nat)
    ensures
        decimal(n).len() >= 1,
        all_digits(decimal(n)),
        digits_value(decimal(n)) == n,
    decreases n,
{
    if n < 10 {
        assert(decimal(n).drop_last() =~= Seq::<char>::empty());
        assert(digits_value(decimal(n).drop_last()) == 0);
    } else {
        lemma_decimal(n / 10);
        assert(decimal(n).drop_last() =~= decimal(n / 10));
        assert forall|i: int| 0 <= i < decimal(n).len() implies is_digit(
            #[trigger] decimal(n)[i],
        ) by {
            if i < decimal(n / 10).len() {
                assert(decimal(n)[i] == decimal(n / 10)[i]);
            }
        }
    }
}

/// Writing a 32-bit number in decimal and parsing the numeral gives the number back.
pub proof fn decimal_round_trip(n: u32)
    ensures
        parsed_u32(decimal(n as nat)) == Some(n),
{
    lemma_decimal(n as nat);
    assert(is_digit(decimal(n as nat)[0]));
}

/// Ten to the power of `k`.
spec fn ten_to(k: nat) -> nat
    decreases k,
{
    if k == 0 {
        1
    } else {
        10 * ten_to((k - 1) as nat)
    }
}

/// A number below ten to the power of `k` has at most `k` digits.
proof fn lemma_decimal_len(n: nat, k: nat)
    requires
        k >= 1,
        n < ten_to(k),
    ensures
        decimal(n).len() <= k,
    decreases k,
{
    if n >= 10 {
        reveal_with_fuel(ten_to, 2);
        lemma_decimal_len(n / 10, (k - 1) as nat);
    }
}

/// A 64-bit number has at most twenty digits, one of 32 bits at most ten.
pub proof fn lemma_decimal_digits(n: nat)
    ensures
        n <= u64::MAX ==> decimal(n).len() <= 20,
        n <= u32::MAX ==> decimal(n).len() <= 10,
{
    reveal_with_fuel(ten_to, 21);
    if n <= u64::MAX {
        lemma_decimal_len(n, 20);
    }
    if n <= u32::MAX {
        lemma_decimal_len(n, 10);
    }
}

/// A decimal numeral takes one byte per digit.
pub proof fn lemma_decimal_utf8(n: nat)
    ensures
        utf8_len(decimal(n)) == decimal(n).len(),
{
    lemma_decimal(n);
    assert forall|i: int| 0 <= i < decimal(n).len() implies '\0' <= #[trigger] decimal(n)[i]
        <= '\u{7f}' by {
        assert(is_digit(decimal(n)[i]));
    }
    vstd::utf8::is_ascii_chars_encode_utf8(decimal(n));
}

/// Buffer that `itoa` prints numerals into.
#[verifier::external_type_specification]
#[verifier::external_body]
pub struct ExBuffer(itoa::Buffer);

/// `itoa::Buffer::new`.
///
/// Trusted: nothing but that it gives a buffer.
pub assume_specification[ itoa::Buffer::new ]() -> (buffer: itoa::Buffer);

/// `itoa::Buffer::format`.
///
/// Trusted: for an unsigned integer the text is its plain decimal digits, most significant first,
/// with no sign and no leading zeros, whatever the buffer held before.
#[verifier::external_body]
pub(crate) fn format_decimal(buffer: &mut itoa::Buffer, value: u64) -> (r: &str)
    ensures
        r@ == decimal(value as nat),
{
    buffer.format(value)
}

/// Decimal numeral of `value` in storage of its own, which always fits.
pub fn numeral(value: u64) -> (r: Result<Numeral, ()>)
    ensures
        r matches Ok(numeral) && numeral@ == decimal(value as nat),
{
    let mut buffer = itoa::Buffer::new();
    let digits = format_decimal(&mut buffer, value);
    let mut numeral = Numeral::new();
    proof {
        lemma_decimal_digits(value as nat);
        lemma_decimal_utf8(value as nat);
        assert(numeral@ + digits@ =~= digits@);
    }
    match numeral.push_str(digits) {
        Ok(()) => Ok(numeral),
        Err(_) => Err(()),
    }
}

/// Whether two byte strings are equal.
pub fn bytes_equal(a: &[u8], b: &[u8]) -> (r: bool)
    ensures
        r == (a@ == b@),
{
    if a.len() != b.len() {
        return false;
    }
    for i in 0..a.len()
        invariant
            a@.len() == b@.len(),
            forall|j: int| 0 <= j < i ==> a@[j] == b@[j],
    {
        if a[i] != b[i] {
            assert(a@[i as int] != b@[i as int]);
            return false;
        }
    }
    assert(a@ =~= b@);
    true
}

/// Whether two texts are equal.
pub fn text_equal(a: &str, b: &str) -> (r: bool)
    ensures
        r == (a@ == b@),
{
    let r = bytes_equal(a.as_bytes(), b.as_bytes());
    proof {
        if r {
            lemma_utf8_injective(a@, b@);
        }
    }
    r
}

/// Whether `text` is `head` followed by `tail`.
pub fn is_joined(text: &str, head: &str, tail: &str) -> (r: bool)
    ensures
        r == (text@ == head@ + tail@),
{
    let t = text.as_bytes();
    let h = head.as_bytes();
    let l = tail.as_bytes();
    proof {
        lemma_utf8_concat(head@, tail@);
    }
    if t.len() < h.len() || t.len() - h.len() != l.len() {
        return false;
    }
    let (front, back) = t.split_at(h.len());
    let r = bytes_equal(front, h) && bytes_equal(back, l);
    proof {
        assert(t@ =~= front@ + back@);
        if r {
            lemma_utf8_injective(text@, head@ + tail@);
        } else if text@ == head@ + tail@ {
            assert(front@ =~= h@);
            assert(back@ =~= l@);
        }
    }
    r
}

} // verus!
