pub mod sms;

use vstd::prelude::*;
use vstd::string::StrSliceExecFns;

verus! {

/// `c` is an ASCII decimal digit, the characters that `char::to_digit(10)` reads.
pub open spec fn is_decimal_digit(c: char) -> bool {
    '0' <= c && c <= '9'
}

/// The value of a decimal digit.
pub open spec fn digit_value(c: char) -> u32 {
    (c as u32 - '0' as u32) as u32
}

/// The values of the decimal digits of `s`, in order, the other characters skipped.
pub open spec fn digits_of(s: Seq<char>) -> Seq<u32>
    decreases s.len(),
{
    if s.len() == 0 {
        seq![]
    } else if is_decimal_digit(s.last()) {
        digits_of(s.drop_last()).push(digit_value(s.last()))
    } else {
        digits_of(s.drop_last())
    }
}

/// The sum of the first `k` digits, the digit at position `x` weighted by `10 - x`.
pub open spec fn weighted_sum(d: Seq<u32>, k: nat) -> int
    decreases k,
{
    if k == 0 {
        0
    } else {
        weighted_sum(d, (k - 1) as nat) + d[k - 1] * (10 - (k - 1))
    }
}

/// The check digit rule of an Iranian national code: with `s` the weighted sum of the first
/// nine digits modulo 11, the tenth digit is `s` when `s < 2` and `11 - s` otherwise.
pub open spec fn check_digit_matches(d: Seq<u32>) -> bool {
    let s = weighted_sum(d, 9) % 11;
    if s < 2 {
        d[9] == s
    } else {
        d[9] + s == 11
    }
}

/// The code is ten bytes long (its UTF-8 length, as `str::len` reports it), holds ten decimal digits, and its check digit matches.
pub open spec fn valid_national_code(n: Seq<char>) -> bool {
    &&& vstd::utf8::encode_utf8(n).len() as usize == 10
    &&& digits_of(n).len() == 10
    &&& check_digit_matches(digits_of(n))
}

/// Whether `n` is a well-formed Iranian national code: exactly ten decimal digits (counted
/// in bytes and in digits) whose last digit is the check digit of the first nine.
pub fn is_valid_iranian_national_code(n: &String) -> (r: bool)
    ensures
        r == valid_national_code(n@),
{
    let count = n.as_str().unicode_len();
    let mut numbers: Vec<u32> = Vec::new();
    let mut i: usize = 0;
    while i < count
        invariant
            count == n@.len(),
            i <= count,
            numbers@ == digits_of(n@.take(i as int)),
            numbers@.len() <= i,
            forall|j: int| 0 <= j < numbers@.len() ==> numbers@[j] <= 9,
        decreases count - i,
    {
        let c = n.as_str().get_char(i);
        assert(n@.take(i + 1).drop_last() =~= n@.take(i as int));
        if '0' <= c && c <= '9' {
            numbers.push((c as u32) - ('0' as u32));
        }
        i = i + 1;
    }
    assert(n@.take(count as int) =~= n@);
    let byte_len = n.as_str().len();
    if byte_len != 10 || numbers.len() != 10 {
        return false;
    }
    let check = numbers[9];
    let mut sum: u32 = 0;
    let mut x: usize = 0;
    while x < 9
        invariant
            x <= 9,
            numbers@.len() == 10,
            forall|j: int| 0 <= j < 10 ==> numbers@[j] <= 9,
            sum == weighted_sum(numbers@, x as nat),
            sum <= 90 * x,
        decreases 9 - x,
    {
        let d = numbers[x];
        let w = (10 - x) as u32;
        assert(d * w <= 90) by (nonlinear_arith)
            requires
                d <= 9,
                w <= 10,
        ;
        sum = sum + d * w;
        x = x + 1;
    }
    let sum = sum % 11;
    if sum < 2 {
        check == sum
    } else {
        check + sum == 11
    }
}

} // verus!

verus! {

use vstd::utf8::{encode_scalar, encode_utf8, has_width_1_encoding, is_ascii_chars, is_ascii_chars_encode_utf8};
use crate::app::utils::text::digit_char;

/// The values of the characters of `s`, read as decimal digits.
pub open spec fn digit_values(s: Seq<char>) -> Seq<u32> {
    Seq::new(s.len(), |i: int| digit_value(s[i]))
}

/// The values of the bytes of `b`, read as ASCII decimal digits.
pub open spec fn byte_digit_values(b: Seq<u8>) -> Seq<u32> {
    Seq::new(b.len(), |i: int| (b[i] - 48) as u32)
}

/// The check digit that completes the nine digits `d`: with `s` their weighted sum modulo
/// 11, `s` when `s < 2` and `11 - s` otherwise.
pub open spec fn check_digit_for(d: Seq<u32>) -> int {
    let s = weighted_sum(d, 9) % 11;
    if s < 2 {
        s
    } else {
        11 - s
    }
}

proof fn lemma_scalar_width(c: char)
    ensures
        encode_scalar(c as u32).len() >= 1,
        has_width_1_encoding(c as u32) <==> encode_scalar(c as u32).len() == 1,
        !has_width_1_encoding(c as u32) ==> encode_scalar(c as u32)[0] >= 0x80,
{
    let v = c as u32;
    if !has_width_1_encoding(v) {
        let y2 = ((v >> 6) & 0x1F) as u8;
        let y3 = ((v >> 12) & 0x0F) as u8;
        let y4 = ((v >> 18) & 0x7) as u8;
        assert((0xC0u8 | y2) >= 0xC0u8) by (bit_vector);
        assert((0xE0u8 | y3) >= 0xE0u8) by (bit_vector);
        assert((0xF0u8 | y4) >= 0xF0u8) by (bit_vector);
    }
}

proof fn lemma_ascii_char(c: char)
    requires
        has_width_1_encoding(c as u32),
    ensures
        '\0' <= c <= '\u{7f}',
{
}

/// A character sequence has at least as many UTF-8 bytes as characters; where it has as many,
/// or where every byte is below `0x80`, every character is ASCII.
proof fn lemma_encode_ascii(s: Seq<char>)
    ensures
        encode_utf8(s).len() >= s.len(),
        encode_utf8(s).len() == s.len() ==> is_ascii_chars(s),
        (forall|i: int| 0 <= i < encode_utf8(s).len() ==> encode_utf8(s)[i] < 0x80) ==> is_ascii_chars(s),
    decreases s.len(),
{
    if s.len() > 0 {
        let rest = s.drop_first();
        lemma_encode_ascii(rest);
        lemma_scalar_width(s[0]);
        let e = encode_scalar(s[0] as u32);
        let r = encode_utf8(rest);
        assert(encode_utf8(s) == e + r);
        if encode_utf8(s).len() == s.len() || (forall|i: int| 0 <= i < encode_utf8(s).len() ==> encode_utf8(s)[i] < 0x80) {
            if encode_utf8(s).len() != s.len() {
                assert((e + r)[0] == e[0]);
                assert forall|i: int| 0 <= i < r.len() implies r[i] < 0x80 by {
                    assert((e + r)[e.len() + i] == r[i]);
                }
            }
            assert(has_width_1_encoding(s[0] as u32));
            assert(is_ascii_chars(rest));
            assert forall|i: int| 0 <= i < s.len() implies '\0' <= #[trigger] s[i] <= '\u{7f}' by {
                if i > 0 {
                    assert(s[i] == rest[i - 1]);
                } else {
                    lemma_ascii_char(s[0]);
                }
            }
        }
    }
}

/// The decimal digits of `s` are at most its characters; all of them exactly where every
/// character is a digit, and then they are the characters' values.
proof fn lemma_digits_of(s: Seq<char>)
    ensures
        digits_of(s).len() <= s.len(),
        digits_of(s).len() == s.len() ==> forall|i: int| 0 <= i < s.len() ==> is_decimal_digit(#[trigger] s[i]),
        (forall|i: int| 0 <= i < s.len() ==> is_decimal_digit(#[trigger] s[i])) ==> digits_of(s) == digit_values(s),
    decreases s.len(),
{
    if s.len() > 0 {
        let init = s.drop_last();
        lemma_digits_of(init);
        assert forall|i: int| 0 <= i < init.len() implies init[i] == s[i] by {}
        if (forall|i: int| 0 <= i < s.len() ==> is_decimal_digit(#[trigger] s[i])) {
            assert(is_decimal_digit(s[s.len() - 1]));
            assert forall|i: int| 0 <= i < init.len() implies is_decimal_digit(#[trigger] init[i]) by {
                assert(is_decimal_digit(s[i]));
            }
            assert(digits_of(s) =~= digit_values(s));
        }
    }
}

/// The weighted sum of the first `k` digits reads only those digits.
proof fn lemma_weighted_sum_prefix(a: Seq<u32>, b: Seq<u32>, k: nat)
    requires
        k <= a.len(),
        k <= b.len(),
        forall|i: int| 0 <= i < k ==> a[i] == b[i],
    ensures
        weighted_sum(a, k) == weighted_sum(b, k),
    decreases k,
{
    if k > 0 {
        lemma_weighted_sum_prefix(a, b, (k - 1) as nat);
    }
}

/// A national code is valid exactly where its UTF-8 bytes are ten ASCII decimal digits whose
/// values pass the check digit rule; the bytes of a valid code are its characters, one byte
/// each. (A string's byte length fits in `usize`.)
pub proof fn national_code_bytes(n: Seq<char>)
    requires
        encode_utf8(n).len() <= usize::MAX,
    ensures
        valid_national_code(n) <==> {
            &&& encode_utf8(n).len() == 10
            &&& forall|i: int| 0 <= i < 10 ==> 48 <= #[trigger] encode_utf8(n)[i] <= 57
            &&& check_digit_matches(byte_digit_values(encode_utf8(n)))
        },
        valid_national_code(n) ==> n.len() == 10 && encode_utf8(n) == Seq::new(10, |i: int| n[i] as u8),
{
    let b = encode_utf8(n);
    lemma_encode_ascii(n);
    lemma_digits_of(n);
    if valid_national_code(n) {
        assert(n.len() == 10);
        is_ascii_chars_encode_utf8(n);
        assert(b =~= Seq::new(10, |i: int| n[i] as u8));
        assert(digit_values(n) =~= byte_digit_values(b));
    }
    if b.len() == 10 && (forall|i: int| 0 <= i < 10 ==> 48 <= #[trigger] b[i] <= 57) {
        assert(is_ascii_chars(n));
        is_ascii_chars_encode_utf8(n);
        assert forall|i: int| 0 <= i < n.len() implies is_decimal_digit(#[trigger] n[i]) by {
            assert(n[i] as u8 == b[i]);
            assert(48 <= b[i] <= 57);
        }
        assert(digit_values(n) =~= byte_digit_values(b));
    }
}

/// Exactly one character completes nine decimal digits into a valid national code: the
/// digit of `check_digit_for` their values, which is always a single digit.
pub proof fn one_check_digit_completes(p: Seq<char>, c: char)
    requires
        p.len() == 9,
        forall|i: int| 0 <= i < 9 ==> is_decimal_digit(#[trigger] p[i]),
    ensures
        0 <= check_digit_for(digit_values(p)) <= 9,
        valid_national_code(p.push(digit_char(check_digit_for(digit_values(p)) as nat))),
        valid_national_code(p.push(c)) <==> c == digit_char(check_digit_for(digit_values(p)) as nat),
{
    let k = check_digit_for(digit_values(p));
    let dp = digit_values(p);
    assert(0 <= weighted_sum(dp, 9) % 11 < 11);
    assert(0 <= k <= 9);
    let d = digit_char(k as nat);
    assert(is_decimal_digit(d) && digit_value(d) == k) by {
        reveal_with_fuel(digit_char, 1);
    }
    assert forall|x: char| #[trigger] valid_national_code(p.push(x))
        <==> (is_decimal_digit(x) && digit_value(x) == k) by {
        let q = p.push(x);
        lemma_digits_of(q);
        lemma_encode_ascii(q);
        if is_decimal_digit(x) {
            assert forall|i: int| 0 <= i < 10 implies is_decimal_digit(#[trigger] q[i]) by {
                if i < 9 {
                    assert(q[i] == p[i]);
                }
            }
            assert(is_ascii_chars(q));
            is_ascii_chars_encode_utf8(q);
            let dq = digit_values(q);
            lemma_weighted_sum_prefix(dq, dp, 9);
            assert(dq[9] == digit_value(x));
        } else {
            assert(!is_decimal_digit(q[9]));
        }
    }
    assert(valid_national_code(p.push(d)));
    if valid_national_code(p.push(c)) {
        assert(is_decimal_digit(c) && digit_value(c) == k);
        assert(c == d);
    }
}

} // verus!
