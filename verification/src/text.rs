//! Text: digits, trimming, comparison and integer parsing.

use vstd::prelude::*;
use vstd::string::*;

verus! {

/// The sixteen digits, upper case.
pub open spec fn digit_chars() -> Seq<char> {
    seq!['0', '1', '2', '3', '4', '5', '6', '7', '8', '9', 'A', 'B', 'C', 'D', 'E', 'F']
}

/// The digits of `n` in base `base`, most significant first, without leading zeros.
pub open spec fn digits(n: nat, base: nat) -> Seq<char>
    decreases n,
{
    if base < 2 || n < base {
        seq![digit_chars()[n as int]]
    } else {
        proof {
            assert(n / base < n) by (nonlinear_arith)
                requires
                    n >= base >= 2,
            ;
        }
        digits(n / base, base).push(digit_chars()[(n % base) as int])
    }
}

/// `s` with as many zeros in front as bring it to `width` characters.
pub open spec fn zero_padded(s: Seq<char>, width: nat) -> Seq<char> {
    if s.len() < width {
        Seq::new((width - s.len()) as nat, |i: int| '0') + s
    } else {
        s
    }
}

/// `n` written in decimal, with a minus sign if it is negative.
pub open spec fn decimal(n: int) -> Seq<char> {
    if n < 0 {
        seq!['-'] + digits((-n) as nat, 10)
    } else {
        digits(n as nat, 10)
    }
}

/// `flag` as the word `true` or `false`.
pub open spec fn bool_text(flag: bool) -> Seq<char> {
    if flag {
        "true"@
    } else {
        "false"@
    }
}

/// An optional number, written as `None` or as `Some(n)`.
pub open spec fn optional_int_text(value: Option<i32>) -> Seq<char> {
    match value {
        Some(n) => "Some("@ + decimal(n as int) + ")"@,
        None => "None"@,
    }
}

/// An optional truth value, written as `None`, `Some(true)` or `Some(false)`.
pub open spec fn optional_bool_text(value: Option<bool>) -> Seq<char> {
    match value {
        Some(b) => "Some("@ + bool_text(b) + ")"@,
        None => "None"@,
    }
}

/// The characters with the Unicode property `White_Space`.
pub open spec fn is_white_space(c: char) -> bool {
    ||| '\u{9}' <= c <= '\u{d}'
    ||| c == '\u{20}'
    ||| c == '\u{85}'
    ||| c == '\u{a0}'
    ||| c == '\u{1680}'
    ||| '\u{2000}' <= c <= '\u{200a}'
    ||| c == '\u{2028}'
    ||| c == '\u{2029}'
    ||| c == '\u{202f}'
    ||| c == '\u{205f}'
    ||| c == '\u{3000}'
}

/// `s` without the white space in front.
pub open spec fn without_leading_space(s: Seq<char>) -> Seq<char>
    decreases s.len(),
{
    if s.len() > 0 && is_white_space(s.first()) {
        without_leading_space(s.drop_first())
    } else {
        s
    }
}

/// `s` without the white space at the end.
pub open spec fn without_trailing_space(s: Seq<char>) -> Seq<char>
    decreases s.len(),
{
    if s.len() > 0 && is_white_space(s.last()) {
        without_trailing_space(s.drop_last())
    } else {
        s
    }
}

/// `s` without the white space at either end.
pub open spec fn trimmed(s: Seq<char>) -> Seq<char> {
    without_trailing_space(without_leading_space(s))
}

/// The lower-case form of an ASCII letter; any other character as it is.
pub open spec fn ascii_lower(c: char) -> char {
    if 'A' <= c <= 'Z' {
        (c as int + 32) as char
    } else {
        c
    }
}

/// `s` with its ASCII letters in lower case.
pub open spec fn ascii_lowered(s: Seq<char>) -> Seq<char> {
    s.map_values(|c: char| ascii_lower(c))
}

/// Whether `s` is made of ASCII digits only.
pub open spec fn all_digits(s: Seq<char>) -> bool {
    forall|i: int| 0 <= i < s.len() ==> '0' <= #[trigger] s[i] <= '9'
}

/// The number that the decimal digits `s` write.
pub open spec fn digits_value(s: Seq<char>) -> nat
    decreases s.len(),
{
    if s.len() == 0 {
        0
    } else {
        digits_value(s.drop_last()) * 10 + (s.last() as nat - '0' as nat) as nat
    }
}

/// The number that `s` writes, where `s` is an optional sign and one or more decimal digits and the
/// number lies in the range of `i32`.
pub open spec fn i32_in_text(s: Seq<char>) -> Option<i32> {
    let signed = s.len() > 0 && (s[0] == '-' || s[0] == '+');
    let body = if signed { s.drop_first() } else { s };
    let value = if signed && s[0] == '-' {
        -(digits_value(body) as int)
    } else {
        digits_value(body) as int
    };
    if body.len() > 0 && all_digits(body) && i32::MIN <= value <= i32::MAX {
        Some(value as i32)
    } else {
        None
    }
}

/// The digit `d` as text.
fn digit_text(d: u64) -> (r: &'static str)
    requires
        d < 16,
    ensures
        r@ == seq![digit_chars()[d as int]],
{
    let all = "0123456789ABCDEF";
    proof {
        reveal_strlit("0123456789ABCDEF");
        assert(all@ =~= digit_chars());
        assert(all.is_ascii());
    }
    let r = all.substring_ascii(d as usize, d as usize + 1);
    assert(r@ =~= seq![digit_chars()[d as int]]);
    r
}

/// How many digits `n` takes in base `base`.
fn digit_count(n: u64, base: u64) -> (r: u64)
    requires
        2 <= base <= 16,
    ensures
        r == digits(n as nat, base as nat).len(),
        r <= 1 + n / 2,
    decreases n,
{
    if n < base {
        1
    } else {
        proof {
            assert(n / base <= n / 2 && n / base < n) by (nonlinear_arith)
                requires
                    n >= base >= 2,
            ;
        }
        1 + digit_count(n / base, base)
    }
}

/// Appends the digits of `n` in base `base`.
fn append_digits(out: &mut String, n: u64, base: u64)
    requires
        2 <= base <= 16,
    ensures
        final(out)@ == old(out)@ + digits(n as nat, base as nat),
    decreases n,
{
    if n >= base {
        proof {
            assert(n / base < n) by (nonlinear_arith)
                requires
                    n >= base >= 2,
            ;
        }
        append_digits(out, n / base, base);
        out.append(digit_text(n % base));
    } else {
        out.append(digit_text(n));
    }
    assert(out@ =~= old(out)@ + digits(n as nat, base as nat));
}

/// Appends `n` in base `base`, with zeros in front up to `width` characters.
pub fn append_number(out: &mut String, n: u64, base: u64, width: u64)
    requires
        2 <= base <= 16,
    ensures
        final(out)@ == old(out)@ + zero_padded(digits(n as nat, base as nat), width as nat),
{
    let count = digit_count(n, base);
    let mut zeros: u64 = 0;
    proof {
        reveal_strlit("0");
        assert("0"@ =~= seq!['0']);
        assert(out@ =~= old(out)@ + Seq::new(0, |i: int| '0'));
    }
    while zeros < width && width - zeros > count
        invariant
            zeros <= width,
            zeros == 0 || zeros + count <= width,
            out@ == old(out)@ + Seq::new(zeros as nat, |i: int| '0'),
            "0"@ == seq!['0'],
        decreases width - zeros,
    {
        out.append("0");
        zeros += 1;
        assert(out@ =~= old(out)@ + Seq::new(zeros as nat, |i: int| '0'));
    }
    append_digits(out, n, base);
    assert(out@ =~= old(out)@ + zero_padded(digits(n as nat, base as nat), width as nat));
}

/// Appends `n` in decimal.
pub fn append_decimal(out: &mut String, n: i64)
    ensures
        final(out)@ == old(out)@ + decimal(n as int),
{
    if n < 0 {
        proof {
            reveal_strlit("-");
            assert("-"@ =~= seq!['-']);
        }
        out.append("-");
        let magnitude: u64 = if n == i64::MIN {
            0x8000_0000_0000_0000
        } else {
            (-n) as u64
        };
        append_number(out, magnitude, 10, 0);
        assert(out@ =~= old(out)@ + decimal(n as int));
    } else {
        append_number(out, n as u64, 10, 0);
    }
}

/// Appends `true` or `false`.
pub fn append_bool(out: &mut String, flag: bool)
    ensures
        final(out)@ == old(out)@ + bool_text(flag),
{
    if flag {
        out.append("true");
    } else {
        out.append("false");
    }
}

/// Appends `None`, or the number in `Some(..)`.
pub fn append_optional_int(out: &mut String, value: Option<i32>)
    ensures
        final(out)@ == old(out)@ + optional_int_text(value),
{
    match value {
        Some(n) => {
            out.append("Some(");
            append_decimal(out, n as i64);
            out.append(")");
        },
        None => out.append("None"),
    }
    assert(out@ =~= old(out)@ + optional_int_text(value));
}

/// Appends `None`, `Some(true)` or `Some(false)`.
pub fn append_optional_bool(out: &mut String, value: Option<bool>)
    ensures
        final(out)@ == old(out)@ + optional_bool_text(value),
{
    match value {
        Some(b) => {
            out.append("Some(");
            append_bool(out, b);
            out.append(")");
        },
        None => out.append("None"),
    }
    assert(out@ =~= old(out)@ + optional_bool_text(value));
}

/// The characters of `s`.
pub fn chars_of(s: &str) -> (r: Vec<char>)
    ensures
        r@ == s@,
{
    let mut r: Vec<char> = Vec::new();
    for c in it: s.chars()
        invariant
            it.seq() == s@,
            r@ == s@.take(it.index()),
    {
        r.push(c);
        assert(r@ =~= s@.take(it.index() + 1));
    }
    assert(s@.take(s@.len() as int) =~= s@);
    r
}

/// Whether two texts are the same.
pub fn same_text(a: &str, b: &str) -> (r: bool)
    ensures
        r == (a@ == b@),
{
    let left: String = a.to_owned();
    let right: String = b.to_owned();
    left == right
}

/// Whether `c` is white space.
pub fn white_space(c: char) -> (r: bool)
    ensures
        r == is_white_space(c),
{
    ('\u{9}' <= c && c <= '\u{d}') || c == '\u{20}' || c == '\u{85}' || c == '\u{a0}' || c
        == '\u{1680}' || ('\u{2000}' <= c && c <= '\u{200a}') || c == '\u{2028}' || c == '\u{2029}'
        || c == '\u{202f}' || c == '\u{205f}' || c == '\u{3000}'
}

/// `s` without the white space at either end.
pub fn trim<'a>(s: &'a str) -> (r: &'a str)
    ensures
        r@ == trimmed(s@),
{
    let chars = chars_of(s);
    let mut start: usize = 0;
    let mut end: usize = chars.len();
    assert(s@.subrange(0, s@.len() as int) =~= s@);
    while start < end && white_space(chars[start])
        invariant
            chars@ == s@,
            start <= end,
            end == chars.len(),
            without_leading_space(s@.subrange(start as int, end as int))
                == without_leading_space(s@),
        decreases end - start,
    {
        assert(s@.subrange(start as int, end as int).drop_first() =~= s@.subrange(
            start + 1,
            end as int,
        ));
        start += 1;
    }
    let ghost front = s@.subrange(start as int, end as int);
    assert(without_leading_space(s@) == front);
    while start < end && white_space(chars[end - 1])
        invariant
            chars@ == s@,
            start <= end <= chars.len(),
            without_trailing_space(s@.subrange(start as int, end as int))
                == without_trailing_space(front),
        decreases end - start,
    {
        assert(s@.subrange(start as int, end as int).drop_last() =~= s@.subrange(
            start as int,
            end - 1,
        ));
        end -= 1;
    }
    s.substring_char(start, end)
}

/// Whether `s`, with its ASCII letters in lower case, is `word`.
pub fn lowered_is(s: &str, word: &str) -> (r: bool)
    ensures
        r == (ascii_lowered(s@) == word@),
{
    let left = chars_of(s);
    let right = chars_of(word);
    if left.len() != right.len() {
        return false;
    }
    let mut i: usize = 0;
    while i < left.len()
        invariant
            left@ == s@,
            right@ == word@,
            left.len() == right.len(),
            i <= left.len(),
            forall|j: int| 0 <= j < i ==> ascii_lower(#[trigger] s@[j]) == word@[j],
        decreases left.len() - i,
    {
        let c: char = left[i];
        let w: char = right[i];
        let same = if 'A' <= c && c <= 'Z' {
            'a' <= w && w <= 'z' && w as u32 == c as u32 + 32
        } else {
            w == c
        };
        if !same {
            assert(ascii_lowered(s@)[i as int] != word@[i as int]);
            return false;
        }
        proof {
            if 'A' <= c <= 'Z' {
                assert(w as int == c as int + 32);
                assert(w == (w as int) as char);
            }
            assert(ascii_lower(c) == w);
        }
        i += 1;
    }
    assert(ascii_lowered(s@) =~= word@);
    true
}

proof fn lemma_digits_value_grows(s: Seq<char>, n: int)
    requires
        0 <= n <= s.len(),
        all_digits(s),
    ensures
        digits_value(s.take(n)) <= digits_value(s),
    decreases s.len() - n,
{
    if n == s.len() {
        assert(s.take(n) =~= s);
    } else {
        lemma_digits_value_grows(s, n + 1);
        assert(s.take(n + 1).drop_last() =~= s.take(n));
    }
}

/// The number that `s` writes in decimal, if it is one and fits.
pub fn parse_i32(s: &str) -> (r: Option<i32>)
    ensures
        r == i32_in_text(s@),
{
    let chars = chars_of(s);
    let signed = chars.len() > 0 && (chars[0] == '-' || chars[0] == '+');
    let negative = signed && chars[0] == '-';
    let start: usize = if signed {
        1
    } else {
        0
    };
    let ghost body = if signed {
        s@.drop_first()
    } else {
        s@
    };
    if chars.len() == start {
        return None;
    }
    let mut value: i64 = 0;
    let mut i: usize = start;
    while i < chars.len()
        invariant
            chars@ == s@,
            start <= i <= chars.len(),
            start <= 1,
            body == s@.subrange(start as int, s@.len() as int),
            all_digits(body.take(i - start)),
            value == digits_value(body.take(i - start)),
            0 <= value <= 2147483648,
            signed == (start == 1),
            signed ==> s@.len() > 0,
            signed == (s@.len() > 0 && (s@[0] == '-' || s@[0] == '+')),
            body == if signed { s@.drop_first() } else { s@ },
        decreases chars.len() - i,
    {
        let c: char = chars[i];
        assert(body[i - start] == c);
        if c < '0' || c > '9' {
            assert(!all_digits(body));
            return None;
        }
        let digit: i64 = c as u32 as i64 - 48;
        value = value * 10 + digit;
        assert(body.take(i + 1 - start).drop_last() =~= body.take(i - start));
        assert(all_digits(body.take(i + 1 - start))) by {
            assert forall|j: int| 0 <= j < i + 1 - start implies '0' <= #[trigger] body.take(
                i + 1 - start,
            )[j] <= '9' by {
                if j < i - start {
                    assert(body.take(i - start)[j] == body[j]);
                }
            }
        }
        if value > 2147483648 {
            proof {
                if all_digits(body) {
                    lemma_digits_value_grows(body, i + 1 - start);
                }
            }
            return None;
        }
        i += 1;
    }
    assert(body.take(body.len() as int) =~= body);
    if negative {
        Some((-value) as i32)
    } else if value <= 2147483647 {
        Some(value as i32)
    } else {
        None
    }
}

proof fn lemma_trailing_space_gone(s: Seq<char>)
    ensures
        without_trailing_space(s).len() <= s.len(),
        without_trailing_space(s) == s.take(without_trailing_space(s).len() as int),
        without_trailing_space(s).len() > 0 ==> !is_white_space(without_trailing_space(s).last()),
        without_trailing_space(without_trailing_space(s)) == without_trailing_space(s),
    decreases s.len(),
{
    if s.len() > 0 && is_white_space(s.last()) {
        lemma_trailing_space_gone(s.drop_last());
        assert(s.drop_last().take(without_trailing_space(s).len() as int) =~= s.take(
            without_trailing_space(s).len() as int,
        ));
    } else {
        assert(s.take(s.len() as int) =~= s);
    }
}

proof fn lemma_leading_space_gone(s: Seq<char>)
    ensures
        without_leading_space(s).len() > 0 ==> !is_white_space(without_leading_space(s).first()),
    decreases s.len(),
{
    if s.len() > 0 && is_white_space(s.first()) {
        lemma_leading_space_gone(s.drop_first());
    }
}

/// What is trimmed neither starts nor ends with white space, and trimming it again changes nothing.
pub proof fn law_trimmed_has_no_space_at_the_ends(s: Seq<char>)
    ensures
        trimmed(s).len() > 0 ==> !is_white_space(trimmed(s).first()) && !is_white_space(
            trimmed(s).last(),
        ),
        trimmed(trimmed(s)) == trimmed(s),
{
    lemma_leading_space_gone(s);
    lemma_trailing_space_gone(without_leading_space(s));
    if trimmed(s).len() > 0 {
        assert(trimmed(s)[0] == without_leading_space(s)[0]);
    }
}

proof fn lemma_digits_read_back(n: nat)
    ensures
        all_digits(digits(n, 10)),
        digits_value(digits(n, 10)) == n,
        digits(n, 10).len() > 0,
    decreases n,
{
    if n < 10 {
        let one = digits(n, 10);
        assert(one =~= seq![digit_chars()[n as int]]);
        assert(one.drop_last() =~= Seq::<char>::empty());
        assert(digits_value(one.drop_last()) == 0);
        assert(one.last() as nat == '0' as nat + n);
    } else {
        lemma_digits_read_back(n / 10);
        let all = digits(n, 10);
        assert(all.drop_last() =~= digits(n / 10, 10));
        assert(all.last() as nat == '0' as nat + n % 10);
        assert forall|i: int| 0 <= i < all.len() implies '0' <= #[trigger] all[i] <= '9' by {
            if i < all.len() - 1 {
                assert(all[i] == digits(n / 10, 10)[i]);
            }
        }
    }
}

/// A number is read back from its decimal form.
pub proof fn law_decimal_is_read_back(n: i32)
    ensures
        i32_in_text(decimal(n as int)) == Some(n),
{
    if n < 0 {
        let s = decimal(n as int);
        lemma_digits_read_back((-n) as nat);
        assert(s.drop_first() =~= digits((-n) as nat, 10));
    } else {
        let s = decimal(n as int);
        lemma_digits_read_back(n as nat);
        assert('0' <= s[0] <= '9');
    }
}

/// The value of a digit: `0` to `9`, then `A` to `F`.
pub open spec fn digit_value(c: char) -> int {
    if '0' <= c <= '9' {
        c as int - '0' as int
    } else if 'A' <= c <= 'F' {
        c as int - 'A' as int + 10
    } else {
        -1
    }
}

/// The number that the digits `s` write in base `base`, most significant first.
pub open spec fn number_in_base(s: Seq<char>, base: nat) -> int
    decreases s.len(),
{
    if s.len() == 0 {
        0
    } else {
        number_in_base(s.drop_last(), base) * base + digit_value(s.last())
    }
}

/// The digits of a number are digits of the base, have no zero in front that is not needed, and write
/// the number.
pub proof fn law_digits_write_the_number(n: nat, base: nat)
    requires
        2 <= base <= 16,
    ensures
        digits(n, base).len() > 0,
        forall|i: int|
            0 <= i < digits(n, base).len() ==> 0 <= digit_value(#[trigger] digits(n, base)[i])
                < base,
        number_in_base(digits(n, base), base) == n,
        digits(n, base)[0] == '0' ==> n == 0 && digits(n, base).len() == 1,
    decreases n,
{
    let all = digits(n, base);
    assert(forall|d: int| 0 <= d < 16 ==> digit_value(#[trigger] digit_chars()[d]) == d);
    assert(forall|d: int| 0 < d < 16 ==> #[trigger] digit_chars()[d] != '0');
    if n < base {
        assert(all.drop_last() =~= Seq::<char>::empty());
        assert(number_in_base(all.drop_last(), base) == 0);
        assert(number_in_base(all, base) == number_in_base(all.drop_last(), base) * base
            + digit_value(all.last()));
        assert(0 * base == 0) by (nonlinear_arith);
    } else {
        let quotient = n / base;
        assert(0 < quotient < n && quotient * base + n % base == n && 0 <= n % base < base)
            by (nonlinear_arith)
            requires
                n >= base >= 2,
                quotient == n / base,
        ;
        law_digits_write_the_number(quotient, base);
        let front = digits(quotient, base);
        assert(all.drop_last() =~= front);
        assert forall|i: int| 0 <= i < all.len() implies 0 <= digit_value(#[trigger] all[i])
            < base by {
            if i < front.len() {
                assert(all[i] == front[i]);
            }
        }
        assert(all[0] == front[0]);
    }
}

/// Padding puts zeros in front and nothing else, as many as the width asks for, so that the number
/// stays the same.
pub proof fn law_padding_puts_zeros_in_front(s: Seq<char>, width: nat, base: nat)
    ensures
        zero_padded(s, width).len() == if s.len() < width {
            width
        } else {
            s.len()
        },
        zero_padded(s, width).skip(zero_padded(s, width).len() - s.len()) == s,
        forall|i: int|
            0 <= i < zero_padded(s, width).len() - s.len() ==> #[trigger] zero_padded(s, width)[i]
                == '0',
        number_in_base(zero_padded(s, width), base) == number_in_base(s, base),
{
    let padded = zero_padded(s, width);
    assert(padded.skip(padded.len() - s.len()) =~= s);
    if s.len() < width {
        let zeros = Seq::new((width - s.len()) as nat, |i: int| '0');
        lemma_zeros_in_front(zeros, s, base);
    }
}

proof fn lemma_zeros_in_front(zeros: Seq<char>, s: Seq<char>, base: nat)
    requires
        forall|i: int| 0 <= i < zeros.len() ==> #[trigger] zeros[i] == '0',
    ensures
        number_in_base(zeros + s, base) == number_in_base(s, base),
    decreases zeros.len() + s.len(),
{
    if s.len() > 0 {
        assert((zeros + s).drop_last() =~= zeros + s.drop_last());
        lemma_zeros_in_front(zeros, s.drop_last(), base);
    } else if zeros.len() > 0 {
        assert((zeros + s).drop_last() =~= zeros.drop_last() + s);
        lemma_zeros_in_front(zeros.drop_last(), s, base);
        assert((zeros + s).last() == zeros[zeros.len() - 1]);
        assert(0 * base == 0) by (nonlinear_arith);
    }
}

/// Padded digits are at least as many as the width asks for, are digits of the base, write the number,
/// and have a zero in front only where it is needed.
pub proof fn law_padded_digits_write_the_number(n: nat, base: nat, width: nat)
    requires
        2 <= base <= 16,
    ensures
        ({
            let padded = zero_padded(digits(n, base), width);
            &&& padded.len() >= width
            &&& padded.len() > 0
            &&& number_in_base(padded, base) == n
            &&& forall|i: int|
                0 <= i < padded.len() ==> 0 <= digit_value(#[trigger] padded[i]) < base
            &&& padded.len() > width && padded.len() > 1 ==> padded[0] != '0'
        }),
{
    let bare = digits(n, base);
    let padded = zero_padded(bare, width);
    law_digits_write_the_number(n, base);
    law_padding_puts_zeros_in_front(bare, width, base);
    let extra = padded.len() - bare.len();
    assert forall|i: int| 0 <= i < padded.len() implies 0 <= digit_value(#[trigger] padded[i])
        < base by {
        if i >= extra {
            assert(padded[i] == padded.skip(extra)[i - extra]);
            assert(0 <= digit_value(bare[i - extra]) < base);
        }
    }
    if padded.len() > width {
        assert(padded =~= bare);
    }
}

/// A number below a hundred takes two digits at most.
pub proof fn lemma_two_digits(n: nat)
    requires
        n < 100,
    ensures
        digits(n, 10).len() <= 2,
{
    reveal_with_fuel(digits, 3);
}

/// Whether `s` is white space only.
pub open spec fn all_white_space(s: Seq<char>) -> bool {
    forall|i: int| 0 <= i < s.len() ==> is_white_space(#[trigger] s[i])
}

proof fn lemma_leading_space_is_dropped(space: Seq<char>, rest: Seq<char>)
    requires
        all_white_space(space),
    ensures
        without_leading_space(space + rest) == without_leading_space(rest),
    decreases space.len(),
{
    if space.len() > 0 {
        assert((space + rest).first() == space[0]);
        assert((space + rest).drop_first() =~= space.drop_first() + rest);
        assert forall|i: int| 0 <= i < space.drop_first().len() implies is_white_space(
            #[trigger] space.drop_first()[i],
        ) by {
            assert(space.drop_first()[i] == space[i + 1]);
        }
        lemma_leading_space_is_dropped(space.drop_first(), rest);
    } else {
        assert(space + rest =~= rest);
    }
}

proof fn lemma_trailing_space_is_dropped(rest: Seq<char>, space: Seq<char>)
    requires
        all_white_space(space),
    ensures
        without_trailing_space(rest + space) == without_trailing_space(rest),
    decreases space.len(),
{
    if space.len() > 0 {
        assert((rest + space).last() == space[space.len() - 1]);
        assert((rest + space).drop_last() =~= rest + space.drop_last());
        assert forall|i: int| 0 <= i < space.drop_last().len() implies is_white_space(
            #[trigger] space.drop_last()[i],
        ) by {
            assert(space.drop_last()[i] == space[i]);
        }
        lemma_trailing_space_is_dropped(rest, space.drop_last());
    } else {
        assert(rest + space =~= rest);
    }
}

/// Trimming takes away the white space round a text, all of it and nothing else.
pub proof fn law_trimming_leaves_what_the_space_surrounds(
    front: Seq<char>,
    core: Seq<char>,
    back: Seq<char>,
)
    requires
        all_white_space(front),
        all_white_space(back),
        core.len() > 0 ==> !is_white_space(core.first()) && !is_white_space(core.last()),
    ensures
        trimmed(front + core + back) == core,
{
    assert(front + core + back =~= front + (core + back));
    lemma_leading_space_is_dropped(front, core + back);
    if core.len() > 0 {
        assert((core + back).first() == core.first());
        lemma_trailing_space_is_dropped(core, back);
    } else {
        assert(core + back =~= back + Seq::<char>::empty());
        lemma_leading_space_is_dropped(back, Seq::<char>::empty());
        assert(core =~= Seq::<char>::empty());
    }
}

/// Lower case keeps the length, moves each of the letters `A` to `Z` by the distance from `A` to `a`,
/// and leaves every other character.
pub proof fn law_lower_case_moves_ascii_letters_only(s: Seq<char>, i: int)
    requires
        0 <= i < s.len(),
    ensures
        ascii_lowered(s).len() == s.len(),
        'A' <= s[i] <= 'Z' ==> ascii_lowered(s)[i] as int - 'a' as int == s[i] as int - 'A' as int,
        !('A' <= s[i] <= 'Z') ==> ascii_lowered(s)[i] == s[i],
{
}

/// One more digit behind the others makes ten times the number and that digit.
pub proof fn law_digits_count_tens(s: Seq<char>, c: char)
    requires
        '0' <= c <= '9',
    ensures
        digits_value(Seq::empty()) == 0,
        digits_value(s.push(c)) == 10 * digits_value(s) + (c as int - '0' as int),
{
    assert(s.push(c).drop_last() =~= s);
}

/// Digits are read as the number that they write, with a minus sign in front as its negative, with a
/// plus sign as without, and not at all if the number is no `i32`.
pub proof fn law_signed_digits_are_read(body: Seq<char>)
    requires
        body.len() > 0,
        forall|i: int| 0 <= i < body.len() ==> '0' <= #[trigger] body[i] <= '9',
    ensures
        i32_in_text(body) == if digits_value(body) <= 2147483647 {
            Some(digits_value(body) as i32)
        } else {
            None
        },
        i32_in_text(seq!['+'] + body) == i32_in_text(body),
        i32_in_text(seq!['-'] + body) == if digits_value(body) <= 2147483648 {
            Some((-digits_value(body)) as i32)
        } else {
            None
        },
{
    assert(body[0] != '-' && body[0] != '+');
    assert((seq!['+'] + body).drop_first() =~= body);
    assert((seq!['-'] + body).drop_first() =~= body);
}

/// Only digits, with or without a sign in front, are read as a number.
pub proof fn law_only_signed_digits_are_read(s: Seq<char>)
    requires
        i32_in_text(s) is Some,
    ensures
        ({
            let rest = if s[0] == '-' || s[0] == '+' {
                s.skip(1)
            } else {
                s
            };
            &&& s.len() > 0
            &&& rest.len() > 0
            &&& forall|i: int| 0 <= i < rest.len() ==> '0' <= #[trigger] rest[i] <= '9'
        }),
{
    if s.len() > 0 {
        assert(s.drop_first() =~= s.skip(1));
    }
}

/// Optional values are written with the name of their variant and, in brackets, what they hold.
pub proof fn law_optional_values_are_written_with_their_variant(n: i32, flag: bool)
    ensures
        optional_int_text(None) == "None"@,
        optional_int_text(Some(n)) == "Some("@ + decimal(n as int) + ")"@,
        optional_bool_text(None) == "None"@,
        optional_bool_text(Some(flag)) == "Some("@ + bool_text(flag) + ")"@,
        bool_text(true) == "true"@,
        bool_text(false) == "false"@,
{
}

/// A decimal is the digits of the number's magnitude, with a minus sign in front exactly if it is
/// negative.
pub proof fn law_decimals_have_a_sign_only_below_zero(n: nat)
    ensures
        decimal(n as int) == digits(n, 10),
        n > 0 ==> decimal(-(n as int)) == seq!['-'] + digits(n, 10),
{
}

proof fn lemma_other_character_stays_in_front(s: Seq<char>)
    requires
        !all_white_space(s),
    ensures
        without_leading_space(s).len() > 0,
        !all_white_space(without_leading_space(s)),
    decreases s.len(),
{
    if s.len() > 0 && is_white_space(s.first()) {
        let i = choose|i: int| 0 <= i < s.len() && !is_white_space(#[trigger] s[i]);
        assert(s.drop_first()[i - 1] == s[i]);
        lemma_other_character_stays_in_front(s.drop_first());
    }
}

proof fn lemma_other_character_stays_at_the_end(s: Seq<char>)
    requires
        !all_white_space(s),
    ensures
        without_trailing_space(s).len() > 0,
    decreases s.len(),
{
    if s.len() > 0 && is_white_space(s.last()) {
        let i = choose|i: int| 0 <= i < s.len() && !is_white_space(#[trigger] s[i]);
        assert(s.drop_last()[i] == s[i]);
        lemma_other_character_stays_at_the_end(s.drop_last());
    }
}

/// Something is left of a text that is not white space only.
pub proof fn law_trimmed_keeps_other_characters(s: Seq<char>)
    requires
        !all_white_space(s),
    ensures
        trimmed(s).len() > 0,
{
    lemma_other_character_stays_in_front(s);
    lemma_other_character_stays_at_the_end(without_leading_space(s));
}

} // verus!
