//! Text helpers: appending to strings, and unsigned decimal numerals.

use vstd::prelude::*;

verus! {

/// `String::push` appends the given character to the end of the string.
pub assume_specification[ String::push ](text: &mut String, c: char)
    ensures
        final(text)@ == old(text)@.push(c),
;

/// Whether a character is one of `0..=9`.
pub open spec fn is_digit(c: char) -> bool {
    '0' <= c && c <= '9'
}

/// The value of a decimal digit; zero for any other character.
pub open spec fn digit_value(c: char) -> nat {
    if is_digit(c) {
        (c as u8 - 48) as nat
    } else {
        0
    }
}

/// The character that writes a digit below ten.
pub open spec fn digit_char(d: nat) -> char
    recommends
        d < 10,
{
    ((48 + d) as u8) as char
}

/// The shortest decimal numeral of a number.
pub open spec fn decimal(n: nat) -> Seq<char>
    decreases n,
{
    if n < 10 {
        seq![digit_char(n)]
    } else {
        decimal(n / 10).push(digit_char(n % 10))
    }
}

/// Whether every character of a text is a decimal digit.
pub open spec fn all_digits(s: Seq<char>) -> bool {
    forall|i: int| 0 <= i < s.len() ==> is_digit(#[trigger] s[i])
}

/// The number that a run of digits writes, most significant digit first.
pub open spec fn digits_value(s: Seq<char>) -> nat
    decreases s.len(),
{
    if s.len() == 0 {
        0
    } else {
        digits_value(s.drop_last()) * 10 + digit_value(s.last())
    }
}

/// A numeral without its optional leading plus sign.
pub open spec fn unsigned_part(s: Seq<char>) -> Seq<char> {
    if s.len() > 0 && s[0] == '+' {
        s.subrange(1, s.len() as int)
    } else {
        s
    }
}

/// The number that a text writes: an optional plus sign, then one or more digits
/// and nothing else. `None` for any other text.
pub open spec fn numeral(s: Seq<char>) -> Option<nat> {
    let digits = unsigned_part(s);
    if digits.len() > 0 && all_digits(digits) {
        Some(digits_value(digits))
    } else {
        None
    }
}

/// The number that a text writes, where it fits in 64 bits.
pub open spec fn numeral_u64(s: Seq<char>) -> Option<u64> {
    match numeral(s) {
        Some(v) => if v <= u64::MAX {
            Some(v as u64)
        } else {
            None
        },
        None => None,
    }
}

/// Appends the decimal numeral of `n` to `out`.
pub fn push_decimal(out: &mut String, n: u64)
    ensures
        final(out)@ == old(out)@ + decimal(n as nat),
    decreases n,
{
    if n >= 10 {
        push_decimal(out, n / 10);
    }
    let d = (n % 10) as u8;
    out.push((48u8 + d) as char);
}

/// The decimal numeral of `n`.
pub fn decimal_text(n: u64) -> (r: String)
    ensures
        r@ == decimal(n as nat),
{
    let mut out = String::new();
    push_decimal(&mut out, n);
    out
}

/// A numeral's value never falls below that of one of its prefixes.
pub proof fn lemma_prefix_value(s: Seq<char>, k: int)
    requires
        0 <= k <= s.len(),
    ensures
        digits_value(s.subrange(0, k)) <= digits_value(s),
    decreases s.len(),
{
    if k == s.len() {
        assert(s.subrange(0, k) == s);
    } else {
        lemma_prefix_value(s.drop_last(), k);
        assert(s.drop_last().subrange(0, k) == s.subrange(0, k));
    }
}

/// Reading undoes writing: the decimal numeral of a number writes that number.
pub proof fn law_numeral_of_decimal(n: nat)
    ensures
        numeral(decimal(n)) == Some(n),
        decimal(n).len() > 0,
        all_digits(decimal(n)),
        digits_value(decimal(n)) == n,
    decreases n,
{
    if n >= 10 {
        law_numeral_of_decimal(n / 10);
        let text = decimal(n);
        assert(text.drop_last() == decimal(n / 10));
        assert(text.last() == digit_char(n % 10));
    } else {
        let text = decimal(n);
        assert(text.drop_last() == Seq::<char>::empty());
        assert(digits_value(text.drop_last()) == 0);
    }
    assert(is_digit(decimal(n)[0]));
}

/// Reads an unsigned decimal numeral: an optional plus sign, then digits only.
pub fn parse_decimal(text: &str) -> (r: Option<u64>)
    ensures
        r == numeral_u64(text@),
{
    let mut acc: u64 = 0;
    let mut signed = false;
    let mut any = false;
    let mut first = true;
    for c in it: text.chars()
        invariant
            it.seq() == text@,
            first <==> it.index() == 0,
            signed <==> it.index() > 0 && text@[0] == '+',
            any <==> it.index() > (if signed { 1int } else { 0int }),
            all_digits(text@.subrange(if signed { 1int } else { 0int }, it.index() as int)),
            acc == digits_value(text@.subrange(if signed { 1int } else { 0int }, it.index() as int)),
    {
        let ghost i = it.index() as int;
        let ghost start = if signed { 1int } else { 0int };
        let ghost digits = unsigned_part(text@);
        if first && c == '+' {
            signed = true;
            assert(text@.subrange(1, 1) == Seq::<char>::empty());
        } else if !('0' <= c && c <= '9') {
            assert(!is_digit(digits[i - start]));
            return None;
        } else {
            let d = (c as u8 - 48u8) as u64;
            proof {
                let seen = text@.subrange(start, i + 1);
                assert(seen.drop_last() == text@.subrange(start, i));
                assert(seen == digits.subrange(0, i + 1 - start));
                lemma_prefix_value(digits, i + 1 - start);
            }
            if acc > (u64::MAX - d) / 10 {
                return None;
            }
            acc = acc * 10 + d;
            any = true;
        }
        first = false;
    }
    proof {
        let start = if signed { 1int } else { 0int };
        assert(text@.subrange(start, text@.len() as int) == unsigned_part(text@));
    }
    if any {
        Some(acc)
    } else {
        None
    }
}

} // verus!
