//! Numbers out of texts.

use vstd::prelude::*;

verus! {

/// A decimal digit.
pub open spec fn is_digit(c: char) -> bool {
    '0' <= c <= '9'
}

/// The value of a decimal digit.
pub open spec fn digit_value(c: char) -> int {
    c as int - '0' as int
}

/// The number that decimal digits denote.
pub open spec fn number_of(digits: Seq<char>) -> int
    decreases digits.len(),
{
    if digits.len() == 0 {
        0
    } else {
        10 * number_of(digits.drop_last()) + digit_value(digits.last())
    }
}

/// The decimal digits in a text.
pub open spec fn digits_in(text: Seq<char>) -> Seq<char> {
    text.filter(|c: char| is_digit(c))
}

/// One more character adds a digit, or nothing.
proof fn lemma_digits_in_push(text: Seq<char>, c: char)
    ensures
        digits_in(text.push(c)) == if is_digit(c) {
            digits_in(text).push(c)
        } else {
            digits_in(text)
        },
{
    reveal(Seq::filter);
    assert(text.push(c).drop_last() =~= text);
}

/// The digits of a longer text denote no smaller number.
proof fn lemma_number_grows(text: Seq<char>, count: int)
    requires
        0 <= count <= text.len(),
    ensures
        0 <= number_of(digits_in(text.take(count))) <= number_of(digits_in(text)),
    decreases text.len(),
{
    if text.len() == 0 {
        assert(text.take(count) =~= text);
        reveal(Seq::filter);
    } else {
        let shorter = text.drop_last();
        let c = text.last();
        assert(text =~= shorter.push(c));
        lemma_digits_in_push(shorter, c);
        if is_digit(c) {
            assert(digits_in(shorter).push(c).drop_last() =~= digits_in(shorter));
        }
        lemma_number_grows(shorter, 0);
        if count == text.len() {
            assert(text.take(count) =~= text);
        } else {
            lemma_number_grows(shorter, count);
            assert(shorter.take(count) =~= text.take(count));
        }
    }
}

/// The number that all decimal digits in a text denote together, if there are any, and if the
/// number is not too large.
///
/// Of the debug output of a thread's identifier, that is the number of the thread.
pub fn number_in(text: &str) -> (r: Option<u64>)
    ensures
        match r {
            Some(n) => digits_in(text@).len() > 0 && n == number_of(digits_in(text@)),
            None => digits_in(text@).len() == 0 || number_of(digits_in(text@)) > u64::MAX,
        },
{
    let len: usize = text.unicode_len();
    let mut n: u64 = 0;
    let mut any: bool = false;
    let mut i: usize = 0;
    proof {
        reveal(Seq::filter);
        assert(text@.take(0) =~= Seq::<char>::empty());
    }
    while i < len
        invariant
            i <= len == text@.len(),
            n == number_of(digits_in(text@.take(i as int))),
            any == (digits_in(text@.take(i as int)).len() > 0),
        decreases len - i,
    {
        let c = text.get_char(i);
        proof {
            assert(text@.take(i + 1) =~= text@.take(i as int).push(c));
            lemma_digits_in_push(text@.take(i as int), c);
            let d = digits_in(text@.take(i as int));
            assert(d.push(c).drop_last() =~= d);
            lemma_number_grows(text@, i + 1);
        }
        if '0' <= c && c <= '9' {
            let value: u64 = c as u64 - '0' as u64;
            if n > 1_844_674_407_370_955_161 || (n == 1_844_674_407_370_955_161 && value > 5) {
                proof {
                    lemma_more_digits(text@, i + 1);
                }
                return None;
            }
            n = 10 * n + value;
            any = true;
        }
        i = i + 1;
    }
    assert(text@.take(i as int) =~= text@);
    if any {
        Some(n)
    } else {
        None
    }
}

/// A text has at least as many digits as its beginning.
proof fn lemma_more_digits(text: Seq<char>, count: int)
    requires
        0 <= count <= text.len(),
    ensures
        digits_in(text.take(count)).len() <= digits_in(text).len(),
    decreases text.len() - count,
{
    if count == text.len() {
        assert(text.take(count) =~= text);
    } else {
        lemma_more_digits(text, count + 1);
        assert(text.take(count + 1) =~= text.take(count).push(text[count]));
        lemma_digits_in_push(text.take(count), text[count]);
    }
}

} // verus!
