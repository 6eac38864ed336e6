//! Wallet bookkeeping: balances, fees and amounts given as text.

use crate::ascii::{lemma_ascii_char_code, lemma_ascii_text_bytes, lemma_char_order};
use vstd::prelude::*;
use vstd::string::*;
use vstd::utf8::*;

verus! {

/// Anything that can tell its balance in satoshis.
pub trait Wallet {
    fn balance(&self) -> u64;
}

/// A wallet that holds one confirmed balance.
pub struct TestWallet {
    pub confirmed: u64,
}

impl Wallet for TestWallet {
    /// The confirmed balance.
    fn balance(&self) -> (amount: u64)
        ensures
            amount == self.confirmed,
    {
        self.confirmed
    }
}

/// Takes a fee off a balance. The fee must not exceed the balance.
pub fn apply_fee(balance: &mut u64, fee: u64)
    requires
        fee <= *old(balance),
    ensures
        *final(balance) == *old(balance) - fee,
{
    *balance -= fee;
}

/// Whether a character is one of `0`-`9`.
pub open spec fn is_decimal_digit(c: char) -> bool {
    '0' <= c <= '9'
}

/// The value of a decimal digit; zero for any other character.
pub open spec fn decimal_digit_value(c: char) -> nat {
    if is_decimal_digit(c) {
        (c as int - '0' as int) as nat
    } else {
        0
    }
}

/// The number that a sequence of decimal digits writes, the most
/// significant digit first.
pub open spec fn decimal_value(digits: Seq<char>) -> nat
    decreases digits.len(),
{
    if digits.len() == 0 {
        0
    } else {
        decimal_value(digits.drop_last()) * 10 + decimal_digit_value(digits.last())
    }
}

/// The digits of an amount: the text without the `+` that may lead it.
pub open spec fn amount_digits(text: Seq<char>) -> Seq<char> {
    if text.len() > 0 && text[0] == '+' {
        text.drop_first()
    } else {
        text
    }
}

/// Text that writes an amount: at least one decimal digit and nothing
/// else, but for a `+` that may stand in front, and a number that fits in
/// 64 bits.
pub open spec fn is_amount_text(text: Seq<char>) -> bool {
    let digits = amount_digits(text);
    &&& digits.len() > 0
    &&& forall|i: int| 0 <= i < digits.len() ==> is_decimal_digit(#[trigger] digits[i])
    &&& decimal_value(digits) <= u64::MAX
}

/// The amount that the text writes.
pub open spec fn amount_value(text: Seq<char>) -> nat {
    decimal_value(amount_digits(text))
}

/// A number written with more digits is no smaller than the number that
/// its first digits write.
proof fn lemma_decimal_prefix(digits: Seq<char>, k: int)
    requires
        0 <= k <= digits.len(),
    ensures
        decimal_value(digits.subrange(0, k)) <= decimal_value(digits),
    decreases digits.len() - k,
{
    if k == digits.len() {
        assert(digits.subrange(0, k) =~= digits);
    } else {
        lemma_decimal_prefix(digits.drop_last(), k);
        assert(digits.drop_last().subrange(0, k) =~= digits.subrange(0, k));
    }
}

/// Reads an amount from text, or nothing where the text writes none.
fn parse_amount(input: &str) -> (amount: Option<u64>)
    ensures
        amount is Some <==> is_amount_text(input@),
        amount is Some ==> amount.unwrap() == amount_value(input@),
{
    let ghost text = input@;
    let ghost digits = amount_digits(text);
    let data = input.as_bytes();
    proof {
        lemma_ascii_text_bytes(text);
    }
    if !input.is_ascii() {
        proof {
            if is_amount_text(text) {
                assert forall|i: int| 0 <= i < text.len() implies '\0' <= #[trigger] text[i]
                    <= '\u{7f}' by {
                    if text[0] == '+' && i > 0 {
                        assert(is_decimal_digit(digits[i - 1]));
                    } else if text[0] != '+' {
                        assert(is_decimal_digit(digits[i]));
                    }
                }
            }
        }
        return None;
    }
    let n: usize = data.len();
    let start: usize = if n > 0 && data[0] == 0x2b {
        1
    } else {
        0
    };
    proof {
        if n > 0 {
            lemma_ascii_char_code(text[0]);
            lemma_ascii_char_code('+');
        }
        assert(digits =~= text.subrange(start as int, n as int));
    }
    if start == n {
        return None;
    }
    let mut acc: u64 = 0;
    let mut i: usize = start;
    assert(text.subrange(start as int, i as int) =~= Seq::<char>::empty());
    while i < n
        invariant
            text == input@,
            digits == amount_digits(text),
            n == text.len(),
            n == data@.len(),
            is_ascii_chars(text),
            forall|j: int| 0 <= j < n ==> #[trigger] data@[j] == text[j] as u8,
            start <= i <= n,
            digits == text.subrange(start as int, n as int),
            forall|j: int| start <= j < i ==> is_decimal_digit(#[trigger] text[j]),
            acc == decimal_value(text.subrange(start as int, i as int)),
        decreases n - i,
    {
        let b: u8 = data[i];
        let ghost prefix = text.subrange(start as int, i as int);
        let ghost longer = text.subrange(start as int, i as int + 1);
        proof {
            lemma_ascii_char_code(text[i as int]);
            lemma_char_order('0', text[i as int]);
            lemma_char_order(text[i as int], '9');
            assert(is_decimal_digit(text[i as int]) <==> 0x30 <= b <= 0x39);
            assert(longer.drop_last() =~= prefix);
            assert(longer.last() == text[i as int]);
            assert(digits[i - start] == text[i as int]);
        }
        if b < 0x30 || b > 0x39 {
            return None;
        }
        let digit: u64 = (b - 0x30) as u64;
        proof {
            assert(decimal_value(longer) == acc * 10 + digit);
            lemma_decimal_prefix(digits, i - start + 1);
            assert(digits.subrange(0, i - start + 1) =~= longer);
        }
        let scaled: u64 = match acc.checked_mul(10) {
            Some(scaled) => scaled,
            None => {
                return None;
            },
        };
        acc = match scaled.checked_add(digit) {
            Some(sum) => sum,
            None => {
                return None;
            },
        };
        i += 1;
    }
    assert(text.subrange(start as int, i as int) =~= digits);
    assert forall|k: int| 0 <= k < digits.len() implies is_decimal_digit(#[trigger] digits[k]) by {
        assert(digits[k] == text[k + start]);
    }
    Some(acc)
}

/// Reads an amount of satoshis from decimal text.
///
/// The text is accepted when it holds decimal digits alone, at least one,
/// with or without a `+` in front, and writes a number that fits in
/// 64 bits. Anything else is refused with a message.
pub fn parse_satoshis(input: &str) -> (res: Result<u64, String>)
    ensures
        res is Ok <==> is_amount_text(input@),
        res is Ok ==> res.unwrap() == amount_value(input@),
        res is Err ==> res.unwrap_err()@ == "Invalid satoshi amount"@,
{
    match parse_amount(input) {
        Some(num) => Ok(num),
        None => Err(String::from_str("Invalid satoshi amount")),
    }
}

} // verus!
