//! Monetary amounts in Brazilian reais: the written form that this library
//! asks of an amount before it hands the text to the money library, and the
//! price text that the money library derives from it.

use vstd::prelude::*;
use vstd::string::is_ascii_spec_bytes;

verus! {

/// The most decimal digits the written form of an amount may hold. The
/// money library keeps an amount in 96 bits, which hold every number of 28
/// digits, and writes two digits of centavos behind an amount that names
/// none: up to this many digits, no amount is too large for it.
pub const MAX_AMOUNT_DIGITS: usize = 26;

/// The byte of the digit `0`.
const ZERO: u8 = 48;

/// The byte of the digit `9`.
const NINE: u8 = 57;

/// The byte of the grouping comma.
const COMMA: u8 = 44;

/// The byte of the decimal point.
const POINT: u8 = 46;

/// The byte of the minus sign.
const MINUS: u8 = 45;

/// The byte of the plus sign.
const PLUS: u8 = 43;

/// One of the ten decimal digits.
pub open spec fn is_digit(c: char) -> bool {
    '0' <= c <= '9'
}

/// What may stand at position `at` of an amount: a digit, a grouping comma,
/// the decimal point, or a sign in front of everything else.
pub open spec fn amount_char(c: char, at: int) -> bool {
    is_digit(c) || c == ',' || c == '.' || (at == 0 && (c == '-' || c == '+'))
}

/// The number of decimal digits among `text`.
pub open spec fn digit_count(text: Seq<char>) -> nat
    decreases text.len(),
{
    if text.len() == 0 {
        0
    } else {
        digit_count(text.drop_last()) + if is_digit(text.last()) {
            1nat
        } else {
            0nat
        }
    }
}

/// The written form that this library asks of an amount: an optional sign
/// in front, then nothing but digits, grouping commas and decimal points,
/// with no more than `MAX_AMOUNT_DIGITS` digits.
///
/// This is a rule of this library, not of the money library. It is drawn so
/// that the money library is known to answer on every text of this form,
/// with a price or with a refusal. Outside the form the money library aborts
/// on some texts and reads others (digits set apart by underscores, some
/// amounts of more digits); all of them are refused here. Whether a text of this
/// form is an amount (whether its groups have the right sizes, whether the
/// centavos are a number) is for the money library to say.
pub open spec fn amount_shape(text: Seq<char>) -> bool {
    &&& forall|i: int| 0 <= i < text.len() ==> amount_char(#[trigger] text[i], i)
    &&& digit_count(text) <= MAX_AMOUNT_DIGITS
}

/// The price text that the rusty_money crate derives from `text` read as an
/// amount of Brazilian reais (`Money::from_str` with `iso::BRL`, then the
/// crate's `Display`), or `None` where it refuses `text`. The name is spoken
/// of only for texts of the amount shape.
pub uninterp spec fn brl_price_text(text: Seq<char>) -> Option<Seq<char>>;

/// Decides `amount_shape` in one pass over the bytes of `text`.
pub fn has_amount_shape(text: &str) -> (ok: bool)
    ensures
        ok == amount_shape(text@),
{
    if !text.is_ascii() {
        proof {
            let k = choose|k: int|
                0 <= k < text@.len() && !('\0' <= #[trigger] text@[k] <= '\u{7f}');
            assert(!amount_char(text@[k], k));
        }
        return false;
    }
    let bytes = text.as_bytes();
    proof {
        is_ascii_spec_bytes(text);
    }
    let n = bytes.len();
    let mut digits: usize = 0;
    let mut i: usize = 0;
    while i < n
        invariant
            i <= n,
            n == text@.len(),
            bytes@.len() == n,
            forall|k: int| 0 <= k < n ==> '\0' <= #[trigger] text@[k] <= '\u{7f}',
            forall|k: int| 0 <= k < n ==> #[trigger] bytes@[k] == text@[k] as u8,
            forall|k: int| 0 <= k < i ==> amount_char(#[trigger] text@[k], k),
            digits == digit_count(text@.take(i as int)),
            digits <= i,
        decreases n - i,
    {
        let b = bytes[i];
        let ghost c = text@[i as int];
        assert(b == c as u8);
        assert(text@.take(i as int + 1).drop_last() == text@.take(i as int));
        if ZERO <= b && b <= NINE {
            assert(is_digit(c));
            digits = digits + 1;
        } else if b == COMMA || b == POINT || (i == 0 && (b == MINUS || b == PLUS)) {
            assert(!is_digit(c));
            assert(amount_char(c, i as int));
        } else {
            assert(!amount_char(c, i as int));
            return false;
        }
        i = i + 1;
    }
    assert(text@.take(n as int) == text@);
    digits <= MAX_AMOUNT_DIGITS
}

/// Reads `amount` as Brazilian reais with `rusty_money::Money::from_str` and
/// writes the money back with the crate's `Display`.
/// Trusted: on a text of the amount shape the crate returns, with the money
/// or with a refusal, and what it returns depends on the characters of
/// `amount` alone, so it is the value that `brl_price_text` names. The shape
/// is asked for because the crate aborts on some of the texts outside it;
/// nothing is claimed of the call on those.
#[verifier::external_body]
pub(crate) fn brl_price(amount: &str) -> (price: Option<String>)
    requires
        amount_shape(amount@),
    ensures
        match price {
            Some(text) => brl_price_text(amount@) == Some(text@),
            None => brl_price_text(amount@) is None,
        },
{
    match rusty_money::Money::from_str(amount, rusty_money::iso::BRL) {
        Ok(money) => Some(money.to_string()),
        Err(_) => None,
    }
}

} // verus!
