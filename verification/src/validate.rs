//! The formats that request fields must have, as character classes and
//! length bounds.

use vstd::prelude::*;
use vstd::utf8::encode_utf8;
use crate::errors::Error;
use crate::models::api::Payment;

verus! {

pub open spec fn lower(c: char) -> bool {
    'a' <= c && c <= 'z'
}

pub open spec fn upper(c: char) -> bool {
    'A' <= c && c <= 'Z'
}

pub open spec fn digit(c: char) -> bool {
    '0' <= c && c <= '9'
}

pub open spec fn letter(c: char) -> bool {
    lower(c) || upper(c)
}

pub open spec fn alphanumeric(c: char) -> bool {
    letter(c) || digit(c)
}

/// A character with the Unicode property White_Space.
pub open spec fn space(c: char) -> bool {
    ||| ('\u{9}' <= c && c <= '\u{d}')
    ||| c == ' '
    ||| c == '\u{85}'
    ||| c == '\u{a0}'
    ||| c == '\u{1680}'
    ||| ('\u{2000}' <= c && c <= '\u{200a}')
    ||| c == '\u{2028}'
    ||| c == '\u{2029}'
    ||| c == '\u{202f}'
    ||| c == '\u{205f}'
    ||| c == '\u{3000}'
}

/// The sets of characters that a field may be made of.
#[derive(Clone, Copy, Debug, PartialEq, Eq, Structural)]
pub enum Class {
    /// Letters, digits, hyphen and underscore.
    Username,
    /// Letters and the hyphen.
    Name,
    /// Letters, digits, comma, hyphen, full stop and white space.
    Address,
    /// Digits.
    Digits,
}

impl Class {
    pub open spec fn holds(self, c: char) -> bool {
        match self {
            Class::Username => alphanumeric(c) || c == '-' || c == '_',
            Class::Name => letter(c) || c == '-',
            Class::Address => alphanumeric(c) || c == ',' || c == '-' || c == '.' || space(c),
            Class::Digits => digit(c),
        }
    }

    pub fn contains(self, c: char) -> (b: bool)
        ensures
            b == self.holds(c),
    {
        let is_lower = c >= 'a' && c <= 'z';
        let is_upper = c >= 'A' && c <= 'Z';
        let is_digit = c >= '0' && c <= '9';
        match self {
            Class::Username => is_lower || is_upper || is_digit || c == '-' || c == '_',
            Class::Name => is_lower || is_upper || c == '-',
            Class::Address => is_lower || is_upper || is_digit || c == ',' || c == '-' || c == '.'
                || is_space(c),
            Class::Digits => is_digit,
        }
    }
}

fn is_space(c: char) -> (b: bool)
    ensures
        b == space(c),
{
    (c >= '\u{9}' && c <= '\u{d}') || c == ' ' || c == '\u{85}' || c == '\u{a0}' || c == '\u{1680}'
        || (c >= '\u{2000}' && c <= '\u{200a}') || c == '\u{2028}' || c == '\u{2029}' || c
        == '\u{202f}' || c == '\u{205f}' || c == '\u{3000}'
}

/// Between `min` and `max` characters, each of them in the class.
pub open spec fn made_of(class: Class, text: Seq<char>, min: int, max: int) -> bool {
    &&& min <= text.len() <= max
    &&& forall|i: int| 0 <= i < text.len() ==> class.holds(#[trigger] text[i])
}

/// Tells whether `value` has between `min` and `max` characters, all of
/// them in `class`. It stops at the first character that settles the answer.
pub fn is_made_of(class: Class, value: &str, min: usize, max: usize) -> (b: bool)
    ensures
        b == made_of(class, value@, min as int, max as int),
{
    let mut n: usize = 0;
    for c in it: value.chars()
        invariant
            n == it.index(),
            n <= max,
            it.seq() == value@,
            forall|i: int| 0 <= i < n ==> class.holds(#[trigger] value@[i]),
    {
        if n >= max || !class.contains(c) {
            return false;
        }
        n += 1;
    }
    n >= min
}

pub open spec fn valid_username(name: Seq<char>) -> bool {
    made_of(Class::Username, name, 3, 15)
}

/// At least ten characters and at most thirty bytes of UTF-8, with a digit,
/// an upper-case letter, a lower-case letter and a character that is none
/// of these among them.
pub open spec fn valid_password(password: Seq<char>) -> bool {
    &&& 10 <= password.len()
    &&& encode_utf8(password).len() <= 30
    &&& exists|i: int| 0 <= i < password.len() && digit(#[trigger] password[i])
    &&& exists|i: int| 0 <= i < password.len() && upper(#[trigger] password[i])
    &&& exists|i: int| 0 <= i < password.len() && lower(#[trigger] password[i])
    &&& exists|i: int| 0 <= i < password.len() && !alphanumeric(#[trigger] password[i])
}

pub fn validate_username(value: &str) -> (result: Result<bool, Error>)
    ensures
        valid_username(value@) ==> result == Ok::<bool, Error>(true),
        !valid_username(value@) ==> result == Err::<bool, Error>(Error::CredsFormat),
{
    if is_made_of(Class::Username, value, 3, 15) {
        Ok(true)
    } else {
        Err(Error::CredsFormat)
    }
}

pub fn validate_password(value: &str) -> (result: Result<bool, Error>)
    ensures
        valid_password(value@) ==> result == Ok::<bool, Error>(true),
        !valid_password(value@) ==> result == Err::<bool, Error>(Error::CredsFormat),
{
    if value.as_bytes().len() > 30 {
        return Err(Error::CredsFormat);
    }
    let mut n: usize = 0;
    let mut has_digit = false;
    let mut has_upper = false;
    let mut has_lower = false;
    let mut has_other = false;
    for c in it: value.chars()
        invariant
            it.seq() == value@,
            n <= 10,
            n == if it.index() < 10 { it.index() as int } else { 10 },
            has_digit == exists|i: int| 0 <= i < it.index() && digit(#[trigger] value@[i]),
            has_upper == exists|i: int| 0 <= i < it.index() && upper(#[trigger] value@[i]),
            has_lower == exists|i: int| 0 <= i < it.index() && lower(#[trigger] value@[i]),
            has_other == exists|i: int| 0 <= i < it.index() && !alphanumeric(#[trigger] value@[i]),
    {
        let is_lower = c >= 'a' && c <= 'z';
        let is_upper = c >= 'A' && c <= 'Z';
        let is_digit = c >= '0' && c <= '9';
        has_digit = has_digit || is_digit;
        has_upper = has_upper || is_upper;
        has_lower = has_lower || is_lower;
        has_other = has_other || !(is_lower || is_upper || is_digit);
        if n < 10 {
            n += 1;
        }
    }
    if n >= 10 && has_digit && has_upper && has_lower && has_other {
        Ok(true)
    } else {
        Err(Error::CredsFormat)
    }
}

/// A month of the year in one or two digits: `1` to `9`, `01` to `09`, `10`
/// to `12`.
pub open spec fn valid_month(text: Seq<char>) -> bool {
    ||| text.len() == 1 && '1' <= text[0] && text[0] <= '9'
    ||| text.len() == 2 && text[0] == '0' && '1' <= text[1] && text[1] <= '9'
    ||| text.len() == 2 && text[0] == '1' && '0' <= text[1] && text[1] <= '2'
}

pub fn is_month(value: &str) -> (b: bool)
    ensures
        b == valid_month(value@),
{
    let mut first = '0';
    let mut second = '0';
    let mut n: usize = 0;
    for c in it: value.chars()
        invariant
            it.seq() == value@,
            n == it.index(),
            n <= 2,
            n >= 1 ==> first == value@[0],
            n >= 2 ==> second == value@[1],
    {
        if n == 0 {
            first = c;
        } else if n == 1 {
            second = c;
        } else {
            return false;
        }
        n += 1;
    }
    if n == 1 {
        first >= '1' && first <= '9'
    } else if n == 2 {
        (first == '0' && second >= '1' && second <= '9') || (first == '1' && second >= '0' && second
            <= '2')
    } else {
        false
    }
}

/// Whether a payment form is filled in as it must be: names of 1 to 50
/// letters or hyphens, an address of 1 to 125 letters, digits, commas,
/// hyphens, full stops or spaces, a card number of 13 to 16 digits, a
/// security code of 3 or 4, a month, and a year of two digits.
pub open spec fn valid_payment(payment: &Payment) -> bool {
    &&& made_of(Class::Name, payment.first_name@, 1, 50)
    &&& made_of(Class::Name, payment.last_name@, 1, 50)
    &&& made_of(Class::Address, payment.address@, 1, 125)
    &&& made_of(Class::Digits, payment.card_number@, 13, 16)
    &&& made_of(Class::Digits, payment.cvc@, 3, 4)
    &&& valid_month(payment.exp_month@)
    &&& made_of(Class::Digits, payment.exp_year@, 2, 2)
}

/// Checks the format of a payment form.
pub fn compliant(payment: &Payment) -> (b: bool)
    ensures
        b == valid_payment(payment),
{
    is_made_of(Class::Name, payment.first_name.as_str(), 1, 50) && is_made_of(
        Class::Name,
        payment.last_name.as_str(),
        1,
        50,
    ) && is_made_of(Class::Address, payment.address.as_str(), 1, 125) && is_made_of(
        Class::Digits,
        payment.card_number.as_str(),
        13,
        16,
    ) && is_made_of(Class::Digits, payment.cvc.as_str(), 3, 4) && is_month(
        payment.exp_month.as_str(),
    ) && is_made_of(Class::Digits, payment.exp_year.as_str(), 2, 2)
}

} // verus!
