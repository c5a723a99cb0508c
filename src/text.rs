use vstd::prelude::*;

use crate::price::{Price, round_to_cents, round_thirds_to_cents};

verus! {

/// The decimal digit `d` as a character.
pub open spec fn digit_char(d: int) -> char {
    seq!['0', '1', '2', '3', '4', '5', '6', '7', '8', '9'][d]
}

/// The decimal digits of `n`, most significant first, with no leading zero.
pub open spec fn decimal_digits(n: nat) -> Seq<char>
    decreases n,
{
    if n < 10 {
        seq![digit_char(n as int)]
    } else {
        decimal_digits(n / 10).push(digit_char((n % 10) as int))
    }
}

/// The decimal digits of `n`, after a minus sign when it is negative.
pub open spec fn signed_digits(n: int) -> Seq<char> {
    if n < 0 {
        seq!['-'] + decimal_digits((-n) as nat)
    } else {
        decimal_digits(n as nat)
    }
}

/// `units` rounded to cents and written with two decimals, as `-12.05`.
pub open spec fn price_digits(units: int) -> Seq<char> {
    let cents = round_to_cents(units) / 100;
    let mag = if cents < 0 { -cents } else { cents };
    let sign = if cents < 0 { seq!['-'] } else { Seq::<char>::empty() };
    sign + decimal_digits((mag / 100) as nat) + seq!['.'] + seq![
        digit_char((mag % 100) / 10),
        digit_char(mag % 10),
    ]
}

fn digit_str(d: u64) -> (r: &'static str)
    requires
        d < 10,
    ensures
        r@ == seq![digit_char(d as int)],
{
    proof {
        reveal_strlit("0");
        reveal_strlit("1");
        reveal_strlit("2");
        reveal_strlit("3");
        reveal_strlit("4");
        reveal_strlit("5");
        reveal_strlit("6");
        reveal_strlit("7");
        reveal_strlit("8");
        reveal_strlit("9");
    }
    match d {
        0 => "0",
        1 => "1",
        2 => "2",
        3 => "3",
        4 => "4",
        5 => "5",
        6 => "6",
        7 => "7",
        8 => "8",
        _ => "9",
    }
}

/// `n` written in decimal.
pub fn decimal_text(n: u64) -> (r: String)
    ensures
        r@ == decimal_digits(n as nat),
    decreases n,
{
    if n < 10 {
        String::from_str(digit_str(n))
    } else {
        let mut r = decimal_text(n / 10);
        r.append(digit_str(n % 10));
        r
    }
}

/// `n` written in decimal, with a minus sign when it is negative.
pub fn integer_text(n: i64) -> (r: String)
    ensures
        r@ == signed_digits(n as int),
{
    if n < 0 {
        proof {
            reveal_strlit("-");
        }
        let mut r = String::from_str("-");
        let digits = decimal_text((-(n as i128)) as u64);
        r.append(digits.as_str());
        r
    } else {
        decimal_text(n as u64)
    }
}

/// A price rounded to cents and written with two decimals.
pub fn price_text(p: Price) -> (r: String)
    ensures
        r@ == price_digits(p.units as int),
{
    let rounded: i64 = round_thirds_to_cents(3 * (p.units as i128));
    let cents: i64 = rounded / 100;
    assert(cents == round_to_cents(p.units as int) / 100);
    let mag: u64 = if cents < 0 {
        (-(cents as i128)) as u64
    } else {
        cents as u64
    };
    let mut r = if cents < 0 {
        proof {
            reveal_strlit("-");
        }
        String::from_str("-")
    } else {
        String::new()
    };
    let whole = decimal_text(mag / 100);
    r.append(whole.as_str());
    proof {
        reveal_strlit(".");
    }
    r.append(".");
    r.append(digit_str((mag % 100) / 10));
    r.append(digit_str(mag % 10));
    r
}

/// The line describing one account value.
pub open spec fn account_line_text(
    key: Seq<char>,
    value: Seq<char>,
    currency: Seq<char>,
    account: Seq<char>,
) -> Seq<char> {
    "key: "@ + key + ", value: "@ + value + ", currency: "@ + currency + ", account: "@ + account
}

/// The line describing one position; `contract`, `position` and `avg_cost`
/// come already written out.
pub open spec fn position_line_text(
    account: Seq<char>,
    contract: Seq<char>,
    position: Seq<char>,
    avg_cost: Seq<char>,
) -> Seq<char> {
    "Account: "@ + account + ", Contract: "@ + contract + ", Position: "@ + position
        + ", Avg cost: "@ + avg_cost
}

/// Writes one account value as a line: key, value, currency and account.
pub fn account_line(key: &str, value: &str, currency: &str, account: &str) -> (r: String)
    ensures
        r@ == account_line_text(key@, value@, currency@, account@),
{
    let mut r = String::from_str("key: ");
    r.append(key);
    r.append(", value: ");
    r.append(value);
    r.append(", currency: ");
    r.append(currency);
    r.append(", account: ");
    r.append(account);
    r
}

/// Writes one position as a line: account, contract, position and average cost.
pub fn position_line(account: &str, contract: &str, position: &str, avg_cost: &str) -> (r: String)
    ensures
        r@ == position_line_text(account@, contract@, position@, avg_cost@),
{
    let mut r = String::from_str("Account: ");
    r.append(account);
    r.append(", Contract: ");
    r.append(contract);
    r.append(", Position: ");
    r.append(position);
    r.append(", Avg cost: ");
    r.append(avg_cost);
    r
}

} // verus!
