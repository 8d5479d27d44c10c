//! Prices: reading the decoded answer of the price service and rendering a
//! price with three decimals.
//!
//! A price is held in thousandths of a dollar, so that `1234` stands for
//! `1.234` dollars.
use vstd::prelude::*;
use vstd::string::StringExecFns;
use crate::text::{capitalize, capitalized, same_text};

verus! {

/// The character of a decimal digit.
pub open spec fn digit_char(d: nat) -> char {
    if d == 0 { '0' }
    else if d == 1 { '1' }
    else if d == 2 { '2' }
    else if d == 3 { '3' }
    else if d == 4 { '4' }
    else if d == 5 { '5' }
    else if d == 6 { '6' }
    else if d == 7 { '7' }
    else if d == 8 { '8' }
    else { '9' }
}

/// The decimal digits of `n`, without leading zeros (`0` is written `0`).
pub open spec fn decimal(n: nat) -> Seq<char>
    decreases n,
{
    if n < 10 {
        seq![digit_char(n)]
    } else {
        decimal(n / 10) + seq![digit_char(n % 10)]
    }
}

/// A price of `t` thousandths: the whole part, a point, and exactly three
/// decimals.
pub open spec fn price_text(t: nat) -> Seq<char> {
    decimal(t / 1000) + seq!['.', digit_char((t / 100) % 10), digit_char((t / 10) % 10), digit_char(t % 10)]
}

/// The line that shows the price of a token.
pub open spec fn price_line_text(token: Seq<char>, t: nat) -> Seq<char> {
    ">> "@ + capitalized(token) + ": "@ + price_text(t) + " $"@
}

/// What the price table says of a token.
pub enum Lookup {
    /// The token is listed with a US-dollar price, in thousandths.
    Found(u64),
    /// The token is not listed: the service does not know it.
    UnknownToken,
    /// The token is listed without a US-dollar price.
    NoUsdPrice,
}

/// The index of the first entry keyed by `key`, if any.
pub open spec fn first_key<V>(entries: Seq<(Seq<char>, V)>, key: Seq<char>) -> Option<int> {
    if exists|i: int| 0 <= i < entries.len() && entries[i].0 == key {
        let i = choose|i: int|
            0 <= i < entries.len() && entries[i].0 == key
            && forall|j: int| 0 <= j < i ==> entries[j].0 != key;
        Some(i)
    } else {
        None
    }
}

/// What a decoded price table (token, then currency, then price) says of `token`.
pub open spec fn lookup_spec(table: Seq<(Seq<char>, Seq<(Seq<char>, u64)>)>, token: Seq<char>) -> Lookup {
    match first_key(table, token) {
        None => Lookup::UnknownToken,
        Some(i) => match first_key(table[i].1, "usd"@) {
            None => Lookup::NoUsdPrice,
            Some(j) => Lookup::Found(table[i].1[j].1),
        },
    }
}

/// There is a first index for a key that occurs.
proof fn lemma_first_key<V>(entries: Seq<(Seq<char>, V)>, key: Seq<char>, i: int)
    requires
        0 <= i < entries.len(),
        entries[i].0 == key,
        forall|j: int| 0 <= j < i ==> entries[j].0 != key,
    ensures
        first_key(entries, key) == Some(i),
{
    let k = choose|k: int|
        0 <= k < entries.len() && entries[k].0 == key
        && forall|j: int| 0 <= j < k ==> entries[j].0 != key;
    assert(0 <= k < entries.len() && entries[k].0 == key
        && forall|j: int| 0 <= j < k ==> entries[j].0 != key);
    if k < i {
        assert(entries[k].0 != key);
    } else if i < k {
        assert(entries[i].0 != key);
    }
}

/// The index of the first entry keyed by `key`, if any.
fn find_key<V: DeepView>(entries: &Vec<(String, V)>, key: &str) -> (r: Option<usize>)
    ensures
        match r {
            None => forall|i: int| 0 <= i < entries@.len() ==> entries@[i].0@ != key@,
            Some(i) => i < entries@.len() && entries@[i as int].0@ == key@
                && forall|j: int| 0 <= j < i ==> entries@[j].0@ != key@,
        },
{
    let mut i: usize = 0;
    while i < entries.len()
        invariant
            i <= entries@.len(),
            forall|j: int| 0 <= j < i ==> entries@[j].0@ != key@,
        decreases entries@.len() - i,
    {
        if same_text(entries[i].0.as_str(), key) {
            return Some(i);
        }
        i = i + 1;
    }
    None
}

/// The US-dollar price of `token` in a decoded price table, in which each
/// token maps to its prices by currency code.
pub fn usd_price(table: &Vec<(String, Vec<(String, u64)>)>, token: &str) -> (r: Lookup)
    ensures
        r == lookup_spec(table.deep_view(), token@),
{
    let ghost t = table.deep_view();
    match find_key(table, token) {
        None => {
            assert(first_key(t, token@) is None);
            Lookup::UnknownToken
        },
        Some(i) => {
            proof { lemma_first_key(t, token@, i as int); }
            let prices = &table[i].1;
            assert(t[i as int].1 == prices.deep_view());
            match find_key(prices, "usd") {
                None => {
                    assert(first_key(t[i as int].1, "usd"@) is None);
                    Lookup::NoUsdPrice
                },
                Some(j) => {
                    proof { lemma_first_key(t[i as int].1, "usd"@, j as int); }
                    Lookup::Found(prices[j].1)
                },
            }
        },
    }
}

/// Whether a character is a decimal digit.
pub open spec fn is_digit(c: char) -> bool {
    '0' <= c && c <= '9'
}

/// The decimal form of a number is one digit or more, and digits only.
proof fn lemma_decimal_digits(n: nat)
    ensures
        decimal(n).len() >= 1,
        forall|i: int| 0 <= i < decimal(n).len() ==> is_digit(#[trigger] decimal(n)[i]),
    decreases n,
{
    if n >= 10 {
        lemma_decimal_digits(n / 10);
        let d = decimal(n / 10);
        assert forall|i: int| 0 <= i < decimal(n).len() implies is_digit(#[trigger] decimal(n)[i]) by {
            if i < d.len() {
                assert(decimal(n)[i] == d[i]);
            }
        }
    }
}

/// A rendered price has exactly three digits after its point, whatever the
/// price: the point is its fourth character from the end, what follows it is
/// three digits, and what comes before is one digit or more and holds no point.
pub proof fn law_three_decimals(thousandths: nat)
    ensures
        price_text(thousandths).len() >= 5,
        price_text(thousandths)[price_text(thousandths).len() - 4] == '.',
        forall|i: int| price_text(thousandths).len() - 3 <= i < price_text(thousandths).len()
            ==> is_digit(#[trigger] price_text(thousandths)[i]),
        forall|i: int| 0 <= i < price_text(thousandths).len() - 4
            ==> is_digit(#[trigger] price_text(thousandths)[i]),
{
    let w = decimal(thousandths / 1000);
    let s = price_text(thousandths);
    lemma_decimal_digits(thousandths / 1000);
    assert forall|i: int| 0 <= i < s.len() - 4 implies is_digit(#[trigger] s[i]) by {
        assert(s[i] == w[i]);
    }
}

/// The one-character text of a decimal digit.
fn digit_str(d: u64) -> (r: &'static str)
    requires
        d < 10,
    ensures
        r@ == seq![digit_char(d as nat)],
{
    proof {
        reveal_strlit("0");
        reveal_strlit("1");
        reveal_strlit("2");
        reveal_strlit("3");
        reveal_strlit("4");
        reveal_strlit("5");
        reveal_strlit("6");
        reveal_strlit("7");
        reveal_strlit("8");
        reveal_strlit("9");
    }
    if d == 0 { "0" }
    else if d == 1 { "1" }
    else if d == 2 { "2" }
    else if d == 3 { "3" }
    else if d == 4 { "4" }
    else if d == 5 { "5" }
    else if d == 6 { "6" }
    else if d == 7 { "7" }
    else if d == 8 { "8" }
    else { "9" }
}

/// Appends the decimal digits of `n` to `out`.
fn push_decimal(n: u64, out: &mut String)
    ensures
        final(out)@ == old(out)@ + decimal(n as nat),
    decreases n,
{
    if n >= 10 {
        push_decimal(n / 10, out);
    }
    out.append(digit_str(n % 10));
    assert(final(out)@ =~= old(out)@ + decimal(n as nat));
}

/// A price of `thousandths` thousandths of a dollar, rendered with exactly
/// three decimals (`100000` gives `100.000`).
pub fn format_price(thousandths: u64) -> (r: String)
    ensures
        r@ == price_text(thousandths as nat),
{
    let mut out = String::new();
    push_decimal(thousandths / 1000, &mut out);
    out.append(".");
    out.append(digit_str((thousandths / 100) % 10));
    out.append(digit_str((thousandths / 10) % 10));
    out.append(digit_str(thousandths % 10));
    proof { reveal_strlit("."); }
    assert(out@ =~= price_text(thousandths as nat));
    out
}

/// The line that shows a token's price: `>> Bitcoin: 67234.120 $`.
pub fn price_line(token: &str, thousandths: u64) -> (r: String)
    ensures
        r@ == price_line_text(token@, thousandths as nat),
{
    let mut out = String::from_str(">> ");
    out.append(capitalize(token).as_str());
    out.append(": ");
    out.append(format_price(thousandths).as_str());
    out.append(" $");
    out
}

} // verus!
