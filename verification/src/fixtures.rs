//! The entries that local development starts with.

use vstd::prelude::*;

use crate::jwt::{cache_key, first_fixture, get_jwt_fixtures, second_fixture};
use crate::pool::CacheEntry;

verus! {

/// The numeral of a digit.
pub open spec fn digit_text(digit: nat) -> Seq<char> {
    if digit == 0 {
        "0"@
    } else if digit == 1 {
        "1"@
    } else if digit == 2 {
        "2"@
    } else if digit == 3 {
        "3"@
    } else if digit == 4 {
        "4"@
    } else if digit == 5 {
        "5"@
    } else if digit == 6 {
        "6"@
    } else if digit == 7 {
        "7"@
    } else if digit == 8 {
        "8"@
    } else {
        "9"@
    }
}

/// A number in decimal, without leading zeros.
pub open spec fn decimal_text(n: nat) -> Seq<char>
    decreases n,
{
    if n < 10 {
        digit_text(n)
    } else {
        decimal_text(n / 10) + digit_text(n % 10)
    }
}

fn digit(d: u64) -> (text: &'static str)
    requires
        d < 10,
    ensures
        text@ == digit_text(d as nat),
{
    if d == 0 {
        "0"
    } else if d == 1 {
        "1"
    } else if d == 2 {
        "2"
    } else if d == 3 {
        "3"
    } else if d == 4 {
        "4"
    } else if d == 5 {
        "5"
    } else if d == 6 {
        "6"
    } else if d == 7 {
        "7"
    } else if d == 8 {
        "8"
    } else {
        "9"
    }
}

/// Writes a number in decimal.
pub fn decimal(n: u64) -> (text: String)
    ensures
        text@ == decimal_text(n as nat),
    decreases n,
{
    if n < 10 {
        String::from_str(digit(n))
    } else {
        let mut text = decimal(n / 10);
        text.append(digit(n % 10));
        text
    }
}

/// The entries that are written at startup: one for each fixture key, with
/// the time of loading as its value and no expiry.
pub fn fixture_entries(epoch_seconds: u64) -> (entries: Vec<CacheEntry>)
    ensures
        entries.len() == 2,
        entries[0].key@ == cache_key(first_fixture()),
        entries[1].key@ == cache_key(second_fixture()),
        forall|i: int|
            0 <= i < entries.len() ==> (#[trigger] entries[i]).value@ == decimal_text(
                epoch_seconds as nat,
            ) && entries[i].ttl_seconds == 0,
{
    let keys = get_jwt_fixtures();
    let value = decimal(epoch_seconds);
    let mut entries: Vec<CacheEntry> = Vec::new();
    let mut i: usize = 0;
    while i < keys.len()
        invariant
            i <= keys.len(),
            entries.len() == i,
            value@ == decimal_text(epoch_seconds as nat),
            forall|j: int|
                0 <= j < i ==> (#[trigger] entries[j]).key@ == keys[j]@ && entries[j].value@
                    == value@ && entries[j].ttl_seconds == 0,
        decreases keys.len() - i,
    {
        entries.push(CacheEntry { key: keys[i].clone(), value: value.clone(), ttl_seconds: 0 });
        i += 1;
    }
    entries
}

/// The digit that a numeral character stands for.
pub open spec fn digit_value(c: char) -> nat {
    if c == '1' {
        1
    } else if c == '2' {
        2
    } else if c == '3' {
        3
    } else if c == '4' {
        4
    } else if c == '5' {
        5
    } else if c == '6' {
        6
    } else if c == '7' {
        7
    } else if c == '8' {
        8
    } else if c == '9' {
        9
    } else {
        0
    }
}

/// The number that a run of numeral characters stands for, read in base ten.
pub open spec fn numeral_value(text: Seq<char>) -> nat
    decreases text.len(),
{
    if text.len() == 0 {
        0
    } else {
        numeral_value(text.drop_last()) * 10 + digit_value(text.last())
    }
}

/// The numeral of a digit is the one character that stands for it.
proof fn digit_text_is_one_numeral(d: nat)
    requires
        d < 10,
    ensures
        digit_text(d).len() == 1,
        digit_value(digit_text(d)[0]) == d,
        d != 0 ==> digit_text(d)[0] != '0',
{
    reveal_strlit("0");
    reveal_strlit("1");
    reveal_strlit("2");
    reveal_strlit("3");
    reveal_strlit("4");
    reveal_strlit("5");
    reveal_strlit("6");
    reveal_strlit("7");
    reveal_strlit("8");
    reveal_strlit("9");
}

/// What `decimal` writes reads back as the number it was written for, and it
/// begins with a zero only where the number is zero.
pub proof fn decimal_reads_back(n: nat)
    ensures
        decimal_text(n).len() >= 1,
        numeral_value(decimal_text(n)) == n,
        n != 0 ==> decimal_text(n)[0] != '0',
    decreases n,
{
    if n < 10 {
        digit_text_is_one_numeral(n);
        let text = decimal_text(n);
        assert(text.drop_last().len() == 0);
        assert(numeral_value(text.drop_last()) == 0);
    } else {
        decimal_reads_back(n / 10);
        digit_text_is_one_numeral(n % 10);
        let head = decimal_text(n / 10);
        let last = digit_text(n % 10);
        let text = head + last;
        assert(text.drop_last() =~= head);
        assert(text.last() == last[0]);
        assert(text[0] == head[0]);
    }
}

} // verus!
