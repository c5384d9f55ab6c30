//! Numbers written in digits: reading and writing them in base ten and
//! sixteen.

use vstd::arithmetic::div_mod::{lemma_div_decreases, lemma_fundamental_div_mod};
use crate::text::{lemma_split_append, lemma_split_unbroken, split, split_at, views};
use vstd::prelude::*;

verus! {

/// The number that the character stands for as a digit, in any base up to
/// sixteen; letters count in either case.
pub open spec fn digit_value(c: char) -> Option<nat> {
    if '0' <= c <= '9' {
        Some((c as u32 - '0' as u32) as nat)
    } else if 'a' <= c <= 'f' {
        Some((c as u32 - 'a' as u32 + 10) as nat)
    } else if 'A' <= c <= 'F' {
        Some((c as u32 - 'A' as u32 + 10) as nat)
    } else {
        None
    }
}

/// Whether the character is a digit of the base `radix`.
pub open spec fn is_digit(c: char, radix: nat) -> bool {
    match digit_value(c) {
        Some(value) => value < radix,
        None => false,
    }
}

/// Whether every character is a digit of the base `radix`.
pub open spec fn all_digits(s: Seq<char>, radix: nat) -> bool {
    forall|i: int| 0 <= i < s.len() ==> is_digit(#[trigger] s[i], radix)
}

/// The number that the digits `s` write in the base `radix`.
pub open spec fn value_of(s: Seq<char>, radix: nat) -> nat
    decreases s.len(),
{
    if s.len() == 0 {
        0
    } else {
        value_of(s.drop_last(), radix) * radix + digit_value(s.last()).unwrap_or(0)
    }
}

/// The digit that stands for `value`, a number below sixteen; letters are in
/// lower case.
pub open spec fn digit_char(value: nat) -> char {
    if value < 10 {
        ('0' as u8 + value) as u8 as char
    } else {
        ('a' as u8 + value - 10) as u8 as char
    }
}

/// The digits of `n` in the base `radix`, without leading zeros.
pub open spec fn digits_of(n: nat, radix: nat) -> Seq<char>
    decreases n,
    when radix >= 2
    via digits_of_terminates
{
    if n < radix {
        seq![digit_char(n)]
    } else {
        digits_of(n / radix, radix).push(digit_char(n % radix))
    }
}

#[via_fn]
proof fn digits_of_terminates(n: nat, radix: nat) {
    if n >= radix {
        lemma_div_decreases(n as int, radix as int);
    }
}

/// What reading a number came to.
#[derive(Clone, Copy, Debug, PartialEq, Eq, Structural)]
pub enum Reading {
    /// The text is empty or holds something other than digits.
    Malformed,
    /// The digits write a number above the largest one allowed.
    TooLarge,
    /// The digits write this number.
    Number(u32),
}

/// What reading the text `s` as a number of the base `radix`, at most `max`,
/// comes to.
pub open spec fn reading_of(s: Seq<char>, radix: nat, max: nat) -> Reading {
    if s.len() == 0 || !all_digits(s, radix) {
        Reading::Malformed
    } else if value_of(s, radix) > max {
        Reading::TooLarge
    } else {
        Reading::Number(value_of(s, radix) as u32)
    }
}

/// Appending a digit never makes the number smaller.
pub proof fn lemma_value_grows(s: Seq<char>, radix: nat)
    requires
        s.len() > 0,
        radix >= 1,
    ensures
        value_of(s, radix) >= value_of(s.drop_last(), radix),
{
    let shorter = value_of(s.drop_last(), radix);
    assert(shorter * radix >= shorter) by (nonlinear_arith)
        requires
            radix >= 1,
            shorter >= 0,
    ;
}

/// The digits of a number are digits of the base, at least one, and write the
/// number.
pub proof fn lemma_digits_round_trip(n: nat, radix: nat)
    requires
        2 <= radix <= 16,
    ensures
        digits_of(n, radix).len() > 0,
        all_digits(digits_of(n, radix), radix),
        value_of(digits_of(n, radix), radix) == n,
        n > 0 ==> digits_of(n, radix)[0] != '0',
    decreases n,
{
    if n < radix {
        let s = digits_of(n, radix);
        assert(s.drop_last() =~= Seq::<char>::empty());
        assert(value_of(s.drop_last(), radix) == 0);
        assert(0 * radix == 0) by (nonlinear_arith);
    } else {
        let head = digits_of(n / radix, radix);
        let s = digits_of(n, radix);
        lemma_div_decreases(n as int, radix as int);
        lemma_digits_round_trip(n / radix, radix);
        assert(s.drop_last() =~= head);
        assert(n % radix < radix) by (nonlinear_arith)
            requires
                radix >= 2,
        ;
        lemma_fundamental_div_mod(n as int, radix as int);
        assert((n / radix) * radix == radix * (n / radix)) by (nonlinear_arith);
        assert(n / radix > 0) by (nonlinear_arith)
            requires
                n >= radix,
                radix >= 2,
        ;
        assert(s[0] == head[0]);
    }
}

/// How many digits a number below a power of the base has at most.
pub proof fn lemma_digits_len(n: nat, radix: nat, len: nat, bound: nat)
    requires
        2 <= radix <= 16,
        len >= 1,
        n < bound,
        bound == vstd::arithmetic::power::pow(radix as int, len),
    ensures
        digits_of(n, radix).len() <= len,
    decreases len,
{
    vstd::arithmetic::power::lemma_pow1(radix as int);
    if n < radix {
    } else {
        if len == 1 {
            assert(false);
        } else {
            let smaller = vstd::arithmetic::power::pow(radix as int, (len - 1) as nat);
            vstd::arithmetic::power::lemma_pow_positive(radix as int, (len - 1) as nat);
            assert(bound == radix * smaller) by {
                reveal(vstd::arithmetic::power::pow);
            }
            assert(n / radix < smaller) by (nonlinear_arith)
                requires
                    n < radix * smaller,
                    radix >= 2,
                    smaller > 0,
            ;
            lemma_digits_len(n / radix, radix, (len - 1) as nat, smaller as nat);
        }
    }
}

/// The number that `c` stands for as a digit of the base `radix`, if it is
/// one.
pub fn digit_of(c: char, radix: u32) -> (value: Option<u32>)
    requires
        2 <= radix <= 16,
    ensures
        is_digit(c, radix as nat) ==> value == Some(digit_value(c)->0 as u32),
        !is_digit(c, radix as nat) ==> value is None,
{
    let n: u32 = c as u32;
    let value: u32 = if '0' <= c && c <= '9' {
        n - '0' as u32
    } else if 'a' <= c && c <= 'f' {
        n - 'a' as u32 + 10
    } else if 'A' <= c && c <= 'F' {
        n - 'A' as u32 + 10
    } else {
        return None;
    };
    if value < radix {
        Some(value)
    } else {
        None
    }
}

/// Reads `s` as a number of the base `radix` that is at most `max`.
pub fn read_number(s: &Vec<char>, radix: u32, max: u32) -> (reading: Reading)
    requires
        2 <= radix <= 16,
    ensures
        reading == reading_of(s@, radix as nat, max as nat),
{
    if s.len() == 0 {
        return Reading::Malformed;
    }
    let mut value: u64 = 0;
    let mut too_large = false;
    let mut i: usize = 0;
    while i < s.len()
        invariant
            2 <= radix <= 16,
            i <= s.len(),
            all_digits(s@.subrange(0, i as int), radix as nat),
            !too_large ==> value == value_of(s@.subrange(0, i as int), radix as nat) && value
                <= max,
            too_large ==> value_of(s@.subrange(0, i as int), radix as nat) > max,
        decreases s.len() - i,
    {
        let ghost before = s@.subrange(0, i as int);
        let ghost after = s@.subrange(0, i + 1);
        assert(after.drop_last() =~= before);
        match digit_of(s[i], radix) {
            None => {
                assert(!is_digit(s@[i as int], radix as nat));
                return Reading::Malformed;
            },
            Some(digit) => {
                assert(all_digits(after, radix as nat)) by {
                    assert forall|k: int| 0 <= k < after.len() implies is_digit(
                        #[trigger] after[k],
                        radix as nat,
                    ) by {
                        if k < i {
                            assert(after[k] == before[k]);
                        }
                    }
                }
                if too_large {
                    proof {
                        lemma_value_grows(after, radix as nat);
                    }
                } else {
                    assert(value * radix + digit <= 0xffff_ffff * 16 + 16) by (nonlinear_arith)
                        requires
                            value <= 0xffff_ffff,
                            radix <= 16,
                            digit < 16,
                    ;
                    let next: u64 = value * (radix as u64) + digit as u64;
                    if next > max as u64 {
                        too_large = true;
                    } else {
                        value = next;
                    }
                }
            },
        }
        i += 1;
    }
    assert(s@.subrange(0, s.len() as int) =~= s@);
    if too_large {
        Reading::TooLarge
    } else {
        Reading::Number(value as u32)
    }
}

/// Computes [`digit_char`].
pub fn digit_to_char(value: u32) -> (c: char)
    requires
        value < 16,
    ensures
        c == digit_char(value as nat),
{
    if value < 10 {
        ('0' as u8 + value as u8) as char
    } else {
        ('a' as u8 + (value as u8 - 10)) as char
    }
}

/// Writes `n` in the base `radix`, without leading zeros.
pub fn write_number(n: u32, radix: u32) -> (digits: Vec<char>)
    requires
        2 <= radix <= 16,
    ensures
        digits@ == digits_of(n as nat, radix as nat),
    decreases n,
{
    if n < radix {
        let mut digits: Vec<char> = Vec::new();
        digits.push(digit_to_char(n));
        assert(digits@ =~= seq![digit_char(n as nat)]);
        digits
    } else {
        proof {
            lemma_div_decreases(n as int, radix as int);
        }
        let mut digits = write_number(n / radix, radix);
        digits.push(digit_to_char(n % radix));
        digits
    }
}

/// Largest whole part of a number with three decimal places that fits.
pub const MAX_WHOLE: u32 = 4_294_967;

/// The thousandths that one to three decimal places write.
pub open spec fn fraction_of(places: Seq<char>) -> nat {
    if places.len() == 1 {
        value_of(places, 10) * 100
    } else if places.len() == 2 {
        value_of(places, 10) * 10
    } else {
        value_of(places, 10)
    }
}

/// What reading `text` as a number with up to three decimal places comes to,
/// counted in thousandths: digits, and after an optional dot one to three
/// more digits.
pub open spec fn thousandths_of(text: Seq<char>) -> Reading {
    let pieces = split(text, '.');
    if pieces.len() == 1 {
        match reading_of(pieces[0], 10, MAX_WHOLE as nat) {
            Reading::Number(whole) => Reading::Number((whole * 1000) as u32),
            other => other,
        }
    } else if pieces.len() == 2 && 1 <= pieces[1].len() <= 3 && all_digits(pieces[1], 10) {
        match reading_of(pieces[0], 10, MAX_WHOLE as nat) {
            Reading::Number(whole) => if whole * 1000 + fraction_of(pieces[1]) > u32::MAX {
                Reading::TooLarge
            } else {
                Reading::Number((whole * 1000 + fraction_of(pieces[1])) as u32)
            },
            other => other,
        }
    } else {
        Reading::Malformed
    }
}

/// The three decimal places of a number of thousandths below one thousand.
pub open spec fn places_of(thousandths: nat) -> Seq<char> {
    seq![
        digit_char(thousandths / 100),
        digit_char(thousandths / 10 % 10),
        digit_char(thousandths % 10),
    ]
}

/// The text of a number of thousandths: the whole part, a dot and three
/// decimal places.
pub open spec fn thousandths_text(thousandths: nat) -> Seq<char> {
    digits_of(thousandths / 1000, 10).push('.') + places_of(thousandths % 1000)
}

/// Reading the text of a number of thousandths gives the number.
pub proof fn lemma_thousandths_round_trip(thousandths: u32)
    ensures
        thousandths_of(thousandths_text(thousandths as nat)) == Reading::Number(thousandths),
{
    let n = thousandths as nat;
    let whole = digits_of(n / 1000, 10);
    let places = places_of(n % 1000);
    lemma_digits_round_trip(n / 1000, 10);
    assert(all_digits(places, 10) && !places.contains('.')) by {
        assert forall|i: int| 0 <= i < places.len() implies is_digit(#[trigger] places[i], 10)
            && places[i] != '.' by {}
        if places.contains('.') {
            let k = choose|k: int| 0 <= k < places.len() && places[k] == '.';
            assert(is_digit(places[k], 10));
        }
    }
    assert(!whole.contains('.')) by {
        if whole.contains('.') {
            let k = choose|k: int| 0 <= k < whole.len() && whole[k] == '.';
            assert(is_digit(whole[k], 10));
        }
    }
    lemma_split_unbroken(whole, '.');
    lemma_split_append(whole, places, '.');
    assert(split(thousandths_text(n), '.') =~= seq![whole, places]);
    assert(value_of(places, 10) == n % 1000) by {
        let two = places.drop_last();
        let one = two.drop_last();
        assert(one.drop_last() =~= Seq::<char>::empty());
        assert(value_of(one.drop_last(), 10) == 0);
        assert(value_of(one, 10) == (n % 1000) / 100);
        assert(value_of(two, 10) == (n % 1000) / 100 * 10 + (n % 1000) / 10 % 10);
    }
}

/// Reads `text` as [`thousandths_of`] tells.
pub fn read_thousandths(text: &Vec<char>) -> (reading: Reading)
    ensures
        reading == thousandths_of(text@),
{
    let pieces = split_at(text, '.');
    assert(views(pieces@)[0] == pieces@[0]@);
    if pieces.len() == 1 {
        match read_number(&pieces[0], 10, MAX_WHOLE) {
            Reading::Number(whole) => Reading::Number(whole * 1000),
            other => other,
        }
    } else if pieces.len() == 2 {
        assert(views(pieces@)[1] == pieces@[1]@);
        let places = &pieces[1];
        if places.len() < 1 || places.len() > 3 {
            return Reading::Malformed;
        }
        let fraction: u32 = match read_number(places, 10, 999) {
            Reading::Number(value) => value,
            Reading::TooLarge => {
                proof {
                    assert(vstd::arithmetic::power::pow(10, 3) == 1000) by {
                        reveal_with_fuel(vstd::arithmetic::power::pow, 4);
                    }
                    lemma_value_below(places@, 10, 3, 1000);
                }
                return Reading::Malformed;
            },
            Reading::Malformed => {
                return Reading::Malformed;
            },
        };
        let scaled: u32 = if places.len() == 1 {
            fraction * 100
        } else if places.len() == 2 {
            fraction * 10
        } else {
            fraction
        };
        match read_number(&pieces[0], 10, MAX_WHOLE) {
            Reading::Number(whole) => {
                let total: u64 = whole as u64 * 1000 + scaled as u64;
                if total > u32::MAX as u64 {
                    Reading::TooLarge
                } else {
                    Reading::Number(total as u32)
                }
            },
            other => other,
        }
    } else {
        Reading::Malformed
    }
}

/// As many digits write a number below that power of the base.
pub proof fn lemma_value_below(s: Seq<char>, radix: nat, len: nat, bound: nat)
    requires
        2 <= radix <= 16,
        all_digits(s, radix),
        s.len() <= len,
        bound == vstd::arithmetic::power::pow(radix as int, len),
    ensures
        value_of(s, radix) < bound,
    decreases s.len(),
{
    reveal(vstd::arithmetic::power::pow);
    vstd::arithmetic::power::lemma_pow_positive(radix as int, len);
    if s.len() > 0 {
        let smaller = vstd::arithmetic::power::pow(radix as int, (len - 1) as nat);
        vstd::arithmetic::power::lemma_pow_positive(radix as int, (len - 1) as nat);
        assert(all_digits(s.drop_last(), radix)) by {
            assert forall|i: int| 0 <= i < s.drop_last().len() implies is_digit(
                #[trigger] s.drop_last()[i],
                radix,
            ) by {
                assert(s.drop_last()[i] == s[i]);
            }
        }
        lemma_value_below(s.drop_last(), radix, (len - 1) as nat, smaller as nat);
        let head = value_of(s.drop_last(), radix);
        let digit = digit_value(s.last())->0;
        assert(is_digit(s[s.len() - 1], radix));
        assert(head * radix + digit < radix * smaller) by (nonlinear_arith)
            requires
                head < smaller,
                digit < radix,
        ;
    }
}

/// Writes the text of a number of thousandths.
pub fn write_thousandths(thousandths: u32) -> (text: Vec<char>)
    ensures
        text@ == thousandths_text(thousandths as nat),
{
    let mut text = write_number(thousandths / 1000, 10);
    let rest: u32 = thousandths % 1000;
    text.push('.');
    text.push(digit_to_char(rest / 100));
    text.push(digit_to_char(rest / 10 % 10));
    text.push(digit_to_char(rest % 10));
    assert(text@ =~= thousandths_text(thousandths as nat));
    text
}

} // verus!
