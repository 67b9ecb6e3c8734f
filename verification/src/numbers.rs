//! Whole numbers as decimal text.

use crate::text::chars_of;
use crate::text::join2;
use vstd::prelude::*;

verus! {

/// The digit for `d`, which is less than ten.
pub open spec fn digit(d: nat) -> char {
    if d == 0 {
        '0'
    } else if d == 1 {
        '1'
    } else if d == 2 {
        '2'
    } else if d == 3 {
        '3'
    } else if d == 4 {
        '4'
    } else if d == 5 {
        '5'
    } else if d == 6 {
        '6'
    } else if d == 7 {
        '7'
    } else if d == 8 {
        '8'
    } else {
        '9'
    }
}

/// Whether `c` is one of the ten ASCII digits.
pub open spec fn is_digit(c: char) -> bool {
    '0' <= c <= '9'
}

/// What the digit `c` counts for.
pub open spec fn digit_value(c: char) -> nat {
    (c as u32 - '0' as u32) as nat
}

/// `n` in decimal digits, without leading zeros.
pub open spec fn decimal(n: nat) -> Seq<char>
    decreases n,
{
    if n < 10 {
        seq![digit(n)]
    } else {
        decimal(n / 10).push(digit(n % 10))
    }
}

/// `n` in decimal digits, with a minus sign in front where it is negative.
pub open spec fn signed_decimal(n: int) -> Seq<char> {
    if n < 0 {
        seq!['-'] + decimal((-n) as nat)
    } else {
        decimal(n as nat)
    }
}

/// What a run of digits counts for.
pub open spec fn digits_value(s: Seq<char>) -> nat
    decreases s.len(),
{
    if s.len() == 0 {
        0
    } else {
        digits_value(s.drop_last()) * 10 + digit_value(s.last())
    }
}

/// Whether `s` holds digits only.
pub open spec fn all_digits(s: Seq<char>) -> bool {
    forall|i: int| 0 <= i < s.len() ==> is_digit(#[trigger] s[i])
}

/// `s` without one plus sign in front.
pub open spec fn without_plus(s: Seq<char>) -> Seq<char> {
    if s.len() > 0 && s[0] == '+' {
        s.skip(1)
    } else {
        s
    }
}

/// The number that `s` spells: digits, at least one, behind an optional plus sign.
/// A number over `max` is none.
pub open spec fn parsed(s: Seq<char>, max: nat) -> Option<nat> {
    let body = without_plus(s);
    if body.len() > 0 && all_digits(body) && digits_value(body) <= max {
        Some(digits_value(body))
    } else {
        None
    }
}

/// The number that `s` spells, or 0 where it spells none up to `max`.
pub open spec fn parsed_or_zero(s: Option<Seq<char>>, max: nat) -> nat {
    match s {
        Some(text) => match parsed(text, max) {
            Some(n) => n,
            None => 0,
        },
        None => 0,
    }
}

proof fn lemma_digits_value_grows(s: Seq<char>, n: int)
    requires
        0 <= n <= s.len(),
    ensures
        digits_value(s.take(n)) <= digits_value(s),
    decreases s.len(),
{
    if n == s.len() {
        assert(s.take(n) == s);
    } else {
        lemma_digits_value_grows(s.drop_last(), n);
        assert(s.drop_last().take(n) == s.take(n));
    }
}

/// A number has digits, only digits, and they count for the number.
pub proof fn lemma_decimal_reads_back(n: nat)
    ensures
        decimal(n).len() > 0,
        all_digits(decimal(n)),
        digits_value(decimal(n)) == n,
    decreases n,
{
    reveal_with_fuel(digits_value, 2);
    if n < 10 {
        let s = decimal(n);
        assert(s.drop_last() == Seq::<char>::empty());
        assert(s.last() == digit(n));
    } else {
        lemma_decimal_reads_back(n / 10);
        let s = decimal(n);
        assert(s.drop_last() == decimal(n / 10));
        assert(s.last() == digit(n % 10));
    }
}

/// A number read back from its decimal digits is that number.
pub proof fn law_decimal_parses_back(n: nat, max: nat)
    requires
        n <= max,
    ensures
        parsed(decimal(n), max) == Some(n),
{
    lemma_decimal_reads_back(n);
    let s = decimal(n);
    assert(is_digit(s[0]));
    assert(without_plus(s) == s);
}

/// Two numbers with the same decimal digits are one number.
pub proof fn law_decimal_is_injective(m: nat, n: nat)
    requires
        decimal(m) == decimal(n),
    ensures
        m == n,
{
    lemma_decimal_reads_back(m);
    lemma_decimal_reads_back(n);
}

/// A number below ten is one digit, and the digits of a greater one are those of its tens and
/// then its last digit.
pub proof fn law_decimal_is_built_digit_by_digit(n: nat, d: nat)
    requires
        d < 10,
    ensures
        decimal(d).len() == 1 && decimal(d)[0] as u32 == 48 + d,
        n > 0 ==> decimal(10 * n + d) == decimal(n) + decimal(d),
{
    if n > 0 {
        assert((10 * n + d) / 10 == n);
        assert((10 * n + d) % 10 == d);
        assert(decimal(n) + decimal(d) == decimal(n).push(digit(d)));
    }
}

/// A number below zero has a minus sign in front of the digits of its opposite, another one
/// its digits alone.
pub proof fn law_signs(n: nat)
    ensures
        signed_decimal(n as int) == decimal(n),
        n > 0 ==> signed_decimal(-n) == seq!['-'] + decimal(n),
{
}

/// Whether `s` holds zeros only.
pub open spec fn is_zeros(s: Seq<char>) -> bool {
    forall|i: int| 0 <= i < s.len() ==> #[trigger] s[i] == '0'
}

proof fn lemma_zeros_count_for_nothing(zeros: Seq<char>, s: Seq<char>)
    requires
        is_zeros(zeros),
    ensures
        digits_value(zeros + s) == digits_value(s),
    decreases s.len(), zeros.len(),
{
    if s.len() > 0 {
        lemma_zeros_count_for_nothing(zeros, s.drop_last());
        assert((zeros + s).drop_last() == zeros + s.drop_last());
    } else if zeros.len() > 0 {
        assert(zeros + s == zeros);
        let fewer = zeros.drop_last();
        assert forall|i: int| 0 <= i < fewer.len() implies #[trigger] fewer[i] == '0' by {
            assert(zeros[i] == '0');
        }
        lemma_zeros_count_for_nothing(fewer, s);
        assert(fewer + s == fewer);
        assert(zeros.last() == zeros[zeros.len() - 1]);
    } else {
        assert(zeros + s == s);
    }
}

/// The digits of a number spell it, also with zeros and then a plus sign in front, unless it
/// is too large.
pub proof fn law_digits_spell_their_number(zeros: Seq<char>, n: nat, max: nat)
    requires
        is_zeros(zeros),
    ensures
        parsed(zeros + decimal(n), max) == if n <= max {
            Some(n)
        } else {
            None::<nat>
        },
        parsed(seq!['+'] + zeros + decimal(n), max) == parsed(zeros + decimal(n), max),
{
    lemma_decimal_reads_back(n);
    lemma_zeros_count_for_nothing(zeros, decimal(n));
    let s = zeros + decimal(n);
    assert forall|i: int| 0 <= i < s.len() implies is_digit(#[trigger] s[i]) by {
        if i < zeros.len() {
            assert(zeros[i] == '0');
        } else {
            assert(is_digit(decimal(n)[i - zeros.len()]));
        }
    }
    assert(is_digit(s[0]));
    assert(without_plus(s) == s);
    assert(without_plus(seq!['+'] + zeros + decimal(n)) == s);
}

proof fn lemma_digits_are_a_number(s: Seq<char>) -> (zeros: Seq<char>)
    requires
        s.len() > 0,
        all_digits(s),
    ensures
        is_zeros(zeros),
        s == zeros + decimal(digits_value(s)),
    decreases s.len(),
{
    let d = digit_value(s.last());
    assert(is_digit(s[s.len() - 1]));
    assert(digit(d) == s.last());
    let front = s.drop_last();
    if front.len() == 0 {
        let zeros = Seq::<char>::empty();
        assert(digits_value(front) == 0);
        assert(s == zeros + decimal(d));
        zeros
    } else {
        assert forall|i: int| 0 <= i < front.len() implies is_digit(#[trigger] front[i]) by {
            assert(is_digit(s[i]));
        }
        let before = lemma_digits_are_a_number(front);
        let v = digits_value(front);
        if v == 0 {
            let zeros = before.push('0');
            assert(front == before.push('0'));
            assert(decimal(d) == seq![s.last()]);
            assert(s == front.push(s.last()));
            assert(s == zeros + decimal(d));
            zeros
        } else {
            law_decimal_is_built_digit_by_digit(v, d);
            assert(decimal(d) == seq![s.last()]);
            assert(s == front.push(s.last()));
            assert(s == before + decimal(10 * v + d));
            before
        }
    }
}

/// Only the digits of a number, with zeros and a plus sign in front or without, spell it.
pub proof fn law_only_digits_spell_a_number(s: Seq<char>, max: nat, n: nat)
    requires
        parsed(s, max) == Some(n),
    ensures
        n <= max,
        exists|zeros: Seq<char>| #[trigger]
            is_zeros(zeros) && (s == zeros + decimal(n) || s == seq!['+'] + zeros + decimal(n)),
{
    let body = without_plus(s);
    let zeros = lemma_digits_are_a_number(body);
    if s[0] == '+' {
        assert(s == seq!['+'] + body);
        assert(s == seq!['+'] + zeros + decimal(n));
    }
}

/// What spells no number counts for zero, and so does nothing.
pub proof fn law_no_number_counts_for_zero(s: Seq<char>, max: nat)
    ensures
        parsed_or_zero(None, max) == 0,
        parsed(s, max) is None ==> parsed_or_zero(Some(s), max) == 0,
        forall|n: nat|
            parsed(s, max) == Some(n) ==> #[trigger] parsed_or_zero(Some(s), max) == n,
{
}

fn digit_of(d: u64) -> (c: char)
    requires
        d < 10,
    ensures
        c == digit(d as nat),
{
    if d == 0 {
        '0'
    } else if d == 1 {
        '1'
    } else if d == 2 {
        '2'
    } else if d == 3 {
        '3'
    } else if d == 4 {
        '4'
    } else if d == 5 {
        '5'
    } else if d == 6 {
        '6'
    } else if d == 7 {
        '7'
    } else if d == 8 {
        '8'
    } else {
        '9'
    }
}

/// `n` in decimal digits.
pub fn to_decimal(n: u64) -> (text: String)
    ensures
        text@ == decimal(n as nat),
    decreases n,
{
    if n < 10 {
        let mut text = String::new();
        text.push(digit_of(n));
        assert(text@ == decimal(n as nat));
        text
    } else {
        let mut text = to_decimal(n / 10);
        text.push(digit_of(n % 10));
        text
    }
}

/// `n` in decimal digits, with its sign where it is negative.
pub fn to_signed_decimal(n: i64) -> (text: String)
    ensures
        text@ == signed_decimal(n as int),
{
    if n >= 0 {
        to_decimal(n as u64)
    } else {
        let size: u64 = (-(n as i128)) as u64;
        proof {
            reveal_strlit("-");
            assert("-"@ == seq!['-']);
        }
        join2("-", to_decimal(size).as_str())
    }
}

/// The number up to `max` that `s` spells.
pub fn parse_up_to(s: &str, max: u64) -> (n: Option<u64>)
    ensures
        match n {
            Some(n) => parsed(s@, max as nat) == Some(n as nat),
            None => parsed(s@, max as nat) is None,
        },
{
    let chars = chars_of(s);
    let start: usize = if chars.len() > 0 && chars[0] == '+' {
        1
    } else {
        0
    };
    let ghost body = without_plus(s@);
    assert(body == s@.skip(start as int));
    if start == chars.len() {
        return None;
    }
    let mut i: usize = start;
    let mut total: u64 = 0;
    assert(body.take(0) == Seq::<char>::empty());
    while i < chars.len()
        invariant
            start <= i <= chars.len(),
            chars@ == s@,
            body == without_plus(s@),
            body == s@.skip(start as int),
            total <= max,
            total == digits_value(body.take(i - start)),
            all_digits(body.take(i - start)),
        decreases chars.len() - i,
    {
        let c = chars[i];
        assert(body[i - start] == c);
        if c < '0' || c > '9' {
            assert(!is_digit(body[i - start]));
            return None;
        }
        let d: u32 = c as u32 - '0' as u32;
        let next: u128 = (total as u128) * 10 + (d as u128);
        assert(body.take(i - start + 1).drop_last() == body.take(i - start));
        assert(body.take(i - start + 1).last() == c);
        assert(next == digits_value(body.take(i - start + 1)));
        if next > max as u128 {
            proof {
                lemma_digits_value_grows(body, i - start + 1);
            }
            return None;
        }
        total = next as u64;
        assert forall|j: int| 0 <= j < i - start + 1 implies is_digit(
            #[trigger] body.take(i - start + 1)[j],
        ) by {
            if j < i - start {
                assert(body.take(i - start)[j] == body[j]);
            }
        }
        i = i + 1;
    }
    assert(body.take(body.len() as int) == body);
    Some(total)
}

/// The `u16` that `s` spells.
pub fn parse_u16(s: &str) -> (n: Option<u16>)
    ensures
        match n {
            Some(n) => parsed(s@, u16::MAX as nat) == Some(n as nat),
            None => parsed(s@, u16::MAX as nat) is None,
        },
{
    match parse_up_to(s, u16::MAX as u64) {
        Some(n) => Some(n as u16),
        None => None,
    }
}

/// The `usize` that `s` spells.
pub fn parse_usize(s: &str) -> (n: Option<usize>)
    ensures
        match n {
            Some(n) => parsed(s@, usize::MAX as nat) == Some(n as nat),
            None => parsed(s@, usize::MAX as nat) is None,
        },
{
    match parse_up_to(s, usize::MAX as u64) {
        Some(n) => Some(n as usize),
        None => None,
    }
}

/// The `usize` that `s` spells, or 0.
pub fn parse_usize_or_zero(s: Option<String>) -> (n: usize)
    ensures
        n == parsed_or_zero(s.deep_view(), usize::MAX as nat),
{
    match s {
        Some(text) => match parse_usize(text.as_str()) {
            Some(n) => n,
            None => 0,
        },
        None => 0,
    }
}

/// What up to four digits count for.
pub proof fn lemma_few_digits(s: Seq<char>)
    requires
        0 < s.len() <= 4,
        all_digits(s),
    ensures
        s.len() == 1 ==> digits_value(s) == digit_value(s[0]),
        s.len() == 2 ==> digits_value(s) == digit_value(s[0]) * 10 + digit_value(s[1]),
        s.len() == 3 ==> digits_value(s) == digit_value(s[0]) * 100 + digit_value(s[1]) * 10
            + digit_value(s[2]),
        s.len() == 4 ==> digits_value(s) == digit_value(s[0]) * 1000 + digit_value(s[1]) * 100
            + digit_value(s[2]) * 10 + digit_value(s[3]),
{
    reveal_with_fuel(digits_value, 5);
}

/// A text of up to four digits spells what the digits count for, where that is not too large.
pub proof fn lemma_few_digits_spell(s: Seq<char>, n: nat, max: nat)
    requires
        0 < s.len() <= 4,
        all_digits(s),
        digits_value(s) == n,
        n <= max,
    ensures
        parsed(s, max) == Some(n),
{
    assert(is_digit(s[0]));
    assert(without_plus(s) == s);
}

/// What is computed is what is said here of numbers.
pub proof fn law_numbers_are_computed(
    n: u64,
    written: String,
    i: i64,
    signed: String,
    s: &str,
    short: Option<u16>,
    size: Option<usize>,
    text: Option<String>,
    or_zero: usize,
)
    requires
        call_ensures(to_decimal, (n,), written),
        call_ensures(to_signed_decimal, (i,), signed),
        call_ensures(parse_u16, (s,), short),
        call_ensures(parse_usize, (s,), size),
        call_ensures(parse_usize_or_zero, (text,), or_zero),
    ensures
        written@ == decimal(n as nat),
        signed@ == signed_decimal(i as int),
        short is Some <==> parsed(s@, 65535) is Some,
        short matches Some(v) ==> parsed(s@, 65535) == Some(v as nat),
        size is Some <==> parsed(s@, usize::MAX as nat) is Some,
        size matches Some(v) ==> parsed(s@, usize::MAX as nat) == Some(v as nat),
        or_zero == parsed_or_zero(text.deep_view(), usize::MAX as nat),
{
}

} // verus!
