//! Decimal numbers in text: reading fixed-point values and writing them.

use vstd::prelude::*;
use vstd::string::StringExecFns;
use crate::text::{position_from, position_in, lemma_position_from_is_first};

verus! {

/// `c` is one of the ten decimal digits.
pub open spec fn is_digit(c: char) -> bool {
    '0' <= c && c <= '9'
}

/// The value of a decimal digit; zero for any other character.
pub open spec fn digit_of(c: char) -> nat {
    if is_digit(c) {
        (c as int - '0' as int) as nat
    } else {
        0
    }
}

/// Every character of `s` is a decimal digit.
pub open spec fn all_digits(s: Seq<char>) -> bool {
    forall|i: int| 0 <= i < s.len() ==> is_digit(#[trigger] s[i])
}

/// `s` is a non-empty run of decimal digits.
pub open spec fn is_number(s: Seq<char>) -> bool {
    s.len() > 0 && all_digits(s)
}

/// The number that the digits of `s` write, most significant digit first.
pub open spec fn digits_value(s: Seq<char>) -> nat
    decreases s.len(),
{
    if s.len() == 0 {
        0
    } else {
        digits_value(s.drop_last()) * 10 + digit_of(s.last())
    }
}

/// Ten to the power `k`.
pub open spec fn pow10(k: nat) -> nat
    decreases k,
{
    if k == 0 {
        1
    } else {
        10 * pow10((k - 1) as nat)
    }
}

/// The digits after a decimal point, read in units of `10^-k`: the first `k`
/// digits count, and digits that `s` lacks are zero.
pub open spec fn fraction_value(s: Seq<char>, k: nat) -> nat {
    if s.len() >= k {
        digits_value(s.take(k as int))
    } else {
        digits_value(s) * pow10((k - s.len()) as nat)
    }
}

/// The value of the decimal number `s` in units of `10^-k`, rounded towards
/// zero. A number is one or more digits, optionally followed by a point and
/// any count of digits; anything else has no value.
pub open spec fn fixed_point(s: Seq<char>, k: nat) -> Option<nat> {
    let dot = position_from(s, '.', 0);
    let whole = s.take(dot);
    if !is_number(whole) {
        None
    } else if dot == s.len() {
        Some(digits_value(whole) * pow10(k))
    } else if all_digits(s.skip(dot + 1)) {
        Some(digits_value(whole) * pow10(k) + fraction_value(s.skip(dot + 1), k))
    } else {
        None
    }
}

/// `fixed_point` as far as it fits in a `u64`.
pub open spec fn fixed_point_u64(s: Seq<char>, k: nat) -> Option<u64> {
    match fixed_point(s, k) {
        Some(v) => if v <= u64::MAX {
            Some(v as u64)
        } else {
            None
        },
        None => None,
    }
}

/// A prefix of a digit string writes no larger a number than the whole.
pub proof fn lemma_digits_value_grows(s: Seq<char>, k: int)
    requires
        0 <= k <= s.len(),
    ensures
        digits_value(s.take(k)) <= digits_value(s),
    decreases s.len(),
{
    if k == s.len() {
        assert(s.take(k) =~= s);
    } else {
        assert(s.drop_last().take(k) =~= s.take(k));
        lemma_digits_value_grows(s.drop_last(), k);
    }
}

/// Powers of ten grow with the exponent.
pub proof fn lemma_pow10_grows(a: nat, b: nat)
    requires
        a <= b,
    ensures
        0 < pow10(a) <= pow10(b),
    decreases b,
{
    if b == 0 {
    } else if a == b {
        lemma_pow10_grows((a - 1) as nat, (b - 1) as nat);
    } else {
        lemma_pow10_grows(a, (b - 1) as nat);
    }
}

/// Whether `c` is a decimal digit, and its value.
pub fn read_digit(c: char) -> (d: Option<u64>)
    ensures
        d is Some <==> is_digit(c),
        d is Some ==> d->Some_0 == digit_of(c) && d->Some_0 <= 9,
{
    let code: u32 = c as u32;
    if 48 <= code && code <= 57 {
        Some((code - 48) as u64)
    } else {
        None
    }
}

/// Reads the digits of `s` from `from` up to `to` as a number. There is no
/// result where that range is empty, holds anything but digits, or writes a
/// number above `u64::MAX`.
pub fn parse_number(s: &Vec<char>, from: usize, to: usize) -> (value: Option<u64>)
    requires
        from <= to <= s.len(),
    ensures
        value == (if is_number(s@.subrange(from as int, to as int)) && digits_value(
            s@.subrange(from as int, to as int),
        ) <= u64::MAX {
            Some(digits_value(s@.subrange(from as int, to as int)) as u64)
        } else {
            None
        }),
{
    let ghost run = s@.subrange(from as int, to as int);
    if from == to {
        return None;
    }
    let mut acc: u64 = 0;
    let mut i: usize = from;
    assert(run.take(0) =~= Seq::<char>::empty());
    while i < to
        invariant
            from <= i <= to <= s.len(),
            run == s@.subrange(from as int, to as int),
            all_digits(run.take(i - from)),
            acc == digits_value(run.take(i - from)),
        decreases to - i,
    {
        let ghost before = run.take(i - from);
        let ghost upto = run.take(i + 1 - from);
        proof {
            assert(upto.drop_last() =~= before);
            assert(upto.last() == s@[i as int]);
            assert(run[i - from] == s@[i as int]);
            lemma_digits_value_grows(run, i + 1 - from);
        }
        match read_digit(s[i]) {
            None => {
                return None;
            },
            Some(d) => {
                if acc > (u64::MAX - d) / 10 {
                    return None;
                }
                acc = acc * 10 + d;
                assert forall|j: int| 0 <= j < upto.len() implies is_digit(#[trigger] upto[j]) by {
                    if j < before.len() {
                        assert(upto[j] == before[j]);
                    }
                }
            },
        }
        i += 1;
    }
    assert(run.take(to - from) =~= run);
    Some(acc)
}

/// The largest power of ten that this module computes.
pub proof fn lemma_pow10_18()
    ensures
        pow10(18) == 1_000_000_000_000_000_000,
{
    reveal_with_fuel(pow10, 19);
}

/// Ten to the power `k`.
pub fn power_of_ten(k: u32) -> (p: u64)
    requires
        k <= 18,
    ensures
        p == pow10(k as nat),
{
    let mut p: u64 = 1;
    let mut i: u32 = 0;
    while i < k
        invariant
            i <= k <= 18,
            p == pow10(i as nat),
        decreases k - i,
    {
        proof {
            lemma_pow10_grows((i + 1) as nat, 18);
            lemma_pow10_18();
        }
        p = p * 10;
        i += 1;
    }
    p
}

/// Reads `s` as a decimal number in units of `10^-k`, rounded towards zero.
/// There is no result where `s` is no decimal number or its value is above
/// `u64::MAX`.
pub fn parse_fixed(s: &Vec<char>, k: u32) -> (value: Option<u64>)
    requires
        k <= 18,
    ensures
        value == fixed_point_u64(s@, k as nat),
{
    let dot: usize = position_in(s, '.', 0);
    proof {
        lemma_position_from_is_first(s@, '.', 0);
        assert(s@.subrange(0, dot as int) =~= s@.take(dot as int));
        lemma_pow10_grows(0, k as nat);
    }
    let scale: u64 = power_of_ten(k);
    let whole: u64 = match parse_number(s, 0, dot) {
        None => {
            assert(is_number(s@.take(dot as int)) ==> digits_value(s@.take(dot as int)) * pow10(
                k as nat,
            ) > u64::MAX) by (nonlinear_arith)
                requires
                    is_number(s@.take(dot as int)) ==> digits_value(s@.take(dot as int))
                        > u64::MAX,
                    pow10(k as nat) >= 1,
            ;
            return None;
        },
        Some(w) => w,
    };
    let mut acc: u64 = 0;
    let mut taken: u32 = 0;
    let ghost frac = if dot < s.len() {
        s@.skip(dot + 1)
    } else {
        Seq::<char>::empty()
    };
    assert(frac.take(0) =~= Seq::<char>::empty());
    if dot < s.len() {
        let mut i: usize = dot + 1;
        while i < s.len()
            invariant
                dot + 1 <= i <= s.len(),
                k <= 18,
                dot == position_from(s@, '.', 0),
                frac == s@.skip(dot + 1),
                all_digits(frac.take(i - dot - 1)),
                taken <= k,
                taken as int == (if i - dot - 1 < k {
                    i - dot - 1
                } else {
                    k as int
                }),
                acc == digits_value(frac.take(taken as int)),
                acc < pow10(taken as nat),
            decreases s.len() - i,
        {
            let ghost before = frac.take(i - dot - 1);
            let ghost upto = frac.take(i - dot);
            proof {
                assert(frac[i - dot - 1] == s@[i as int]);
            }
            match read_digit(s[i]) {
                None => {
                    return None;
                },
                Some(d) => {
                    assert forall|j: int| 0 <= j < upto.len() implies is_digit(
                        #[trigger] upto[j],
                    ) by {
                        if j < before.len() {
                            assert(upto[j] == before[j]);
                        }
                    }
                    if taken < k {
                        proof {
                            assert(upto.drop_last() =~= before);
                            assert(frac.take(taken as int) == before);
                            lemma_pow10_grows((taken + 1) as nat, 18);
                            lemma_pow10_18();
                            assert(pow10((taken + 1) as nat) == 10 * pow10(taken as nat));
                        }
                        acc = acc * 10 + d;
                        taken += 1;
                    }
                },
            }
            i += 1;
        }
        assert(frac.take(s.len() - dot - 1) =~= frac);
    }
    let ghost digits = frac.take(taken as int);
    let mut padded: u32 = taken;
    assert(digits_value(digits) * pow10(0) == digits_value(digits)) by (nonlinear_arith)
        requires
            pow10(0) == 1,
    ;
    while padded < k
        invariant
            taken <= padded <= k <= 18,
            acc == digits_value(digits) * pow10((padded - taken) as nat),
            acc < pow10(padded as nat),
        decreases k - padded,
    {
        proof {
            lemma_pow10_grows((padded + 1) as nat, 18);
            lemma_pow10_18();
            assert(pow10((padded + 1) as nat) == 10 * pow10(padded as nat));
            assert(pow10((padded + 1 - taken) as nat) == 10 * pow10((padded - taken) as nat));
            assert(digits_value(digits) * pow10((padded - taken) as nat) * 10 == digits_value(
                digits,
            ) * (10 * pow10((padded - taken) as nat))) by (nonlinear_arith);
        }
        acc = acc * 10;
        padded += 1;
    }
    proof {
        lemma_pow10_grows(k as nat, 18);
        lemma_pow10_18();
        assert(acc == (if dot < s.len() {
            fraction_value(frac, k as nat)
        } else {
            0
        })) by {
            if dot < s.len() {
                if frac.len() >= k {
                    assert(taken == k);
                } else {
                    assert(digits =~= frac);
                }
            } else {
                assert(digits =~= Seq::<char>::empty());
                assert(digits_value(digits) * pow10((k - taken) as nat) == 0) by (nonlinear_arith)
                    requires
                        digits_value(digits) == 0,
                ;
            }
        }
        assert(whole * scale <= 0xFFFF_FFFF_FFFF_FFFF * 1_000_000_000_000_000_000)
            by (nonlinear_arith)
            requires
                whole <= 0xFFFF_FFFF_FFFF_FFFF,
                scale <= 1_000_000_000_000_000_000,
        ;
    }
    let total: u128 = (whole as u128) * (scale as u128) + (acc as u128);
    if total > u64::MAX as u128 {
        None
    } else {
        Some(total as u64)
    }
}

/// The character that writes the digit `d`.
pub open spec fn digit_char(d: nat) -> char {
    if d == 0 {
        '0'
    } else if d == 1 {
        '1'
    } else if d == 2 {
        '2'
    } else if d == 3 {
        '3'
    } else if d == 4 {
        '4'
    } else if d == 5 {
        '5'
    } else if d == 6 {
        '6'
    } else if d == 7 {
        '7'
    } else if d == 8 {
        '8'
    } else {
        '9'
    }
}

/// `n` in decimal digits, without leading zeros.
pub open spec fn decimal(n: nat) -> Seq<char>
    decreases n,
{
    if n < 10 {
        seq![digit_char(n)]
    } else {
        decimal(n / 10).push(digit_char(n % 10))
    }
}

/// The last `k` decimal digits of `n`, with leading zeros.
pub open spec fn trailing_digits(n: nat, k: nat) -> Seq<char>
    decreases k,
{
    if k == 0 {
        Seq::<char>::empty()
    } else {
        trailing_digits(n / 10, (k - 1) as nat).push(digit_char(n % 10))
    }
}

/// A count of microseconds written in seconds: an optional minus sign, the
/// whole seconds, a point and six fractional digits.
pub open spec fn seconds_text(micros: int) -> Seq<char> {
    let size = if micros < 0 {
        (-micros) as nat
    } else {
        micros as nat
    };
    let sign = if micros < 0 {
        seq!['-']
    } else {
        Seq::<char>::empty()
    };
    sign + decimal(size / 1_000_000) + seq!['.'] + trailing_digits(size % 1_000_000, 6)
}

/// A digit's character is a digit, and reads back as that digit.
pub proof fn lemma_digit_char_reads_back(d: nat)
    requires
        d <= 9,
    ensures
        is_digit(digit_char(d)),
        digit_of(digit_char(d)) == d,
{
}

/// The digits of a list that ends in `c` write ten times what the list
/// before `c` writes, plus the digit `c`.
pub proof fn lemma_digits_value_push(s: Seq<char>, c: char)
    ensures
        digits_value(s.push(c)) == digits_value(s) * 10 + digit_of(c),
{
    assert(s.push(c).drop_last() =~= s);
}

/// What `decimal` writes is a number, and reads back as the number written.
pub proof fn lemma_decimal_reads_back(n: nat)
    ensures
        is_number(decimal(n)),
        digits_value(decimal(n)) == n,
    decreases n,
{
    if n < 10 {
        lemma_digit_char_reads_back(n);
        assert(decimal(n) =~= Seq::<char>::empty().push(digit_char(n)));
        lemma_digits_value_push(Seq::<char>::empty(), digit_char(n));
    } else {
        lemma_decimal_reads_back(n / 10);
        lemma_digit_char_reads_back(n % 10);
        lemma_digits_value_push(decimal(n / 10), digit_char(n % 10));
    }
}

/// What `trailing_digits` writes is `k` digits, and reads back as the
/// number's remainder by `10^k`.
pub proof fn lemma_trailing_digits_read_back(n: nat, k: nat)
    ensures
        trailing_digits(n, k).len() == k,
        all_digits(trailing_digits(n, k)),
        digits_value(trailing_digits(n, k)) == n % pow10(k),
    decreases k,
{
    if k > 0 {
        let rest = (k - 1) as nat;
        lemma_trailing_digits_read_back(n / 10, rest);
        lemma_digit_char_reads_back(n % 10);
        lemma_digits_value_push(trailing_digits(n / 10, rest), digit_char(n % 10));
        lemma_pow10_grows(0, rest);
        vstd::arithmetic::div_mod::lemma_breakdown(n as int, 10, pow10(rest) as int);
        assert(pow10(k) == 10 * pow10(rest));
    }
}

/// Seconds that are written by `seconds_text` read back as the count of
/// microseconds that was written, for every count that is not negative.
pub proof fn lemma_seconds_text_reads_back(micros: int)
    requires
        0 <= micros,
    ensures
        fixed_point(seconds_text(micros), 6) == Some(micros as nat),
{
    let size = micros as nat;
    let whole = decimal(size / 1_000_000);
    let fraction = trailing_digits(size % 1_000_000, 6);
    let text = seconds_text(micros);
    lemma_decimal_reads_back(size / 1_000_000);
    lemma_trailing_digits_read_back(size % 1_000_000, 6);
    assert(pow10(6) == 1_000_000) by {
        reveal_with_fuel(pow10, 7);
    }
    assert(text =~= whole + seq!['.'] + fraction);
    lemma_position_from_is_first(text, '.', 0);
    let dot = position_from(text, '.', 0);
    assert(text[whole.len() as int] == '.');
    assert forall|j: int| 0 <= j < whole.len() implies text[j] != '.' by {
        assert(text[j] == whole[j]);
        assert(is_digit(whole[j]));
    }
    assert(dot == whole.len());
    assert(text.take(dot) =~= whole);
    assert(text.skip(dot + 1) =~= fraction);
    assert(fraction.take(6) =~= fraction);
}

/// The one-character text of the digit `d`.
pub fn digit_text(d: u64) -> (t: &'static str)
    requires
        d <= 9,
    ensures
        t@ == seq![digit_char(d as nat)],
{
    proof {
        reveal_strlit("0");
        reveal_strlit("1");
        reveal_strlit("2");
        reveal_strlit("3");
        reveal_strlit("4");
        reveal_strlit("5");
        reveal_strlit("6");
        reveal_strlit("7");
        reveal_strlit("8");
        reveal_strlit("9");
    }
    let t: &'static str = if d == 0 {
        "0"
    } else if d == 1 {
        "1"
    } else if d == 2 {
        "2"
    } else if d == 3 {
        "3"
    } else if d == 4 {
        "4"
    } else if d == 5 {
        "5"
    } else if d == 6 {
        "6"
    } else if d == 7 {
        "7"
    } else if d == 8 {
        "8"
    } else {
        "9"
    };
    assert(t@ =~= seq![digit_char(d as nat)]);
    t
}

/// Appends `n` in decimal to `out`.
pub fn push_decimal(out: &mut String, n: u64)
    ensures
        final(out)@ == old(out)@ + decimal(n as nat),
    decreases n,
{
    if n >= 10 {
        push_decimal(out, n / 10);
    }
    out.append(digit_text(n % 10));
    assert(final(out)@ =~= old(out)@ + decimal(n as nat));
}

/// Appends the last `k` decimal digits of `n` to `out`.
pub fn push_trailing_digits(out: &mut String, n: u64, k: u32)
    ensures
        final(out)@ == old(out)@ + trailing_digits(n as nat, k as nat),
    decreases k,
{
    if k > 0 {
        push_trailing_digits(out, n / 10, k - 1);
        out.append(digit_text(n % 10));
    }
    assert(final(out)@ =~= old(out)@ + trailing_digits(n as nat, k as nat));
}

/// Writes a count of microseconds in seconds, with six fractional digits.
pub fn format_seconds(micros: i64) -> (t: String)
    ensures
        t@ == seconds_text(micros as int),
{
    let mut t: String = String::new();
    let size: u64 = if micros >= 0 {
        micros as u64
    } else if micros == i64::MIN {
        9_223_372_036_854_775_808u64
    } else {
        (-micros) as u64
    };
    proof {
        reveal_strlit("-");
        reveal_strlit(".");
    }
    if micros < 0 {
        t.append("-");
    }
    let ghost sign = t@;
    push_decimal(&mut t, size / 1_000_000);
    t.append(".");
    push_trailing_digits(&mut t, size % 1_000_000, 6);
    assert(sign =~= (if micros < 0 {
        seq!['-']
    } else {
        Seq::<char>::empty()
    }));
    assert("."@ =~= seq!['.']);
    assert(t@ =~= seconds_text(micros as int));
    t
}

} // verus!
