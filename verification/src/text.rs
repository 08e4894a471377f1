//! Numbers and times as text.

use vstd::prelude::*;

verus! {

/// The character of a decimal digit.
pub open spec fn digit_char(d: int) -> char {
    if d == 0 {
        '0'
    } else if d == 1 {
        '1'
    } else if d == 2 {
        '2'
    } else if d == 3 {
        '3'
    } else if d == 4 {
        '4'
    } else if d == 5 {
        '5'
    } else if d == 6 {
        '6'
    } else if d == 7 {
        '7'
    } else if d == 8 {
        '8'
    } else {
        '9'
    }
}

/// The decimal digits of `n`, without leading zeros.
pub open spec fn decimal(n: nat) -> Seq<char>
    decreases n,
{
    if n < 10 {
        seq![digit_char(n as int)]
    } else {
        decimal(n / 10).push(digit_char((n % 10) as int))
    }
}

/// The decimal digits of `n`, with zeros in front up to `width` characters.
pub open spec fn padded(n: nat, width: nat) -> Seq<char> {
    if decimal(n).len() >= width {
        decimal(n)
    } else {
        Seq::new((width - decimal(n).len()) as nat, |i: int| '0') + decimal(n)
    }
}

/// The decimal digits of `n` in groups of three, separated by commas.
pub open spec fn grouped(n: nat) -> Seq<char>
    decreases n,
{
    if n < 1000 {
        decimal(n)
    } else {
        grouped(n / 1000) + seq![','] + padded(n % 1000, 3)
    }
}

/// A time of `ms` milliseconds as minutes, seconds and milliseconds:
/// `MM:SS.mmm`, the minutes with as many digits as they need beyond two.
pub open spec fn clock_text(ms: nat) -> Seq<char> {
    padded(ms / 60_000, 2) + seq![':'] + padded((ms % 60_000) / 1000, 2) + seq!['.'] + padded(
        ms % 1000,
        3,
    )
}

/// Calls `String::from_iter` on the characters. The claim: the string holds
/// these characters in this order.
#[verifier::external_body]
pub(crate) fn string_from_chars(chars: Vec<char>) -> (text: String)
    ensures
        text@ == chars@,
{
    String::from_iter(chars)
}

/// The character of the decimal digit `d`.
fn digit(d: u8) -> (c: char)
    requires
        d < 10,
    ensures
        c == digit_char(d as int),
{
    match d {
        0 => '0',
        1 => '1',
        2 => '2',
        3 => '3',
        4 => '4',
        5 => '5',
        6 => '6',
        7 => '7',
        8 => '8',
        _ => '9',
    }
}

/// The number of decimal digits of `n`.
fn digit_count(n: u128) -> (count: usize)
    ensures
        count == decimal(n as nat).len(),
        1 <= count <= 39,
    decreases n,
{
    if n < 10 {
        1
    } else {
        proof {
            lemma_decimal_len(n as nat);
        }
        1 + digit_count(n / 10)
    }
}

/// A number below `10^39` has at most 39 digits, and so has every `u128`.
proof fn lemma_decimal_len(n: nat)
    ensures
        decimal(n).len() >= 1,
        n < 10 ==> decimal(n).len() == 1,
        n <= u128::MAX ==> decimal(n).len() <= 39,
{
    lemma_decimal_bound(n, 39);
    assert(u128::MAX < 1_000_000_000_000_000_000_000_000_000_000_000_000_000);
    assert(power_of_ten(39) == 1_000_000_000_000_000_000_000_000_000_000_000_000_000) by {
        lemma_power_of_ten_39();
    }
}

/// Ten to the power `k`.
spec fn power_of_ten(k: nat) -> nat
    decreases k,
{
    if k == 0 {
        1
    } else {
        10 * power_of_ten((k - 1) as nat)
    }
}

proof fn lemma_power_of_ten_39()
    ensures
        power_of_ten(39) == 1_000_000_000_000_000_000_000_000_000_000_000_000_000,
{
    assert(power_of_ten(0) == 1);
    assert(power_of_ten(3) == 1_000) by {
        assert(power_of_ten(1) == 10);
        assert(power_of_ten(2) == 100);
    }
    assert(power_of_ten(6) == 1_000_000) by {
        assert(power_of_ten(4) == 10_000);
        assert(power_of_ten(5) == 100_000);
    }
    assert(power_of_ten(9) == 1_000_000_000) by {
        assert(power_of_ten(7) == 10_000_000);
        assert(power_of_ten(8) == 100_000_000);
    }
    assert(power_of_ten(12) == 1_000_000_000_000) by {
        assert(power_of_ten(10) == 10_000_000_000);
        assert(power_of_ten(11) == 100_000_000_000);
    }
    assert(power_of_ten(15) == 1_000_000_000_000_000) by {
        assert(power_of_ten(13) == 10_000_000_000_000);
        assert(power_of_ten(14) == 100_000_000_000_000);
    }
    assert(power_of_ten(18) == 1_000_000_000_000_000_000) by {
        assert(power_of_ten(16) == 10_000_000_000_000_000);
        assert(power_of_ten(17) == 100_000_000_000_000_000);
    }
    assert(power_of_ten(21) == 1_000_000_000_000_000_000_000) by {
        assert(power_of_ten(19) == 10_000_000_000_000_000_000);
        assert(power_of_ten(20) == 100_000_000_000_000_000_000);
    }
    assert(power_of_ten(24) == 1_000_000_000_000_000_000_000_000) by {
        assert(power_of_ten(22) == 10_000_000_000_000_000_000_000);
        assert(power_of_ten(23) == 100_000_000_000_000_000_000_000);
    }
    assert(power_of_ten(27) == 1_000_000_000_000_000_000_000_000_000) by {
        assert(power_of_ten(25) == 10_000_000_000_000_000_000_000_000);
        assert(power_of_ten(26) == 100_000_000_000_000_000_000_000_000);
    }
    assert(power_of_ten(30) == 1_000_000_000_000_000_000_000_000_000_000) by {
        assert(power_of_ten(28) == 10_000_000_000_000_000_000_000_000_000);
        assert(power_of_ten(29) == 100_000_000_000_000_000_000_000_000_000);
    }
    assert(power_of_ten(33) == 1_000_000_000_000_000_000_000_000_000_000_000) by {
        assert(power_of_ten(31) == 10_000_000_000_000_000_000_000_000_000_000);
        assert(power_of_ten(32) == 100_000_000_000_000_000_000_000_000_000_000);
    }
    assert(power_of_ten(36) == 1_000_000_000_000_000_000_000_000_000_000_000_000) by {
        assert(power_of_ten(34) == 10_000_000_000_000_000_000_000_000_000_000_000);
        assert(power_of_ten(35) == 100_000_000_000_000_000_000_000_000_000_000_000);
    }
    assert(power_of_ten(39) == 1_000_000_000_000_000_000_000_000_000_000_000_000_000) by {
        assert(power_of_ten(37) == 10_000_000_000_000_000_000_000_000_000_000_000_000);
        assert(power_of_ten(38) == 100_000_000_000_000_000_000_000_000_000_000_000_000);
    }
}

/// A number below `10^k` has at most `k` digits.
proof fn lemma_decimal_bound(n: nat, k: nat)
    requires
        k >= 1,
    ensures
        decimal(n).len() >= 1,
        n < 10 ==> decimal(n).len() == 1,
        n < power_of_ten(k) ==> decimal(n).len() <= k,
    decreases n,
{
    if n >= 10 {
        if k >= 2 {
            lemma_decimal_bound(n / 10, (k - 1) as nat);
        } else {
            lemma_decimal_bound(n / 10, 1);
            assert(power_of_ten(1) == 10) by {
                assert(power_of_ten(0) == 1);
            }
        }
    }
}

/// Appends the decimal digits of `n`.
pub(crate) fn push_decimal(out: &mut Vec<char>, n: u128)
    ensures
        final(out)@ == old(out)@ + decimal(n as nat),
    decreases n,
{
    if n >= 10 {
        push_decimal(out, n / 10);
    }
    out.push(digit((n % 10) as u8));
    assert(out@ =~= old(out)@ + decimal(n as nat));
}

/// Appends the characters of `s`.
pub(crate) fn push_str(out: &mut Vec<char>, s: &str)
    ensures
        final(out)@ == old(out)@ + s@,
{
    for c in it: s.chars()
        invariant
            it.seq() == s@,
            out@ == old(out)@ + s@.take(it.index() as int),
    {
        out.push(c);
        assert(out@ =~= old(out)@ + s@.take(it.index() + 1));
    }
    assert(s@.take(s@.len() as int) =~= s@);
}

/// Appends the decimal digits of `n`, with zeros in front up to `width` characters.
fn push_padded(out: &mut Vec<char>, n: u128, width: usize)
    ensures
        final(out)@ == old(out)@ + padded(n as nat, width as nat),
{
    let count = digit_count(n);
    let mut i: usize = count;
    while i < width
        invariant
            count == decimal(n as nat).len(),
            count <= i,
            i <= width || i == count,
            out@ == old(out)@ + Seq::new((i - count) as nat, |k: int| '0'),
        decreases width - i,
    {
        out.push('0');
        assert(out@ =~= old(out)@ + Seq::new((i + 1 - count) as nat, |k: int| '0'));
        i += 1;
    }
    let ghost zeros = out@;
    push_decimal(out, n);
    assert(out@ =~= old(out)@ + padded(n as nat, width as nat));
}

/// Appends the decimal digits of `n` in groups of three, separated by commas.
fn push_grouped(out: &mut Vec<char>, n: u128)
    ensures
        final(out)@ == old(out)@ + grouped(n as nat),
    decreases n,
{
    if n < 1000 {
        push_decimal(out, n);
    } else {
        push_grouped(out, n / 1000);
        out.push(',');
        push_padded(out, n % 1000, 3);
        assert(out@ =~= old(out)@ + grouped(n as nat));
    }
}

/// `n` in decimal with a comma between each group of three digits.
pub fn format_number(n: u64) -> (text: String)
    ensures
        text@ == grouped(n as nat),
{
    let mut out: Vec<char> = Vec::new();
    push_grouped(&mut out, n as u128);
    assert(out@ =~= grouped(n as nat));
    string_from_chars(out)
}

/// A time of `ms` milliseconds as `MM:SS.mmm`.
pub fn format_clock(ms: u128) -> (text: String)
    ensures
        text@ == clock_text(ms as nat),
{
    let mut out: Vec<char> = Vec::new();
    push_padded(&mut out, ms / 60_000, 2);
    out.push(':');
    push_padded(&mut out, (ms % 60_000) / 1000, 2);
    out.push('.');
    push_padded(&mut out, ms % 1000, 3);
    assert(out@ =~= clock_text(ms as nat));
    string_from_chars(out)
}

/// A time of `ms` milliseconds as `MM:SS.mmm`.
pub fn format_time_ms(ms: u64) -> (text: String)
    ensures
        text@ == clock_text(ms as nat),
{
    format_clock(ms as u128)
}

} // verus!
