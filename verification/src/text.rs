//! Text building blocks: decimal digits, and appending to a `String`.

use vstd::prelude::*;

verus! {

/// `String::push` appends one character to the end of the string
/// (as its documentation says); nothing else changes.
pub assume_specification[ String::push ](s: &mut String, ch: char)
    ensures
        final(s)@ == old(s)@.push(ch),
;

/// The character of a decimal digit `d` (0..=9).
pub open spec fn digit_char(d: nat) -> char {
    if d == 0 { '0' }
    else if d == 1 { '1' }
    else if d == 2 { '2' }
    else if d == 3 { '3' }
    else if d == 4 { '4' }
    else if d == 5 { '5' }
    else if d == 6 { '6' }
    else if d == 7 { '7' }
    else if d == 8 { '8' }
    else { '9' }
}

/// The shortest decimal representation of `n`, most significant digit first
/// (as `to_string` writes an unsigned integer).
pub open spec fn decimal(n: nat) -> Seq<char>
    decreases n,
{
    if n < 10 {
        seq![digit_char(n)]
    } else {
        decimal(n / 10).push(digit_char(n % 10))
    }
}

/// The number a string of decimal digits stands for.
pub open spec fn decimal_value(s: Seq<char>) -> nat
    decreases s.len(),
{
    if s.len() == 0 {
        0
    } else {
        decimal_value(s.drop_last()) * 10 + ((s.last() as u32) - ('0' as u32)) as nat
    }
}

/// Whether every character of `s` is a decimal digit.
pub open spec fn all_digits(s: Seq<char>) -> bool {
    forall|i: int| 0 <= i < s.len() ==> '0' <= #[trigger] s[i] <= '9'
}

proof fn lemma_digit_char(d: nat)
    requires
        d < 10,
    ensures
        '0' <= digit_char(d) <= '9',
        (digit_char(d) as u32) - ('0' as u32) == d,
{
}

/// The decimal representation of `n` is a non-empty string of digits,
/// without a leading zero unless `n` is 0, that reads back as `n`.
pub proof fn lemma_decimal_reads_back(n: nat)
    ensures
        decimal(n).len() > 0,
        all_digits(decimal(n)),
        decimal_value(decimal(n)) == n,
        decimal(n)[0] == '0' ==> n == 0,
    decreases n,
{
    if n < 10 {
        lemma_digit_char(n);
        let one = seq![digit_char(n)];
        assert(one.drop_last() =~= Seq::<char>::empty());
        assert(decimal_value(Seq::<char>::empty()) == 0);
        assert(decimal_value(one) == decimal_value(one.drop_last()) * 10 + ((one.last() as u32)
            - ('0' as u32)) as nat);
        assert(decimal(n) == one);
    } else {
        lemma_decimal_reads_back(n / 10);
        lemma_digit_char(n % 10);
        let d = decimal(n / 10);
        assert(decimal(n) == d.push(digit_char(n % 10)));
        assert(d.push(digit_char(n % 10)).drop_last() =~= d);
        assert(decimal(n)[0] == d[0]);
        assert(n / 10 * 10 + n % 10 == n);
        let x = d.push(digit_char(n % 10));
        assert(decimal_value(x) == decimal_value(x.drop_last()) * 10 + ((x.last() as u32) - (
        '0' as u32)) as nat);
        assert(all_digits(decimal(n))) by {
            assert forall|i: int| 0 <= i < decimal(n).len() implies '0' <= #[trigger] decimal(n)[i]
                <= '9' by {
                if i < d.len() {
                    assert(decimal(n)[i] == d[i]);
                }
            }
        }
    }
}

fn digit(d: u32) -> (c: char)
    requires
        d < 10,
    ensures
        c == digit_char(d as nat),
{
    if d == 0 { '0' }
    else if d == 1 { '1' }
    else if d == 2 { '2' }
    else if d == 3 { '3' }
    else if d == 4 { '4' }
    else if d == 5 { '5' }
    else if d == 6 { '6' }
    else if d == 7 { '7' }
    else if d == 8 { '8' }
    else { '9' }
}

/// Appends the decimal representation of `n` to `out`.
pub fn push_decimal(out: &mut String, n: u32)
    ensures
        final(out)@ == old(out)@ + decimal(n as nat),
    decreases n,
{
    if n < 10 {
        out.push(digit(n));
    } else {
        push_decimal(out, n / 10);
        out.push(digit(n % 10));
    }
}

/// The decimal representation of a signed integer, with a leading `-` when negative.
pub open spec fn decimal_i32(n: int) -> Seq<char> {
    if n < 0 { seq!['-'] + decimal((-n) as nat) } else { decimal(n as nat) }
}

/// Appends the decimal representation of `n` to `out`.
pub fn push_decimal_i32(out: &mut String, n: i32)
    ensures
        final(out)@ == old(out)@ + decimal_i32(n as int),
{
    if n < 0 {
        out.push('-');
        let m: u32 = if n == i32::MIN { 2147483648u32 } else { (-n) as u32 };
        push_decimal(out, m);
        assert(old(out)@.push('-') + decimal(m as nat) =~= old(out)@ + (seq!['-'] + decimal(m as nat)));
    } else {
        push_decimal(out, n as u32);
    }
}

} // verus!
