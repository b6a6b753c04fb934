use vstd::prelude::*;

verus! {

/// The character of a decimal digit `0..=9`.
pub open spec fn digit_char(d: nat) -> char {
    if d == 0 { '0' }
    else if d == 1 { '1' }
    else if d == 2 { '2' }
    else if d == 3 { '3' }
    else if d == 4 { '4' }
    else if d == 5 { '5' }
    else if d == 6 { '6' }
    else if d == 7 { '7' }
    else if d == 8 { '8' }
    else { '9' }
}

/// The decimal digits of a natural number, most significant first, with no leading zeros.
pub open spec fn digits(n: nat) -> Seq<char>
    decreases n,
{
    if n < 10 {
        seq![digit_char(n)]
    } else {
        digits(n / 10).push(digit_char(n % 10))
    }
}

/// How `{}` writes an integer: its digits, after a `-` when it is negative.
pub open spec fn decimal(n: int) -> Seq<char> {
    if n < 0 {
        seq!['-'] + digits((-n) as nat)
    } else {
        digits(n as nat)
    }
}

/// Whether a character is one of the ten decimal digits.
pub open spec fn is_digit(c: char) -> bool {
    '0' <= c && c <= '9'
}

/// The number that a string of decimal digits stands for, most significant digit first.
pub open spec fn numeral_value(s: Seq<char>) -> int
    decreases s.len(),
{
    if s.len() == 0 {
        0
    } else {
        10 * numeral_value(s.drop_last()) + (s.last() as int - '0' as int)
    }
}

/// Each digit character stands for its digit.
proof fn lemma_digit_char_value(d: nat)
    requires
        d < 10,
    ensures
        digit_char(d) as int - '0' as int == d,
        is_digit(digit_char(d)),
{
    assert('0' as int == 48);
    assert('1' as int == 49);
    assert('2' as int == 50);
    assert('3' as int == 51);
    assert('4' as int == 52);
    assert('5' as int == 53);
    assert('6' as int == 54);
    assert('7' as int == 55);
    assert('8' as int == 56);
    assert('9' as int == 57);
}

/// The digits of `n` are its base-ten numeral: only decimal digits, no leading zero
/// (unless `n` is zero), and they stand for `n`.
pub proof fn law_digits_are_the_numeral(n: nat)
    ensures
        digits(n).len() >= 1,
        forall|i: int| 0 <= i < digits(n).len() ==> is_digit(#[trigger] digits(n)[i]),
        digits(n)[0] == '0' ==> n == 0,
        numeral_value(digits(n)) == n,
    decreases n,
{
    if n < 10 {
        lemma_digit_char_value(n);
        assert(digits(n) == seq![digit_char(n)]);
        assert(digits(n).drop_last() =~= Seq::<char>::empty());
        assert(digits(n).last() == digit_char(n));
        assert(numeral_value(Seq::<char>::empty()) == 0);
        assert(numeral_value(digits(n)) == 10 * numeral_value(digits(n).drop_last())
            + (digits(n).last() as int - '0' as int));
    } else {
        law_digits_are_the_numeral(n / 10);
        lemma_digit_char_value(n % 10);
        let d = digits(n);
        assert(d.drop_last() =~= digits(n / 10));
        assert(d.last() == digit_char(n % 10));
        assert(numeral_value(d) == 10 * numeral_value(d.drop_last()) + (d.last() as int - '0' as int));
        assert(n == 10 * (n / 10) + n % 10);
        assert(d[0] == digits(n / 10)[0]);
        assert forall|i: int| 0 <= i < d.len() implies is_digit(#[trigger] d[i]) by {
            if i < d.len() - 1 {
                assert(d[i] == digits(n / 10)[i]);
            }
        }
    }
}

/// `decimal(n)` starts with `-` exactly when `n` is negative, and the rest is the base-ten
/// numeral of the magnitude of `n`: decimal digits, no leading zero unless it is `0`, and
/// standing for that magnitude.
pub proof fn law_decimal_is_signed_numeral(n: int)
    ensures
        decimal(n).len() >= 1,
        (decimal(n)[0] == '-') == (n < 0),
        n < 0 ==> {
            &&& decimal(n).len() >= 2
            &&& forall|i: int| 1 <= i < decimal(n).len() ==> is_digit(#[trigger] decimal(n)[i])
            &&& decimal(n)[1] != '0'
            &&& numeral_value(decimal(n).drop_first()) == -n
        },
        n >= 0 ==> {
            &&& forall|i: int| 0 <= i < decimal(n).len() ==> is_digit(#[trigger] decimal(n)[i])
            &&& (decimal(n)[0] == '0' ==> n == 0)
            &&& numeral_value(decimal(n)) == n
        },
{
    if n < 0 {
        law_digits_are_the_numeral((-n) as nat);
        assert(decimal(n).drop_first() =~= digits((-n) as nat));
        assert forall|i: int| 1 <= i < decimal(n).len() implies is_digit(#[trigger] decimal(n)[i]) by {
            assert(decimal(n)[i] == digits((-n) as nat)[i - 1]);
        }
        assert(decimal(n)[1] == digits((-n) as nat)[0]);
    } else {
        law_digits_are_the_numeral(n as nat);
        assert(is_digit(digits(n as nat)[0]));
    }
}

/// The bytes of a text made of ASCII characters.
pub open spec fn ascii_bytes(text: Seq<char>) -> Seq<u8> {
    text.map_values(|c: char| c as u8)
}

proof fn lemma_digit_char_injective(a: nat, b: nat)
    requires
        a < 10,
        b < 10,
        digit_char(a) == digit_char(b),
    ensures
        a == b,
{
}

proof fn lemma_digits_first(n: nat)
    ensures
        digits(n).len() >= 1,
        digits(n)[0] != '-',
    decreases n,
{
    if n >= 10 {
        lemma_digits_first(n / 10);
    }
}

/// The digits of a natural number are never empty and are all ASCII digits.
pub proof fn lemma_digits_are_digits(n: nat)
    ensures
        digits(n).len() >= 1,
        forall|i: int| 0 <= i < digits(n).len() ==> '0' <= #[trigger] digits(n)[i] <= '9',
    decreases n,
{
    if n >= 10 {
        lemma_digits_are_digits(n / 10);
        assert forall|i: int| 0 <= i < digits(n).len() implies '0' <= #[trigger] digits(n)[i] <= '9' by {
            if i < digits(n / 10).len() {
                assert(digits(n)[i] == digits(n / 10)[i]);
            }
        }
    }
}

/// Two natural numbers with the same digits are the same number.
pub proof fn lemma_digits_injective(a: nat, b: nat)
    requires
        digits(a) == digits(b),
    ensures
        a == b,
    decreases a,
{
    lemma_digits_are_digits(a);
    lemma_digits_are_digits(b);
    if a < 10 && b < 10 {
        assert(digits(a) == seq![digit_char(a)]);
        assert(digits(b) == seq![digit_char(b)]);
        assert(digits(a)[0] == digits(b)[0]);
        assert(seq![digit_char(a)][0] == digit_char(a));
        assert(seq![digit_char(b)][0] == digit_char(b));
        lemma_digit_char_injective(a, b);
    } else if a < 10 {
        lemma_digits_are_digits(b / 10);
        assert(digits(b).len() >= 2);
    } else if b < 10 {
        lemma_digits_are_digits(a / 10);
        assert(digits(a).len() >= 2);
    } else {
        assert(digits(a).drop_last() =~= digits(a / 10));
        assert(digits(b).drop_last() =~= digits(b / 10));
        lemma_digits_injective(a / 10, b / 10);
        assert(digits(a).last() == digits(b).last());
        assert(digits(a).last() == digit_char(a % 10));
        assert(digits(b).last() == digit_char(b % 10));
        lemma_digit_char_injective(a % 10, b % 10);
    }
}

/// Distinct integers are written differently.
pub proof fn lemma_decimal_injective(a: int, b: int)
    requires
        decimal(a) == decimal(b),
    ensures
        a == b,
{
    if a < 0 && b < 0 {
        assert(digits((-a) as nat) =~= decimal(a).drop_first());
        assert(digits((-b) as nat) =~= decimal(b).drop_first());
        lemma_digits_injective((-a) as nat, (-b) as nat);
    } else if a < 0 {
        lemma_digits_first(b as nat);
        assert(decimal(a)[0] == '-');
    } else if b < 0 {
        lemma_digits_first(a as nat);
        assert(decimal(b)[0] == '-');
    } else {
        lemma_digits_injective(a as nat, b as nat);
    }
}

/// The text of one decimal digit.
fn digit_str(d: u64) -> (s: &'static str)
    requires
        d < 10,
    ensures
        s@ == seq![digit_char(d as nat)],
{
    proof {
        reveal_strlit("0");
        reveal_strlit("1");
        reveal_strlit("2");
        reveal_strlit("3");
        reveal_strlit("4");
        reveal_strlit("5");
        reveal_strlit("6");
        reveal_strlit("7");
        reveal_strlit("8");
        reveal_strlit("9");
    }
    if d == 0 { "0" }
    else if d == 1 { "1" }
    else if d == 2 { "2" }
    else if d == 3 { "3" }
    else if d == 4 { "4" }
    else if d == 5 { "5" }
    else if d == 6 { "6" }
    else if d == 7 { "7" }
    else if d == 8 { "8" }
    else { "9" }
}

/// The byte of one decimal digit.
fn digit_byte(d: u64) -> (b: u8)
    requires
        d < 10,
    ensures
        b == digit_char(d as nat) as u8,
{
    (d as u8) + 48u8
}

/// The magnitude of an `i64`, which always fits in a `u64`.
fn magnitude(n: i64) -> (m: u64)
    ensures
        n < 0 ==> m == -n,
        n >= 0 ==> m == n,
{
    if n < 0 {
        let shifted = n + 1;
        let m = (-shifted) as u64;
        m + 1
    } else {
        n as u64
    }
}

fn push_digits(s: &mut String, m: u64)
    ensures
        final(s)@ == old(s)@ + digits(m as nat),
    decreases m,
{
    if m >= 10 {
        push_digits(s, m / 10);
    }
    s.append(digit_str(m % 10));
    proof {
        if m >= 10 {
            assert(digits(m as nat) == digits((m / 10) as nat).push(digit_char((m % 10) as nat)));
        }
    }
    assert(final(s)@ =~= old(s)@ + digits(m as nat)) by {
        if m >= 10 {
            assert(old(s)@ + digits((m / 10) as nat) + seq![digit_char((m % 10) as nat)]
                =~= old(s)@ + digits(m as nat));
        }
    };
}

/// Appends `n` as `{}` writes it.
pub fn push_decimal(s: &mut String, n: i64)
    ensures
        final(s)@ == old(s)@ + decimal(n as int),
{
    proof { reveal_strlit("-"); }
    let m = magnitude(n);
    if n < 0 {
        s.append("-");
    }
    push_digits(s, m);
    assert(s@ =~= old(s)@ + decimal(n as int));
}

fn push_digit_bytes(v: &mut Vec<u8>, m: u64)
    ensures
        final(v)@ == old(v)@ + ascii_bytes(digits(m as nat)),
    decreases m,
{
    if m >= 10 {
        push_digit_bytes(v, m / 10);
    }
    v.push(digit_byte(m % 10));
    assert(final(v)@ =~= old(v)@ + ascii_bytes(digits(m as nat))) by {
        if m >= 10 {
            assert(digits(m as nat) == digits((m / 10) as nat).push(digit_char((m % 10) as nat)));
            assert(ascii_bytes(digits(m as nat)) =~= ascii_bytes(digits((m / 10) as nat)).push(
                digit_char((m % 10) as nat) as u8,
            ));
        }
    };
}

/// Appends the bytes of `n` as `{}` writes it.
pub fn push_decimal_bytes(v: &mut Vec<u8>, n: i64)
    ensures
        final(v)@ == old(v)@ + ascii_bytes(decimal(n as int)),
{
    let m = magnitude(n);
    if n < 0 {
        v.push(45u8);
    }
    push_digit_bytes(v, m);
    assert(final(v)@ =~= old(v)@ + ascii_bytes(decimal(n as int)));
}

} // verus!
