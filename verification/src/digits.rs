//! Numbers in decimal digits.
use vstd::prelude::*;

verus! {

/// A decimal digit.
pub open spec fn digit(n: int) -> char {
    (48 + n) as u8 as char
}

/// A number below 100 in two digits.
pub open spec fn two_digits(n: int) -> Seq<char> {
    seq![digit(n / 10), digit(n % 10)]
}

/// A natural number in at least `width` digits.
pub open spec fn padded(n: nat, width: nat) -> Seq<char>
    decreases n, width,
{
    if n == 0 && width == 0 {
        Seq::empty()
    } else {
        padded(n / 10, if width == 0 { 0 } else { (width - 1) as nat }).push(digit((n % 10) as int))
    }
}

/// Equal digits stand for equal numbers.
pub proof fn lemma_padded_tells_numbers_apart(a: nat, b: nat, width: nat, other: nat)
    requires
        padded(a, width) == padded(b, other),
    ensures
        a == b,
    decreases a, width,
{
    let rest = padded(a / 10, if width == 0 { 0 } else { (width - 1) as nat });
    let rest_b = padded(b / 10, if other == 0 { 0 } else { (other - 1) as nat });
    if a == 0 && width == 0 {
        assert(padded(b, other).len() == 0);
        if !(b == 0 && other == 0) {
            assert(padded(b, other) == rest_b.push(digit((b % 10) as int)));
        }
    } else {
        let text = rest.push(digit((a % 10) as int));
        assert(padded(a, width) == text);
        assert(padded(b, other).len() > 0);
        let text_b = rest_b.push(digit((b % 10) as int));
        assert(padded(b, other) == text_b);
        assert(text.last() == text_b.last());
        assert(a % 10 == b % 10);
        assert(text.drop_last() =~= rest);
        assert(text_b.drop_last() =~= rest_b);
        lemma_padded_tells_numbers_apart(
            a / 10,
            b / 10,
            if width == 0 { 0 } else { (width - 1) as nat },
            if other == 0 { 0 } else { (other - 1) as nat },
        );
    }
}

/// A padded number has at least its width, and holds digits alone.
pub proof fn lemma_padded_holds_digits(n: nat, width: nat)
    ensures
        padded(n, width).len() >= width,
        forall|i: int|
            0 <= i < padded(n, width).len() ==> '0' <= #[trigger] padded(n, width)[i] <= '9',
    decreases n, width,
{
    if !(n == 0 && width == 0) {
        let less = if width == 0 { 0 } else { (width - 1) as nat };
        lemma_padded_holds_digits(n / 10, less);
        let rest = padded(n / 10, less);
        assert(padded(n, width) == rest.push(digit((n % 10) as int)));
    }
}

/// A number that fits its width has exactly that many digits.
pub proof fn lemma_padded_fits(n: nat, width: nat, limit: nat)
    requires
        n < limit,
        limit == vstd::arithmetic::power::pow(10, width),
    ensures
        padded(n, width).len() == width,
    decreases width,
{
    reveal(vstd::arithmetic::power::pow);
    if width > 0 {
        let less = (width - 1) as nat;
        assert(limit == 10 * vstd::arithmetic::power::pow(10, less));
        lemma_padded_fits(n / 10, less, limit / 10);
        assert(padded(n, width) == padded(n / 10, less).push(digit((n % 10) as int)));
    }
}

/// Equal pairs of digits stand for equal numbers.
pub proof fn lemma_two_digits_tell_numbers_apart(a: int, b: int)
    requires
        0 <= a <= 99,
        0 <= b <= 99,
        two_digits(a) == two_digits(b),
    ensures
        a == b,
{
    assert(two_digits(a)[0] == two_digits(b)[0]);
    assert(two_digits(a)[1] == two_digits(b)[1]);
}

/// The number below 100 that two characters spell in decimal digits.
pub open spec fn two_digits_at(text: Seq<char>, at: int) -> int {
    (text[at] as int - 48) * 10 + (text[at + 1] as int - 48)
}

/// The number below 10000 that four characters spell in decimal digits.
pub open spec fn four_digits_at(text: Seq<char>, at: int) -> int {
    two_digits_at(text, at) * 100 + two_digits_at(text, at + 2)
}

/// Two digits spell the number.
pub proof fn lemma_two_digits_spell(n: int)
    requires
        0 <= n <= 99,
    ensures
        two_digits(n).len() == 2,
        two_digits_at(two_digits(n), 0) == n,
{
}

/// A number below 10000, padded to four digits, is spelled by them.
#[verifier::spinoff_prover]
pub proof fn lemma_four_digits_spell(n: nat)
    requires
        n <= 9999,
    ensures
        padded(n, 4).len() == 4,
        four_digits_at(padded(n, 4), 0) == n,
{
    reveal_with_fuel(padded, 6);
    assert(n / 10 / 10 / 10 / 10 == 0);
    let text = padded(n, 4);
    assert(text[3] == digit((n % 10) as int));
    assert(text[2] == digit((n / 10 % 10) as int));
    assert(text[1] == digit((n / 10 / 10 % 10) as int));
    assert(text[0] == digit((n / 10 / 10 / 10 % 10) as int));
}

} // verus!
