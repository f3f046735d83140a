//! Numbers as text: the decimal and hexadecimal numerals that error messages
//! show.

use vstd::prelude::*;
use vstd::string::StringExecFns;

verus! {

/// The character for one digit of a numeral. Digits from ten on are the
/// lower-case letters from `a`.
pub open spec fn digit_char(digit: nat) -> char
    recommends
        digit < 16,
{
    seq![
        '0',
        '1',
        '2',
        '3',
        '4',
        '5',
        '6',
        '7',
        '8',
        '9',
        'a',
        'b',
        'c',
        'd',
        'e',
        'f',
    ][digit as int]
}

/// The decimal numeral of `n`: no sign, no leading zero, `"0"` for zero.
pub open spec fn decimal_numeral(n: nat) -> Seq<char>
    decreases n,
{
    if n < 10 {
        seq![digit_char(n)]
    } else {
        decimal_numeral(n / 10).push(digit_char(n % 10))
    }
}

/// The hexadecimal numeral of `n`, in lower case: no prefix, no leading zero,
/// `"0"` for zero.
pub open spec fn hex_numeral(n: nat) -> Seq<char>
    decreases n,
{
    if n < 16 {
        seq![digit_char(n)]
    } else {
        hex_numeral(n / 16).push(digit_char(n % 16))
    }
}

/// The hexadecimal numeral of `n` after the prefix `0x`.
pub open spec fn prefixed_hex(n: nat) -> Seq<char> {
    seq!['0', 'x'] + hex_numeral(n)
}

/// The digits of a numeral that are left to write once its last digits are
/// written: those of `n`, and none at all for zero.
pub(crate) open spec fn hex_front(n: nat) -> Seq<char> {
    if n == 0 {
        Seq::empty()
    } else {
        hex_numeral(n)
    }
}

/// See [`hex_front`].
pub(crate) open spec fn decimal_front(n: nat) -> Seq<char> {
    if n == 0 {
        Seq::empty()
    } else {
        decimal_numeral(n)
    }
}

/// The characters of digits that were gathered last digit first.
pub(crate) open spec fn digits_text(digits: Seq<u8>) -> Seq<char> {
    Seq::new(digits.len(), |i: int| digit_char(digits[digits.len() - 1 - i] as nat))
}

/// A hexadecimal numeral is the numeral of the sixteenth part, followed by
/// the last digit.
pub(crate) proof fn lemma_hex_numeral_step(n: nat)
    ensures
        hex_numeral(n) == hex_front(n / 16).push(digit_char(n % 16)),
{
    if n < 16 {
        assert(n / 16 == 0);
        assert(n % 16 == n);
        assert(hex_numeral(n) =~= Seq::<char>::empty().push(digit_char(n)));
    } else {
        assert(n / 16 != 0);
    }
}

/// A decimal numeral is the numeral of the tenth part, followed by the last
/// digit.
pub(crate) proof fn lemma_decimal_numeral_step(n: nat)
    ensures
        decimal_numeral(n) == decimal_front(n / 10).push(digit_char(n % 10)),
{
    if n < 10 {
        assert(n / 10 == 0);
        assert(n % 10 == n);
        assert(decimal_numeral(n) =~= Seq::<char>::empty().push(digit_char(n)));
    } else {
        assert(n / 10 != 0);
    }
}

/// The one-character text of a digit.
pub(crate) fn digit_str(digit: u8) -> (text: &'static str)
    requires
        digit < 16,
    ensures
        text@ == seq![digit_char(digit as nat)],
{
    proof {
        reveal_strlit("0");
        reveal_strlit("1");
        reveal_strlit("2");
        reveal_strlit("3");
        reveal_strlit("4");
        reveal_strlit("5");
        reveal_strlit("6");
        reveal_strlit("7");
        reveal_strlit("8");
        reveal_strlit("9");
        reveal_strlit("a");
        reveal_strlit("b");
        reveal_strlit("c");
        reveal_strlit("d");
        reveal_strlit("e");
        reveal_strlit("f");
    }
    let text = match digit {
        0 => "0",
        1 => "1",
        2 => "2",
        3 => "3",
        4 => "4",
        5 => "5",
        6 => "6",
        7 => "7",
        8 => "8",
        9 => "9",
        10 => "a",
        11 => "b",
        12 => "c",
        13 => "d",
        14 => "e",
        _ => "f",
    };
    assert(text@ =~= seq![digit_char(digit as nat)]);
    text
}

/// Appends to `text` the characters of `digits`, which were gathered last
/// digit first.
pub(crate) fn append_digits(text: &mut String, digits: &Vec<u8>)
    requires
        forall|i: int| 0 <= i < digits@.len() ==> digits@[i] < 16,
    ensures
        final(text)@ == old(text)@ + digits_text(digits@),
{
    let ghost before = text@;
    let mut left: usize = digits.len();
    while left > 0
        invariant
            left <= digits@.len(),
            forall|i: int| 0 <= i < digits@.len() ==> digits@[i] < 16,
            text@ == before + digits_text(digits@).subrange(0, digits@.len() - left),
        decreases left,
    {
        left = left - 1;
        text.append(digit_str(digits[left]));
        assert(text@ =~= before + digits_text(digits@).subrange(0, digits@.len() - left)) by {
            let written = digits@.len() - left;
            assert(digits_text(digits@)[written - 1] == digit_char(digits@[left as int] as nat));
            assert(digits_text(digits@).subrange(0, written) =~= digits_text(digits@).subrange(
                0,
                written - 1,
            ).push(digit_char(digits@[left as int] as nat)));
        }
    }
    assert(digits_text(digits@).subrange(0, digits@.len() as int) =~= digits_text(digits@));
}

/// The decimal numeral of `n`.
pub fn decimal_string(n: u64) -> (text: String)
    ensures
        text@ == decimal_numeral(n as nat),
{
    let mut digits: Vec<u8> = Vec::new();
    let mut rest: u64 = n / 10;
    digits.push((n % 10) as u8);
    proof {
        lemma_decimal_numeral_step(n as nat);
        assert(digits_text(digits@) =~= seq![digit_char((n % 10) as nat)]);
        assert(decimal_numeral(n as nat) =~= decimal_front(rest as nat) + digits_text(digits@));
    }
    while rest > 0
        invariant
            forall|i: int| 0 <= i < digits@.len() ==> digits@[i] < 16,
            decimal_numeral(n as nat) == decimal_front(rest as nat) + digits_text(digits@),
        decreases rest,
    {
        let ghost gathered = digits@;
        let ghost front = rest;
        digits.push((rest % 10) as u8);
        rest = rest / 10;
        proof {
            lemma_decimal_numeral_step(front as nat);
            assert(digits_text(digits@) =~= seq![digit_char((front % 10) as nat)] + digits_text(
                gathered,
            ));
            assert(decimal_front(front as nat) + digits_text(gathered) =~= decimal_front(
                rest as nat,
            ) + digits_text(digits@));
        }
    }
    let mut text = String::new();
    append_digits(&mut text, &digits);
    assert(text@ =~= decimal_numeral(n as nat));
    text
}

} // verus!
