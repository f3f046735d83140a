//! Elements of the Stark field, the one value type of the ledger: addresses,
//! storage keys, hashes and stored values are all field elements.

use vstd::prelude::*;
use vstd::string::StringExecFns;
use crate::text::{
    append_digits, decimal_front, decimal_numeral, digit_char, digits_text, hex_front,
    hex_numeral, lemma_decimal_numeral_step, lemma_hex_numeral_step, prefixed_hex,
};

verus! {

/// The order of the field: `2^251 + 17 * 2^192 + 1`.
pub open spec fn prime() -> nat {
    0x800000000000011000000000000000000000000000000000000000000000001nat
}

/// The number that four 64-bit digits denote, most significant digit first.
pub open spec fn digits_value(digits: [u64; 4]) -> nat {
    (digits[0] * 0x1000000000000000000000000000000000000000000000000nat + digits[1]
        * 0x100000000000000000000000000000000nat + digits[2] * 0x10000000000000000nat
        + digits[3]) as nat
}

/// An element of the field, held as its least non-negative representative.
///
/// The view of an element is that representative, a natural number below
/// [`prime`]. Two elements are equal exactly when their views are.
#[derive(Clone, Copy, Debug, PartialEq, Eq, Hash, Structural)]
pub struct Felt {
    // The four 64-bit digits of the representative, `d0` the most significant.
    d0: u64,
    d1: u64,
    d2: u64,
    d3: u64,
}

impl View for Felt {
    type V = nat;

    closed spec fn view(&self) -> nat {
        digits_value([self.d0, self.d1, self.d2, self.d3])
    }
}

impl Felt {
    #[verifier::type_invariant]
    spec fn canonical(self) -> bool {
        self@ < prime()
    }

    /// The element whose representative is `value`.
    pub closed spec fn spec_from_u64(value: u64) -> Felt {
        Felt { d0: 0, d1: 0, d2: 0, d3: value }
    }

    /// The element whose representative is `value`.
    #[verifier::when_used_as_spec(spec_from_u64)]
    pub fn from_u64(value: u64) -> (felt: Felt)
        ensures
            felt == Felt::spec_from_u64(value),
            felt@ == value,
    {
        Felt { d0: 0, d1: 0, d2: 0, d3: value }
    }

    /// The representative as a 64-bit number, if it fits in one.
    pub fn to_u64(&self) -> (value: Option<u64>)
        ensures
            self@ <= u64::MAX ==> value == Some(self@ as u64),
            self@ > u64::MAX ==> value.is_none(),
    {
        if self.d0 == 0 && self.d1 == 0 && self.d2 == 0 {
            Some(self.d3)
        } else {
            None
        }
    }

    /// The element that four 64-bit digits denote, most significant first, or
    /// nothing where they denote a number that is no representative.
    pub fn from_be_digits(digits: [u64; 4]) -> (felt: Option<Felt>)
        ensures
            digits_value(digits) < prime() ==> felt.is_some() && felt.unwrap()@ == digits_value(
                digits,
            ),
            digits_value(digits) >= prime() ==> felt.is_none(),
    {
        let top: u64 = 0x0800_0000_0000_0011;
        if digits[0] < top || (digits[0] == top && digits[1] == 0 && digits[2] == 0 && digits[3]
            == 0) {
            Some(Felt { d0: digits[0], d1: digits[1], d2: digits[2], d3: digits[3] })
        } else {
            None
        }
    }

    /// The digits of the representative, most significant first.
    pub fn to_be_digits(&self) -> (digits: [u64; 4])
        ensures
            digits_value(digits) == self@,
            self@ < prime(),
    {
        proof {
            use_type_invariant(self);
        }
        [self.d0, self.d1, self.d2, self.d3]
    }

    /// Whether this is the zero of the field.
    pub fn is_zero(&self) -> (zero: bool)
        ensures
            zero == (self@ == 0),
    {
        self.d0 == 0 && self.d1 == 0 && self.d2 == 0 && self.d3 == 0
    }

    /// The sixteenth part of the representative, rounded down, and the
    /// remainder: the numeral without its last hexadecimal digit, and that
    /// digit.
    fn split_last_hex_digit(&self) -> (parts: (Felt, u8))
        ensures
            parts.0@ == self@ / 16,
            parts.1 == self@ % 16,
    {
        proof {
            use_type_invariant(self);
        }
        let carry: u64 = 0x1000_0000_0000_0000;
        let front = Felt {
            d0: self.d0 / 16,
            d1: self.d1 / 16 + (self.d0 % 16) * carry,
            d2: self.d2 / 16 + (self.d1 % 16) * carry,
            d3: self.d3 / 16 + (self.d2 % 16) * carry,
        };
        (front, (self.d3 % 16) as u8)
    }

    /// The representative as a hexadecimal numeral in lower case, after the
    /// prefix `0x`: `0x0` for zero, and no leading zero otherwise.
    pub fn to_hex_string(&self) -> (text: String)
        ensures
            text@ == prefixed_hex(self@),
    {
        let mut digits: Vec<u8> = Vec::new();
        let (mut rest, last) = self.split_last_hex_digit();
        digits.push(last);
        proof {
            lemma_hex_numeral_step(self@);
            assert(digits_text(digits@) =~= seq![digit_char(last as nat)]);
            assert(hex_numeral(self@) =~= hex_front(rest@) + digits_text(digits@));
        }
        while !rest.is_zero()
            invariant
                forall|i: int| 0 <= i < digits@.len() ==> digits@[i] < 16,
                hex_numeral(self@) == hex_front(rest@) + digits_text(digits@),
            decreases rest@,
        {
            let ghost gathered = digits@;
            let ghost front = rest@;
            let (next, last) = rest.split_last_hex_digit();
            digits.push(last);
            rest = next;
            proof {
                lemma_hex_numeral_step(front);
                assert(digits_text(digits@) =~= seq![digit_char(last as nat)] + digits_text(
                    gathered,
                ));
                assert(hex_front(front) + digits_text(gathered) =~= hex_front(rest@)
                    + digits_text(digits@));
            }
        }
        let mut text = String::from_str("0x");
        proof {
            reveal_strlit("0x");
            assert(text@ =~= seq!['0', 'x']);
        }
        append_digits(&mut text, &digits);
        assert(text@ =~= seq!['0', 'x'] + hex_numeral(self@));
        text
    }

    /// The tenth part of the representative, rounded down, and the remainder:
    /// the numeral without its last decimal digit, and that digit.
    fn split_last_decimal_digit(&self) -> (parts: (Felt, u8))
        ensures
            parts.0@ == self@ / 10,
            parts.1 == self@ % 10,
    {
        proof {
            use_type_invariant(self);
        }
        let base: u128 = 0x1_0000_0000_0000_0000;
        let q0: u64 = self.d0 / 10;
        let r0: u64 = self.d0 % 10;
        let c1: u128 = (r0 as u128) * base + (self.d1 as u128);
        let q1: u64 = (c1 / 10) as u64;
        let r1: u64 = (c1 % 10) as u64;
        let c2: u128 = (r1 as u128) * base + (self.d2 as u128);
        let q2: u64 = (c2 / 10) as u64;
        let r2: u64 = (c2 % 10) as u64;
        let c3: u128 = (r2 as u128) * base + (self.d3 as u128);
        let q3: u64 = (c3 / 10) as u64;
        let r3: u64 = (c3 % 10) as u64;
        (Felt { d0: q0, d1: q1, d2: q2, d3: q3 }, r3 as u8)
    }

    /// The representative as a decimal numeral: `0` for zero, and no leading
    /// zero otherwise.
    pub fn to_decimal_string(&self) -> (text: String)
        ensures
            text@ == decimal_numeral(self@),
    {
        let mut digits: Vec<u8> = Vec::new();
        let (mut rest, last) = self.split_last_decimal_digit();
        digits.push(last);
        proof {
            lemma_decimal_numeral_step(self@);
            assert(digits_text(digits@) =~= seq![digit_char(last as nat)]);
            assert(decimal_numeral(self@) =~= decimal_front(rest@) + digits_text(digits@));
        }
        while !rest.is_zero()
            invariant
                forall|i: int| 0 <= i < digits@.len() ==> digits@[i] < 16,
                decimal_numeral(self@) == decimal_front(rest@) + digits_text(digits@),
            decreases rest@,
        {
            let ghost gathered = digits@;
            let ghost front = rest@;
            let (next, last) = rest.split_last_decimal_digit();
            digits.push(last);
            rest = next;
            proof {
                lemma_decimal_numeral_step(front);
                assert(digits_text(digits@) =~= seq![digit_char(last as nat)] + digits_text(
                    gathered,
                ));
                assert(decimal_front(front) + digits_text(gathered) =~= decimal_front(rest@)
                    + digits_text(digits@));
            }
        }
        let mut text = String::new();
        append_digits(&mut text, &digits);
        assert(text@ =~= decimal_numeral(self@));
        text
    }

    /// The element made from a 64-bit number has that number as its view.
    pub proof fn lemma_from_u64_view(value: u64)
        ensures
            Felt::spec_from_u64(value)@ == value,
    {
    }

    /// Elements with equal views are equal.
    pub proof fn lemma_view_injective(a: Felt, b: Felt)
        requires
            a@ == b@,
        ensures
            a == b,
    {
        let high_a = a.d0 * 0x100000000000000000000000000000000int + a.d1 * 0x10000000000000000int
            + a.d2;
        let high_b = b.d0 * 0x100000000000000000000000000000000int + b.d1 * 0x10000000000000000int
            + b.d2;
        lemma_last_digit(high_a, a.d3 as int, high_b, b.d3 as int);
        lemma_last_digit(
            a.d0 * 0x10000000000000000int + a.d1,
            a.d2 as int,
            b.d0 * 0x10000000000000000int + b.d1,
            b.d2 as int,
        );
        lemma_last_digit(a.d0 as int, a.d1 as int, b.d0 as int, b.d1 as int);
    }
}

/// A number splits in one way only into a last 64-bit digit and the digits
/// before it.
proof fn lemma_last_digit(high_a: int, low_a: int, high_b: int, low_b: int)
    requires
        0 <= low_a < 0x10000000000000000,
        0 <= low_b < 0x10000000000000000,
        high_a * 0x10000000000000000 + low_a == high_b * 0x10000000000000000 + low_b,
    ensures
        high_a == high_b,
        low_a == low_b,
{
}

} // verus!
