//! What numerals stand for.
use vstd::prelude::*;

use crate::text::{digit, hex_digit, hex_numeral, hex_range, numeral};

verus! {

/// The number that a digit stands for; letters stand for ten and more.
pub open spec fn value_of(c: char) -> int {
    if '0' <= c <= '9' {
        c as int - '0' as int
    } else {
        c as int - 'a' as int + 10
    }
}

/// The number that digits stand for in a base: each place counts the base times
/// the place behind it.
pub open spec fn number_of_digits(s: Seq<char>, base: int) -> int
    decreases s.len(),
{
    if s.len() == 0 {
        0
    } else {
        number_of_digits(s.drop_last(), base) * base + value_of(s.last())
    }
}

/// A decimal numeral stands for its number, and has no leading zero.
pub proof fn lemma_numerals_stand_for_numbers(n: nat)
    ensures
        number_of_digits(numeral(n), 10) == n,
        numeral(n).len() > 0,
        numeral(n).len() > 1 ==> numeral(n)[0] != '0',
        forall|i: int| 0 <= i < numeral(n).len() ==> '0' <= #[trigger] numeral(n)[i] <= '9',
    decreases n,
{
    assert(value_of(digit(n % 10)) == n % 10);
    if n < 10 {
        reveal_with_fuel(number_of_digits, 2);
        assert(numeral(n).drop_last() =~= Seq::empty());
        assert(numeral(n).last() == digit(n));
    } else {
        lemma_numerals_stand_for_numbers(n / 10);
        assert(numeral(n).drop_last() =~= numeral(n / 10));
        if n / 10 < 10 {
            assert(numeral(n)[0] == digit(n / 10));
            assert(value_of(digit(n / 10)) == n / 10);
        } else {
            lemma_numerals_stand_for_numbers((n / 10) / 10);
            assert(numeral(n)[0] == numeral(n / 10)[0]);
        }
    }
}

/// A hexadecimal numeral of a width stands for its number, if that fits in the
/// width.
pub proof fn lemma_hex_numerals_stand_for_numbers(n: nat, width: nat)
    requires
        n < hex_range(width),
    ensures
        number_of_digits(hex_numeral(n, width), 16) == n,
        hex_numeral(n, width).len() == width,
    decreases width,
{
    if width > 0 {
        let shorter = (width - 1) as nat;
        lemma_hex_numerals_stand_for_numbers(n / 16, shorter);
        assert(hex_numeral(n, width).drop_last() =~= hex_numeral(n / 16, shorter));
        assert(value_of(hex_digit(n % 16)) == n % 16);
    }
}

} // verus!
