//! Positional numerals: what a string of digits in a radix denotes, and the
//! canonical text of a natural number in a radix.

use vstd::arithmetic::div_mod::{
    lemma_div_decreases, lemma_div_non_zero, lemma_fundamental_div_mod, lemma_mod_bound,
};
use vstd::prelude::*;

verus! {

/// The value of `c` read as a digit: `0..=9` for the decimal digits, `10..=35`
/// for the letters of either case, and `-1` for any other character.
pub open spec fn digit_value(c: char) -> int {
    if '0' <= c <= '9' {
        c as int - '0' as int
    } else if 'a' <= c <= 'z' {
        c as int - 'a' as int + 10
    } else if 'A' <= c <= 'Z' {
        c as int - 'A' as int + 10
    } else {
        -1
    }
}

/// The lower-case digit character for `d`, where `0 <= d < 36`.
pub open spec fn digit_char(d: int) -> char {
    if d < 10 {
        ((d + '0' as int) as u8) as char
    } else {
        ((d - 10 + 'a' as int) as u8) as char
    }
}

/// `s` is a numeral in `radix`: it is not empty and each character is a digit
/// below `radix`. No sign, no separator and no prefix is part of a numeral.
pub open spec fn is_numeral(s: Seq<char>, radix: int) -> bool {
    &&& s.len() > 0
    &&& forall|i: int| 0 <= i < s.len() ==> 0 <= digit_value(#[trigger] s[i]) < radix
}

/// The number that the digits of `s` denote in `radix`, most significant
/// digit first.
pub open spec fn numeral_value(s: Seq<char>, radix: int) -> int
    decreases s.len(),
{
    if s.len() == 0 {
        0
    } else {
        numeral_value(s.drop_last(), radix) * radix + digit_value(s.last())
    }
}

/// The canonical text of `n` in `radix`: lower-case digits, most significant
/// first, no leading zero except for zero itself, which is `"0"`.
pub open spec fn numeral_text(n: nat, radix: int) -> Seq<char>
    decreases n,
{
    if radix < 2 || n < radix {
        seq![digit_char(n as int)]
    } else {
        proof {
            lemma_div_decreases(n as int, radix);
        }
        numeral_text(n / (radix as nat), radix).push(digit_char(n as int % radix))
    }
}

/// A numeral denotes a number that is not negative.
pub proof fn lemma_numeral_value_bounds(s: Seq<char>, radix: int)
    requires
        radix >= 1,
        forall|i: int| 0 <= i < s.len() ==> 0 <= digit_value(#[trigger] s[i]) < radix,
    ensures
        numeral_value(s, radix) >= 0,
    decreases s.len(),
{
    if s.len() > 0 {
        let init = s.drop_last();
        assert forall|i: int| 0 <= i < init.len() implies 0 <= digit_value(#[trigger] init[i])
            < radix by {
            assert(init[i] == s[i]);
        }
        lemma_numeral_value_bounds(init, radix);
        assert(numeral_value(init, radix) * radix >= 0) by (nonlinear_arith)
            requires
                numeral_value(init, radix) >= 0,
                radix >= 1,
        ;
    }
}

/// A digit character denotes the digit it was made from.
pub proof fn lemma_digit_char_value(d: int)
    requires
        0 <= d < 36,
    ensures
        digit_value(digit_char(d)) == d,
{
}

/// The canonical text of a number is a numeral of that radix.
pub proof fn lemma_text_is_numeral(n: nat, radix: int)
    requires
        2 <= radix <= 36,
    ensures
        is_numeral(numeral_text(n, radix), radix),
    decreases n,
{
    if n < radix {
        lemma_digit_char_value(n as int);
    } else {
        let q = n / (radix as nat);
        let d = n as int % radix;
        lemma_div_decreases(n as int, radix);
        lemma_mod_bound(n as int, radix);
        lemma_text_is_numeral(q, radix);
        lemma_digit_char_value(d);
        let head = numeral_text(q, radix);
        let whole = head.push(digit_char(d));
        assert forall|i: int| 0 <= i < whole.len() implies 0 <= digit_value(#[trigger] whole[i])
            < radix by {
            if i < head.len() {
                assert(whole[i] == head[i]);
            }
        }
    }
}

/// Reading the canonical text of a number gives the number back.
pub proof fn lemma_text_value(n: nat, radix: int)
    requires
        2 <= radix <= 36,
    ensures
        numeral_value(numeral_text(n, radix), radix) == n,
    decreases n,
{
    if n < radix {
        lemma_digit_char_value(n as int);
        let one = seq![digit_char(n as int)];
        assert(one.drop_last() =~= Seq::<char>::empty());
        assert(numeral_value(one.drop_last(), radix) == 0);
    } else {
        let q = n / (radix as nat);
        let d = n as int % radix;
        lemma_div_decreases(n as int, radix);
        lemma_mod_bound(n as int, radix);
        lemma_text_value(q, radix);
        lemma_digit_char_value(d);
        let head = numeral_text(q, radix);
        let whole = head.push(digit_char(d));
        assert(whole.drop_last() =~= head);
        lemma_fundamental_div_mod(n as int, radix);
        assert(q * radix == radix * (n as int / radix)) by (nonlinear_arith)
            requires
                q == n as int / radix,
        ;
    }
}

/// The canonical text has no leading zero, except that zero is written `"0"`.
pub proof fn lemma_text_leading_digit(n: nat, radix: int)
    requires
        2 <= radix <= 36,
    ensures
        numeral_text(n, radix).len() >= 1,
        n == 0 ==> numeral_text(n, radix) =~= seq!['0'],
        n > 0 ==> digit_value(numeral_text(n, radix)[0]) > 0,
    decreases n,
{
    if n < radix {
        lemma_digit_char_value(n as int);
    } else {
        let q = n / (radix as nat);
        lemma_div_decreases(n as int, radix);
        lemma_div_non_zero(n as int, radix);
        lemma_text_leading_digit(q, radix);
    }
}

} // verus!
