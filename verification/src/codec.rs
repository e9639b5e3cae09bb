//! The numeral codec: field elements as canonical bytes, as hexadecimal text
//! and as decimal text.

use crate::bignum::{format_radix, parse_radix};
use crate::error::ErrorKind;
use crate::numeral::{
    digit_char, digit_value, is_numeral, lemma_digit_char_value, lemma_numeral_value_bounds,
    lemma_text_is_numeral, lemma_text_value, numeral_text, numeral_value,
};
use vstd::prelude::*;
use vstd::string::{is_ascii, is_ascii_spec_bytes, StringExecFns};

verus! {

/// The number that `bytes` hold, least significant byte first.
pub open spec fn le_value(bytes: Seq<u8>) -> nat
    decreases bytes.len(),
{
    if bytes.len() == 0 {
        0
    } else {
        bytes.first() as nat + 256 * le_value(bytes.drop_first())
    }
}

/// The two hexadecimal digits of a byte, high digit first.
pub open spec fn byte_hex(b: u8) -> Seq<char> {
    seq![digit_char(b as int / 16), digit_char(b as int % 16)]
}

/// The hexadecimal text of a number held least significant byte first: two
/// lower-case digits for each byte, most significant byte first, no prefix.
pub open spec fn hex_of_le_bytes(bytes: Seq<u8>) -> Seq<char>
    decreases bytes.len(),
{
    if bytes.len() == 0 {
        Seq::<char>::empty()
    } else {
        hex_of_le_bytes(bytes.drop_first()) + byte_hex(bytes.first())
    }
}

/// The hexadecimal text of some bytes has two digits for each byte, and each
/// of them is a hexadecimal digit.
pub proof fn lemma_hex_digits(bytes: Seq<u8>)
    ensures
        hex_of_le_bytes(bytes).len() == 2 * bytes.len(),
        forall|i: int|
            0 <= i < hex_of_le_bytes(bytes).len() ==> 0 <= digit_value(
                #[trigger] hex_of_le_bytes(bytes)[i],
            ) < 16,
    decreases bytes.len(),
{
    if bytes.len() > 0 {
        let rest = hex_of_le_bytes(bytes.drop_first());
        let low = byte_hex(bytes.first());
        lemma_hex_digits(bytes.drop_first());
        lemma_digit_char_value(bytes.first() as int / 16);
        lemma_digit_char_value(bytes.first() as int % 16);
        let whole = hex_of_le_bytes(bytes);
        assert(whole == rest + low);
        assert forall|i: int| 0 <= i < whole.len() implies 0 <= digit_value(#[trigger] whole[i])
            < 16 by {
            if i < rest.len() {
                assert(whole[i] == rest[i]);
            } else {
                assert(whole[i] == low[i - rest.len()]);
            }
        }
    }
}

/// Read in radix 16, the hexadecimal text of some bytes is the number that
/// the bytes hold.
pub proof fn lemma_hex_value(bytes: Seq<u8>)
    ensures
        numeral_value(hex_of_le_bytes(bytes), 16) == le_value(bytes),
    decreases bytes.len(),
{
    if bytes.len() > 0 {
        let b = bytes.first();
        let rest = hex_of_le_bytes(bytes.drop_first());
        let high = digit_char(b as int / 16);
        let low = digit_char(b as int % 16);
        lemma_hex_value(bytes.drop_first());
        lemma_digit_char_value(b as int / 16);
        lemma_digit_char_value(b as int % 16);
        let whole = hex_of_le_bytes(bytes);
        assert(whole == rest + seq![high, low]);
        assert(whole.drop_last() =~= rest.push(high));
        assert(whole.last() == low);
        assert(rest.push(high).drop_last() =~= rest);
        assert(numeral_value(rest.push(high), 16) == numeral_value(rest, 16) * 16 + b as int / 16);
        assert(numeral_value(whole, 16) == numeral_value(rest.push(high), 16) * 16 + b as int
            % 16);
    }
}

/// An element of the scalar field, held as its canonical representation: 32
/// bytes, least significant first.
#[derive(Clone, Copy, Debug, PartialEq, Eq)]
pub struct FieldElement {
    pub repr: [u8; 32],
}

impl View for FieldElement {
    type V = Seq<u8>;

    open spec fn view(&self) -> Seq<u8> {
        self.repr@
    }
}

/// The one-character text of a hexadecimal digit, in lower case.
fn hex_digit_text(d: u8) -> (text: &'static str)
    requires
        d < 16,
    ensures
        text@ == seq![digit_char(d as int)],
{
    let text = match d {
        0 => "0",
        1 => "1",
        2 => "2",
        3 => "3",
        4 => "4",
        5 => "5",
        6 => "6",
        7 => "7",
        8 => "8",
        9 => "9",
        10 => "a",
        11 => "b",
        12 => "c",
        13 => "d",
        14 => "e",
        _ => "f",
    };
    proof {
        reveal_strlit("0");
        reveal_strlit("1");
        reveal_strlit("2");
        reveal_strlit("3");
        reveal_strlit("4");
        reveal_strlit("5");
        reveal_strlit("6");
        reveal_strlit("7");
        reveal_strlit("8");
        reveal_strlit("9");
        reveal_strlit("a");
        reveal_strlit("b");
        reveal_strlit("c");
        reveal_strlit("d");
        reveal_strlit("e");
        reveal_strlit("f");
        assert(text@ =~= seq![digit_char(d as int)]);
    }
    text
}

impl FieldElement {
    /// The number that the element stands for.
    pub open spec fn value(&self) -> nat {
        le_value(self@)
    }

    /// The element with the given canonical representation.
    pub fn from_repr(repr: [u8; 32]) -> (e: FieldElement)
        ensures
            e@ == repr@,
    {
        FieldElement { repr }
    }

    /// The element's hexadecimal text: 64 lower-case digits, most significant
    /// first, without a radix prefix.
    pub fn to_hex(&self) -> (hex: String)
        ensures
            hex@ == hex_of_le_bytes(self@),
            hex@.len() == 64,
            is_numeral(hex@, 16),
            numeral_value(hex@, 16) == self.value(),
    {
        let mut hex = String::new();
        let mut m: usize = 32;
        assert(self.repr@.skip(32) =~= Seq::<u8>::empty());
        while m > 0
            invariant
                m <= 32,
                hex@ == hex_of_le_bytes(self.repr@.skip(m as int)),
            decreases m,
        {
            m = m - 1;
            let byte = self.repr[m];
            hex.append(hex_digit_text(byte / 16));
            hex.append(hex_digit_text(byte % 16));
            proof {
                let tail = self.repr@.skip(m as int);
                assert(tail.drop_first() =~= self.repr@.skip(m + 1));
                assert(tail.first() == byte);
                assert(hex@ =~= hex_of_le_bytes(tail.drop_first()) + byte_hex(byte));
            }
        }
        proof {
            assert(self.repr@.skip(0) =~= self.repr@);
            lemma_hex_digits(self@);
            lemma_hex_value(self@);
        }
        hex
    }

    /// The element's decimal text, as a circuit input wants it: no leading
    /// zero, `"0"` for zero.
    pub fn to_decimal(&self) -> (dec: String)
        ensures
            dec@ == numeral_text(self.value(), 10),
    {
        let hex = self.to_hex();
        match hex_to_decimal(hex.as_str()) {
            Ok(dec) => dec,
            Err(_) => unreached(),
        }
    }
}

/// Whether `b` is the code of a hexadecimal digit of either case.
fn is_hex_code(b: u8) -> (yes: bool)
    ensures
        yes == (0 <= digit_value(b as char) < 16),
{
    (48 <= b && b <= 57) || (97 <= b && b <= 102) || (65 <= b && b <= 70)
}

/// Whether `text` is a hexadecimal numeral: not empty, and nothing in it but
/// the digits `0-9`, `a-f` and `A-F`.
pub fn is_hex_numeral(text: &str) -> (yes: bool)
    ensures
        yes == is_numeral(text@, 16),
{
    if !text.is_ascii() {
        proof {
            let i = choose|i: int| 0 <= i < text@.len() && !('\0' <= #[trigger] text@[i] <= '\u{7f}');
            assert(digit_value(text@[i]) == -1);
        }
        return false;
    }
    proof {
        is_ascii_spec_bytes(text);
    }
    let bytes = text.as_bytes();
    let n = bytes.len();
    if n == 0 {
        return false;
    }
    let mut i: usize = 0;
    while i < n
        invariant
            i <= n,
            n == text@.len(),
            n == bytes@.len(),
            is_ascii(text),
            forall|j: int| 0 <= j < n ==> bytes@[j] == #[trigger] text@[j] as u8,
            forall|j: int| 0 <= j < i ==> 0 <= digit_value(#[trigger] text@[j]) < 16,
        decreases n - i,
    {
        let b = bytes[i];
        proof {
            assert(b == text@[i as int] as u8);
            assert(b as char == text@[i as int]);
        }
        if !is_hex_code(b) {
            return false;
        }
        i = i + 1;
    }
    true
}

/// The decimal text of the number that a hexadecimal numeral denotes. The
/// numeral is read as an unsigned integer of any size; a radix prefix is not
/// part of it. The result is a decimal numeral without a leading zero (`"0"`
/// for zero) that denotes the same number. What is no hexadecimal numeral is
/// refused as `MalformedNumeral`.
pub fn hex_to_decimal(hex: &str) -> (r: Result<String, ErrorKind>)
    ensures
        r is Ok <==> is_numeral(hex@, 16),
        r matches Ok(dec) ==> {
            &&& dec@ == numeral_text(numeral_value(hex@, 16) as nat, 10)
            &&& is_numeral(dec@, 10)
            &&& numeral_value(dec@, 10) == numeral_value(hex@, 16)
        },
        r matches Err(e) ==> e == ErrorKind::MalformedNumeral,
{
    if !is_hex_numeral(hex) {
        return Err(ErrorKind::MalformedNumeral);
    }
    proof {
        lemma_numeral_value_bounds(hex@, 16);
        lemma_text_is_numeral(numeral_value(hex@, 16) as nat, 10);
        lemma_text_value(numeral_value(hex@, 16) as nat, 10);
    }
    match parse_radix(hex, 16) {
        Some(n) => Ok(format_radix(&n, 10)),
        None => Err(ErrorKind::MalformedNumeral),
    }
}

} // verus!
