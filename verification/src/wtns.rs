//! The witness file that a generator writes: a fixed header and then the
//! values of the witness, each in 32 bytes, least significant byte first.
//!
//! | bytes      | holds                                             |
//! |------------|---------------------------------------------------|
//! | `0..4`     | the letters `wtns`                                |
//! | `4..8`     | the format's version, at most 2                   |
//! | `8..12`    | the number of sections, 2                         |
//! | `12..16`   | the first section's kind, 1                       |
//! | `16..24`   | the first section's length, 40                    |
//! | `24..28`   | the number of bytes of a value, 32                |
//! | `28..60`   | the field's modulus                               |
//! | `60..64`   | the number of values                              |
//! | `64..68`   | the second section's kind, 2                      |
//! | `68..76`   | the second section's length, 32 for each value    |
//! | `76..`     | the values                                        |
//!
//! Every number is written least significant byte first.

use crate::codec::{le_value, FieldElement};
use crate::gateway::GatewayError;
use vstd::prelude::*;

verus! {

/// The number of bytes before the first value.
pub const HEADER_BYTES: usize = 76;

/// The number of bytes of a value.
pub const VALUE_BYTES: usize = 32;

/// The number in the 4 bytes of `bytes` from `at` on.
pub open spec fn word_at(bytes: Seq<u8>, at: int) -> nat {
    le_value(bytes.subrange(at, at + 4))
}

/// The number in the 8 bytes of `bytes` from `at` on.
pub open spec fn long_at(bytes: Seq<u8>, at: int) -> nat {
    le_value(bytes.subrange(at, at + 8))
}

/// The number of values that the header of a witness file announces.
pub open spec fn value_count(bytes: Seq<u8>) -> nat {
    word_at(bytes, 60)
}

/// `bytes` begin with a witness file: the header is as the format has it,
/// and every value that it announces is there. The modulus is not examined,
/// and what follows the last value is not either.
pub open spec fn is_witness_file(bytes: Seq<u8>) -> bool {
    &&& bytes.len() >= HEADER_BYTES
    &&& bytes.subrange(0, 4) == seq![0x77u8, 0x74u8, 0x6eu8, 0x73u8]
    &&& word_at(bytes, 4) <= 2
    &&& word_at(bytes, 8) == 2
    &&& word_at(bytes, 12) == 1
    &&& long_at(bytes, 16) == 40
    &&& word_at(bytes, 24) == VALUE_BYTES
    &&& word_at(bytes, 64) == 2
    &&& long_at(bytes, 68) == VALUE_BYTES * value_count(bytes)
    &&& bytes.len() >= HEADER_BYTES + VALUE_BYTES * value_count(bytes)
}

/// The bytes of the value at `index` in a witness file.
pub open spec fn value_at(bytes: Seq<u8>, index: int) -> Seq<u8> {
    bytes.subrange(HEADER_BYTES + VALUE_BYTES * index, HEADER_BYTES + VALUE_BYTES * index + VALUE_BYTES)
}

/// Four bytes hold the sum of each byte times the power of 256 of its place.
pub proof fn lemma_word_value(s: Seq<u8>)
    requires
        s.len() == 4,
    ensures
        le_value(s) == s[0] + 256 * s[1] + 65536 * s[2] + 16777216 * s[3],
{
    reveal_with_fuel(le_value, 5);
    let s1 = s.drop_first();
    let s2 = s1.drop_first();
    let s3 = s2.drop_first();
    assert(s1.first() == s[1]);
    assert(s2.first() == s[2]);
    assert(s3.first() == s[3]);
    assert(s3.drop_first().len() == 0);
}

/// Eight bytes hold the number of the lower four plus 2^32 times the number
/// of the upper four.
pub proof fn lemma_long_value(s: Seq<u8>)
    requires
        s.len() == 8,
    ensures
        le_value(s) == le_value(s.subrange(0, 4)) + 4294967296 * le_value(s.subrange(4, 8)),
{
    let low = s.subrange(0, 4);
    let high = s.subrange(4, 8);
    lemma_word_value(low);
    lemma_word_value(high);
    reveal_with_fuel(le_value, 5);
    let s1 = s.drop_first();
    let s2 = s1.drop_first();
    let s3 = s2.drop_first();
    let s4 = s3.drop_first();
    assert(s1.first() == s[1]);
    assert(s2.first() == s[2]);
    assert(s3.first() == s[3]);
    assert(s4 =~= high);
    assert(le_value(s) == s[0] + 256 * (s[1] + 256 * (s[2] + 256 * (s[3] + 256 * le_value(s4)))));
}

/// Reads the number in the 4 bytes from `at` on.
fn read_word(bytes: &[u8], at: usize) -> (word: u32)
    requires
        at + 4 <= bytes.len(),
    ensures
        word == word_at(bytes@, at as int),
{
    let b0 = bytes[at] as u32;
    let b1 = bytes[at + 1] as u32;
    let b2 = bytes[at + 2] as u32;
    let b3 = bytes[at + 3] as u32;
    proof {
        lemma_word_value(bytes@.subrange(at as int, at + 4));
    }
    b0 + 256 * b1 + 65536 * b2 + 16777216 * b3
}

/// Reads the number in the 8 bytes from `at` on.
fn read_long(bytes: &[u8], at: usize) -> (long: u64)
    requires
        at + 8 <= bytes.len(),
    ensures
        long == long_at(bytes@, at as int),
{
    let low = read_word(bytes, at) as u64;
    let high = read_word(bytes, at + 4) as u64;
    proof {
        let s = bytes@.subrange(at as int, at + 8);
        lemma_long_value(s);
        assert(s.subrange(0, 4) =~= bytes@.subrange(at as int, at + 4));
        assert(s.subrange(4, 8) =~= bytes@.subrange(at + 4, at + 8));
    }
    low + 4294967296 * high
}

/// Whether `bytes` begin with a witness file, and the number of its values.
fn read_header(bytes: &[u8]) -> (count: Option<usize>)
    ensures
        count is Some <==> is_witness_file(bytes@),
        count matches Some(n) ==> n == value_count(bytes@),
{
    if bytes.len() < HEADER_BYTES {
        return None;
    }
    if bytes[0] != 0x77 || bytes[1] != 0x74 || bytes[2] != 0x6e || bytes[3] != 0x73 {
        assert(bytes@.subrange(0, 4)[0] == bytes@[0]);
        assert(bytes@.subrange(0, 4)[1] == bytes@[1]);
        assert(bytes@.subrange(0, 4)[2] == bytes@[2]);
        assert(bytes@.subrange(0, 4)[3] == bytes@[3]);
        return None;
    }
    assert(bytes@.subrange(0, 4) =~= seq![0x77u8, 0x74u8, 0x6eu8, 0x73u8]);
    if read_word(bytes, 4) > 2 || read_word(bytes, 8) != 2 || read_word(bytes, 12) != 1 {
        return None;
    }
    if read_long(bytes, 16) != 40 || read_word(bytes, 24) != 32 || read_word(bytes, 64) != 2 {
        return None;
    }
    let count = read_word(bytes, 60);
    let data_bytes: u64 = 32 * (count as u64);
    if read_long(bytes, 68) != data_bytes {
        return None;
    }
    if (bytes.len() as u64) < 76 + data_bytes {
        return None;
    }
    Some(count as usize)
}

/// Reads a witness file. The values come out in the file's order, each as
/// the 32 bytes that the file holds for it. What does not begin with a
/// witness file is refused as `GeneratorRejected`.
pub fn decode_witness(bytes: &[u8]) -> (r: Result<Vec<FieldElement>, GatewayError>)
    ensures
        r is Ok <==> is_witness_file(bytes@),
        r matches Ok(values) ==> {
            &&& values@.len() == value_count(bytes@)
            &&& forall|i: int|
                0 <= i < values@.len() ==> (#[trigger] values@[i])@ == value_at(bytes@, i)
        },
        r matches Err(e) ==> e == GatewayError::GeneratorRejected,
{
    let count = match read_header(bytes) {
        Some(count) => count,
        None => {
            return Err(GatewayError::GeneratorRejected);
        },
    };
    let mut values: Vec<FieldElement> = Vec::new();
    let mut i: usize = 0;
    while i < count
        invariant
            bytes.len() == bytes@.len(),
            is_witness_file(bytes@),
            count == value_count(bytes@),
            i <= count,
            values@.len() == i,
            forall|k: int| 0 <= k < i ==> (#[trigger] values@[k])@ == value_at(bytes@, k),
        decreases count - i,
    {
        let start = HEADER_BYTES + VALUE_BYTES * i;
        let mut repr = [0u8; 32];
        let mut j: usize = 0;
        while j < VALUE_BYTES
            invariant
                start + VALUE_BYTES <= bytes.len(),
                j <= VALUE_BYTES,
                forall|k: int| 0 <= k < j ==> repr@[k] == bytes@[start + k],
            decreases VALUE_BYTES - j,
        {
            repr[j] = bytes[start + j];
            j = j + 1;
        }
        let value = FieldElement::from_repr(repr);
        assert(value@ =~= value_at(bytes@, i as int));
        values.push(value);
        i = i + 1;
    }
    Ok(values)
}

} // verus!
