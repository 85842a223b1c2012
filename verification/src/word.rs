//! 256-bit numbers, their order and the distance between them.

use crate::hex::{name_number, NameError};
use std::cmp::Ordering;
use vstd::arithmetic::div_mod::{
    lemma_div_denominator, lemma_fundamental_div_mod, lemma_fundamental_div_mod_converse,
};
use vstd::prelude::*;

verus! {

/// The number that four 64-bit words write, the least significant first.
pub open spec fn words_value(words: Seq<u64>) -> nat {
    (words[0] + words[1] * 0x1_0000_0000_0000_0000
        + words[2] * 0x1_0000_0000_0000_0000_0000_0000_0000_0000
        + words[3] * 0x1_0000_0000_0000_0000_0000_0000_0000_0000_0000_0000_0000_0000) as nat
}

/// The four 64-bit words that write a number below 2^256, the least significant first.
pub open spec fn words_of(number: nat) -> Seq<u64> {
    let low = number % 0x1_0000_0000_0000_0000nat;
    let second = (number / 0x1_0000_0000_0000_0000nat) % 0x1_0000_0000_0000_0000nat;
    let third = (number / 0x1_0000_0000_0000_0000_0000_0000_0000_0000nat)
        % 0x1_0000_0000_0000_0000nat;
    let high = (number / 0x1_0000_0000_0000_0000_0000_0000_0000_0000_0000_0000_0000_0000nat)
        % 0x1_0000_0000_0000_0000nat;
    seq![low as u64, second as u64, third as u64, high as u64]
}

/// Whether a number has at most 256 bits.
pub open spec fn fits(number: nat) -> bool {
    number < 0x1_0000_0000_0000_0000_0000_0000_0000_0000_0000_0000_0000_0000_0000_0000_0000_0000
}

/// The distance between two numbers of at most 256 bits: their bitwise exclusive or.
pub open spec fn distance(a: nat, b: nat) -> nat {
    words_value(Seq::new(4, |i: int| words_of(a)[i] ^ words_of(b)[i]))
}

/// How two numbers compare.
pub open spec fn order(a: nat, b: nat) -> Ordering {
    if a < b {
        Ordering::Less
    } else if a == b {
        Ordering::Equal
    } else {
        Ordering::Greater
    }
}

/// The number that a row of bytes writes, the most significant first.
pub open spec fn bytes_value(bytes: Seq<u8>) -> nat
    decreases bytes.len(),
{
    if bytes.len() == 0 {
        0
    } else {
        bytes_value(bytes.drop_last()) * 256 + bytes.last() as nat
    }
}

/// What a parse into four words says of the number.
pub open spec fn numbered(result: Result<[u64; 4], NameError>) -> Result<nat, NameError> {
    match result {
        Ok(words) => Ok(words_value(words@)),
        Err(error) => Err(error),
    }
}

/// Calls `primitive_types::U256::from_str_radix`: it takes off a leading `0x`, refuses more than
/// 64 bytes, then refuses any byte that is no hexadecimal digit, and otherwise gives the number
/// that the digits write.
#[verifier::external_body]
fn u256_from_str_radix(text: &str, radix: u32) -> (number: Result<[u64; 4], NameError>)
    requires
        radix == 16,
    ensures
        numbered(number) == name_number(text@),
{
    match primitive_types::U256::from_str_radix(text, radix) {
        Ok(number) => Ok(number.0),
        Err(error) => match error.kind() {
            uint::FromStrRadixErrKind::InvalidLength => Err(NameError::InvalidLength),
            _ => Err(NameError::InvalidCharacter),
        },
    }
}

/// Calls `primitive_types::U256::from` on 32 bytes, which reads them as a big-endian number.
#[verifier::external_body]
fn u256_from_bytes(bytes: &[u8; 32]) -> (words: [u64; 4])
    ensures
        words_value(words@) == bytes_value(bytes@),
{
    primitive_types::U256::from(bytes).0
}

/// Calls the `^` of `primitive_types::U256`, which is the exclusive or word by word.
#[verifier::external_body]
fn u256_bitxor(a: [u64; 4], b: [u64; 4]) -> (words: [u64; 4])
    ensures
        forall|i: int| 0 <= i < 4 ==> #[trigger] words@[i] == a@[i] ^ b@[i],
{
    (primitive_types::U256(a) ^ primitive_types::U256(b)).0
}

/// Calls `cmp` of `primitive_types::U256`, which orders by the numbers that the words write.
#[verifier::external_body]
fn u256_cmp(a: [u64; 4], b: [u64; 4]) -> (ordering: Ordering)
    ensures
        ordering == order(words_value(a@), words_value(b@)),
{
    primitive_types::U256(a).cmp(&primitive_types::U256(b))
}

/// A 256-bit number.
#[derive(Clone, Copy, Debug, PartialEq, Eq)]
pub struct Word256 {
    /// Its 64-bit words, the least significant first.
    pub words: [u64; 4],
}

impl View for Word256 {
    type V = nat;

    open spec fn view(&self) -> nat {
        words_value(self.words@)
    }
}

/// The view of a fallible 256-bit number.
pub open spec fn word_result(result: Result<Word256, NameError>) -> Result<nat, NameError> {
    match result {
        Ok(word) => Ok(word@),
        Err(error) => Err(error),
    }
}

impl Word256 {
    /// The number that `text` writes in hexadecimal.
    pub fn from_hex(text: &str) -> (number: Result<Word256, NameError>)
        ensures
            word_result(number) == name_number(text@),
    {
        match u256_from_str_radix(text, 16) {
            Ok(words) => Ok(Word256 { words }),
            Err(error) => Err(error),
        }
    }

    /// The number that `bytes` writes, the most significant byte first.
    pub fn from_be_bytes(bytes: &[u8; 32]) -> (number: Word256)
        ensures
            number@ == bytes_value(bytes@),
    {
        Word256 { words: u256_from_bytes(bytes) }
    }

    /// The distance to `other`.
    pub fn distance(&self, other: &Word256) -> (number: Word256)
        ensures
            number@ == distance(self@, other@),
    {
        let words = u256_bitxor(self.words, other.words);
        proof {
            lemma_words_of_value(self.words@);
            lemma_words_of_value(other.words@);
            assert(words@ =~= Seq::new(
                4,
                |i: int| words_of(self@)[i] ^ words_of(other@)[i],
            ));
        }
        Word256 { words }
    }

    /// How the number compares with `other`.
    pub fn compare(&self, other: &Word256) -> (ordering: Ordering)
        ensures
            ordering == order(self@, other@),
    {
        u256_cmp(self.words, other.words)
    }
}

/// Four words are the words of the number that they write.
pub proof fn lemma_words_of_value(words: Seq<u64>)
    requires
        words.len() == 4,
    ensures
        fits(words_value(words)),
        words_of(words_value(words)) == words,
{
    let b: int = 0x1_0000_0000_0000_0000int;
    let bb: int = 0x1_0000_0000_0000_0000_0000_0000_0000_0000int;
    let bbb: int = 0x1_0000_0000_0000_0000_0000_0000_0000_0000_0000_0000_0000_0000int;
    let (w0, w1, w2, w3) = (
        words[0] as int,
        words[1] as int,
        words[2] as int,
        words[3] as int,
    );
    let n = words_value(words) as int;
    lemma_fundamental_div_mod_converse(n, b, w1 + w2 * b + w3 * bb, w0);
    lemma_fundamental_div_mod_converse(w1 + w2 * b + w3 * bb, b, w2 + w3 * b, w1);
    lemma_fundamental_div_mod_converse(n, bb, w2 + w3 * b, w0 + w1 * b);
    lemma_fundamental_div_mod_converse(w2 + w3 * b, b, w3, w2);
    lemma_fundamental_div_mod_converse(n, bbb, w3, w0 + w1 * b + w2 * bb);
    lemma_fundamental_div_mod_converse(w3, b, 0, w3);
    assert(words_of(words_value(words)) =~= words);
}

/// A number of at most 256 bits is what its words write.
pub proof fn lemma_value_of_words(number: nat)
    requires
        fits(number),
    ensures
        words_value(words_of(number)) == number,
{
    let b: int = 0x1_0000_0000_0000_0000int;
    let bb: int = 0x1_0000_0000_0000_0000_0000_0000_0000_0000int;
    let n = number as int;
    lemma_div_denominator(n, b, b);
    lemma_div_denominator(n, bb, b);
    lemma_fundamental_div_mod(n, b);
    lemma_fundamental_div_mod(n / b, b);
    lemma_fundamental_div_mod(n / bb, b);
    lemma_fundamental_div_mod_converse(n / bb / b, b, 0, n / bb / b);
}

/// The distance between two numbers has at most 256 bits, and its words are the exclusive or of
/// theirs.
pub proof fn lemma_distance_words(a: nat, b: nat)
    ensures
        fits(distance(a, b)),
        words_of(distance(a, b)) == Seq::new(4, |i: int| words_of(a)[i] ^ words_of(b)[i]),
{
    lemma_words_of_value(Seq::new(4, |i: int| words_of(a)[i] ^ words_of(b)[i]));
}

/// The distance is the same in both directions.
pub proof fn law_distance_symmetric(a: nat, b: nat)
    ensures
        distance(a, b) == distance(b, a),
{
    assert forall|i: int| 0 <= i < 4 implies words_of(a)[i] ^ words_of(b)[i] == words_of(b)[i]
        ^ words_of(a)[i] by {
        let (x, y) = (words_of(a)[i], words_of(b)[i]);
        assert(x ^ y == y ^ x) by (bit_vector);
    }
    assert(Seq::new(4, |i: int| words_of(a)[i] ^ words_of(b)[i]) =~= Seq::new(
        4,
        |i: int| words_of(b)[i] ^ words_of(a)[i],
    ));
}

/// From one number, no two numbers are at the same distance.
pub proof fn law_distance_unique(a: nat, b: nat, c: nat)
    requires
        fits(b),
        fits(c),
        distance(a, b) == distance(a, c),
    ensures
        b == c,
{
    lemma_distance_words(a, b);
    lemma_distance_words(a, c);
    let ab = Seq::new(4, |i: int| words_of(a)[i] ^ words_of(b)[i]);
    let ac = Seq::new(4, |i: int| words_of(a)[i] ^ words_of(c)[i]);
    assert forall|i: int| 0 <= i < 4 implies words_of(b)[i] == words_of(c)[i] by {
        let (x, y, z) = (words_of(a)[i], words_of(b)[i], words_of(c)[i]);
        assert(ab[i] == ac[i]);
        assert(x ^ y == x ^ z ==> y == z) by (bit_vector);
    }
    assert(words_of(b) =~= words_of(c));
    lemma_value_of_words(b);
    lemma_value_of_words(c);
}

/// A number is at distance zero from itself and from no other.
pub proof fn law_distance_zero(a: nat, b: nat)
    requires
        fits(a),
        fits(b),
    ensures
        distance(a, b) == 0 <==> a == b,
{
    assert forall|i: int| 0 <= i < 4 implies words_of(a)[i] ^ words_of(a)[i] == 0u64 by {
        let x = words_of(a)[i];
        assert(x ^ x == 0u64) by (bit_vector);
    }
    assert(distance(a, a) == 0);
    if distance(a, b) == 0 {
        law_distance_unique(a, a, b);
    }
}

/// A detour is never shorter: the distance meets the triangle inequality.
pub proof fn law_distance_triangle(a: nat, b: nat, c: nat)
    ensures
        distance(a, c) <= distance(a, b) + distance(b, c),
{
    assert forall|i: int| 0 <= i < 4 implies words_of(a)[i] ^ words_of(c)[i] <= (words_of(a)[i]
        ^ words_of(b)[i]) + (words_of(b)[i] ^ words_of(c)[i]) by {
        let (x, y, z) = (words_of(a)[i], words_of(b)[i], words_of(c)[i]);
        assert(x ^ z <= (x ^ y) + (y ^ z)) by (bit_vector);
    }
}

/// Distances compose: the exclusive or of the distances by way of another number is the distance.
pub proof fn law_distance_composes(a: nat, b: nat, c: nat)
    ensures
        distance(distance(a, b), distance(b, c)) == distance(a, c),
{
    lemma_distance_words(a, b);
    lemma_distance_words(b, c);
    let (ab, bc) = (distance(a, b), distance(b, c));
    assert forall|i: int| 0 <= i < 4 implies words_of(ab)[i] ^ words_of(bc)[i] == words_of(a)[i]
        ^ words_of(c)[i] by {
        let (x, y, z) = (words_of(a)[i], words_of(b)[i], words_of(c)[i]);
        assert((x ^ y) ^ (y ^ z) == x ^ z) by (bit_vector);
    }
    assert(Seq::new(4, |i: int| words_of(ab)[i] ^ words_of(bc)[i]) =~= Seq::new(
        4,
        |i: int| words_of(a)[i] ^ words_of(c)[i],
    ));
}

/// In every word the distance is the exclusive or of the two numbers; and it has no more bits.
pub proof fn law_distance_is_exclusive_or(a: nat, b: nat, i: int)
    requires
        0 <= i < 4,
    ensures
        words_of(distance(a, b))[i] == words_of(a)[i] ^ words_of(b)[i],
        fits(distance(a, b)),
{
    lemma_distance_words(a, b);
}

/// The distance from zero is the number itself.
pub proof fn law_distance_from_zero(a: nat)
    requires
        fits(a),
    ensures
        distance(a, 0) == a,
{
    assert forall|i: int| 0 <= i < 4 implies words_of(a)[i] ^ words_of(0)[i] == words_of(a)[i] by {
        let x = words_of(a)[i];
        assert(words_of(0)[i] == 0u64);
        assert(x ^ 0u64 == x) by (bit_vector);
    }
    assert(Seq::new(4, |i: int| words_of(a)[i] ^ words_of(0)[i]) =~= words_of(a));
    lemma_value_of_words(a);
}

/// The words of a number are its digits to the base 2^64, the least significant first.
pub proof fn law_words_write_the_number(words: Seq<u64>)
    requires
        words.len() == 4,
    ensures
        words_value(words) == words[0] + 0x1_0000_0000_0000_0000 * (words[1]
            + 0x1_0000_0000_0000_0000 * (words[2] + 0x1_0000_0000_0000_0000 * words[3])),
        words_of(words_value(words)) == words,
{
    lemma_words_of_value(words);
}

/// Numbers compare as less, equal or greater exactly where they are.
pub proof fn law_order_is_of_the_numbers(a: nat, b: nat)
    ensures
        order(a, b) is Less <==> a < b,
        order(a, b) is Equal <==> a == b,
        order(a, b) is Greater <==> a > b,
{
}

/// A 256-bit number that was found is its value, and a reason why none was is that reason.
pub proof fn law_result_is_the_number(word: Word256, error: NameError)
    ensures
        word_result(Ok(word)) == Ok::<nat, NameError>(words_value(word.words@)),
        word_result(Err(error)) == Err::<nat, NameError>(error),
        numbered(Ok(word.words)) == Ok::<nat, NameError>(words_value(word.words@)),
        numbered(Err(error)) == Err::<nat, NameError>(error),
{
}

/// Bytes write a number to the base 256: one more byte multiplies by 256 and adds its value.
pub proof fn law_bytes_are_read_in_order(bytes: Seq<u8>, byte: u8)
    ensures
        bytes_value(Seq::<u8>::empty()) == 0,
        bytes_value(bytes.push(byte)) == bytes_value(bytes) * 256 + byte,
{
    assert(bytes.push(byte).drop_last() =~= bytes);
}

/// Rows of bytes of one length that write the same number are the same.
pub proof fn law_bytes_are_told_apart(a: Seq<u8>, b: Seq<u8>)
    requires
        a.len() == b.len(),
        bytes_value(a) == bytes_value(b),
    ensures
        a == b,
    decreases a.len(),
{
    if a.len() > 0 {
        let (x, y) = (bytes_value(a.drop_last()), bytes_value(b.drop_last()));
        assert(x * 256 + a.last() == y * 256 + b.last());
        assert(x == y && a.last() == b.last());
        law_bytes_are_told_apart(a.drop_last(), b.drop_last());
        assert(a =~= a.drop_last().push(a.last()));
        assert(b =~= b.drop_last().push(b.last()));
    } else {
        assert(a =~= b);
    }
}

} // verus!
