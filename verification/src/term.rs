//! The terms by which documents are found in an index.
use vstd::prelude::*;

verus! {

/// A number in big-endian bytes, `len` of them.
pub open spec fn big_endian(n: nat, len: nat) -> Seq<u8>
    decreases len,
{
    if len == 0 {
        Seq::empty()
    } else {
        big_endian(n / 256, (len - 1) as nat).push((n % 256) as u8)
    }
}

/// The term of an unsigned value in a field: the id of the field, the letter `u` for the type of
/// the value, and the value.
pub open spec fn term_bytes(field: u32, value: u64) -> Seq<u8> {
    big_endian(field as nat, 4).push('u' as u8) + big_endian(value as nat, 8)
}

/// The bytes of the term of `value` in the field of id `field`.
///
/// This calls `tantivy::Term::from_field_u64`. Not proved here: that the bytes of the term are
/// the field id in four big-endian bytes, the type code `u`, and the value in eight big-endian
/// bytes.
#[verifier::external_body]
pub(crate) fn term_from_field_u64(field: u32, value: u64) -> (r: Vec<u8>)
    ensures
        r@ == term_bytes(field, value),
{
    let field = tantivy::schema::Field::from_field_id(field);
    tantivy::Term::from_field_u64(field, value).serialized_term().to_vec()
}

/// How many numbers `len` bytes can write.
spec fn numbers(len: nat) -> nat
    decreases len,
{
    if len == 0 {
        1
    } else {
        256 * numbers((len - 1) as nat)
    }
}

proof fn lemma_big_endian_injective(a: nat, b: nat, len: nat)
    requires
        a < numbers(len),
        b < numbers(len),
        big_endian(a, len) == big_endian(b, len),
    ensures
        a == b,
    decreases len,
{
    if len > 0 {
        let shorter = (len - 1) as nat;
        assert(big_endian(a, len).last() == (a % 256) as u8);
        assert(big_endian(b, len).last() == (b % 256) as u8);
        assert(big_endian(a, len).drop_last() =~= big_endian(a / 256, shorter));
        assert(big_endian(b, len).drop_last() =~= big_endian(b / 256, shorter));
        lemma_big_endian_injective(a / 256, b / 256, shorter);
    }
}

proof fn lemma_big_endian_len(n: nat, len: nat)
    ensures
        big_endian(n, len).len() == len,
    decreases len,
{
    if len > 0 {
        lemma_big_endian_len(n / 256, (len - 1) as nat);
    }
}

/// Different values, and different fields, have different terms: to delete by a term is to delete
/// by exactly one value of one field.
pub proof fn law_terms_are_distinct(field: u32, value: u64, other_field: u32, other_value: u64)
    requires
        term_bytes(field, value) == term_bytes(other_field, other_value),
    ensures
        field == other_field,
        value == other_value,
{
    reveal_with_fuel(numbers, 9);
    let here = term_bytes(field, value);
    let there = term_bytes(other_field, other_value);
    lemma_big_endian_len(field as nat, 4);
    lemma_big_endian_len(other_field as nat, 4);
    lemma_big_endian_len(value as nat, 8);
    lemma_big_endian_len(other_value as nat, 8);
    assert(here.take(4) =~= big_endian(field as nat, 4));
    assert(there.take(4) =~= big_endian(other_field as nat, 4));
    assert(here.skip(5) =~= big_endian(value as nat, 8));
    assert(there.skip(5) =~= big_endian(other_value as nat, 8));
    lemma_big_endian_injective(field as nat, other_field as nat, 4);
    lemma_big_endian_injective(value as nat, other_value as nat, 8);
}

/// The number that a row of bytes writes, the most significant first.
pub open spec fn number_of(bytes: Seq<u8>) -> nat
    decreases bytes.len(),
{
    if bytes.len() == 0 {
        0
    } else {
        number_of(bytes.drop_last()) * 256 + bytes.last() as nat
    }
}

proof fn lemma_big_endian_read_back(n: nat, len: nat)
    requires
        n < numbers(len),
    ensures
        number_of(big_endian(n, len)) == n,
    decreases len,
{
    if len > 0 {
        let shorter = (len - 1) as nat;
        lemma_big_endian_read_back(n / 256, shorter);
        assert(big_endian(n, len).drop_last() =~= big_endian(n / 256, shorter));
        assert(big_endian(n, len).last() == (n % 256) as u8);
    }
}

/// The field and the value can be read off a term: the field off its first four bytes, the value
/// off its last eight, and the type between them.
pub proof fn law_terms_are_read_back(field: u32, value: u64)
    ensures
        term_bytes(field, value).len() == 13,
        number_of(term_bytes(field, value).take(4)) == field,
        term_bytes(field, value)[4] == 'u' as u8,
        number_of(term_bytes(field, value).skip(5)) == value,
{
    reveal_with_fuel(numbers, 9);
    lemma_big_endian_len(field as nat, 4);
    lemma_big_endian_len(value as nat, 8);
    assert(term_bytes(field, value).take(4) =~= big_endian(field as nat, 4));
    assert(term_bytes(field, value).skip(5) =~= big_endian(value as nat, 8));
    lemma_big_endian_read_back(field as nat, 4);
    lemma_big_endian_read_back(value as nat, 8);
}

} // verus!
