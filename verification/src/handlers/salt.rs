//! `POST /salt`: gets or creates the salt of a user.

use vstd::prelude::*;
use vstd::slice::slice_subrange;
use vstd::string::*;

use crate::numeral::{
    big_endian, decimal, decimal_text, digits_value, law_decimal_read_back,
    lemma_big_endian_injective, read_sixteen_bytes,
};

verus! {

/// The length of a salt: 16 bytes, or 32 in the legacy format.
pub open spec fn is_salt_len(n: nat) -> bool {
    n == 16 || n == 32
}

/// A salt as a decimal number: its first 16 bytes, the most significant one first.
pub open spec fn salt_decimal(salt: Seq<u8>) -> Seq<char> {
    decimal(big_endian(salt.take(16)))
}

/// Writes a salt as a decimal number for zkLogin, which takes 16 bytes. Of a legacy salt of 32
/// bytes it takes the first 16.
pub fn salt_to_bigint_string(salt_bytes: &[u8]) -> (r: String)
    requires
        is_salt_len(salt_bytes@.len()),
    ensures
        r@ == salt_decimal(salt_bytes@),
{
    let first = slice_subrange(salt_bytes, 0, 16);
    assert(salt_bytes@.take(16) =~= salt_bytes@.subrange(0, 16));
    decimal_text(read_sixteen_bytes(first))
}

/// A legacy salt is written like the salt of its first 16 bytes.
pub proof fn law_legacy_salt(salt: Seq<u8>)
    requires
        salt.len() == 32,
    ensures
        salt_decimal(salt) == salt_decimal(salt.take(16)),
{
    assert(salt.take(16).take(16) =~= salt.take(16));
}

/// Salts of 16 bytes that are written alike are the same.
pub proof fn law_salt_decimal_injective(a: Seq<u8>, b: Seq<u8>)
    requires
        a.len() == 16,
        b.len() == 16,
        salt_decimal(a) == salt_decimal(b),
    ensures
        a == b,
{
    assert(a.take(16) =~= a);
    assert(b.take(16) =~= b);
    law_decimal_read_back(big_endian(a));
    law_decimal_read_back(big_endian(b));
    assert(digits_value(decimal(big_endian(a))) == digits_value(decimal(big_endian(b))));
    lemma_big_endian_injective(a, b);
}

/// A salt is written as the decimal numeral of its first 16 bytes, the most significant one first,
/// and nothing behind them counts.
pub proof fn law_first_sixteen_bytes_count(salt: Seq<u8>, other: Seq<u8>)
    requires
        is_salt_len(salt.len()),
        is_salt_len(other.len()),
    ensures
        digits_value(salt_decimal(salt)) == Some(big_endian(salt.take(16))),
        (forall|i: int| 0 <= i < 16 ==> #[trigger] salt[i] == other[i]) <==> salt_decimal(salt)
            == salt_decimal(other),
{
    law_decimal_read_back(big_endian(salt.take(16)));
    law_decimal_read_back(big_endian(other.take(16)));
    if forall|i: int| 0 <= i < 16 ==> #[trigger] salt[i] == other[i] {
        assert(salt.take(16) =~= other.take(16));
    }
    if salt_decimal(salt) == salt_decimal(other) {
        lemma_big_endian_injective(salt.take(16), other.take(16));
        assert forall|i: int| 0 <= i < 16 implies #[trigger] salt[i] == other[i] by {
            assert(salt.take(16)[i] == other.take(16)[i]);
        }
    }
}

} // verus!
