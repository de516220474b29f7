//! Record identifiers: the 128-bit value of a UUID and its text.

use vstd::prelude::*;
use vstd::arithmetic::power::pow;

verus! {

/// The lower-case hexadecimal digit of a value below sixteen.
pub open spec fn hex_digit(n: int) -> char {
    if n < 10 {
        (48 + n) as char
    } else {
        (87 + n) as char
    }
}

/// The `k`-th of the 32 hexadecimal digits of `v`, most significant first.
pub open spec fn uuid_nibble(v: u128, k: int) -> int {
    (v as int / pow(16, (31 - k) as nat)) % 16
}

/// How many hyphens stand before position `j` of the hyphenated form.
pub open spec fn hyphens_before(j: int) -> int {
    (if j > 8 { 1int } else { 0 }) + (if j > 13 { 1int } else { 0 }) + (if j > 18 { 1int } else { 0 })
        + (if j > 23 { 1int } else { 0 })
}

/// The hyphenated lower-case text of the UUID with value `v`, as in
/// "67e55044-10b1-426f-9247-bb680e5fe0c8": 36 characters, hyphens at
/// positions 8, 13, 18 and 23, the 32 hexadecimal digits of `v` elsewhere.
pub open spec fn uuid_text(v: u128) -> Seq<char> {
    Seq::new(
        36,
        |j: int|
            if j == 8 || j == 13 || j == 18 || j == 23 {
                '-'
            } else {
                hex_digit(uuid_nibble(v, j - hyphens_before(j)))
            },
    )
}

/// The text of an identifier: uuid's `Uuid::from_u128` (the value read
/// big-endian) followed by its `Display`, which writes the hyphenated
/// lower-case form.
#[verifier::external_body]
pub(crate) fn id_text(id: u128) -> (r: String)
    ensures
        r@ == uuid_text(id),
{
    uuid::Uuid::from_u128(id).to_string()
}

} // verus!
