//! Identifiers: making fresh ones and writing them down.

use vstd::prelude::*;
use crate::models::Id;
use crate::sessions::{hex_text, is_lower_hex, lemma_hex_text_chars};

verus! {

/// The sixteen bytes of an identifier, the most significant first.
pub open spec fn id_bytes(id: Id) -> Seq<u8> {
    Seq::new(16, |i: int| ((id >> ((8 * (15 - i)) as u128)) & 0xff) as u8)
}

/// An identifier in its usual written form: 32 lower-case hexadecimal
/// characters in groups of 8, 4, 4, 4 and 12, with a hyphen between groups.
pub open spec fn id_text(id: Id) -> Seq<char> {
    let digits = hex_text(id_bytes(id));
    digits.subrange(0, 8) + seq!['-'] + digits.subrange(8, 12) + seq!['-'] + digits.subrange(
        12,
        16,
    ) + seq!['-'] + digits.subrange(16, 20) + seq!['-'] + digits.subrange(20, 32)
}

/// A written identifier has 36 characters: hyphens at four fixed places and
/// lower-case hexadecimal characters everywhere else.
pub proof fn lemma_id_text_shape(id: Id)
    ensures
        id_text(id).len() == 36,
        forall|i: int|
            0 <= i < 36 ==> if i == 8 || i == 13 || i == 18 || i == 23 {
                #[trigger] id_text(id)[i] == '-'
            } else {
                is_lower_hex(id_text(id)[i])
            },
{
    lemma_hex_text_chars(id_bytes(id));
    let digits = hex_text(id_bytes(id));
    assert(digits.len() == 32);
    assert forall|i: int| 0 <= i < 36 implies if i == 8 || i == 13 || i == 18 || i == 23 {
        #[trigger] id_text(id)[i] == '-'
    } else {
        is_lower_hex(id_text(id)[i])
    } by {
        if i < 8 {
            assert(id_text(id)[i] == digits[i]);
        } else if i == 8 {
        } else if i < 13 {
            assert(id_text(id)[i] == digits[i - 1]);
        } else if i == 13 {
        } else if i < 18 {
            assert(id_text(id)[i] == digits[i - 2]);
        } else if i == 18 {
        } else if i < 23 {
            assert(id_text(id)[i] == digits[i - 3]);
        } else if i == 23 {
        } else {
            assert(id_text(id)[i] == digits[i - 4]);
        }
    }
}

/// `Uuid::new_v4` of uuid, as a number: a fresh random identifier. Nothing
/// is claimed of its value.
#[verifier::external_body]
pub(crate) fn random_id() -> (id: Id) {
    uuid::Uuid::new_v4().as_u128()
}

/// `Uuid::from_u128` of uuid and the identifier's `Display`: the hyphenated
/// lower-case form of the sixteen bytes, the most significant first.
#[verifier::external_body]
pub(crate) fn write_id(id: Id) -> (text: String)
    ensures
        text@ == id_text(id),
{
    uuid::Uuid::from_u128(id).to_string()
}

} // verus!
