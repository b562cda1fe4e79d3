//! Values that chance decides: random numbers and fresh identifiers.

use vstd::prelude::*;

verus! {

/// Draws a number with `rand::Rng::gen_range` on `rand::thread_rng()`, over
/// the half-open range from `low` to `high`. The range must not be empty.
/// Which number comes is chance; it lies in the range.
#[verifier::external_body]
pub(crate) fn random_in(low: u32, high: u32) -> (drawn: u32)
    requires
        low < high,
    ensures
        low <= drawn < high,
{
    rand::Rng::gen_range(&mut rand::thread_rng(), low..high)
}

/// Whether `c` is a digit of lower-case hexadecimal.
pub open spec fn is_hex_digit(c: char) -> bool {
    ('0' <= c && c <= '9') || ('a' <= c && c <= 'f')
}

/// The shape of an identifier in hyphenated form: thirty-six characters,
/// hyphens after the eighth, twelfth, sixteenth and twentieth digit, and
/// lower-case hexadecimal digits everywhere else.
pub open spec fn is_hyphenated_id(text: Seq<char>) -> bool {
    &&& text.len() == 36
    &&& forall|i: int|
        0 <= i < 36 ==> if i == 8 || i == 13 || i == 18 || i == 23 {
            #[trigger] text[i] == '-'
        } else {
            is_hex_digit(#[trigger] text[i])
        }
}

/// Makes a random identifier with `uuid::Uuid::new_v4` and writes it out with
/// its `to_string`, which gives the hyphenated lower-case form. Which
/// identifier comes is chance; its shape is fixed.
#[verifier::external_body]
pub(crate) fn fresh_uuid() -> (id: String)
    ensures
        is_hyphenated_id(id@),
{
    uuid::Uuid::new_v4().to_string()
}

} // verus!
