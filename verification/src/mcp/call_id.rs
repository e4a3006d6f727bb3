//! Identifiers of tool calls.
use vstd::prelude::*;

verus! {

/// A digit of lower-case hexadecimal.
pub open spec fn is_lower_hex(c: char) -> bool {
    ('0' <= c && c <= '9') || ('a' <= c && c <= 'f')
}

/// The shape of a random UUID: 36 characters, hyphens after the eighth, the
/// twelfth, the sixteenth and the twentieth digit, version 4, RFC variant.
pub open spec fn is_call_id(text: Seq<char>) -> bool {
    &&& text.len() == 36
    &&& forall|i: int|
        0 <= i < 36 ==> if i == 8 || i == 13 || i == 18 || i == 23 {
            #[trigger] text[i] == '-'
        } else {
            is_lower_hex(text[i])
        }
    &&& text[14] == '4'
    &&& (text[19] == '8' || text[19] == '9' || text[19] == 'a' || text[19] == 'b')
}

/// `uuid::Uuid::new_v4`, written out by its `Display`: a hyphenated lower-case
/// UUID of version 4. Which one it is rests on the system's random numbers, so
/// only its shape is stated. It panics where the system yields no random
/// numbers, which no argument decides.
#[verifier::external_body]
pub(crate) fn new_call_id() -> (id: String)
    ensures
        is_call_id(id@),
{
    uuid::Uuid::new_v4().to_string()
}

} // verus!
