//! The ids of stored records.
use vstd::prelude::*;

verus! {

/// A hexadecimal digit in lower case.
pub open spec fn is_hex(c: char) -> bool {
    '0' <= c <= '9' || 'a' <= c <= 'f'
}

/// The text of a version 4 UUID: 32 hexadecimal digits in groups of 8, 4, 4, 4
/// and 12, the third group starting with the version and the fourth with the
/// variant.
pub open spec fn is_record_id(text: Seq<char>) -> bool {
    &&& text.len() == 36
    &&& forall|i: int|
        0 <= i < 36 ==> if i == 8 || i == 13 || i == 18 || i == 23 {
            #[trigger] text[i] == '-'
        } else {
            is_hex(text[i])
        }
    &&& text[14] == '4'
    &&& text[19] == '8' || text[19] == '9' || text[19] == 'a' || text[19] == 'b'
}

/// `Uuid::new_v4`, as text: the text of a version 4 UUID. Its other digits are
/// drawn at random, so that nothing is stated of two of them.
#[verifier::external_body]
pub(crate) fn new_record_id() -> (id: String)
    ensures
        is_record_id(id@),
{
    uuid::Uuid::new_v4().to_string()
}

/// The id is one that was drawn.
pub closed spec fn is_drawn(id: String) -> bool {
    call_ensures(new_record_id, (), id)
}

/// The draw gave exactly what counts as drawn.
pub(crate) proof fn law_drawn_id_comes_from_the_draw(id: String)
    ensures
        is_drawn(id) <==> call_ensures(new_record_id, (), id),
{
}

} // verus!
