//! Identifiers of nodes.
use uuid::Uuid;
use vstd::prelude::*;

verus! {

/// The places of the hyphens in an identifier.
pub open spec fn is_hyphen_place(i: int) -> bool {
    i == 8 || i == 13 || i == 18 || i == 23
}

/// Whether this is a hexadecimal digit in lower case.
pub open spec fn is_hex_digit(c: char) -> bool {
    '0' <= c <= '9' || 'a' <= c <= 'f'
}

/// Whether a text has the shape of the identifier of a node: a UUID of version 1 in
/// groups of hexadecimal digits, whose last group names the generator.
pub open spec fn is_node_id(id: Seq<char>) -> bool {
    &&& id.len() == 36
    &&& forall|i: int|
        0 <= i < 36 ==> if is_hyphen_place(i) {
            #[trigger] id[i] == '-'
        } else {
            is_hex_digit(id[i])
        }
    &&& id[14] == '1'
    &&& id.subrange(24, 36) == "010203040506"@
}

/// Calls `Uuid::now_v1` and writes out the result in its hyphenated form. The digits
/// stand for the time of the call and a counter, and nothing is said of them; in
/// particular not that two calls give two identifiers. The call relies on a clock
/// that is not set before 1970.
#[verifier::external_body]
pub(crate) fn fresh_id() -> (id: String)
    ensures
        is_node_id(id@),
{
    Uuid::now_v1(&[1, 2, 3, 4, 5, 6]).to_string()
}

} // verus!
