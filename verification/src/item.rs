//! The rule deciding which handler entity an item interaction is routed
//! to.
//!
//! Interactive items carry their handler's entity id as a signed tag
//! value; routing reinterprets it as the unsigned id it was stored from.
//! An empty stack, or one without a handler tag, is routed nowhere.

use vstd::prelude::*;

verus! {

/// The handler an item interaction reaches: none for an empty stack or
/// an untagged item, otherwise the tag value read back as the unsigned
/// entity id.
pub fn interact_handler(stack_empty: bool, handler_tag: Option<i64>) -> (r: Option<u64>)
    ensures
        stack_empty ==> r is None,
        !stack_empty && handler_tag is None ==> r is None,
        !stack_empty ==> (handler_tag matches Some(id) ==> r == Some(id as u64)),
{
    if stack_empty {
        return None;
    }
    match handler_tag {
        Some(id) => Some(id as u64),
        None => None,
    }
}

} // verus!
