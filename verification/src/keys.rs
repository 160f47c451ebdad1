//! The keys that a form tells apart.

use vstd::prelude::*;

verus! {

/// The name under which a key event reports the Enter key.
pub open spec fn enter_key() -> Seq<char> {
    "Enter"@
}

/// Whether `key` is the name of the Enter key. Every other name, the empty one
/// and one in another case too, is another key.
pub fn is_enter(key: &str) -> (enter: bool)
    ensures
        enter == (key@ == enter_key()),
{
    let pressed = key.to_owned();
    let expected = "Enter".to_owned();
    pressed == expected
}

} // verus!
