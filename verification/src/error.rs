use vstd::prelude::*;

verus! {

/// The one abnormal outcome a call can have: a lookup named a key that has
/// no entry in the keyed collection store. It terminates the call abnormally
/// and is never caught internally.
#[derive(Clone, Copy, Debug, PartialEq, Eq, Structural)]
pub enum CallError {
    NotFound,
}

} // verus!
