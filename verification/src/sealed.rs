//! Keeps the set of calling-convention states closed.

use vstd::prelude::*;

verus! {

/// Implemented only inside this crate, and a supertrait of
/// [`State`](crate::state::State): no state can be added from outside.
pub trait Sealed {

}

} // verus!
