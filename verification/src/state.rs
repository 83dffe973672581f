//! The calling conventions of a chain extension function and what each of
//! them allows.
//!
//! A guest passes four raw 32-bit words with every call. How they are to be
//! read depends on the function that is called: as plain values, or as
//! pointers and lengths into the guest's memory. An environment starts in
//! [`Init`], where no word can be touched, and is moved exactly once into one
//! of the three conventions. Each convention grants two capabilities, and
//! each accessor of the environment is only there for the states that have
//! the capability it needs.
//!
//! | State            | `PrimIn` | `PrimOut` | `BufIn` | `BufOut` |
//! |------------------|----------|-----------|---------|----------|
//! | `Init`           |          |           |         |          |
//! | `OnlyIn`         | yes      | yes       |         |          |
//! | `PrimInBufOut`   | yes      |           |         | yes      |
//! | `BufInBufOut`    |          |           | yes     | yes      |
//!
//! The states are types without values: they only ever stand in the type
//! parameter of an environment. [`Marker`] names them in specifications, and
//! [`grants`] is the table above.

use vstd::prelude::*;
use core::convert::Infallible;
use crate::sealed::Sealed;

verus! {

/// What an accessor of the environment needs from the state it is called in.
pub enum Capability {
    /// The first two call words are plain values.
    PrimIn,
    /// The last two call words are plain values.
    PrimOut,
    /// The first two call words are the address and length of an input buffer.
    BufIn,
    /// The last two call words are the address of an output buffer and the
    /// address of its length.
    BufOut,
}

/// The name of a state, for use in specifications.
pub enum Marker {
    Init,
    OnlyIn,
    PrimInBufOut,
    BufInBufOut,
}

/// Whether the state `marker` has the capability `capability`.
pub open spec fn grants(marker: Marker, capability: Capability) -> bool {
    match marker {
        Marker::Init => false,
        Marker::OnlyIn => capability is PrimIn || capability is PrimOut,
        Marker::PrimInBufOut => capability is PrimIn || capability is BufOut,
        Marker::BufInBufOut => capability is BufIn || capability is BufOut,
    }
}

/// Whether an environment in state `from` can be moved into state `to`.
pub open spec fn transition(from: Marker, to: Marker) -> bool {
    from is Init && !(to is Init)
}

/// A state of the environment.
pub trait State: Sealed {
    /// The name of this state.
    spec fn marker() -> Marker;
}

/// States in which the first two call words are read as plain values.
pub trait PrimIn: State {
    proof fn has_prim_in()
        ensures
            grants(Self::marker(), Capability::PrimIn),
    ;
}

/// States in which the last two call words are read as plain values.
pub trait PrimOut: State {
    proof fn has_prim_out()
        ensures
            grants(Self::marker(), Capability::PrimOut),
    ;
}

/// States in which the first two call words describe an input buffer.
pub trait BufIn: State {
    proof fn has_buf_in()
        ensures
            grants(Self::marker(), Capability::BufIn),
    ;
}

/// States in which the last two call words describe an output buffer.
pub trait BufOut: State {
    proof fn has_buf_out()
        ensures
            grants(Self::marker(), Capability::BufOut),
    ;
}

/// The state every environment starts in. It grants nothing.
pub enum Init {
    /// Holds a type without values, so that the state has none either.
    Never(Infallible),
}

/// Two plain values in, two plain values out.
pub enum OnlyIn {
    /// Holds a type without values, so that the state has none either.
    Never(Infallible),
}

/// One plain value pair in, a buffer out.
pub enum PrimInBufOut {
    /// Holds a type without values, so that the state has none either.
    Never(Infallible),
}

/// A buffer in, a buffer out.
pub enum BufInBufOut {
    /// Holds a type without values, so that the state has none either.
    Never(Infallible),
}

impl Sealed for Init {

}

impl Sealed for OnlyIn {

}

impl Sealed for PrimInBufOut {

}

impl Sealed for BufInBufOut {

}

impl State for Init {
    open spec fn marker() -> Marker {
        Marker::Init
    }
}

impl State for OnlyIn {
    open spec fn marker() -> Marker {
        Marker::OnlyIn
    }
}

impl State for PrimInBufOut {
    open spec fn marker() -> Marker {
        Marker::PrimInBufOut
    }
}

impl State for BufInBufOut {
    open spec fn marker() -> Marker {
        Marker::BufInBufOut
    }
}

impl PrimIn for OnlyIn {
    proof fn has_prim_in() {
    }
}

impl PrimOut for OnlyIn {
    proof fn has_prim_out() {
    }
}

impl PrimIn for PrimInBufOut {
    proof fn has_prim_in() {
    }
}

impl BufOut for PrimInBufOut {
    proof fn has_buf_out() {
    }
}

impl BufIn for BufInBufOut {
    proof fn has_buf_in() {
    }
}

impl BufOut for BufInBufOut {
    proof fn has_buf_out() {
    }
}

/// Every state has exactly the capabilities of the table: `Init` none,
/// `OnlyIn` both plain pairs, `PrimInBufOut` the plain input and the output
/// buffer, `BufInBufOut` both buffers.
pub proof fn capability_table()
    ensures
        forall|c: Capability| !grants(Init::marker(), c),
        forall|c: Capability| grants(OnlyIn::marker(), c) <==> (c is PrimIn || c is PrimOut),
        forall|c: Capability|
            grants(PrimInBufOut::marker(), c) <==> (c is PrimIn || c is BufOut),
        forall|c: Capability| grants(BufInBufOut::marker(), c) <==> (c is BufIn || c is BufOut),
{
}

/// A state cannot read its input both as plain values and as a buffer, and
/// the same holds of its output: the words have one meaning per call.
pub proof fn capabilities_exclude(marker: Marker)
    ensures
        !(grants(marker, Capability::PrimIn) && grants(marker, Capability::BufIn)),
        !(grants(marker, Capability::PrimOut) && grants(marker, Capability::BufOut)),
{
}

/// Each of the three conventions is one step from `Init`, nothing leads to
/// `Init`, and no step leaves a convention once it is chosen.
pub proof fn transitions_are_one_shot()
    ensures
        forall|to: Marker| !(to is Init) ==> transition(Marker::Init, to),
        forall|from: Marker| !transition(from, Marker::Init),
        forall|from: Marker, to: Marker, next: Marker|
            transition(from, to) ==> !transition(to, next),
{
}

} // verus!
