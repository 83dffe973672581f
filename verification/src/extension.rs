//! The entry point that a chain implements to offer native functions to
//! guest code, and what a call of it returns.

use vstd::prelude::*;
use pallet_contracts_primitives::ReturnFlags;
use crate::environment::{Environment, Words};
use crate::error::{Error, Result};
use crate::runtime::{CallState, Ext, RuntimeState};
use crate::state::Init;

verus! {

/// `pallet_contracts_primitives::ReturnFlags`, the flags with which a
/// contract ends its execution. Nothing is claimed of what a value of it
/// holds: the library hands it on as it got it.
#[verifier::external_type_specification]
#[verifier::external_body]
pub struct ExReturnFlags(ReturnFlags);

/// How a call of a chain extension ends.
#[derive(Debug, PartialEq, Eq)]
pub enum RetVal {
    /// The guest goes on, with this value as the result of the call.
    Converging(u32),
    /// The whole execution of the guest ends here, as if the guest itself
    /// had returned `data` with `flags`.
    Diverging { flags: ReturnFlags, data: Vec<u8> },
}

/// How a call of a chain extension ends, as plain values.
pub enum Return {
    Converging(u32),
    Diverging { flags: ReturnFlags, data: Seq<u8> },
}

impl View for RetVal {
    type V = Return;

    open spec fn view(&self) -> Return {
        match *self {
            RetVal::Converging(value) => Return::Converging(value),
            RetVal::Diverging { flags, data } => Return::Diverging { flags, data: data@ },
        }
    }
}

/// The result of a call, as plain values.
pub open spec fn returned(result: Result<RetVal>) -> Result<Return> {
    match result {
        Ok(ret) => Ok(ret@),
        Err(error) => Err(error),
    }
}

/// The native functions that a chain offers to guest code.
///
/// `call` is handed the id of the function that the guest asked for and an
/// environment in its initial state. It moves the environment into the
/// calling convention of that function, does the work, and says how the call
/// ends. A chain replays its calls, so the same call must always come to the
/// same end: `outcome` is that end, and an implementation says what it is.
pub trait ChainExtension {
    /// What `call` comes to: how it ends, and the memory, the gas and the
    /// uses of the execution context that it leaves behind, given the id of
    /// the function, the words that the guest passed and what the call found
    /// of the three.
    spec fn outcome(func_id: u32, words: Words, before: CallState) -> (Result<Return>, CallState);

    /// Runs the function `func_id` for the guest.
    fn call<'a, E: Ext>(func_id: u32, env: Environment<'a, E, Init>) -> (r: Result<RetVal>)
        ensures
            (returned(r), final(env.runtime)@.call_state()) == Self::outcome(
                func_id,
                env.words@,
                old(env.runtime)@.call_state(),
            ),
    ;

    /// Whether the chain offers any function at all. It does, unless an
    /// implementation says here that it does not.
    open spec fn offers_functions() -> bool {
        true
    }

    /// Whether the chain offers any function at all: `true`, unless an
    /// implementation that offers none returns `false` in its place.
    fn enabled() -> (on: bool)
        ensures
            Self::offers_functions() ==> on,
    {
        true
    }
}

/// The extension of a chain that offers none.
impl ChainExtension for () {
    open spec fn outcome(func_id: u32, words: Words, before: CallState) -> (
        Result<Return>,
        CallState,
    ) {
        (Err(Error::NoChainExtension), CallState { ext_uses: before.ext_uses + 1, ..before })
    }

    /// Fails with `NoChainExtension`, whatever was asked for. The execution
    /// context is consulted all the same, once, so that a call costs the
    /// host what a call of a real extension costs at the least; nothing else
    /// of the runtime changes.
    fn call<'a, E: Ext>(func_id: u32, env: Environment<'a, E, Init>) -> (r: Result<RetVal>)
        ensures
            r == Err::<RetVal, Error>(Error::NoChainExtension),
            final(env.runtime)@ == (RuntimeState {
                ext_uses: old(env.runtime)@.ext_uses + 1,
                ..old(env.runtime)@
            }),
    {
        let mut env = env;
        env.ext().caller();
        Err(Error::NoChainExtension)
    }

    open spec fn offers_functions() -> bool {
        false
    }

    /// No function is offered.
    fn enabled() -> (on: bool)
        ensures
            !on,
    {
        false
    }
}

} // verus!
