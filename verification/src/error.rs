//! What can go wrong during a call of a chain extension.

use vstd::prelude::*;
use sp_runtime::DispatchError;

verus! {

/// `sp_runtime::DispatchError`, the error type of the chain's dispatchable
/// calls. Nothing is claimed of what a value of it holds: the library only
/// carries it from an extension to the caller.
#[verifier::external_type_specification]
#[verifier::external_body]
pub struct ExDispatchError(DispatchError);

/// Why a call of a chain extension failed.
#[derive(Debug, PartialEq, Eq)]
pub enum Error {
    /// The gas meter does not hold the weight that was to be charged.
    OutOfGas,
    /// A read or write reaches outside the memory of the guest.
    OutOfBounds,
    /// The chain offers no extension.
    NoChainExtension,
    /// An error of the extension's own.
    Other(DispatchError),
}

/// The result of every fallible operation of this library.
pub type Result<T> = core::result::Result<T, Error>;

} // verus!
