//! The contract between guest code that runs in a sandbox and the native
//! functions that a chain offers to it.
//!
//! A guest calls such a function by a number and four 32-bit words. The
//! host hands both to the chain's [`ChainExtension`], the words inside an
//! [`Environment`] that borrows the host's [`Runtime`](runtime::Runtime).
//! The extension picks the calling convention of the function, which decides
//! what the words mean and which accessors of the environment exist, does its
//! work through them, and returns a [`RetVal`]: a value for the guest, or the
//! end of the guest's execution.

pub mod environment;
pub mod error;
pub mod extension;
pub mod runtime;
mod sealed;
pub mod state;

pub use environment::{environment, Environment};
pub use error::{Error, Result};
pub use extension::{ChainExtension, RetVal};
pub use pallet_contracts_primitives::ReturnFlags;
pub use runtime::{Ext, Host, Weight};
pub use sp_runtime::DispatchError;
