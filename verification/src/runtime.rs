//! The host side of one guest call: the memory of the guest, the gas meter
//! and the execution context.
//!
//! The memory is the guest's linear memory, a run of bytes that starts at
//! address 0. Every access is checked against its length, and an access
//! that does not lie inside it changes nothing.

use vstd::prelude::*;
use crate::error::{Error, Result};

verus! {

/// The unit in which work done for the guest is paid.
pub type Weight = u64;

/// The output address by which a guest says that it does not want the
/// output.
pub const SKIP_OUTPUT: u32 = 0xffff_ffff;

/// What an extension can ask of the contract call it runs in.
pub trait Ext {
    /// How the chain names an account.
    type AccountId;

    /// The account that called the contract.
    fn caller(&self) -> &Self::AccountId;
}

/// What a runtime holds, as plain values.
pub struct RuntimeState<E> {
    /// The execution context.
    pub ext: E,
    /// The memory of the guest.
    pub memory: Seq<u8>,
    /// The weight that can still be charged.
    pub gas_left: Weight,
    /// How often the execution context has been handed out.
    pub ext_uses: nat,
}

/// What a runtime holds beside the execution context.
pub struct CallState {
    /// The memory of the guest.
    pub memory: Seq<u8>,
    /// The weight that can still be charged.
    pub gas_left: Weight,
    /// How often the execution context has been handed out.
    pub ext_uses: nat,
}

impl<E> RuntimeState<E> {
    /// This state without the execution context.
    pub open spec fn call_state(self) -> CallState {
        CallState { memory: self.memory, gas_left: self.gas_left, ext_uses: self.ext_uses }
    }
}

/// Whether `len` bytes from address `ptr` on lie inside a memory of
/// `memory_len` bytes.
pub open spec fn in_bounds(memory_len: nat, ptr: u32, len: nat) -> bool {
    ptr + len <= memory_len
}

/// The four bytes that hold `value` in guest memory, lowest byte first.
pub open spec fn le_bytes(value: u32) -> Seq<u8> {
    seq![
        (value % 0x100) as u8,
        (value / 0x100 % 0x100) as u8,
        (value / 0x1_0000 % 0x100) as u8,
        (value / 0x100_0000) as u8,
    ]
}

/// `memory` with `data` stored from address `at` on.
pub open spec fn stored(memory: Seq<u8>, at: int, data: Seq<u8>) -> Seq<u8> {
    Seq::new(
        memory.len(),
        |i: int|
            if at <= i < at + data.len() {
                data[i - at]
            } else {
                memory[i]
            },
    )
}

/// Whether a guest that passes `out_ptr` with a call that lets it skip the
/// output has done so.
pub open spec fn skips_output(allow_skip: bool, out_ptr: u32) -> bool {
    allow_skip && out_ptr == SKIP_OUTPUT
}

/// Whether an output of `len` bytes at `out_ptr` and its length at
/// `out_len_ptr` both lie inside a memory of `memory_len` bytes.
pub open spec fn output_in_bounds(memory_len: nat, out_ptr: u32, out_len_ptr: u32, len: nat) -> bool {
    &&& len <= u32::MAX
    &&& in_bounds(memory_len, out_len_ptr, 4)
    &&& in_bounds(memory_len, out_ptr, len)
}

/// `memory` after an output: first the length of `data` is stored at
/// `out_len_ptr`, then `data` at `out_ptr`.
pub open spec fn with_output(memory: Seq<u8>, out_ptr: u32, out_len_ptr: u32, data: Seq<u8>) -> Seq<
    u8,
> {
    stored(stored(memory, out_len_ptr as int, le_bytes(data.len() as u32)), out_ptr as int, data)
}

/// The host side of one guest call: the memory of the guest, the gas meter
/// and the execution context. It is made and owned by a [`Host`] and worked
/// on through an environment.
pub struct Runtime<E: Ext> {
    ext: E,
    memory: Vec<u8>,
    gas_left: Weight,
    ext_uses: Ghost<nat>,
}

impl<E: Ext> View for Runtime<E> {
    type V = RuntimeState<E>;

    closed spec fn view(&self) -> RuntimeState<E> {
        RuntimeState {
            ext: self.ext,
            memory: self.memory@,
            gas_left: self.gas_left,
            ext_uses: self.ext_uses@,
        }
    }
}

/// The host of one guest call: the owner of its runtime.
///
/// An environment borrows the runtime, and only a host can make an
/// environment. So the extension that is handed the environment reaches the
/// runtime, but cannot set up a second environment on it, in another state
/// or with other words.
pub struct Host<E: Ext> {
    /// The runtime of the call.
    pub runtime: Runtime<E>,
}

impl<E: Ext> Host<E> {
    /// The host of a guest with the given memory that may use up
    /// `gas_limit`.
    pub fn new(ext: E, memory: Vec<u8>, gas_limit: Weight) -> (host: Self)
        ensures
            host.runtime@ == (RuntimeState { ext, memory: memory@, gas_left: gas_limit, ext_uses: 0 }),
    {
        Host { runtime: Runtime { ext, memory, gas_left: gas_limit, ext_uses: Ghost(0) } }
    }

    /// What is left when the call is over: the execution context, the
    /// memory of the guest and the gas that was not used.
    pub fn into_parts(self) -> (parts: (E, Vec<u8>, Weight))
        ensures
            parts.0 == self.runtime@.ext,
            parts.1@ == self.runtime@.memory,
            parts.2 == self.runtime@.gas_left,
    {
        (self.runtime.ext, self.runtime.memory, self.runtime.gas_left)
    }
}

impl<E: Ext> Runtime<E> {
    /// Takes `amount` from the gas meter, or fails and leaves it as it is.
    pub(crate) fn charge_gas(&mut self, amount: Weight) -> (r: Result<()>)
        ensures
            ({
                let before = old(self)@;
                let after = final(self)@;
                if amount <= before.gas_left {
                    r is Ok && after == (RuntimeState {
                        gas_left: (before.gas_left - amount) as Weight,
                        ..before
                    })
                } else {
                    r == Err::<(), Error>(Error::OutOfGas) && after == before
                }
            }),
    {
        if amount <= self.gas_left {
            self.gas_left = self.gas_left - amount;
            Ok(())
        } else {
            Err(Error::OutOfGas)
        }
    }

    /// Hands out the execution context, and counts that it did.
    pub(crate) fn ext(&mut self) -> (ext: &mut E)
        ensures
            *ext == old(self)@.ext,
            final(self)@ == (RuntimeState {
                ext: *final(ext),
                ext_uses: old(self)@.ext_uses + 1,
                ..old(self)@
            }),
    {
        proof {
            self.ext_uses@ = self.ext_uses@ + 1;
        }
        &mut self.ext
    }

    /// The `len` bytes of guest memory from address `ptr` on, or
    /// `OutOfBounds` where they do not all lie inside the memory.
    pub(crate) fn read_sandbox_memory(&self, ptr: u32, len: u32) -> (r: Result<Vec<u8>>)
        ensures
            if in_bounds(self@.memory.len(), ptr, len as nat) {
                r is Ok && r->Ok_0@ == self@.memory.subrange(ptr as int, ptr + len)
            } else {
                r == Err::<Vec<u8>, Error>(Error::OutOfBounds)
            },
    {
        if !self.holds(ptr, len as usize) {
            return Err(Error::OutOfBounds);
        }
        let start: usize = ptr as usize;
        let count: usize = len as usize;
        let total: usize = self.memory.len();
        let mut bytes: Vec<u8> = Vec::new();
        let mut i: usize = 0;
        while i < count
            invariant
                i <= count,
                total == self.memory@.len(),
                start + count <= total,
                bytes@ == self.memory@.subrange(start as int, start + i),
            decreases count - i,
        {
            bytes.push(self.memory[start + i]);
            i = i + 1;
        }
        Ok(bytes)
    }

    /// Hands `buf` to the guest: its length goes to `out_len_ptr`, then
    /// `buf` itself to `out_ptr`, after `cost` has been taken from the gas
    /// meter. A guest that was allowed to skip the output and did gets
    /// nothing and pays nothing. Where the gas does not suffice or the output
    /// does not lie inside the memory, nothing is charged and nothing is
    /// written.
    pub(crate) fn write_sandbox_output(
        &mut self,
        out_ptr: u32,
        out_len_ptr: u32,
        buf: &[u8],
        allow_skip: bool,
        cost: Weight,
    ) -> (r: Result<()>)
        ensures
            ({
                let before = old(self)@;
                let after = final(self)@;
                if skips_output(allow_skip, out_ptr) {
                    r is Ok && after == before
                } else if cost > before.gas_left {
                    r == Err::<(), Error>(Error::OutOfGas) && after == before
                } else if !output_in_bounds(before.memory.len(), out_ptr, out_len_ptr, buf@.len()) {
                    r == Err::<(), Error>(Error::OutOfBounds) && after == before
                } else {
                    r is Ok && after == (RuntimeState {
                        memory: with_output(before.memory, out_ptr, out_len_ptr, buf@),
                        gas_left: (before.gas_left - cost) as Weight,
                        ..before
                    })
                }
            }),
    {
        if allow_skip && out_ptr == SKIP_OUTPUT {
            return Ok(());
        }
        if cost > self.gas_left {
            return Err(Error::OutOfGas);
        }
        if buf.len() > 0xffff_ffff || !self.holds(out_len_ptr, 4) || !self.holds(out_ptr, buf.len()) {
            return Err(Error::OutOfBounds);
        }
        self.gas_left = self.gas_left - cost;
        let len: u32 = buf.len() as u32;
        let len_bytes: [u8; 4] = encode_le(len);
        self.store(out_len_ptr, len_bytes.as_slice());
        self.store(out_ptr, buf);
        Ok(())
    }

    /// Whether `len` bytes from `ptr` on lie inside the memory.
    fn holds(&self, ptr: u32, len: usize) -> (inside: bool)
        ensures
            inside == in_bounds(self@.memory.len(), ptr, len as nat),
    {
        len <= self.memory.len() && ptr as usize <= self.memory.len() - len
    }

    /// Copies `data` into the memory, from `at` on.
    fn store(&mut self, at: u32, data: &[u8])
        requires
            in_bounds(old(self)@.memory.len(), at, data@.len()),
        ensures
            final(self)@ == (RuntimeState {
                memory: stored(old(self)@.memory, at as int, data@),
                ..old(self)@
            }),
    {
        let start: usize = at as usize;
        let total: usize = self.memory.len();
        let mut i: usize = 0;
        while i < data.len()
            invariant
                i <= data@.len(),
                start == at,
                start + data@.len() <= total,
                total == self.memory@.len(),
                self.memory@.len() == old(self).memory@.len(),
                self.ext == old(self).ext,
                self.gas_left == old(self).gas_left,
                self.ext_uses == old(self).ext_uses,
                forall|j: int|
                    0 <= j < self.memory@.len() ==> self.memory@[j] == if start <= j < start + i {
                        data@[j - start]
                    } else {
                        old(self).memory@[j]
                    },
            decreases data@.len() - i,
        {
            self.memory.set(start + i, data[i]);
            i = i + 1;
        }
        assert(self.memory@ =~= stored(old(self).memory@, at as int, data@));
    }
}

/// The bytes that hold `value` in guest memory.
fn encode_le(value: u32) -> (bytes: [u8; 4])
    ensures
        bytes@ == le_bytes(value),
{
    let bytes: [u8; 4] = [
        (value % 0x100) as u8,
        (value / 0x100 % 0x100) as u8,
        (value / 0x1_0000 % 0x100) as u8,
        (value / 0x100_0000) as u8,
    ];
    assert(bytes@ =~= le_bytes(value));
    bytes
}

} // verus!
