//! The environment that a chain extension is called with.
//!
//! It lends the extension the host's runtime and the four words that the
//! guest passed, and gives them a meaning by its state: see
//! [`state`](crate::state). An accessor that reads a word, or the memory
//! that a word points to, exists only in the states that grant what it
//! needs.

use vstd::prelude::*;
use core::marker::PhantomData;
use crate::error::{Error, Result};
use crate::runtime::{
    in_bounds, output_in_bounds, skips_output, with_output, Ext, Host, RuntimeState, Runtime, Weight,
};
use crate::state::{
    grants, transition, BufIn, BufInBufOut, BufOut, Capability, Init, Marker, OnlyIn, PrimIn,
    PrimInBufOut, PrimOut, State,
};

verus! {

/// The four words of one guest call, as plain values.
pub struct Words {
    pub val0: u32,
    pub val1: u32,
    pub val2: u32,
    pub val3: u32,
}

/// The four words of one guest call, in the state `S`. They are set when the
/// environment is made and never change. Only an environment gives access
/// to them.
pub struct CallWords<S: State> {
    input_ptr: u32,
    input_len: u32,
    output_ptr: u32,
    output_len_ptr: u32,
    state: PhantomData<S>,
}

impl<S: State> View for CallWords<S> {
    type V = Words;

    closed spec fn view(&self) -> Words {
        Words {
            val0: self.input_ptr,
            val1: self.input_len,
            val2: self.output_ptr,
            val3: self.output_len_ptr,
        }
    }
}

impl<S: State> CallWords<S> {
    /// The same words in another state.
    fn into_state<T: State>(self) -> (words: CallWords<T>)
        ensures
            words@ == self@,
    {
        CallWords {
            input_ptr: self.input_ptr,
            input_len: self.input_len,
            output_ptr: self.output_ptr,
            output_len_ptr: self.output_len_ptr,
            state: PhantomData,
        }
    }
}

/// What a chain extension is called with: the runtime of the host, borrowed
/// for the call, and the words of the guest in the state `S`.
///
/// An environment is made by [`environment`] in the state `Init`, moved once
/// into a calling convention, and gone when the call is over. Its fields can
/// be seen, so that a contract can say what a call leaves of the runtime, but
/// neither gives an extension more than the methods do: a runtime has no
/// operation of its own, and the words are closed.
pub struct Environment<'a, E: Ext, S: State> {
    /// The runtime of the host. No method exchanges the borrow: what is
    /// behind it in the end is what the host finds when the call is over.
    pub runtime: &'a mut Runtime<E>,
    /// The words that the guest passed.
    pub words: CallWords<S>,
}

/// The environment of a guest call that passed the given four words, in its
/// initial state. It borrows the runtime of `host` until the call is over.
pub fn environment<'a, E: Ext>(
    host: &'a mut Host<E>,
    input_ptr: u32,
    input_len: u32,
    output_ptr: u32,
    output_len_ptr: u32,
) -> (env: Environment<'a, E, Init>)
    ensures
        env.words@ == (Words {
            val0: input_ptr,
            val1: input_len,
            val2: output_ptr,
            val3: output_len_ptr,
        }),
        *env.runtime == old(host).runtime,
        *final(env.runtime) == final(host).runtime,
{
    Environment {
        runtime: &mut host.runtime,
        words: CallWords { input_ptr, input_len, output_ptr, output_len_ptr, state: PhantomData },
    }
}

impl<'a, E: Ext, S: State> Environment<'a, E, S> {
    /// The state that the environment is in.
    pub open spec fn marker(&self) -> Marker {
        S::marker()
    }

    /// Charges `amount` to the gas meter of the call. Where the meter holds
    /// less, the call fails with `OutOfGas` and nothing is charged.
    pub fn charge_weight(&mut self, amount: Weight) -> (r: Result<()>)
        ensures
            ({
                let before = old(self).runtime@;
                let after = final(self).runtime@;
                if amount <= before.gas_left {
                    r is Ok && after == (RuntimeState {
                        gas_left: (before.gas_left - amount) as Weight,
                        ..before
                    })
                } else {
                    r == Err::<(), Error>(Error::OutOfGas) && after == before
                }
            }),
            final(self).words == old(self).words,
            *final(final(self).runtime) == *final(old(self).runtime),
    {
        self.runtime.charge_gas(amount)
    }

    /// The execution context of the call. Whatever the caller does to it is
    /// done to the context of the runtime.
    pub fn ext(&mut self) -> (ext: &mut E)
        ensures
            *ext == old(self).runtime@.ext,
            final(self).runtime@ == (RuntimeState {
                ext: *final(ext),
                ext_uses: old(self).runtime@.ext_uses + 1,
                ..old(self).runtime@
            }),
            final(self).words == old(self).words,
            *final(final(self).runtime) == *final(old(self).runtime),
    {
        self.runtime.ext()
    }
}

impl<'a, E: Ext> Environment<'a, E, Init> {
    /// Reads the call words as two plain values in and two plain values out.
    pub fn only_in(self) -> (env: Environment<'a, E, OnlyIn>)
        ensures
            env.words@ == self.words@,
            *env.runtime == *old(self.runtime),
            *final(env.runtime) == *final(self.runtime),
            transition(self.marker(), env.marker()),
    {
        Environment { runtime: self.runtime, words: self.words.into_state() }
    }

    /// Reads the call words as two plain values in and an output buffer.
    pub fn prim_in_buf_out(self) -> (env: Environment<'a, E, PrimInBufOut>)
        ensures
            env.words@ == self.words@,
            *env.runtime == *old(self.runtime),
            *final(env.runtime) == *final(self.runtime),
            transition(self.marker(), env.marker()),
    {
        Environment { runtime: self.runtime, words: self.words.into_state() }
    }

    /// Reads the call words as an input buffer and an output buffer.
    pub fn buf_in_buf_out(self) -> (env: Environment<'a, E, BufInBufOut>)
        ensures
            env.words@ == self.words@,
            *env.runtime == *old(self.runtime),
            *final(env.runtime) == *final(self.runtime),
            transition(self.marker(), env.marker()),
    {
        Environment { runtime: self.runtime, words: self.words.into_state() }
    }
}

impl<'a, E: Ext, S: PrimIn> Environment<'a, E, S> {
    /// The first call word.
    pub fn val0(&self) -> (value: u32)
        ensures
            value == self.words@.val0,
            grants(S::marker(), Capability::PrimIn),
    {
        proof {
            S::has_prim_in();
        }
        self.words.input_ptr
    }

    /// The second call word.
    pub fn val1(&self) -> (value: u32)
        ensures
            value == self.words@.val1,
            grants(S::marker(), Capability::PrimIn),
    {
        proof {
            S::has_prim_in();
        }
        self.words.input_len
    }
}

impl<'a, E: Ext, S: PrimOut> Environment<'a, E, S> {
    /// The third call word.
    pub fn val2(&self) -> (value: u32)
        ensures
            value == self.words@.val2,
            grants(S::marker(), Capability::PrimOut),
    {
        proof {
            S::has_prim_out();
        }
        self.words.output_ptr
    }

    /// The fourth call word.
    pub fn val3(&self) -> (value: u32)
        ensures
            value == self.words@.val3,
            grants(S::marker(), Capability::PrimOut),
    {
        proof {
            S::has_prim_out();
        }
        self.words.output_len_ptr
    }
}

impl<'a, E: Ext, S: BufIn> Environment<'a, E, S> {
    /// The input buffer of the guest: the `val1` bytes of its memory from
    /// address `val0` on. Where they do not all lie inside the memory, the
    /// call fails with `OutOfBounds` and returns none of them.
    pub fn read(&self) -> (r: Result<Vec<u8>>)
        ensures
            ({
                let memory = old(self.runtime)@.memory;
                let ptr = self.words@.val0;
                let len = self.words@.val1;
                if in_bounds(memory.len(), ptr, len as nat) {
                    r is Ok && r->Ok_0@ == memory.subrange(ptr as int, ptr + len)
                } else {
                    r == Err::<Vec<u8>, Error>(Error::OutOfBounds)
                }
            }),
            grants(S::marker(), Capability::BufIn),
    {
        proof {
            S::has_buf_in();
        }
        self.runtime.read_sandbox_memory(self.words.input_ptr, self.words.input_len)
    }
}

/// What it costs to hand `len` bytes to the guest at `weight_per_byte`: their
/// product, or the largest weight where the product is larger still; nothing
/// where no weight is given.
pub open spec fn output_cost(weight_per_byte: Option<Weight>, len: nat) -> Weight {
    match weight_per_byte {
        Some(weight) => if weight * len > Weight::MAX {
            Weight::MAX
        } else {
            (weight * len) as Weight
        },
        None => 0,
    }
}

impl<'a, E: Ext, S: BufOut> Environment<'a, E, S> {
    /// Hands `buf` to the guest as the output of the call: the length of
    /// `buf` is stored at address `val3`, then `buf` itself at address `val2`.
    ///
    /// With `allow_skip`, a guest that passed `SKIP_OUTPUT` as `val2` gets no
    /// output: nothing is written or charged, and the call succeeds. In every
    /// other case a `weight_per_byte` is charged for each byte of `buf`
    /// before anything is written. The call fails with `OutOfGas` where the
    /// meter holds less than that, else with `OutOfBounds` where `buf` or its
    /// length do not lie inside the memory of the guest. A call that fails
    /// charges nothing and writes nothing.
    pub fn write(&mut self, buf: &[u8], allow_skip: bool, weight_per_byte: Option<Weight>) -> (r:
        Result<()>)
        ensures
            ({
                let before = old(self).runtime@;
                let after = final(self).runtime@;
                let out_ptr = old(self).words@.val2;
                let out_len_ptr = old(self).words@.val3;
                let cost = output_cost(weight_per_byte, buf@.len());
                if skips_output(allow_skip, out_ptr) {
                    r is Ok && after == before
                } else if cost > before.gas_left {
                    r == Err::<(), Error>(Error::OutOfGas) && after == before
                } else if !output_in_bounds(before.memory.len(), out_ptr, out_len_ptr, buf@.len()) {
                    r == Err::<(), Error>(Error::OutOfBounds) && after == before
                } else {
                    r is Ok && after == (RuntimeState {
                        memory: with_output(before.memory, out_ptr, out_len_ptr, buf@),
                        gas_left: (before.gas_left - cost) as Weight,
                        ..before
                    })
                }
            }),
            r is Ok && !skips_output(allow_skip, old(self).words@.val2) ==> match weight_per_byte {
                Some(weight) => weight * buf@.len() <= Weight::MAX ==> old(
                    self,
                ).runtime@.gas_left - final(self).runtime@.gas_left == weight * buf@.len(),
                None => final(self).runtime@.gas_left == old(self).runtime@.gas_left,
            },
            final(self).words == old(self).words,
            *final(final(self).runtime) == *final(old(self).runtime),
            grants(S::marker(), Capability::BufOut),
    {
        proof {
            S::has_buf_out();
        }
        let cost = cost_of_output(weight_per_byte, buf.len());
        self.runtime.write_sandbox_output(
            self.words.output_ptr,
            self.words.output_len_ptr,
            buf,
            allow_skip,
            cost,
        )
    }
}

/// The cost of handing `len` bytes to the guest at `weight_per_byte`.
fn cost_of_output(weight_per_byte: Option<Weight>, len: usize) -> (cost: Weight)
    ensures
        cost == output_cost(weight_per_byte, len as nat),
{
    match weight_per_byte {
        Some(weight) => match weight.checked_mul(len as u64) {
            Some(product) => product,
            None => Weight::MAX,
        },
        None => 0,
    }
}

} // verus!
