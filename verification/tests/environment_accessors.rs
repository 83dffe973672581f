//! Each accessor of the environment on its own: the call words, the gas
//! meter, the execution context, and reads and writes of guest memory at and
//! beyond their limits.

use chain_extension::environment::environment;
use chain_extension::error::Error;
use chain_extension::runtime::{Ext, Host, Weight, SKIP_OUTPUT};

/// An execution context that can be told who the caller is.
struct Context {
    caller: u64,
}

impl Ext for Context {
    type AccountId = u64;

    fn caller(&self) -> &u64 {
        &self.caller
    }
}

fn new_host(memory: Vec<u8>, gas: Weight) -> Host<Context> {
    Host::new(Context { caller: 7 }, memory, gas)
}

fn counting(len: usize) -> Vec<u8> {
    (0..len).map(|i| i as u8).collect()
}

#[test]
fn new_host_holds_what_it_was_given() {
    let (context, memory, gas_left) = new_host(counting(5), 9).into_parts();
    assert_eq!(context.caller, 7);
    assert_eq!(memory, vec![0, 1, 2, 3, 4]);
    assert_eq!(gas_left, 9);
}

#[test]
fn only_in_gives_all_four_words() {
    let mut host = new_host(Vec::new(), 0);
    let env = environment(&mut host, 42, 0, 0xdead_beef, u32::MAX).only_in();
    assert_eq!(env.val0(), 42);
    assert_eq!(env.val1(), 0);
    assert_eq!(env.val2(), 0xdead_beef);
    assert_eq!(env.val3(), u32::MAX);
}

#[test]
fn prim_in_buf_out_gives_the_first_two_words() {
    let mut host = new_host(Vec::new(), 0);
    let env = environment(&mut host, 11, 22, 33, 44).prim_in_buf_out();
    assert_eq!(env.val0(), 11);
    assert_eq!(env.val1(), 22);
}

#[test]
fn charge_weight_takes_from_the_meter() {
    let mut host = new_host(Vec::new(), 100);
    let mut env = environment(&mut host, 0, 0, 0, 0);
    assert_eq!(env.charge_weight(30), Ok(()));
    assert_eq!(env.charge_weight(0), Ok(()));
    let mut env = env.only_in();
    assert_eq!(env.charge_weight(70), Ok(()));
    assert_eq!(env.charge_weight(0), Ok(()));
    assert_eq!(host.into_parts().2, 0);
}

#[test]
fn charge_weight_beyond_the_meter_fails_and_charges_nothing() {
    let mut host = new_host(Vec::new(), 100);
    let mut env = environment(&mut host, 0, 0, 0, 0).buf_in_buf_out();
    assert_eq!(env.charge_weight(101), Err(Error::OutOfGas));
    assert_eq!(env.charge_weight(u64::MAX), Err(Error::OutOfGas));
    assert_eq!(env.charge_weight(100), Ok(()));
    assert_eq!(env.charge_weight(1), Err(Error::OutOfGas));
    assert_eq!(host.into_parts().2, 0);
}

#[test]
fn ext_is_the_context_of_the_host() {
    let mut host = new_host(Vec::new(), 0);
    let mut env = environment(&mut host, 0, 0, 0, 0);
    assert_eq!(*env.ext().caller(), 7);
    env.ext().caller = 8;
    let mut env = env.prim_in_buf_out();
    assert_eq!(*env.ext().caller(), 8);
    assert_eq!(host.into_parts().0.caller, 8);
}

#[test]
fn read_returns_the_bytes_the_words_point_to() {
    let mut host = new_host(counting(64), 0);
    let env = environment(&mut host, 10, 5, 0, 0).buf_in_buf_out();
    assert_eq!(env.read(), Ok(vec![10, 11, 12, 13, 14]));
    assert_eq!(env.read(), Ok(vec![10, 11, 12, 13, 14]));
}

#[test]
fn read_up_to_the_last_byte() {
    let mut host = new_host(counting(64), 0);
    let env = environment(&mut host, 60, 4, 0, 0).buf_in_buf_out();
    assert_eq!(env.read(), Ok(vec![60, 61, 62, 63]));
}

#[test]
fn read_of_nothing() {
    let mut host = new_host(counting(64), 0);
    let env = environment(&mut host, 64, 0, 0, 0).buf_in_buf_out();
    assert_eq!(env.read(), Ok(Vec::new()));
}

#[test]
fn read_beyond_the_memory_fails_whole() {
    let mut host = new_host(counting(64), 0);
    assert_eq!(environment(&mut host, 60, 5, 0, 0).buf_in_buf_out().read(), Err(Error::OutOfBounds));
    assert_eq!(environment(&mut host, 65, 0, 0, 0).buf_in_buf_out().read(), Err(Error::OutOfBounds));
    assert_eq!(environment(&mut host, 0, 65, 0, 0).buf_in_buf_out().read(), Err(Error::OutOfBounds));
    assert_eq!(
        environment(&mut host, u32::MAX, u32::MAX, 0, 0).buf_in_buf_out().read(),
        Err(Error::OutOfBounds)
    );
    assert_eq!(host.into_parts().1, counting(64));
}

#[test]
fn write_stores_the_length_lowest_byte_first() {
    let mut host = new_host(vec![0xff; 0x400], 0);
    let mut env = environment(&mut host, 0, 0, 0x10, 0x300).buf_in_buf_out();
    assert_eq!(env.write(&[7u8; 0x102], false, None), Ok(()));

    let memory = host.into_parts().1;
    let mut expected = vec![0xff; 0x400];
    for byte in &mut expected[0x10..0x112] {
        *byte = 7;
    }
    expected[0x300..0x304].copy_from_slice(&[0x02, 0x01, 0x00, 0x00]);
    assert_eq!(memory, expected);
}

#[test]
fn write_of_nothing_stores_a_zero_length() {
    let mut host = new_host(vec![0xff; 16], 0);
    let mut env = environment(&mut host, 0, 0, 16, 4).prim_in_buf_out();
    assert_eq!(env.write(&[], false, None), Ok(()));
    let memory = host.into_parts().1;
    assert_eq!(&memory[..], &[0xff, 0xff, 0xff, 0xff, 0, 0, 0, 0, 0xff, 0xff, 0xff, 0xff, 0xff, 0xff, 0xff, 0xff]);
}

#[test]
fn write_over_its_own_length_keeps_the_data() {
    let mut host = new_host(vec![0; 8], 0);
    let mut env = environment(&mut host, 0, 0, 2, 0).buf_in_buf_out();
    assert_eq!(env.write(&[0xaa, 0xbb, 0xcc], false, None), Ok(()));
    assert_eq!(host.into_parts().1, vec![3, 0, 0xaa, 0xbb, 0xcc, 0, 0, 0]);
}

#[test]
fn write_charges_the_weight_of_every_byte() {
    let mut host = new_host(vec![0; 64], 1_000);
    let mut env = environment(&mut host, 0, 0, 0, 60).buf_in_buf_out();
    assert_eq!(env.write(&[1u8; 10], false, Some(7)), Ok(()));
    assert_eq!(env.write(&[2u8; 10], true, Some(93)), Ok(()));
    assert_eq!(env.write(&[], false, Some(u64::MAX)), Ok(()));
    assert_eq!(env.write(&[3u8; 5], false, Some(0)), Ok(()));
    assert_eq!(env.write(&[4u8; 1], false, None), Ok(()));
    let (_, memory, gas_left) = host.into_parts();
    assert_eq!(gas_left, 1_000 - 70 - 930);
    assert_eq!(&memory[0..10], &[4, 3, 3, 3, 3, 2, 2, 2, 2, 2]);
    assert_eq!(&memory[60..64], &[1, 0, 0, 0]);
}

#[test]
fn write_that_costs_all_the_gas_succeeds() {
    let mut host = new_host(vec![0; 64], 12);
    let mut env = environment(&mut host, 0, 0, 0, 60).prim_in_buf_out();
    assert_eq!(env.write(&[1, 2, 3], false, Some(4)), Ok(()));
    let (_, memory, gas_left) = host.into_parts();
    assert_eq!(gas_left, 0);
    assert_eq!(&memory[0..4], &[1, 2, 3, 0]);
    assert_eq!(&memory[60..64], &[3, 0, 0, 0]);
}

#[test]
fn write_without_the_gas_fails_and_writes_nothing() {
    let mut host = new_host(vec![0; 64], 11);
    let mut env = environment(&mut host, 0, 0, 0, 60).prim_in_buf_out();
    assert_eq!(env.write(&[1, 2, 3], false, Some(4)), Err(Error::OutOfGas));
    assert_eq!(env.write(&[1, 2, 3], true, Some(4)), Err(Error::OutOfGas));
    let (_, memory, gas_left) = host.into_parts();
    assert_eq!(gas_left, 11);
    assert_eq!(memory, vec![0; 64]);
}

#[test]
fn write_cost_stops_at_the_largest_weight() {
    let mut host = new_host(vec![0; 64], u64::MAX - 1);
    let mut env = environment(&mut host, 0, 0, 0, 60).buf_in_buf_out();
    assert_eq!(env.write(&[1, 2], false, Some(u64::MAX)), Err(Error::OutOfGas));
    assert_eq!(env.write(&[1, 2], false, Some(u64::MAX / 2 + 1)), Err(Error::OutOfGas));
    assert_eq!(host.into_parts().2, u64::MAX - 1);

    let mut host = new_host(vec![0; 64], u64::MAX);
    let mut env = environment(&mut host, 0, 0, 0, 60).buf_in_buf_out();
    assert_eq!(env.write(&[1, 2], false, Some(u64::MAX)), Ok(()));
    let (_, memory, gas_left) = host.into_parts();
    assert_eq!(gas_left, 0);
    assert_eq!(&memory[0..2], &[1, 2]);
}

#[test]
fn write_is_skipped_where_the_guest_asks_for_it() {
    let mut host = new_host(counting(64), 0);
    let mut env = environment(&mut host, 0, 0, SKIP_OUTPUT, 60).buf_in_buf_out();
    assert_eq!(env.write(&[1, 2, 3], true, Some(1_000)), Ok(()));
    assert_eq!(env.write(&[1, 2, 3], true, None), Ok(()));
    let (_, memory, gas_left) = host.into_parts();
    assert_eq!(memory, counting(64));
    assert_eq!(gas_left, 0);
}

#[test]
fn write_is_not_skipped_unless_it_may_be() {
    assert_eq!(SKIP_OUTPUT, u32::MAX);
    let mut host = new_host(counting(64), 10);
    let mut env = environment(&mut host, 0, 0, SKIP_OUTPUT, 60).buf_in_buf_out();
    assert_eq!(env.write(&[1, 2, 3], false, None), Err(Error::OutOfBounds));
    assert_eq!(env.write(&[1, 2, 3], false, Some(4)), Err(Error::OutOfGas));
    let (_, memory, gas_left) = host.into_parts();
    assert_eq!(memory, counting(64));
    assert_eq!(gas_left, 10);
}

#[test]
fn write_beyond_the_memory_fails_and_changes_nothing() {
    let mut host = new_host(counting(64), 100);
    // the data does not fit
    let mut env = environment(&mut host, 0, 0, 62, 0).buf_in_buf_out();
    assert_eq!(env.write(&[1, 2, 3], false, Some(1)), Err(Error::OutOfBounds));
    // the length does not fit
    let mut env = environment(&mut host, 0, 0, 0, 61).buf_in_buf_out();
    assert_eq!(env.write(&[1, 2, 3], false, Some(1)), Err(Error::OutOfBounds));
    // neither does
    let mut env = environment(&mut host, 0, 0, 64, u32::MAX).prim_in_buf_out();
    assert_eq!(env.write(&[1], true, Some(1)), Err(Error::OutOfBounds));
    let (_, memory, gas_left) = host.into_parts();
    assert_eq!(memory, counting(64));
    assert_eq!(gas_left, 100);
}

#[test]
fn write_up_to_the_last_byte() {
    let mut host = new_host(vec![0; 8], 0);
    let mut env = environment(&mut host, 0, 0, 4, 0).buf_in_buf_out();
    assert_eq!(env.write(&[5, 6, 7, 8], false, None), Ok(()));
    assert_eq!(host.into_parts().1, vec![4, 0, 0, 0, 5, 6, 7, 8]);
}
