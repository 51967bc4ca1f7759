//! Helpers for waiting until the coprocessor has freed enough ring buffer
//! space for a forthcoming command.
//!
//! [`Waiter`](Waiter) is a trait implemented by types that are able to block
//! until there's either a particular amount of buffer space available or
//! until the coprocessor reports a fault.
//!
//! [`PollingWaiter`](PollingWaiter) keeps the state of a simple waiter that
//! busy-polls the coprocessor registers; [`PollingWaiter::poll`] makes one
//! poll and decides whether waiting is over.
//!
//! If you are working with this library on a platform where you are able to
//! listen for and respond to interrupt signals from the EVE chip then you
//! could improve power consumption by implementing a new `Waiter` which can
//! put the host processor to sleep while waiting for a signal that there is
//! either more buffer space or a coprocessor fault.

use crate::interface::{read_ops, Interface};
use crate::low_level::registers::reg_addr;
use crate::low_level::{le16_bytes, read_within, LowLevel, Register};
use crate::models::Model;
use core::marker::PhantomData;
use vstd::prelude::*;

verus! {

/// Knows how to block until the coprocessor ring buffer is at least empty
/// enough to receive a forthcoming message.
///
/// This is a trait in order to allow for implementations that are able to
/// respond to the EVE's interrupt signal for the buffer to be ready, because
/// interaction with interrupts is always system-specific.
pub trait Waiter<M: Model, I: Interface> {
    type Error;

    /// Blocks until the coprocessor reports at least `need` bytes of free
    /// space, and returns the space it reported, or fails.
    fn wait_for_space(&mut self, ell: &mut LowLevel<M, I>, need: u16) -> (r: Result<u16, WaiterError<Self::Error>>)
        ensures
            r matches Ok(space) ==> space >= need,
    ;
}

/// Error type returned by a waiter, which distinguishes between communication
/// transport errors and explicit coprocessor faults.
#[derive(Debug)]
pub enum WaiterError<E: Sized> {
    Comm(E),
    Fault,
}

/// Passes a value through and wraps an error as a communication error.
pub fn waiter_comm_result<R, E: Sized>(result: Result<R, E>) -> (r: Result<R, WaiterError<E>>)
    ensures
        match result {
            Ok(v) => r == Ok::<R, WaiterError<E>>(v),
            Err(e) => r == Err::<R, WaiterError<E>>(WaiterError::Comm(e)),
        },
{
    match result {
        Ok(v) => Ok(v),
        Err(err) => Err(WaiterError::Comm(err)),
    }
}

/// What the amount of free space that the coprocessor reported means for a
/// wait for `need` bytes.
#[derive(Clone, Copy, PartialEq, Eq, Debug)]
pub enum SpaceCheck {
    /// There is enough space.
    Ready(u16),
    /// There is not enough space yet; poll again.
    NotYet,
    /// The space is not a multiple of four, which the coprocessor reports
    /// only when it has faulted.
    Fault,
}

/// What a report of `known_space` free bytes means for a wait for `need`.
pub open spec fn spec_check_space(known_space: u16, need: u16) -> SpaceCheck {
    if known_space % 4 != 0 {
        SpaceCheck::Fault
    } else if known_space >= need {
        SpaceCheck::Ready(known_space)
    } else {
        SpaceCheck::NotYet
    }
}

/// Decides what a report of `known_space` free bytes means for a wait for
/// `need` bytes: an unaligned amount of space indicates a coprocessor fault.
pub fn check_space(known_space: u16, need: u16) -> (r: SpaceCheck)
    ensures
        r == spec_check_space(known_space, need),
{
    if (known_space % 4) != 0 {
        // An unaligned amount of space indicates a coprocessor fault.
        return SpaceCheck::Fault;
    }
    if known_space >= need {
        return SpaceCheck::Ready(known_space);
    }
    SpaceCheck::NotYet
}

/// The state of a [`Waiter`](Waiter) that polls the coprocessor registers in
/// a busy loop until there's enough available space, one [`poll`](Self::poll)
/// after another.
pub struct PollingWaiter<M: Model, I: Interface> {
    _ei: PhantomData<I>,
    _m: PhantomData<M>,
}

impl<M: Model, I: Interface> PollingWaiter<M, I> {
    pub fn new() -> (r: Self) {
        PollingWaiter { _ei: PhantomData, _m: PhantomData }
    }

    /// Makes one poll: reads `REG_CMDB_SPACE` and decides from it.
    pub fn poll(&mut self, ell: &mut LowLevel<M, I>, need: u16) -> (r: Result<SpaceCheck, WaiterError<I::Error>>)
        ensures
            read_within(old(ell).interface().ops(), final(ell).interface().ops(), reg_addr::<M>(Register::CMDB_SPACE), 2, r is Ok),
            r is Ok <==> exists|space: u16|
                final(ell).interface().ops() == old(ell).interface().ops() + read_ops(
                    reg_addr::<M>(Register::CMDB_SPACE),
                    le16_bytes(space),
                ) && r == Ok::<SpaceCheck, WaiterError<I::Error>>(#[trigger] spec_check_space(space, need)),
            r matches Err(e) ==> e is Comm,
            final(ell).next_dl_addr() == old(ell).next_dl_addr(),
            final(ell).dl_commands() == old(ell).dl_commands(),
    {
        let p = ell.reg_ptr(Register::CMDB_SPACE);
        let read = ell.rd16(p);
        match waiter_comm_result(read) {
            Ok(known_space) => {
                let c = check_space(known_space, need);
                Ok(c)
            },
            Err(e) => Err(e),
        }
    }
}

} // verus!
