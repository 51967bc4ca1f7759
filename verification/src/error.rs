//! Various error types returned by different components in this crate.

use crate::commands::waiter::Waiter;
use crate::interface::Interface;
use crate::models::Model;
use vstd::prelude::*;
use vstd::std_specs::convert::FromSpecImpl;

verus! {

/// A general error type for errors from the main [`EVE`](crate::EVE) type,
/// and some other types such as [`LowLevel`](crate::low_level::LowLevel).
#[non_exhaustive]
#[derive(Debug)]
pub enum Error<I: Interface> {
    /// Indicates that the requested operation isn't supported for the
    /// current model.
    ///
    /// The crate API is designed to handle certain model differences at
    /// compile time within the type system, but for reasons of pragmatism
    /// some differences are handled only dynamically.
    Unsupported,

    /// Errors encountered when sending or recieving data from the EVE chip.
    ///
    /// The wrapped error type for this variant is the error type for whichever
    /// [`Interface`](crate::interface::Interface) implementation you are using.
    Interface(I::Error),
}

/// Error type for coprocessor operations.
///
/// This distinguishes between errors from the underlying interface to the
/// hardware, errors returned by the "waiter" while waiting for more buffer
/// space, and coprocessor faults reported by the EVE chip itself.
#[non_exhaustive]
#[derive(Debug)]
pub enum CoprocessorError<M: Model, I: Interface, W: Waiter<M, I>> {
    /// Indicates that the requested operation isn't supported for the
    /// current model.
    Unsupported,

    /// Errors encountered when sending or recieving data from the EVE chip.
    Interface(I::Error),

    /// Errors encountered while waiting for more space in the ring buffer.
    ///
    /// The wrapped error type for this variant is the error type for whichever
    /// [`Waiter`](crate::commands::waiter::Waiter) implementation you are using.
    Waiter(W::Error),

    /// Indicates that the coprocessor itself reported a fault.
    ///
    /// The coprocessor typically runs asynchronously from the host processor,
    /// and so a fault error may be returned from some later method call than
    /// the one which caused the fault. This error variant therefore indicates
    /// only that the coprocessor is blocked by being the fault state, not that
    /// the most recent method call put it in that state.
    Fault,
}

/// The coprocessor error that stands for a general error: the same variant,
/// with the same interface error.
pub open spec fn spec_from_general_error<M: Model, I: Interface, W: Waiter<M, I>>(err: Error<I>) -> CoprocessorError<M, I, W> {
    match err {
        Error::Unsupported => CoprocessorError::Unsupported,
        Error::Interface(e) => CoprocessorError::Interface(e),
    }
}

impl<M: Model, I: Interface, W: Waiter<M, I>> CoprocessorError<M, I, W> {
    pub fn from_general_error(err: Error<I>) -> (r: Self)
        ensures
            r == spec_from_general_error::<M, I, W>(err),
    {
        match err {
            Error::Unsupported => CoprocessorError::Unsupported,
            Error::Interface(e) => CoprocessorError::Interface(e),
        }
    }

    /// Passes a value through and converts a general error into a
    /// coprocessor error.
    pub fn general_result<R>(r: Result<R, Error<I>>) -> (res: Result<R, Self>)
        ensures
            match r {
                Ok(v) => res == Ok::<R, Self>(v),
                Err(e) => res == Err::<R, Self>(spec_from_general_error::<M, I, W>(e)),
            },
    {
        match r {
            Ok(v) => Ok(v),
            Err(e) => Err(Self::from_general_error(e)),
        }
    }
}

impl<M: Model, I: Interface, W: Waiter<M, I>> From<Error<I>> for CoprocessorError<M, I, W> {
    fn from(err: Error<I>) -> (r: Self) {
        Self::from_general_error(err)
    }
}

impl<M: Model, I: Interface, W: Waiter<M, I>> FromSpecImpl<Error<I>> for CoprocessorError<M, I, W> {
    open spec fn obeys_from_spec() -> bool {
        true
    }

    open spec fn from_spec(err: Error<I>) -> Self {
        spec_from_general_error::<M, I, W>(err)
    }
}

} // verus!
