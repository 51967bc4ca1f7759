//! Messages for the coprocessor commands that can format text.

use crate::memory::{
    CommandMem, DisplayListMem, HostAccessible, MainMem, MemoryRegion, Ptr, RegionLayout,
    RegisterMem,
};
use vstd::prelude::*;

verus! {

/// A text message that might contain formatting sequences that correspond with
/// given arguments.
///
/// `Message` can also represent messages that won't be formatted at all,
/// although in that case it behaves just as a thin wrapper around a slice
/// of bytes.
#[derive(Clone, Copy, Debug)]
pub struct Message<'a, 'b, R: MainMem = NoMem> {
    pub(crate) fmt: &'a [u8],
    pub(crate) args: Option<&'b [Argument<R>]>,
}

/// An argument used as part of a `Message`.
#[derive(Debug, PartialEq, Eq, Clone, Copy)]
pub enum Argument<R: MainMem> {
    Int(i32),
    UInt(u32),
    Char(char),
    String(Ptr<R>),
}

impl<'a, 'b, R: MainMem> Message<'a, 'b, R> {
    /// The format string, or the literal text of a message without
    /// formatting.
    pub closed spec fn spec_fmt(&self) -> Seq<u8> {
        self.fmt@
    }

    /// The formatting arguments, if the message is to be formatted.
    pub closed spec fn spec_args(&self) -> Option<Seq<Argument<R>>> {
        match self.args {
            Some(a) => Some(a@),
            None => None,
        }
    }

    /// Construct a message with formatting arguments.
    ///
    /// This function doesn't verify that the format string is compatible with
    /// the given arguments. If the arguments are incompatible then a
    /// generated coprocessor command would be invalid.
    ///
    /// A `Message` object only borrows the format string and argument slice
    /// it refers to, so the caller must keep hold of those objects and
    /// keep them in scope for the lifetime of the `Message`.
    pub fn new(fmt: &'a [u8], args: &'b [Argument<R>]) -> (r: Self)
        ensures
            r.spec_fmt() == fmt@,
            r.spec_args() == Some(args@),
    {
        Message { fmt: fmt, args: Some(args) }
    }

    /// Constructs a message that doesn't use the formatting functionality,
    /// and instead just renders literally.
    ///
    /// This function doesn't verify that the given message is valid. In
    /// particular, if you pass a literal containing any null bytes then a
    /// generated coprocessor commands would be invalid.
    pub fn new_literal(lit: &'a [u8]) -> (r: Self)
        ensures
            r.spec_fmt() == lit@,
            r.spec_args() == None::<Seq<Argument<R>>>,
    {
        Message { fmt: lit, args: None }
    }

    /// Returns true if the message should be used with the format option.
    pub fn needs_format(&self) -> (r: bool)
        ensures
            r == self.spec_args() is Some,
    {
        if let Some(_) = self.args {
            true
        } else {
            false
        }
    }
}

/// NoModel is a stand-in model for messages that don't refer to main memory
/// at all, and thus aren't constrained to any particular model.
#[derive(Debug, Clone, Copy)]
pub struct NoModel;

/// NoMem is a stand-in memory region for messages that don't refer to
/// main memory at all. It is empty, so no pointer into it can be made.
#[derive(Debug, Clone, Copy)]
pub struct NoMem;

impl RegionLayout for NoMem {
    type Model = NoModel;

    const BASE_ADDR: u32 = 0;
    const LENGTH: u32 = 0;
    const DEBUG_NAME: &'static str = "NoMem";
}

impl MemoryRegion for NoMem {
}

impl HostAccessible for NoMem {
    proof fn lemma_host_accessible() {
        assert(<NoMem as RegionLayout>::BASE_ADDR == 0);
        assert(<NoMem as RegionLayout>::LENGTH == 0);
    }
}

impl MainMem for NoMem {
}

impl DisplayListMem for NoMem {
}

impl RegisterMem for NoMem {
}

impl CommandMem for NoMem {
}

} // verus!
