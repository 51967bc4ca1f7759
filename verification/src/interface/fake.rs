//! Fake `Interface` implementation for testing and examples.

use super::{logged, IfaceOp};
use core::convert::Infallible;
use vstd::prelude::*;

verus! {

/// Told of every write to the memory of a fake [`Interface`](Interface),
/// after the bytes are stored.
///
/// Every closure `Fn(u32, &[u8]) -> Result<(), E>` is one, and so is
/// [`NoCallback`](NoCallback), which accepts every write.
pub trait OnWrite<E> {
    /// Whether the callback can be called for `data` written at `addr`.
    spec fn accepts(&self, addr: u32, data: &[u8]) -> bool;

    /// Whether `r` is an outcome that the callback can give for `data`
    /// written at `addr`.
    spec fn gives(&self, addr: u32, data: &[u8], r: Result<(), E>) -> bool;

    fn written(&self, addr: u32, data: &[u8]) -> (r: Result<(), E>)
        requires
            self.accepts(addr, data),
        ensures
            self.gives(addr, data, r),
    ;
}

impl<E, F: Fn(u32, &[u8]) -> Result<(), E>> OnWrite<E> for F {
    open spec fn accepts(&self, addr: u32, data: &[u8]) -> bool {
        call_requires(*self, (addr, data))
    }

    /// The closure's result for these arguments.
    open spec fn gives(&self, addr: u32, data: &[u8], r: Result<(), E>) -> bool {
        call_ensures(*self, (addr, data), r)
    }

    fn written(&self, addr: u32, data: &[u8]) -> (r: Result<(), E>) {
        (self)(addr, data)
    }
}

/// The callback of a fake interface made with [`Interface::new`], which
/// accepts every write.
#[derive(Debug, Clone, Copy)]
pub struct NoCallback;

impl OnWrite<Infallible> for NoCallback {
    open spec fn accepts(&self, addr: u32, data: &[u8]) -> bool {
        true
    }

    open spec fn gives(&self, addr: u32, data: &[u8], r: Result<(), Infallible>) -> bool {
        r is Ok
    }

    fn written(&self, _addr: u32, _data: &[u8]) -> (r: Result<(), Infallible>)
        ensures
            r is Ok,
    {
        Ok(())
    }
}

/// The errors of a fake interface.
#[derive(Debug)]
pub enum Error<WriteCallbackError> {
    /// The access reaches past the end of the memory.
    OutOfBounds,
    /// The write callback failed.
    WriteCallback(WriteCallbackError),
    /// The operation does not fit the ones before it: a transfer began while
    /// another was open, or continued or ended when none was.
    IncorrectSequence,
}

/// `mem` after the bytes of `data` that fit were stored from `addr` on.
pub open spec fn write_prefix(mem: Seq<u8>, addr: int, data: Seq<u8>) -> Seq<u8> {
    Seq::new(mem.len(), |k: int| if addr <= k < addr + data.len() { data[k - addr] } else { mem[k] })
}

/// `into` after the bytes of `mem` that exist from `addr` on were copied
/// into it.
pub open spec fn read_prefix(mem: Seq<u8>, addr: int, into: Seq<u8>) -> Seq<u8> {
    Seq::new(into.len(), |i: int| if addr + i < mem.len() { mem[addr + i] } else { into[i] })
}

/// What a read gives back of a write: bytes stored within the memory are
/// the bytes read back from the same place.
pub proof fn lemma_read_after_write(mem: Seq<u8>, addr: int, data: Seq<u8>, into: Seq<u8>)
    requires
        0 <= addr,
        addr + data.len() <= mem.len(),
        into.len() == data.len(),
    ensures
        read_prefix(write_prefix(mem, addr, data), addr, into) == data,
{
    assert(read_prefix(write_prefix(mem, addr, data), addr, into) =~= data);
}

/// What a fake interface's continued write returns when the callback gave
/// `cr`.
pub open spec fn callback_result<E>(cr: Result<(), E>) -> Result<(), Error<E>> {
    match cr {
        Ok(_) => Ok(()),
        Err(e) => Err(Error::WriteCallback(e)),
    }
}

/// An implementation of [`Interface`](super::Interface) which just reads and
/// writes a buffer in local RAM.
///
/// This type alone doesn't implement any of the typical functionality that
/// would be expected from an EVE chip, but it could in principle be used in
/// conjunction with other code to simulate parts of the EVE functionality
/// for testing purposes.
///
/// This is mainly here just so there's a simple backend to write tests and
/// examples against.
pub struct Interface<'a, WriteCallback, WriteError>
where
    WriteError: core::fmt::Debug,
    WriteCallback: OnWrite<WriteError>,
{
    storage: &'a mut [u8],
    write_callback: WriteCallback,
    write_addr: Option<u32>,
    read_addr: Option<u32>,
    log: Ghost<Seq<IfaceOp>>,
    _err: core::marker::PhantomData<WriteError>,
}

impl<'a> Interface<'a, NoCallback, Infallible> {
    /// A fake interface over `storage`, with no write callback.
    pub fn new(storage: &'a mut [u8]) -> (r: Self)
        ensures
            r.memory() == old(storage)@,
            r.write_cursor() == None::<u32>,
            r.read_cursor() == None::<u32>,
            super::Interface::ops(&r) == Seq::<IfaceOp>::empty(),
    {
        Interface {
            storage: storage,
            write_callback: NoCallback,
            write_addr: None,
            read_addr: None,
            log: Ghost(Seq::empty()),
            _err: core::marker::PhantomData,
        }
    }
}

impl<'a, WriteCallback, WriteError> Interface<'a, WriteCallback, WriteError>
where
    WriteError: core::fmt::Debug,
    WriteCallback: OnWrite<WriteError>,
{
    /// The bytes of the memory.
    pub closed spec fn memory(&self) -> Seq<u8> {
        self.storage@
    }

    /// Where the next bytes of the open write go, if a write is open.
    pub closed spec fn write_cursor(&self) -> Option<u32> {
        self.write_addr
    }

    /// Where the next bytes of the open read come from, if a read is open.
    pub closed spec fn read_cursor(&self) -> Option<u32> {
        self.read_addr
    }

    /// The callback accepts every write.
    #[verifier::type_invariant]
    closed spec fn callback_accepts_all(self) -> bool {
        forall|addr: u32, data: &[u8]| #[trigger] self.write_callback.accepts(addr, data)
    }

    /// The callback told of every write.
    pub closed spec fn callback(&self) -> WriteCallback {
        self.write_callback
    }

    /// Stores the bytes of a continued write and tells the callback.
    fn store(&mut self, data: &[u8]) -> (r: Result<(), Error<WriteError>>)
        ensures
            old(self).write_cursor() is None ==> (r matches Err(Error::IncorrectSequence)) && final(self).memory()
                == old(self).memory() && final(self).write_cursor() == old(self).write_cursor(),
            old(self).write_cursor() matches Some(addr) ==> {
                &&& final(self).memory() == write_prefix(old(self).memory(), addr as int, data@)
                &&& (addr + data@.len() > old(self).memory().len() || addr + data@.len() > u32::MAX)
                    ==> (r matches Err(Error::OutOfBounds))
                &&& (addr + data@.len() <= old(self).memory().len() && addr + data@.len() <= u32::MAX)
                    ==> final(self).write_cursor() == Some((addr + data@.len()) as u32) && exists|
                    cr: Result<(), WriteError>,
                | #[trigger] old(self).callback().gives(addr, data, cr) && r == callback_result(cr)
            },
            final(self).read_cursor() == old(self).read_cursor(),
            final(self).log == old(self).log,
            final(self).write_callback == old(self).write_callback,
    {
        proof {
            use_type_invariant(&*self);
        }
        if let Some(addr) = self.write_addr {
            let ghost mem0 = self.storage@;
            let len = self.storage.len();
            let mut i: usize = 0;
            while i < data.len()
                invariant
                    i <= data@.len(),
                    len == self.storage@.len(),
                    self.log@ == old(self).log@,
                    self.write_callback == old(self).write_callback,
                    self.write_addr == Some(addr),
                    old(self).write_addr == Some(addr),
                    mem0 == old(self).storage@,
                    self.read_addr == old(self).read_addr,
                    forall|a: u32, d: &[u8]| #[trigger] self.write_callback.accepts(a, d),
                    mem0.len() == len,
                    i > 0 ==> addr + i <= len,
                    self.storage@ == write_prefix(mem0, addr as int, data@.subrange(0, i as int)),
                decreases data@.len() - i,
            {
                if addr as usize >= len || i >= len - addr as usize {
                    proof {
                        assert(self.storage@ =~= write_prefix(mem0, addr as int, data@));
                    }
                    return Err(Error::OutOfBounds);
                }
                let ptr = addr as usize + i;
                self.storage[ptr] = data[i];
                i += 1;
                proof {
                    assert(self.storage@ =~= write_prefix(mem0, addr as int, data@.subrange(0, i as int)));
                }
            }
            proof {
                assert(data@.subrange(0, data@.len() as int) =~= data@);
            }
            let end: usize = addr as usize + data.len();
            if end > 0xffff_ffffusize {
                return Err(Error::OutOfBounds);
            }
            if end > len {
                proof {
                    assert(self.storage@ =~= write_prefix(mem0, addr as int, data@));
                }
                return Err(Error::OutOfBounds);
            }
            self.write_addr = Some(end as u32);
            let cr = self.write_callback.written(addr, data);
            let r = match cr {
                Err(err) => Err(Error::WriteCallback(err)),
                Ok(_) => Ok(()),
            };
            assert(old(self).callback().gives(addr, data, cr) && r == callback_result(cr));
            r
        } else {
            Err(Error::IncorrectSequence)
        }
    }

    /// Copies the bytes of a continued read into `into`.
    fn load(&mut self, into: &mut [u8]) -> (r: Result<(), Error<WriteError>>)
        ensures
            old(self).read_cursor() is None ==> (r matches Err(Error::IncorrectSequence)) && final(into)@ == old(
                into,
            )@ && final(self).read_cursor() == old(self).read_cursor(),
            old(self).read_cursor() matches Some(addr) ==> {
                &&& final(into)@ == read_prefix(old(self).memory(), addr as int, old(into)@)
                &&& (addr + old(into)@.len() > old(self).memory().len() || addr + old(into)@.len() > u32::MAX)
                    ==> (r matches Err(Error::OutOfBounds))
                &&& (addr + old(into)@.len() <= old(self).memory().len() && addr + old(into)@.len() <= u32::MAX)
                    ==> r is Ok && final(self).read_cursor() == Some((addr + old(into)@.len()) as u32)
            },
            final(self).write_cursor() == old(self).write_cursor(),
            final(self).memory() == old(self).memory(),
            final(into)@.len() == old(into)@.len(),
            final(self).log == old(self).log,
            final(self).write_callback == old(self).write_callback,
    {
        proof {
            use_type_invariant(&*self);
        }
        let ghost into0 = into@;
        if let Some(addr) = self.read_addr {
            let len = self.storage.len();
            let mut i: usize = 0;
            while i < into.len()
                invariant
                    i <= into@.len(),
                    into@.len() == into0.len(),
                    len == self.storage@.len(),
                    self.log@ == old(self).log@,
                    self.write_callback == old(self).write_callback,
                    self.storage@ == old(self).storage@,
                    self.read_addr == Some(addr),
                    old(self).read_addr == Some(addr),
                    into0 == old(into)@,
                    self.write_addr == old(self).write_addr,
                    forall|a: u32, d: &[u8]| #[trigger] self.write_callback.accepts(a, d),
                    i > 0 ==> addr + i <= len,
                    forall|j: int| 0 <= j < i ==> into@[j] == self.storage@[addr + j],
                    forall|j: int| i <= j < into@.len() ==> into@[j] == into0[j],
                decreases into@.len() - i,
            {
                if addr as usize >= len || i >= len - addr as usize {
                    proof {
                        assert(into@ =~= read_prefix(self.storage@, addr as int, into0));
                    }
                    return Err(Error::OutOfBounds);
                }
                let ptr = addr as usize + i;
                into[i] = self.storage[ptr];
                i += 1;
            }
            proof {
                assert(into@ =~= read_prefix(self.storage@, addr as int, into0));
            }
            let end: usize = addr as usize + into.len();
            if end > 0xffff_ffffusize || end > len {
                return Err(Error::OutOfBounds);
            }
            self.read_addr = Some(end as u32);
            Ok(())
        } else {
            Err(Error::IncorrectSequence)
        }
    }

    /// A fake interface over `storage` that tells `callback` of every write.
    pub fn new_with_write_callback(storage: &'a mut [u8], callback: WriteCallback) -> (r: Self)
        requires
            forall|addr: u32, data: &[u8]| #[trigger] callback.accepts(addr, data),
        ensures
            r.memory() == old(storage)@,
            r.write_cursor() == None::<u32>,
            r.read_cursor() == None::<u32>,
            super::Interface::ops(&r) == Seq::<IfaceOp>::empty(),
    {
        Interface {
            storage: storage,
            write_callback: callback,
            write_addr: None,
            read_addr: None,
            log: Ghost(Seq::empty()),
            _err: core::marker::PhantomData,
        }
    }
}

impl<'a, WriteCallback, WriteError> super::Interface for Interface<'a, WriteCallback, WriteError>
where
    WriteError: core::fmt::Debug,
    WriteCallback: OnWrite<WriteError>,
{
    type Error = Error<WriteError>;

    closed spec fn ops(&self) -> Seq<IfaceOp> {
        self.log@
    }

    fn begin_write(&mut self, addr: u32) -> (r: Result<(), Self::Error>)
        ensures
            r is Ok <==> (old(self).write_cursor() is None && old(self).read_cursor() is None),
            r is Ok ==> final(self).write_cursor() == Some(addr),
            r is Err ==> (r matches Err(Error::IncorrectSequence)) && final(self).write_cursor() == old(
                self,
            ).write_cursor(),
            final(self).read_cursor() == old(self).read_cursor(),
            final(self).memory() == old(self).memory(),
    {
        proof {
            use_type_invariant(&*self);
        }
        let r = if self.write_addr.is_some() || self.read_addr.is_some() {
            Err(Error::IncorrectSequence)
        } else {
            self.write_addr = Some(addr);
            Ok(())
        };
        self.log = Ghost(self.log@ + logged(IfaceOp::BeginWrite(addr), r is Ok));
        r
    }

    fn continue_write(&mut self, data: &[u8]) -> (r: Result<(), Self::Error>)
        ensures
            old(self).write_cursor() is None ==> (r matches Err(Error::IncorrectSequence)) && final(self).memory()
                == old(self).memory() && final(self).write_cursor() == old(self).write_cursor(),
            old(self).write_cursor() matches Some(addr) ==> {
                &&& final(self).memory() == write_prefix(old(self).memory(), addr as int, data@)
                &&& (addr + data@.len() > old(self).memory().len() || addr + data@.len() > u32::MAX)
                    ==> (r matches Err(Error::OutOfBounds))
                &&& (addr + data@.len() <= old(self).memory().len() && addr + data@.len() <= u32::MAX)
                    ==> final(self).write_cursor() == Some((addr + data@.len()) as u32) && exists|
                    cr: Result<(), WriteError>,
                | #[trigger] old(self).callback().gives(addr, data, cr) && r == callback_result(cr)
            },
            final(self).read_cursor() == old(self).read_cursor(),
    {
        proof {
            use_type_invariant(&*self);
        }
        let r = self.store(data);
        self.log = Ghost(self.log@ + logged(IfaceOp::ContinueWrite(data@), r is Ok));
        r
    }

    fn end_write(&mut self) -> (r: Result<(), Self::Error>)
        ensures
            r is Ok <==> old(self).write_cursor() is Some,
            r is Err ==> (r matches Err(Error::IncorrectSequence)),
            final(self).write_cursor() == None::<u32>,
            final(self).read_cursor() == old(self).read_cursor(),
            final(self).memory() == old(self).memory(),
    {
        proof {
            use_type_invariant(&*self);
        }
        let r = if let Some(_) = self.write_addr {
            self.write_addr = None;
            Ok(())
        } else {
            Err(Error::IncorrectSequence)
        };
        self.log = Ghost(self.log@ + logged(IfaceOp::EndWrite, r is Ok));
        r
    }

    fn begin_read(&mut self, addr: u32) -> (r: Result<(), Self::Error>)
        ensures
            r is Ok <==> (old(self).write_cursor() is None && old(self).read_cursor() is None),
            r is Ok ==> final(self).read_cursor() == Some(addr),
            r is Err ==> (r matches Err(Error::IncorrectSequence)) && final(self).read_cursor() == old(
                self,
            ).read_cursor(),
            final(self).write_cursor() == old(self).write_cursor(),
            final(self).memory() == old(self).memory(),
    {
        proof {
            use_type_invariant(&*self);
        }
        let r = if self.write_addr.is_some() || self.read_addr.is_some() {
            Err(Error::IncorrectSequence)
        } else {
            self.read_addr = Some(addr);
            Ok(())
        };
        self.log = Ghost(self.log@ + logged(IfaceOp::BeginRead(addr), r is Ok));
        r
    }

    fn continue_read(&mut self, into: &mut [u8]) -> (r: Result<(), Self::Error>)
        ensures
            old(self).read_cursor() is None ==> (r matches Err(Error::IncorrectSequence)) && final(into)@ == old(
                into,
            )@ && final(self).read_cursor() == old(self).read_cursor(),
            old(self).read_cursor() matches Some(addr) ==> {
                &&& final(into)@ == read_prefix(old(self).memory(), addr as int, old(into)@)
                &&& (addr + old(into)@.len() > old(self).memory().len() || addr + old(into)@.len() > u32::MAX)
                    ==> (r matches Err(Error::OutOfBounds))
                &&& (addr + old(into)@.len() <= old(self).memory().len() && addr + old(into)@.len() <= u32::MAX)
                    ==> r is Ok && final(self).read_cursor() == Some((addr + old(into)@.len()) as u32)
            },
            final(self).write_cursor() == old(self).write_cursor(),
            final(self).memory() == old(self).memory(),
    {
        proof {
            use_type_invariant(&*self);
        }
        let r = self.load(into);
        self.log = Ghost(self.log@ + logged(IfaceOp::ContinueRead(into@), r is Ok));
        r
    }

    fn end_read(&mut self) -> (r: Result<(), Self::Error>)
        ensures
            r is Ok <==> old(self).read_cursor() is Some,
            r is Err ==> (r matches Err(Error::IncorrectSequence)),
            final(self).read_cursor() == None::<u32>,
            final(self).write_cursor() == old(self).write_cursor(),
            final(self).memory() == old(self).memory(),
    {
        proof {
            use_type_invariant(&*self);
        }
        let r = if let Some(_) = self.read_addr {
            self.read_addr = None;
            Ok(())
        } else {
            Err(Error::IncorrectSequence)
        };
        self.log = Ghost(self.log@ + logged(IfaceOp::EndRead, r is Ok));
        r
    }

    fn host_cmd(&mut self, _cmd: u8, _a0: u8, _a1: u8) -> (r: Result<(), Self::Error>)
        ensures
            r is Ok,
            final(self).memory() == old(self).memory(),
            final(self).write_cursor() == old(self).write_cursor(),
            final(self).read_cursor() == old(self).read_cursor(),
    {
        proof {
            use_type_invariant(&*self);
        }
        self.log = Ghost(self.log@ + logged(IfaceOp::HostCmd(_cmd, _a0, _a1), true));
        // The fake interface doesn't do anything with commands.
        Ok(())
    }
}

} // verus!
