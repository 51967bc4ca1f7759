//! Control of an EVE chip at the level of directly accessing its memory-mapped
//! peripherals.

pub mod host_commands;
pub mod registers;

use crate::display_list::{dl_appended, Builder, DLCmd};
use crate::interface::{logged, ran, read_ops, write_ops, IfaceOp, Interface};
use crate::memory::region::{region_addr, RegionLayout};
use crate::memory::{HostAccessible, MemoryRegion, Ptr};
use crate::models::Model;
use core::marker::PhantomData;
use vstd::prelude::*;

pub use host_commands::HostCmd;
pub use registers::Register;

verus! {

/// The two bytes of `v`, least significant first, as EVE stores them.
pub open spec fn le16_bytes(v: u16) -> Seq<u8> {
    seq![v as u8, (v >> 8) as u8]
}

/// The four bytes of `v`, least significant first, as EVE stores them.
pub open spec fn le32_bytes(v: u32) -> Seq<u8> {
    seq![v as u8, (v >> 8) as u8, (v >> 16) as u8, (v >> 24) as u8]
}

/// The value of two bytes stored least significant first.
pub open spec fn le16_value(b: Seq<u8>) -> u16 {
    (b[0] as u16) | (b[1] as u16) << 8
}

/// The value of four bytes stored least significant first.
pub open spec fn le32_value(b: Seq<u8>) -> u32 {
    (b[0] as u32) | (b[1] as u32) << 8 | (b[2] as u32) << 16 | (b[3] as u32) << 24
}

/// A read at `addr` of `n` bytes ran, succeeding exactly when `ok`: the
/// operations appended are those of a run of a read of `n` bytes.
pub open spec fn read_within(before: Seq<IfaceOp>, after: Seq<IfaceOp>, addr: u32, n: nat, ok: bool) -> bool {
    exists|d: Seq<u8>| d.len() == n && #[trigger] ran(before, after, read_ops(addr, d), ok)
}

/// What a value read back gives of the bytes that were written: a value
/// stored as two little-endian bytes decodes to itself.
pub proof fn lemma_le16_roundtrip(v: u16)
    ensures
        le16_value(le16_bytes(v)) == v,
{
    assert(((v as u8) as u16) | (((v >> 8) as u8) as u16) << 8 == v) by (bit_vector);
}

/// A value stored as four little-endian bytes decodes to itself.
pub proof fn lemma_le32_roundtrip(v: u32)
    ensures
        le32_value(le32_bytes(v)) == v,
{
    assert(((v as u8) as u32) | (((v >> 8) as u8) as u32) << 8 | (((v >> 16) as u8) as u32) << 16
        | (((v >> 24) as u8) as u32) << 24 == v) by (bit_vector);
}

/// Two bytes decode to a value whose encoding is those bytes again.
pub proof fn lemma_le16_bytes_of_value(b: Seq<u8>)
    requires
        b.len() == 2,
    ensures
        le16_bytes(le16_value(b)) == b,
{
    let b0 = b[0];
    let b1 = b[1];
    let v = le16_value(b);
    assert(v as u8 == b0 && (v >> 8) as u8 == b1) by (bit_vector)
        requires
            v == (b0 as u16) | (b1 as u16) << 8,
    ;
    assert(le16_bytes(v) =~= b);
}

/// Four bytes decode to a value whose encoding is those bytes again.
pub proof fn lemma_le32_bytes_of_value(b: Seq<u8>)
    requires
        b.len() == 4,
    ensures
        le32_bytes(le32_value(b)) == b,
{
    let b0 = b[0];
    let b1 = b[1];
    let b2 = b[2];
    let b3 = b[3];
    let v = le32_value(b);
    assert(v as u8 == b0 && (v >> 8) as u8 == b1 && (v >> 16) as u8 == b2 && (v >> 24) as u8 == b3)
        by (bit_vector)
        requires
            v == (b0 as u32) | (b1 as u32) << 8 | (b2 as u32) << 16 | (b3 as u32) << 24,
    ;
    assert(le32_bytes(v) =~= b);
}

/// The end of the display list memory of model `M`, one past its last byte.
pub open spec fn dl_end<M: Model>() -> int {
    M::DisplayListMem::BASE_ADDR + M::DisplayListMem::LENGTH
}

/// Where the display list cursor goes after a command was written at `addr`:
/// to the next word, unless that would leave display list memory, in which
/// case it stays on the last word so that later commands overwrite it.
pub open spec fn dl_next_addr<M: Model>(addr: int) -> int {
    if addr + 4 >= dl_end::<M>() {
        dl_end::<M>() - 4
    } else {
        addr + 4
    }
}

/// Where the display list cursor stands after `k` commands were written
/// from the start of display list memory, one `dl_next_addr` step each.
pub open spec fn dl_cursor_after<M: Model>(k: nat) -> int
    decreases k,
{
    if k == 0 {
        M::DisplayListMem::BASE_ADDR as int
    } else {
        dl_next_addr::<M>(dl_cursor_after::<M>((k - 1) as nat))
    }
}

/// After `k` successful `dl` calls since the cursor was last at the start
/// of display list memory (a new `LowLevel` or `dl_reset`), the cursor
/// stands `4k` bytes on, or on the last word of display list memory if
/// that is nearer: the commands overwrite that word rather than leave the
/// display list memory.
pub proof fn lemma_dl_cursor_after<M: Model>(k: nat)
    ensures
        dl_cursor_after::<M>(k) == M::DisplayListMem::BASE_ADDR + (if 4 * k <= M::DisplayListMem::LENGTH - 4 {
            4 * k as int
        } else {
            M::DisplayListMem::LENGTH - 4
        }),
    decreases k,
{
    M::lemma_layout_valid();
    if k > 0 {
        lemma_dl_cursor_after::<M>((k - 1) as nat);
    }
}

/// `LowLevel` is a low-level interface to EVE controllers which matches
/// the primitive operations used in Programmers Guides for the various
/// EVE controllers.
///
/// This is slightly higher-level than the `Interface` trait, providing
/// size-specific memory accesses, but doesn't have any special knowledge
/// about the memory map or command set of any particular EVE implementation.
///
/// This struct tracks a "cursor" for appending display list entries using
/// the `dl` method. Use `dl_reset` to reset that cursor to the beginning of
/// display list memory, which you'll typically (but not necessarily) do after
/// writing `REG_DLSWAP` to swap the display list double buffer. `LowLevel`
/// doesn't manage display list buffer swapping itself, only the cursor for
/// the next `dl` call.
pub struct LowLevel<M: Model, I: Interface> {
    raw: I,
    next_dl: Ptr<M::DisplayListMem>,
    dl_log: Ghost<Seq<u32>>,
    _model: PhantomData<M>,
}

impl<M: Model, I: Interface> LowLevel<M, I> {
    /// The interface that the object drives.
    pub closed spec fn interface(&self) -> I {
        self.raw
    }

    /// The absolute address where the next display list command goes.
    pub closed spec fn next_dl_addr(&self) -> int {
        self.next_dl@
    }

    /// The display list commands written through `dl` so far.
    pub closed spec fn dl_commands(&self) -> Seq<u32> {
        self.dl_log@
    }

    pub fn new(interface: I) -> (r: Self)
        ensures
            r.interface() == interface,
            r.next_dl_addr() == M::DisplayListMem::BASE_ADDR,
            r.dl_commands() == Seq::<u32>::empty(),
    {
        proof {
            M::lemma_layout_valid();
        }
        LowLevel {
            raw: interface,
            next_dl: M::DisplayListMem::ptr(0),
            dl_log: Ghost(Seq::empty()),
            _model: PhantomData,
        }
    }

    /// Consumes the `LowLevel` object and returns the interface it was
    /// originally created with.
    pub fn take_interface(self) -> (r: I)
        ensures
            r == self.interface(),
    {
        self.raw
    }

    pub fn borrow_interface<'a>(&'a mut self) -> (r: &'a mut I)
        ensures
            *r == old(self).interface(),
            final(self).interface() == *final(r),
            final(self).next_dl_addr() == old(self).next_dl_addr(),
            final(self).dl_commands() == old(self).dl_commands(),
    {
        &mut self.raw
    }

    pub fn wr8<R: HostAccessible>(&mut self, addr: Ptr<R>, v: u8) -> (r: Result<(), I::Error>)
        ensures
            ran(old(self).interface().ops(), final(self).interface().ops(), write_ops(addr@ as u32, seq![v]), r is Ok),
            final(self).next_dl_addr() == old(self).next_dl_addr(),
            final(self).dl_commands() == old(self).dl_commands(),
    {
        let data: [u8; 1] = [v];
        assert(data@ =~= seq![v]);
        self.raw.write(addr.to_raw(), &data)
    }

    pub fn wr16<R: HostAccessible>(&mut self, addr: Ptr<R>, v: u16) -> (r: Result<(), I::Error>)
        ensures
            ran(old(self).interface().ops(), final(self).interface().ops(), write_ops(addr@ as u32, le16_bytes(v)), r is Ok),
            final(self).next_dl_addr() == old(self).next_dl_addr(),
            final(self).dl_commands() == old(self).dl_commands(),
    {
        let data: [u8; 2] = [v as u8, (v >> 8) as u8];
        assert(data@ =~= le16_bytes(v));
        self.raw.write(addr.to_raw(), &data)
    }

    pub fn wr32<R: HostAccessible>(&mut self, addr: Ptr<R>, v: u32) -> (r: Result<(), I::Error>)
        ensures
            ran(old(self).interface().ops(), final(self).interface().ops(), write_ops(addr@ as u32, le32_bytes(v)), r is Ok),
            final(self).next_dl_addr() == old(self).next_dl_addr(),
            final(self).dl_commands() == old(self).dl_commands(),
    {
        let data: [u8; 4] = [v as u8, (v >> 8) as u8, (v >> 16) as u8, (v >> 24) as u8];
        assert(data@ =~= le32_bytes(v));
        self.raw.write(addr.to_raw(), &data)
    }

    pub fn wr8s<R: HostAccessible>(&mut self, addr: Ptr<R>, v: &[u8]) -> (r: Result<(), I::Error>)
        ensures
            ran(old(self).interface().ops(), final(self).interface().ops(), write_ops(addr@ as u32, v@), r is Ok),
            final(self).next_dl_addr() == old(self).next_dl_addr(),
            final(self).dl_commands() == old(self).dl_commands(),
    {
        self.raw.write(addr.to_raw(), v)
    }

    pub fn rd8<R: HostAccessible>(&mut self, addr: Ptr<R>) -> (r: Result<u8, I::Error>)
        ensures
            read_within(old(self).interface().ops(), final(self).interface().ops(), addr@ as u32, 1, r is Ok),
            r matches Ok(v) ==> final(self).interface().ops() == old(self).interface().ops() + read_ops(addr@ as u32, seq![v]),
            final(self).next_dl_addr() == old(self).next_dl_addr(),
            final(self).dl_commands() == old(self).dl_commands(),
    {
        let mut data: [u8; 1] = [0; 1];
        let r = self.raw.read(addr.to_raw(), &mut data);
        assert(ran(old(self).interface().ops(), self.raw.ops(), read_ops(addr@ as u32, data@), r is Ok));
        match r {
            Ok(()) => {
                assert(data@ =~= seq![data[0]]);
                Ok(data[0])
            },
            Err(e) => Err(e),
        }
    }

    pub fn rd16<R: HostAccessible>(&mut self, addr: Ptr<R>) -> (r: Result<u16, I::Error>)
        ensures
            read_within(old(self).interface().ops(), final(self).interface().ops(), addr@ as u32, 2, r is Ok),
            r matches Ok(v) ==> final(self).interface().ops() == old(self).interface().ops() + read_ops(addr@ as u32, le16_bytes(v)),
            final(self).next_dl_addr() == old(self).next_dl_addr(),
            final(self).dl_commands() == old(self).dl_commands(),
    {
        let mut data: [u8; 2] = [0; 2];
        let r = self.raw.read(addr.to_raw(), &mut data);
        assert(ran(old(self).interface().ops(), self.raw.ops(), read_ops(addr@ as u32, data@), r is Ok));
        match r {
            Ok(()) => {
                let v = (data[0] as u16) | (data[1] as u16) << 8;
                proof {
                    lemma_le16_bytes_of_value(data@);
                }
                Ok(v)
            },
            Err(e) => Err(e),
        }
    }

    pub fn rd32<R: HostAccessible>(&mut self, addr: Ptr<R>) -> (r: Result<u32, I::Error>)
        ensures
            read_within(old(self).interface().ops(), final(self).interface().ops(), addr@ as u32, 4, r is Ok),
            r matches Ok(v) ==> final(self).interface().ops() == old(self).interface().ops() + read_ops(addr@ as u32, le32_bytes(v)),
            final(self).next_dl_addr() == old(self).next_dl_addr(),
            final(self).dl_commands() == old(self).dl_commands(),
    {
        let mut data: [u8; 4] = [0; 4];
        let r = self.raw.read(addr.to_raw(), &mut data);
        assert(ran(old(self).interface().ops(), self.raw.ops(), read_ops(addr@ as u32, data@), r is Ok));
        match r {
            Ok(()) => {
                let v = (data[0] as u32) | (data[1] as u32) << 8 | (data[2] as u32) << 16 | (data[3] as u32) << 24;
                proof {
                    lemma_le32_bytes_of_value(data@);
                }
                Ok(v)
            },
            Err(e) => Err(e),
        }
    }

    pub fn rd8s<R: HostAccessible>(&mut self, addr: Ptr<R>, into: &mut [u8]) -> (r: Result<(), I::Error>)
        ensures
            final(into)@.len() == old(into)@.len(),
            ran(old(self).interface().ops(), final(self).interface().ops(), read_ops(addr@ as u32, final(into)@), r is Ok),
            final(self).next_dl_addr() == old(self).next_dl_addr(),
            final(self).dl_commands() == old(self).dl_commands(),
    {
        self.raw.read(addr.to_raw(), into)
    }

    pub fn main_mem_ptr(&self, offset: u32) -> (p: Ptr<M::MainMem>)
        ensures
            p@ == region_addr::<M::MainMem>(offset as int),
    {
        proof {
            M::lemma_layout_valid();
        }
        M::MainMem::ptr(offset)
    }

    pub fn reg_ptr(&self, reg: Register) -> (p: Ptr<M::RegisterMem>)
        ensures
            p@ == region_addr::<M::RegisterMem>(reg.spec_offset() as int),
    {
        M::reg_ptr(reg)
    }

    pub fn host_command(&mut self, cmd: HostCmd, a0: u8, a1: u8) -> (r: Result<(), I::Error>)
        ensures
            final(self).interface().ops() == old(self).interface().ops() + logged(IfaceOp::HostCmd(cmd.spec_raw(), a0, a1), r is Ok),
            final(self).next_dl_addr() == old(self).next_dl_addr(),
            final(self).dl_commands() == old(self).dl_commands(),
    {
        self.raw.host_cmd(cmd.to_raw(), a0, a1)
    }

    /// Moves the display list cursor back to the start of display list
    /// memory.
    pub fn dl_reset(&mut self)
        ensures
            final(self).next_dl_addr() == M::DisplayListMem::BASE_ADDR,
            final(self).interface() == old(self).interface(),
            final(self).dl_commands() == old(self).dl_commands(),
    {
        proof {
            M::lemma_layout_valid();
        }
        self.next_dl = M::DisplayListMem::ptr(0);
    }

    /// Writes the command at the display list cursor and moves the cursor
    /// on by one command, unless the command was written into the last word
    /// of display list memory, where the cursor then stays.
    pub fn dl(&mut self, cmd: DLCmd) -> (r: Result<(), I::Error>)
        ensures
            ran(
                old(self).interface().ops(),
                final(self).interface().ops(),
                write_ops(old(self).next_dl_addr() as u32, le32_bytes(cmd@)),
                r is Ok,
            ),
            r is Ok ==> final(self).next_dl_addr() == dl_next_addr::<M>(old(self).next_dl_addr()),
            r is Ok ==> final(self).dl_commands() == old(self).dl_commands().push(cmd@),
            r is Err ==> final(self).next_dl_addr() == old(self).next_dl_addr(),
            r is Err ==> final(self).dl_commands() == old(self).dl_commands(),
    {
        proof {
            M::lemma_layout_valid();
            assert(DLCmd::LENGTH == 4);
        }
        let r = self.wr32(self.next_dl, cmd.as_raw());
        match r {
            Ok(()) => {},
            Err(e) => {
                return Err(e);
            },
        }
        let end_addr: u32 = M::DisplayListMem::BASE_ADDR + M::DisplayListMem::LENGTH;
        let mut next_addr = self.next_dl.to_raw() + DLCmd::LENGTH;
        // If the next write would be out of range then we'll undo
        // our increment and let the next write just overwrite the
        // final entry in the display list. This means that a well-behaved
        // program which finishes its display list with the Display
        // command will still end up with that command at its end, even
        // though some of the commands were lost due to running out of
        // display list memory.
        if next_addr >= end_addr {
            next_addr = end_addr - DLCmd::LENGTH;
        }
        proof {
            lemma_aligned_region_addr::<M::DisplayListMem>(next_addr as int);
        }
        self.next_dl = M::DisplayListMem::ptr(next_addr);
        self.dl_log = Ghost(self.dl_log@.push(cmd@));
        Ok(())
    }
}

/// In a region that starts at a multiple of its length, the region address
/// of an absolute address inside the region is that address itself.
pub proof fn lemma_aligned_region_addr<R: RegionLayout>(addr: int)
    requires
        0 < R::LENGTH,
        R::BASE_ADDR % R::LENGTH == 0,
        R::BASE_ADDR <= addr < R::BASE_ADDR + R::LENGTH,
    ensures
        region_addr::<R>(addr) == addr,
{
    let base = R::BASE_ADDR as int;
    let len = R::LENGTH as int;
    let k = base / len;
    assert(base == k * len) by (nonlinear_arith)
        requires
            base % len == 0,
            len > 0,
            k == base / len,
    ;
    assert(addr % len == addr - base) by (nonlinear_arith)
        requires
            base == k * len,
            base <= addr < base + len,
            len > 0,
    {
        vstd::arithmetic::div_mod::lemma_fundamental_div_mod_converse(addr, len, k, addr - base);
    }
}

impl<M: Model, I: Interface> Builder for LowLevel<M, I> {
    type Model = M;
    type Error = I::Error;

    closed spec fn dl_log(&self) -> Seq<u32> {
        self.dl_log@
    }

    fn append_raw_command(&mut self, raw: u32) -> (r: Result<(), I::Error>) {
        let ghost before = self.dl_log@;
        let r = self.dl(DLCmd::from_raw(raw));
        assert((before + seq![raw]).take(before.len() as int) =~= before);
        assert((before + seq![raw]).take((before.len() + 1) as int) =~= before.push(raw));
        r
    }

    fn append_command(&mut self, cmd: DLCmd) -> (r: Result<(), I::Error>) {
        let ghost before = self.dl_log@;
        let r = self.dl(cmd);
        assert((before + seq![cmd@]).take(before.len() as int) =~= before);
        assert((before + seq![cmd@]).take((before.len() + 1) as int) =~= before.push(cmd@));
        r
    }
}


/// The display list cursor never leaves display list memory and stays on a
/// word boundary: from any word of display list memory, `dl` moves it to a
/// word of display list memory.
pub proof fn lemma_dl_cursor_stays_in_memory<M: Model>(addr: int)
    requires
        M::DisplayListMem::BASE_ADDR <= addr <= dl_end::<M>() - 4,
        (addr - M::DisplayListMem::BASE_ADDR) % 4 == 0,
    ensures
        M::DisplayListMem::BASE_ADDR <= dl_next_addr::<M>(addr) <= dl_end::<M>() - 4,
        (dl_next_addr::<M>(addr) - M::DisplayListMem::BASE_ADDR) % 4 == 0,
{
    M::lemma_layout_valid();
}

} // verus!
