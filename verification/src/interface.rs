//! Traits for binding the API from this crate to specific hardware platforms.

pub mod command;
pub mod fake;

use crate::memory::ptr::{spi_read_header, spi_write_header};
use vstd::prelude::*;

verus! {

/// One operation performed on an [`Interface`](Interface), as recorded in
/// its operation log.
pub ghost enum IfaceOp {
    BeginWrite(u32),
    ContinueWrite(Seq<u8>),
    EndWrite,
    BeginRead(u32),
    /// The bytes delivered into the caller's buffer.
    ContinueRead(Seq<u8>),
    EndRead,
    HostCmd(u8, u8, u8),
    /// The call logged just before failed. Nothing that the caller does
    /// after seeing the failure belongs to the same run.
    Failed,
}

/// The operations of a complete memory write of `data` at `addr`.
pub open spec fn write_ops(addr: u32, data: Seq<u8>) -> Seq<IfaceOp> {
    seq![IfaceOp::BeginWrite(addr), IfaceOp::ContinueWrite(data), IfaceOp::EndWrite]
}

/// The operations of a complete memory read at `addr` which delivered `data`.
pub open spec fn read_ops(addr: u32, data: Seq<u8>) -> Seq<IfaceOp> {
    seq![IfaceOp::BeginRead(addr), IfaceOp::ContinueRead(data), IfaceOp::EndRead]
}

/// The operations that one call on an interface logs: its operation, then
/// `Failed` if the call failed.
pub open spec fn logged(op: IfaceOp, ok: bool) -> Seq<IfaceOp> {
    if ok {
        seq![op]
    } else {
        seq![op, IfaceOp::Failed]
    }
}

/// `after` is `before` followed by a run of the operations of `trace` that
/// succeeded exactly when `ok`: all of `trace`, each call having succeeded,
/// when it did; otherwise the operations of `trace` up to the first call
/// that failed, then `Failed`, and nothing after it.
pub open spec fn ran(before: Seq<IfaceOp>, after: Seq<IfaceOp>, trace: Seq<IfaceOp>, ok: bool) -> bool {
    if ok {
        after == before + trace
    } else {
        &&& before.len() < after.len() <= before.len() + trace.len() + 1
        &&& after == (before + trace).take(after.len() - 1).push(IfaceOp::Failed)
    }
}

/// Nothing of a trace has run yet.
pub proof fn lemma_ran_start(before: Seq<IfaceOp>, trace: Seq<IfaceOp>)
    ensures
        before + trace.take(0) == before,
{
    assert(before + trace.take(0) =~= before);
}

/// After the first `i` operations of `trace` succeeded, the call for
/// operation `i` was logged: if it succeeded the first `i + 1` have, and if
/// it failed the run of `trace` failed there.
pub proof fn lemma_ran_step(before: Seq<IfaceOp>, trace: Seq<IfaceOp>, i: int, after: Seq<IfaceOp>, ok: bool)
    requires
        0 <= i < trace.len(),
        after == (before + trace.take(i)) + logged(trace[i], ok),
    ensures
        ok ==> after == before + trace.take(i + 1),
        !ok ==> ran(before, after, trace, false),
{
    if ok {
        assert(after =~= before + trace.take(i + 1));
    } else {
        assert((before + trace).take(after.len() - 1) =~= before + trace.take(i + 1));
        assert(after =~= (before + trace).take(after.len() - 1).push(IfaceOp::Failed));
    }
}

/// A trace that ran to completion, followed by a run of `t2`, is a run of
/// both traces together.
pub proof fn lemma_ran_then(
    before: Seq<IfaceOp>,
    mid: Seq<IfaceOp>,
    after: Seq<IfaceOp>,
    t1: Seq<IfaceOp>,
    t2: Seq<IfaceOp>,
    ok: bool,
)
    requires
        mid == before + t1,
        ran(mid, after, t2, ok),
    ensures
        ran(before, after, t1 + t2, ok),
{
    assert((before + t1) + t2 =~= before + (t1 + t2));
}

/// A run that failed within `t1` is a failed run of any longer trace that
/// `t1` begins.
pub proof fn lemma_ran_stop(before: Seq<IfaceOp>, after: Seq<IfaceOp>, t1: Seq<IfaceOp>, t2: Seq<IfaceOp>)
    requires
        ran(before, after, t1, false),
    ensures
        ran(before, after, t1 + t2, false),
{
    let n = after.len() - 1;
    assert((before + (t1 + t2)).take(n) =~= (before + t1).take(n));
}

/// The operations of complete memory writes of each `(addr, data)` in turn.
pub open spec fn writes_ops(ws: Seq<(u32, Seq<u8>)>) -> Seq<IfaceOp>
    decreases ws.len(),
{
    if ws.len() == 0 {
        Seq::empty()
    } else {
        writes_ops(ws.drop_last()) + write_ops(ws.last().0, ws.last().1)
    }
}

/// The operations of the first `j` writes are a prefix of those of all of
/// them.
pub proof fn lemma_writes_ops_prefix(ws: Seq<(u32, Seq<u8>)>, j: int)
    requires
        0 <= j <= ws.len(),
    ensures
        writes_ops(ws.take(j)).len() <= writes_ops(ws).len(),
        writes_ops(ws).take(writes_ops(ws.take(j)).len() as int) == writes_ops(ws.take(j)),
    decreases ws.len(),
{
    if j == ws.len() {
        assert(ws.take(j) =~= ws);
        assert(writes_ops(ws).take(writes_ops(ws).len() as int) =~= writes_ops(ws));
    } else {
        let d = ws.drop_last();
        assert(ws.take(j) =~= d.take(j));
        lemma_writes_ops_prefix(d, j);
        let p = writes_ops(d.take(j));
        assert(writes_ops(ws) == writes_ops(d) + write_ops(ws.last().0, ws.last().1));
        assert(writes_ops(ws).take(p.len() as int) =~= writes_ops(d).take(p.len() as int));
    }
}

/// After the first `k` writes of `ws` ran to completion, write `k` ran:
/// if it succeeded the first `k + 1` writes have, and if it failed the run
/// of all of `ws` failed there.
pub proof fn lemma_writes_step(before: Seq<IfaceOp>, after: Seq<IfaceOp>, ws: Seq<(u32, Seq<u8>)>, k: int, ok: bool)
    requires
        0 <= k < ws.len(),
        ran(before + writes_ops(ws.take(k)), after, write_ops(ws[k].0, ws[k].1), ok),
    ensures
        ok ==> after == before + writes_ops(ws.take(k + 1)),
        !ok ==> ran(before, after, writes_ops(ws), false),
{
    let done = writes_ops(ws.take(k));
    let t = write_ops(ws[k].0, ws[k].1);
    assert(ws.take(k + 1).drop_last() =~= ws.take(k));
    assert(writes_ops(ws.take(k + 1)) == done + t);
    lemma_ran_then(before, before + done, after, done, t, ok);
    if ok {
        assert((before + done) + t =~= before + (done + t));
    } else {
        lemma_writes_ops_prefix(ws, k + 1);
        let p = done + t;
        let w = writes_ops(ws);
        let n = after.len() - 1;
        assert((before + w).take(n) =~= (before + p).take(n));
    }
}

/// The operations of a run of host commands, one per command.
pub open spec fn host_cmds_ops(cs: Seq<(u8, u8, u8)>) -> Seq<IfaceOp> {
    Seq::new(cs.len(), |i: int| IfaceOp::HostCmd(cs[i].0, cs[i].1, cs[i].2))
}

/// The first byte of a host command message: command zero (`ACTIVE`) is sent
/// as it is, any other command keeps its low six bits under the `01` marker.
pub open spec fn host_cmd_byte(cmd: u8) -> u8 {
    if cmd != 0 {
        (cmd & 0x3f) | 0x40
    } else {
        0
    }
}

/// Implementations of `Interface` serve as adapters between the interface
/// this library expects and a specific physical implementation of that
/// interface, such as a SPI bus.
///
/// An implementation keeps a log of the operations performed on it, which
/// the contracts here and in the rest of the library speak of: each
/// operation appends itself to the log, whether it succeeds or fails, and
/// a read records the bytes it delivered.
pub trait Interface: Sized {
    type Error;

    /// The operations performed on this interface so far, in order.
    closed spec fn ops(&self) -> Seq<IfaceOp> {
        Seq::empty()
    }

    fn begin_write(&mut self, addr: u32) -> (r: Result<(), Self::Error>)
        ensures
            final(self).ops() == old(self).ops() + logged(IfaceOp::BeginWrite(addr), r is Ok),
    ;

    fn begin_read(&mut self, addr: u32) -> (r: Result<(), Self::Error>)
        ensures
            final(self).ops() == old(self).ops() + logged(IfaceOp::BeginRead(addr), r is Ok),
    ;

    fn continue_write(&mut self, v: &[u8]) -> (r: Result<(), Self::Error>)
        ensures
            final(self).ops() == old(self).ops() + logged(IfaceOp::ContinueWrite(v@), r is Ok),
    ;

    fn continue_read(&mut self, into: &mut [u8]) -> (r: Result<(), Self::Error>)
        ensures
            final(into)@.len() == old(into)@.len(),
            final(self).ops() == old(self).ops() + logged(IfaceOp::ContinueRead(final(into)@), r is Ok),
    ;

    fn end_write(&mut self) -> (r: Result<(), Self::Error>)
        ensures
            final(self).ops() == old(self).ops() + logged(IfaceOp::EndWrite, r is Ok),
    ;

    fn end_read(&mut self) -> (r: Result<(), Self::Error>)
        ensures
            final(self).ops() == old(self).ops() + logged(IfaceOp::EndRead, r is Ok),
    ;

    fn host_cmd(&mut self, cmd: u8, a0: u8, a1: u8) -> (r: Result<(), Self::Error>)
        ensures
            final(self).ops() == old(self).ops() + logged(IfaceOp::HostCmd(cmd, a0, a1), r is Ok),
    ;

    /// Resets the underlying transport. This is not a memory operation: it
    /// logs no operation of its own, only `Failed` if it failed. An
    /// interface with no transport to reset keeps the provided method,
    /// which succeeds.
    fn reset(&mut self) -> (r: Result<(), Self::Error>)
        ensures
            r is Ok ==> final(self).ops() == old(self).ops(),
            r is Err ==> final(self).ops() == old(self).ops().push(IfaceOp::Failed),
        default_ensures
            r is Ok,
    {
        Ok(())
    }

    /// Writes `v` to memory at `addr`: begin, continue, end, stopping at
    /// the first failure.
    fn write(&mut self, addr: u32, v: &[u8]) -> (r: Result<(), Self::Error>)
        ensures
            ran(old(self).ops(), final(self).ops(), write_ops(addr, v@), r is Ok),
    {
        let ghost o = self.ops();
        let ghost t = write_ops(addr, v@);
        proof {
            lemma_ran_start(o, t);
        }
        let r = self.begin_write(addr);
        proof {
            lemma_ran_step(o, t, 0, self.ops(), r is Ok);
        }
        if r.is_err() {
            return r;
        }
        let r = self.continue_write(v);
        proof {
            lemma_ran_step(o, t, 1, self.ops(), r is Ok);
        }
        if r.is_err() {
            return r;
        }
        let r = self.end_write();
        proof {
            lemma_ran_step(o, t, 2, self.ops(), r is Ok);
            assert(t.take(3) =~= t);
        }
        r
    }

    /// Reads from memory at `addr` into `into`: begin, continue, end,
    /// stopping at the first failure.
    fn read(&mut self, addr: u32, into: &mut [u8]) -> (r: Result<(), Self::Error>)
        ensures
            final(into)@.len() == old(into)@.len(),
            ran(old(self).ops(), final(self).ops(), read_ops(addr, final(into)@), r is Ok),
    {
        let ghost o = self.ops();
        proof {
            lemma_ran_start(o, read_ops(addr, into@));
        }
        let r = self.begin_read(addr);
        proof {
            lemma_ran_step(o, read_ops(addr, into@), 0, self.ops(), r is Ok);
        }
        if r.is_err() {
            return r;
        }
        let ghost mid = self.ops();
        let r = self.continue_read(into);
        proof {
            assert(o + read_ops(addr, into@).take(1) == mid);
            lemma_ran_step(o, read_ops(addr, into@), 1, self.ops(), r is Ok);
        }
        if r.is_err() {
            return r;
        }
        let r = self.end_read();
        proof {
            lemma_ran_step(o, read_ops(addr, into@), 2, self.ops(), r is Ok);
            assert(read_ops(addr, into@).take(3) =~= read_ops(addr, into@));
        }
        r
    }

    /// Writes the three bytes needed to form a "write memory" header for the
    /// address. This is a helper for physical implementations that need to
    /// construct a message buffer to transmit to the real chip.
    fn build_write_header(&self, addr: u32, into: &mut [u8; 3])
        ensures
            final(into)@ == spi_write_header(addr),
    {
        into[0] = (((addr >> 16) & 0b00111111) | 0b10000000) as u8;
        into[1] = (addr >> 8) as u8;
        into[2] = (addr >> 0) as u8;
        proof {
            assert(addr >> 0 == addr) by (bit_vector);
            assert(final(into)@ =~= spi_write_header(addr));
        }
    }

    /// Writes the four bytes needed to form a "read memory" header for the
    /// address, the last being a dummy byte.
    fn build_read_header(&self, addr: u32, into: &mut [u8; 4])
        ensures
            final(into)@ == spi_read_header(addr),
    {
        into[0] = ((addr >> 16) & 0b00111111) as u8;
        into[1] = (addr >> 8) as u8;
        into[2] = (addr >> 0) as u8;
        into[3] = 0;
        proof {
            assert(addr >> 0 == addr) by (bit_vector);
            assert(final(into)@ =~= spi_read_header(addr));
        }
    }

    /// Writes the three bytes needed to form a command message for the
    /// command and two arguments given.
    fn build_host_cmd_msg(&self, cmd: u8, a0: u8, a1: u8, into: &mut [u8; 3])
        ensures
            final(into)@ == seq![host_cmd_byte(cmd), a0, a1],
    {
        // Make sure the command conforms to the expected bit pattern so that
        // it won't be misunderstood as a read or write. Command zero, ACTIVE,
        // is an exception that's intentionally encoded to look the same as a
        // read header for address zero.
        let mut c = cmd;
        if c != 0 {
            c = (c & 0b00111111) | 0b01000000;
        }
        into[0] = c;
        into[1] = a0;
        into[2] = a1;
        assert(final(into)@ =~= seq![host_cmd_byte(cmd), a0, a1]);
    }
}

/// Reads the raw chip ID data from the given interface.
///
/// The chip ID data is in the general RAM space, so you should read it only
/// during early startup, before an application has potentially written other
/// data over the top of it.
pub fn read_chip_id<I: Interface>(ei: &mut I) -> (r: Result<[u8; 4], I::Error>)
    ensures
        match r {
            Ok(id) => final(ei).ops() == old(ei).ops() + read_ops(0xC0000, id@),
            Err(_) => exists|data: Seq<u8>|
                data.len() == 4 && ran(old(ei).ops(), final(ei).ops(), read_ops(0xC0000, data), false),
        },
{
    let mut into: [u8; 4] = [0; 4];
    let r = ei.read(0xC0000, &mut into);
    match r {
        Ok(()) => Ok(into),
        Err(e) => Err(e),
    }
}

} // verus!
