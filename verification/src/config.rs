//! Types use during EVE chip initialization.
//!
//! The types in this package are used as arguments for some of the methods
//! of [`EVE`](super::EVE).

use crate::interface::{
    host_cmds_ops, lemma_ran_start, lemma_ran_step, lemma_writes_step, ran, read_ops, writes_ops,
    IfaceOp, Interface,
};
use crate::low_level::registers::reg_addr;
use crate::low_level::{le16_bytes, le32_bytes, read_within, HostCmd, LowLevel, Register};
use crate::models::Model;
use vstd::prelude::*;

verus! {

/// Selects whether the EVE chip should use its internal oscillator or if
/// it should expect external clock signals.
#[derive(Debug)]
pub enum ClockSource {
    Internal,
    External,
}

/// Represents the timing parameters for video output.
#[derive(Debug)]
pub struct VideoTimings {
    pub sysclk_freq: ClockFrequency,
    pub pclk_div: u8,
    pub pclk_pol: ClockPolarity,
    pub horiz: VideoTimingDimension,
    pub vert: VideoTimingDimension,
}

/// Represents the period transition cycles for one dimension (horizontal or
/// vertical) of the video raster.
///
/// For horizontal parameters, the values are in pixel clocks. For vertical
/// parameters, the values are in lines.
#[derive(Debug)]
pub struct VideoTimingDimension {
    pub total: u16,
    pub visible: u16,
    pub offset: u16,
    pub sync_start: u16,
    pub sync_end: u16,
}

impl VideoTimings {
    /// Timing settings to approximate what's expected for a 720p signal.
    /// This mode is only available on EVE devices that are able to
    /// switch the system clock to 72MHz, thus allowing this mode to
    /// use a 72MHz pixel clock, which is approximately the 74.25MHz that
    /// 720p nominally requires.
    pub fn mode_720p() -> (r: Self)
        ensures
            r.sysclk_freq == ClockFrequency::F72MHz,
            r.pclk_div == 1,
            r.pclk_pol == ClockPolarity::RisingEdge,
            r.horiz == spec_calculate(1280, 110, 40, 220),
            r.vert == spec_calculate(720, 5, 5, 370),
    {
        VideoTimings {
            sysclk_freq: ClockFrequency::F72MHz,
            pclk_div: 1,
            pclk_pol: ClockPolarity::RisingEdge,
            horiz: VideoTimingDimension::calculate(1280, 110, 40, 220),
            vert: VideoTimingDimension::calculate(720, 5, 5, 370),
        }
    }
}

/// The mask of the twelve bits that the EVE timing registers hold.
pub const DIMENSION_MASK: u16 = 0b0000111111111111;

/// The dimension with the given period sizes: each event counted in steps
/// into the cycle, kept to the twelve bits that the registers hold.
pub open spec fn spec_calculate(active: u16, front_porch: u16, sync: u16, back_porch: u16) -> VideoTimingDimension {
    VideoTimingDimension {
        total: ((active + front_porch + sync + back_porch) as u16) & DIMENSION_MASK,
        visible: active & DIMENSION_MASK,
        offset: ((front_porch + sync + back_porch) as u16) & DIMENSION_MASK,
        sync_start: front_porch & DIMENSION_MASK,
        sync_end: ((front_porch + sync) as u16) & DIMENSION_MASK,
    }
}

/// The dimension counts its events from the start of the cycle: the sync
/// pulse starts after the front porch and lasts `sync` steps, the visible
/// part starts after the whole blanking period (`offset`) and lasts
/// `active` steps up to the total, all modulo the 4096 steps that the
/// registers hold; without that wrap, the events are in that order and the
/// offset is exactly the total less the visible part.
pub proof fn lemma_calculate_periods(active: u16, front_porch: u16, sync: u16, back_porch: u16)
    requires
        active + front_porch + sync + back_porch <= u16::MAX,
    ensures
        ({
            let r = spec_calculate(active, front_porch, sync, back_porch);
            &&& r.visible == active % 4096
            &&& r.sync_start == front_porch % 4096
            &&& (r.sync_end - r.sync_start) % 4096 == sync % 4096
            &&& (r.offset - r.sync_end) % 4096 == back_porch % 4096
            &&& (r.total - r.offset) % 4096 == active % 4096
            &&& (r.total - r.visible) % 4096 == r.offset
            &&& active + front_porch + sync + back_porch < 4096 ==> {
                &&& r.offset == r.total - r.visible
                &&& r.sync_start <= r.sync_end <= r.offset <= r.total
            }
        }),
{
    let r = spec_calculate(active, front_porch, sync, back_porch);
    let t: u16 = (active + front_porch + sync + back_porch) as u16;
    let o: u16 = (front_porch + sync + back_porch) as u16;
    let e: u16 = (front_porch + sync) as u16;
    assert(forall|x: u16| #[trigger] (x & 0xfff) == x % 4096) by (bit_vector);
    assert(r.total == t % 4096);
    assert(r.offset == o % 4096);
    assert(r.sync_end == e % 4096);
    assert(r.visible == active % 4096);
    assert(r.sync_start == front_porch % 4096);
    vstd::arithmetic::div_mod::lemma_sub_mod_noop(e as int, front_porch as int, 4096);
    vstd::arithmetic::div_mod::lemma_sub_mod_noop(o as int, e as int, 4096);
    vstd::arithmetic::div_mod::lemma_sub_mod_noop(t as int, o as int, 4096);
    vstd::arithmetic::div_mod::lemma_sub_mod_noop(t as int, active as int, 4096);
    vstd::arithmetic::div_mod::lemma_small_mod(o as nat % 4096, 4096);
}

impl VideoTimingDimension {
    /// Calculates a `VideoTimingDimension` from the sizes of the
    /// individual periods in the cycle.
    ///
    /// An `VideoTimingDimension` captures the number of steps _into_ a
    /// period where each event occurs, but when describing a mode we often
    /// speak of how many cycles each period has on its own, and so this
    /// function allows converting from the latter to the former automatically.
    pub fn calculate(active: u16, front_porch: u16, sync: u16, back_porch: u16) -> (r: Self)
        requires
            active + front_porch + sync + back_porch <= u16::MAX,
        ensures
            r == spec_calculate(active, front_porch, sync, back_porch),
    {
        VideoTimingDimension {
            total: (active + front_porch + sync + back_porch) & DIMENSION_MASK,
            visible: (active) & DIMENSION_MASK,
            offset: (front_porch + sync + back_porch) & DIMENSION_MASK,
            sync_start: (front_porch) & DIMENSION_MASK,
            sync_end: (front_porch + sync) & DIMENSION_MASK,
        }
    }
}

/// Represents the electrical characteristics of the EVE RGB interface.
///
/// This behaves as a "builder" type, with methods that modify its parameters.
/// The default value for each parameter matches the reset values of the EVE
/// chip itself: pixel clock spread on, six bits for each color channel, and
/// dithering on.
#[derive(Debug)]
pub struct RGBElectricalMode {
    pclk_spread: bool,
    channel_bits: (u8, u8, u8),
    dither: bool,
}

impl Default for RGBElectricalMode {
    fn default() -> (r: Self)
        ensures
            r.spec_pclk_spread() == true,
            r.spec_channel_bits() == (6u8, 6u8, 6u8),
            r.spec_dither() == true,
    {
        RGBElectricalMode { pclk_spread: true, channel_bits: (6, 6, 6), dither: true }
    }
}

impl RGBElectricalMode {
    /// Whether the pixel clock spread is enabled.
    pub closed spec fn spec_pclk_spread(&self) -> bool {
        self.pclk_spread
    }

    /// The number of bits of the red, green and blue channels.
    pub closed spec fn spec_channel_bits(&self) -> (u8, u8, u8) {
        self.channel_bits
    }

    /// Whether dithering is enabled.
    pub closed spec fn spec_dither(&self) -> bool {
        self.dither
    }

    pub fn new() -> (r: Self)
        ensures
            r.spec_pclk_spread() == true,
            r.spec_channel_bits() == (6u8, 6u8, 6u8),
            r.spec_dither() == true,
    {
        RGBElectricalMode::default()
    }

    pub fn pclk_spread<'a>(&'a mut self, v: bool) -> (r: &'a mut Self)
        ensures
            r.spec_pclk_spread() == v,
            r.spec_channel_bits() == old(self).spec_channel_bits(),
            r.spec_dither() == old(self).spec_dither(),
            *final(self) == *final(r),
    {
        self.pclk_spread = v;
        self
    }

    pub fn channel_bits<'a>(&'a mut self, r: u8, g: u8, b: u8) -> (m: &'a mut Self)
        ensures
            m.spec_pclk_spread() == old(self).spec_pclk_spread(),
            m.spec_channel_bits() == (r, g, b),
            m.spec_dither() == old(self).spec_dither(),
            *final(self) == *final(m),
    {
        self.channel_bits = (r, g, b);
        self
    }

    pub fn dither<'a>(&'a mut self, v: bool) -> (r: &'a mut Self)
        ensures
            r.spec_pclk_spread() == old(self).spec_pclk_spread(),
            r.spec_channel_bits() == old(self).spec_channel_bits(),
            r.spec_dither() == v,
            *final(self) == *final(r),
    {
        self.dither = v;
        self
    }
}

/// Selects which clock edge of the pixel clock where video data will be sampled.
#[derive(Clone, Copy, PartialEq, Eq, Debug)]
pub enum ClockPolarity {
    RisingEdge,
    FallingEdge,
}

impl ClockPolarity {
    /// The value of `REG_PCLK_POL` that selects the polarity.
    pub open spec fn spec_reg_pclk_pol_value(self) -> u8 {
        match self {
            ClockPolarity::RisingEdge => 0,
            ClockPolarity::FallingEdge => 1,
        }
    }

    pub fn reg_pclk_pol_value(self) -> (r: u8)
        ensures
            r == self.spec_reg_pclk_pol_value(),
    {
        match self {
            ClockPolarity::RisingEdge => 0,
            ClockPolarity::FallingEdge => 1,
        }
    }
}

/// Selects a clock frequency for the system clock.
#[derive(Clone, Copy, PartialEq, Eq, Debug)]
pub enum ClockFrequency {
    F24MHz,
    F36MHz,
    F48MHz,
    F60MHz,
    F72MHz,
}

impl ClockFrequency {
    /// The frequency that EVE selects at reset.
    pub fn default_sysclk_freq() -> (r: Self)
        ensures
            r == ClockFrequency::F60MHz,
    {
        ClockFrequency::F60MHz
    }

    /// The arguments of the `CLKSEL` host command that selects the frequency.
    pub open spec fn spec_cmd_clksel_args(self) -> (u8, u8) {
        match self {
            ClockFrequency::F24MHz => (2, 0),
            ClockFrequency::F36MHz => (3, 0),
            ClockFrequency::F48MHz => (4, 0),
            ClockFrequency::F60MHz => (0, 0),
            ClockFrequency::F72MHz => (6, 0),
        }
    }

    /// The frequency in hertz, as `REG_FREQUENCY` holds it.
    pub open spec fn spec_reg_frequency_value(self) -> u32 {
        match self {
            ClockFrequency::F24MHz => 24000000,
            ClockFrequency::F36MHz => 36000000,
            ClockFrequency::F48MHz => 48000000,
            ClockFrequency::F60MHz => 60000000,
            ClockFrequency::F72MHz => 72000000,
        }
    }

    /// `CLKSEL` selects the frequency as a multiple of the 12 MHz crystal:
    /// its first argument times 12 MHz is the frequency, with no PLL range
    /// bits; 60 MHz is selected by the zero multiplier that keeps the
    /// default. Each frequency is the one its name says, in hertz.
    pub proof fn lemma_clksel_multiplier(self)
        ensures
            self != ClockFrequency::F60MHz ==> self.spec_cmd_clksel_args().0 * 12_000_000
                == self.spec_reg_frequency_value(),
            self != ClockFrequency::F60MHz ==> self.spec_cmd_clksel_args().0 >= 2,
            self.spec_cmd_clksel_args().1 == 0,
            self == ClockFrequency::F60MHz ==> self.spec_cmd_clksel_args().0 == 0,
            ClockFrequency::F24MHz.spec_reg_frequency_value() == 24 * 1_000_000,
            ClockFrequency::F36MHz.spec_reg_frequency_value() == 36 * 1_000_000,
            ClockFrequency::F48MHz.spec_reg_frequency_value() == 48 * 1_000_000,
            ClockFrequency::F60MHz.spec_reg_frequency_value() == 60 * 1_000_000,
            ClockFrequency::F72MHz.spec_reg_frequency_value() == 72 * 1_000_000,
    {
    }

    pub fn cmd_clksel_args(self) -> (r: (u8, u8))
        ensures
            r == self.spec_cmd_clksel_args(),
    {
        match self {
            ClockFrequency::F24MHz => (2, 0),
            ClockFrequency::F36MHz => (3, 0),
            ClockFrequency::F48MHz => (4, 0),
            ClockFrequency::F60MHz => (0, 0), // zero for back-compat with older EVE devices
            ClockFrequency::F72MHz => (6, 0),
        }
    }

    pub fn reg_frequency_value(self) -> (r: u32)
        ensures
            r == self.spec_reg_frequency_value(),
    {
        match self {
            ClockFrequency::F24MHz => 24000000,
            ClockFrequency::F36MHz => 36000000,
            ClockFrequency::F48MHz => 48000000,
            ClockFrequency::F60MHz => 60000000,
            ClockFrequency::F72MHz => 72000000,
        }
    }
}

/// Returns `true` if and only if the given value is within the valid range
/// for the fields of `VideoTimingDimension`. If any of those fields are
/// set to an invalid dimension value then they'll wrap around in the valid
/// range.
pub fn dimension_is_valid(v: u16) -> (r: bool)
    ensures
        r <==> v < 0x1000,
{
    assert((v & !DIMENSION_MASK) == 0 <==> v < 0x1000) by (bit_vector);
    (v & !DIMENSION_MASK) == 0
}

/// The host commands that `activate_system_clock` sends, in order: power the
/// device down, wake it, put it to sleep, select the clock source and the
/// frequency, activate it and pulse the reset signal.
pub open spec fn system_clock_cmds(source: ClockSource, freq: ClockFrequency) -> Seq<(u8, u8, u8)> {
    let clk: u8 = match source {
        ClockSource::Internal => 0x48,
        ClockSource::External => 0x44,
    };
    seq![
        (0x43u8, 0u8, 0u8),
        (0x00u8, 0u8, 0u8),
        (0x42u8, 0u8, 0u8),
        (clk, 0u8, 0u8),
        (0x61u8, freq.spec_cmd_clksel_args().0, freq.spec_cmd_clksel_args().1),
        (0x00u8, 0u8, 0u8),
        (0x68u8, 0u8, 0u8),
    ]
}

/// Resets the interface and then sends the host commands of
/// `system_clock_cmds`, stopping at the first failure.
pub(crate) fn activate_system_clock<M: Model, I: Interface>(
    ll: &mut LowLevel<M, I>,
    source: ClockSource,
    video: &VideoTimings,
) -> (r: Result<(), I::Error>)
    ensures
        ran(
            old(ll).interface().ops(),
            final(ll).interface().ops(),
            host_cmds_ops(system_clock_cmds(source, video.sysclk_freq)),
            r is Ok,
        ),
        final(ll).next_dl_addr() == old(ll).next_dl_addr(),
        final(ll).dl_commands() == old(ll).dl_commands(),
{
    let ghost before = ll.interface().ops();
    let ghost t = host_cmds_ops(system_clock_cmds(source, video.sysclk_freq));
    proof {
        lemma_ran_start(before, t);
    }
    {
        let ei = ll.borrow_interface();
        let r = ei.reset();
        if r.is_err() {
            assert(ran(before, before.push(IfaceOp::Failed), t, false)) by {
                assert((before + t).take(before.len() as int) =~= before);
            }
            return r;
        }
    }

    // Just in case the system was already activated before we were
    // called, we'll put it to sleep while we do our work here.
    let r = ll.host_command(HostCmd::PWRDOWN, 0, 0);
    proof {
        lemma_ran_step(before, t, 0, ll.interface().ops(), r is Ok);
    }
    if r.is_err() {
        return r;
    }
    let r = ll.host_command(HostCmd::ACTIVE, 0, 0);
    proof {
        lemma_ran_step(before, t, 1, ll.interface().ops(), r is Ok);
    }
    if r.is_err() {
        return r;
    }
    let r = ll.host_command(HostCmd::SLEEP, 0, 0);
    proof {
        lemma_ran_step(before, t, 2, ll.interface().ops(), r is Ok);
    }
    if r.is_err() {
        return r;
    }

    // Internal or external clock source?
    let r = match source {
        ClockSource::Internal => ll.host_command(HostCmd::CLKINT, 0, 0),
        ClockSource::External => ll.host_command(HostCmd::CLKEXT, 0, 0),
    };
    proof {
        lemma_ran_step(before, t, 3, ll.interface().ops(), r is Ok);
    }
    if r.is_err() {
        return r;
    }

    // Set the system clock frequency.
    let clksel = video.sysclk_freq.cmd_clksel_args();
    let r = ll.host_command(HostCmd::CLKSEL, clksel.0, clksel.1);
    proof {
        lemma_ran_step(before, t, 4, ll.interface().ops(), r is Ok);
    }
    if r.is_err() {
        return r;
    }

    // Activate the system clock.
    let r = ll.host_command(HostCmd::ACTIVE, 0, 0);
    proof {
        lemma_ran_step(before, t, 5, ll.interface().ops(), r is Ok);
    }
    if r.is_err() {
        return r;
    }

    // Pulse the reset signal to the rest of the device.
    let r = ll.host_command(HostCmd::RST_PULSE, 0, 0);
    proof {
        lemma_ran_step(before, t, 6, ll.interface().ops(), r is Ok);
        if r is Ok {
            assert(t.take(7) =~= t);
        }
    }
    if r.is_err() {
        return r;
    }
    Ok(())
}

/// The state of the boot poll after the reads that gave `vals`: whether it
/// is still waiting for the ID register, and how many polls it has counted.
/// A read of the ID register that gives `0x7c` ends the wait for it and is
/// not counted; every other read is.
pub open spec fn boot_poll_state(vals: Seq<u8>) -> (bool, nat)
    decreases vals.len(),
{
    if vals.len() == 0 {
        (true, 0)
    } else {
        let prev = boot_poll_state(vals.drop_last());
        if prev.0 && vals.last() == 0x7c {
            (false, prev.1)
        } else {
            (prev.0, prev.1 + 1)
        }
    }
}

/// The register that the boot poll reads while in the given state.
pub open spec fn boot_poll_reg(waiting_for_id: bool) -> Register {
    if waiting_for_id {
        Register::ID
    } else {
        Register::CPURESET
    }
}

/// The reads that gave `vals` ended the boot poll: the last one was a read
/// of `CPURESET` that gave zero.
pub open spec fn boot_poll_ready(vals: Seq<u8>) -> bool {
    &&& vals.len() > 0
    &&& !boot_poll_state(vals.drop_last()).0
    &&& vals.last() == 0
}

/// After the reads that gave `vals`, the boot poll reads again: it is under
/// its poll limit and not yet ready.
pub open spec fn boot_poll_continues(vals: Seq<u8>, limit: nat) -> bool {
    boot_poll_state(vals).1 < limit && !boot_poll_ready(vals)
}

/// Every read that gave `vals` was one the boot poll made: none came after
/// the poll had stopped.
pub open spec fn boot_poll_run(vals: Seq<u8>, limit: nat) -> bool {
    forall|k: int| 0 <= k < vals.len() ==> #[trigger] boot_poll_continues(vals.take(k), limit)
}

/// The operations of the one-byte register reads that gave `vals`.
pub open spec fn boot_poll_ops<M: Model>(vals: Seq<u8>) -> Seq<IfaceOp>
    decreases vals.len(),
{
    if vals.len() == 0 {
        Seq::empty()
    } else {
        boot_poll_ops::<M>(vals.drop_last()) + read_ops(
            reg_addr::<M>(boot_poll_reg(boot_poll_state(vals.drop_last()).0)),
            seq![vals.last()],
        )
    }
}

proof fn lemma_boot_poll_push<M: Model>(vals: Seq<u8>, v: u8, limit: nat)
    requires
        boot_poll_run(vals, limit),
        boot_poll_continues(vals, limit),
    ensures
        boot_poll_run(vals.push(v), limit),
        vals.push(v).drop_last() == vals,
        boot_poll_ops::<M>(vals.push(v)) == boot_poll_ops::<M>(vals) + read_ops(
            reg_addr::<M>(boot_poll_reg(boot_poll_state(vals).0)),
            seq![v],
        ),
{
    let w = vals.push(v);
    assert(w.drop_last() =~= vals);
    assert forall|k: int| 0 <= k < w.len() implies #[trigger] boot_poll_continues(w.take(k), limit) by {
        if k < vals.len() {
            assert(w.take(k) =~= vals.take(k));
        } else {
            assert(w.take(k) =~= vals);
        }
    }
}

/// Busy-waits until the IC signals that it's ready by responding to the
/// ID register and then clearing `CPURESET`. Will poll the number of times
/// given in `poll_limit` before giving up and returning `Ok(false)`. Will
/// return `Ok(true)` as soon as a poll returns the ready value.
pub(crate) fn poll_for_boot<M: Model, I: Interface>(
    ll: &mut LowLevel<M, I>,
    poll_limit: u32,
) -> (r: Result<bool, I::Error>)
    ensures
        r matches Ok(b) ==> exists|vals: Seq<u8>|
            #[trigger] boot_poll_run(vals, poll_limit as nat)
                && !boot_poll_continues(vals, poll_limit as nat)
                && final(ll).interface().ops() == old(ll).interface().ops() + boot_poll_ops::<M>(vals)
                && (b <==> boot_poll_ready(vals)),
        r is Err ==> exists|vals: Seq<u8>|
            #[trigger] boot_poll_run(vals, poll_limit as nat)
                && boot_poll_continues(vals, poll_limit as nat)
                && read_within(
                    old(ll).interface().ops() + boot_poll_ops::<M>(vals),
                    final(ll).interface().ops(),
                    reg_addr::<M>(boot_poll_reg(boot_poll_state(vals).0)),
                    1,
                    false,
                ),
        final(ll).next_dl_addr() == old(ll).next_dl_addr(),
        final(ll).dl_commands() == old(ll).dl_commands(),
{
    let ghost before = ll.interface().ops();
    let ghost next_dl = ll.next_dl_addr();
    let ghost dl_commands = ll.dl_commands();
    let ghost limit = poll_limit as nat;
    let ghost mut vals: Seq<u8> = Seq::empty();
    let mut poll: u32 = 0;
    assert(before + boot_poll_ops::<M>(vals) =~= before);
    while poll < poll_limit
        invariant_except_break
            boot_poll_state(vals) == (true, poll as nat),
        invariant
            poll <= poll_limit,
            limit == poll_limit as nat,
            before == old(ll).interface().ops(),
            next_dl == old(ll).next_dl_addr(),
            dl_commands == old(ll).dl_commands(),
            boot_poll_run(vals, limit),
            !boot_poll_ready(vals),
            boot_poll_state(vals).1 == poll as nat,
            ll.interface().ops() == before + boot_poll_ops::<M>(vals),
            ll.next_dl_addr() == next_dl,
            ll.dl_commands() == dl_commands,
        ensures
            boot_poll_run(vals, limit),
            !boot_poll_ready(vals),
            boot_poll_state(vals).1 == poll as nat,
            poll <= poll_limit,
            poll < poll_limit ==> !boot_poll_state(vals).0,
            ll.interface().ops() == before + boot_poll_ops::<M>(vals),
            ll.next_dl_addr() == next_dl,
            ll.dl_commands() == dl_commands,
        decreases poll_limit - poll,
    {
        let p = ll.reg_ptr(Register::ID);
        let r = ll.rd8(p);
        match r {
            Err(e) => {
                assert(boot_poll_run(vals, limit));
                assert(boot_poll_continues(vals, limit));
                assert(read_within(
                    before + boot_poll_ops::<M>(vals),
                    ll.interface().ops(),
                    reg_addr::<M>(boot_poll_reg(boot_poll_state(vals).0)),
                    1,
                    false,
                ));
                return Err(e);
            },
            Ok(v) => {
                proof {
                    lemma_boot_poll_push::<M>(vals, v, limit);
                    vals = vals.push(v);
                }
                if v == 0x7c {
                    break;
                }
                poll += 1;
            },
        }
    }
    while poll < poll_limit
        invariant
            poll <= poll_limit,
            limit == poll_limit as nat,
            before == old(ll).interface().ops(),
            next_dl == old(ll).next_dl_addr(),
            dl_commands == old(ll).dl_commands(),
            poll < poll_limit ==> !boot_poll_state(vals).0,
            boot_poll_run(vals, limit),
            !boot_poll_ready(vals),
            boot_poll_state(vals).1 == poll as nat,
            ll.interface().ops() == before + boot_poll_ops::<M>(vals),
            ll.next_dl_addr() == next_dl,
            ll.dl_commands() == dl_commands,
        decreases poll_limit - poll,
    {
        let p = ll.reg_ptr(Register::CPURESET);
        let r = ll.rd8(p);
        match r {
            Err(e) => {
                assert(boot_poll_run(vals, limit));
                assert(boot_poll_continues(vals, limit));
                assert(read_within(
                    before + boot_poll_ops::<M>(vals),
                    ll.interface().ops(),
                    reg_addr::<M>(boot_poll_reg(boot_poll_state(vals).0)),
                    1,
                    false,
                ));
                return Err(e);
            },
            Ok(v) => {
                proof {
                    lemma_boot_poll_push::<M>(vals, v, limit);
                    vals = vals.push(v);
                }
                if v == 0x00 {
                    assert(boot_poll_run(vals, limit));
                    return Ok(true);
                }
                poll += 1;
            },
        }
    }
    assert(boot_poll_run(vals, limit));
    return Ok(false);
}

/// The register writes that `activate_pixel_clock` makes, in order: the
/// system clock frequency, the vertical and then the horizontal timings,
/// the pixel clock polarity and, last because it starts the display, the
/// pixel clock divisor.
pub open spec fn pixel_clock_writes<M: Model>(c: VideoTimings) -> Seq<(u32, Seq<u8>)> {
    seq![
        (reg_addr::<M>(Register::FREQUENCY), le32_bytes(c.sysclk_freq.spec_reg_frequency_value())),
        (reg_addr::<M>(Register::VSYNC0), le16_bytes(c.vert.sync_start & DIMENSION_MASK)),
        (reg_addr::<M>(Register::VSYNC1), le16_bytes(c.vert.sync_end & DIMENSION_MASK)),
        (reg_addr::<M>(Register::VSIZE), le16_bytes(c.vert.visible & DIMENSION_MASK)),
        (reg_addr::<M>(Register::VOFFSET), le16_bytes(c.vert.offset & DIMENSION_MASK)),
        (reg_addr::<M>(Register::VCYCLE), le16_bytes(c.vert.total & DIMENSION_MASK)),
        (reg_addr::<M>(Register::HSYNC0), le16_bytes(c.horiz.sync_start & DIMENSION_MASK)),
        (reg_addr::<M>(Register::HSYNC1), le16_bytes(c.horiz.sync_end & DIMENSION_MASK)),
        (reg_addr::<M>(Register::HSIZE), le16_bytes(c.horiz.visible & DIMENSION_MASK)),
        (reg_addr::<M>(Register::HOFFSET), le16_bytes(c.horiz.offset & DIMENSION_MASK)),
        (reg_addr::<M>(Register::HCYCLE), le16_bytes(c.horiz.total & DIMENSION_MASK)),
        (reg_addr::<M>(Register::PCLK_POL), seq![c.pclk_pol.spec_reg_pclk_pol_value()]),
        (reg_addr::<M>(Register::PCLK), seq![c.pclk_div]),
    ]
}

/// Makes the writes of `pixel_clock_writes`, stopping at the first failure.
pub(crate) fn activate_pixel_clock<M: Model, I: Interface>(
    ll: &mut LowLevel<M, I>,
    c: &VideoTimings,
) -> (r: Result<(), I::Error>)
    ensures
        ran(old(ll).interface().ops(), final(ll).interface().ops(), writes_ops(pixel_clock_writes::<M>(*c)), r is Ok),
        final(ll).next_dl_addr() == old(ll).next_dl_addr(),
        final(ll).dl_commands() == old(ll).dl_commands(),
{
    let ghost before = ll.interface().ops();
    let ghost ws = pixel_clock_writes::<M>(*c);
    assert(ws.take(0) =~= Seq::<(u32, Seq<u8>)>::empty());
    assert(before + writes_ops(ws.take(0)) =~= before);

    let r = ll.wr32(M::reg_ptr(Register::FREQUENCY), c.sysclk_freq.reg_frequency_value());
    proof { lemma_writes_step(before, ll.interface().ops(), ws, 0, r is Ok); }
    if r.is_err() {
        return r;
    }

    let r = ll.wr16(M::reg_ptr(Register::VSYNC0), c.vert.sync_start & DIMENSION_MASK);
    proof { lemma_writes_step(before, ll.interface().ops(), ws, 1, r is Ok); }
    if r.is_err() {
        return r;
    }
    let r = ll.wr16(M::reg_ptr(Register::VSYNC1), c.vert.sync_end & DIMENSION_MASK);
    proof { lemma_writes_step(before, ll.interface().ops(), ws, 2, r is Ok); }
    if r.is_err() {
        return r;
    }
    let r = ll.wr16(M::reg_ptr(Register::VSIZE), c.vert.visible & DIMENSION_MASK);
    proof { lemma_writes_step(before, ll.interface().ops(), ws, 3, r is Ok); }
    if r.is_err() {
        return r;
    }
    let r = ll.wr16(M::reg_ptr(Register::VOFFSET), c.vert.offset & DIMENSION_MASK);
    proof { lemma_writes_step(before, ll.interface().ops(), ws, 4, r is Ok); }
    if r.is_err() {
        return r;
    }
    let r = ll.wr16(M::reg_ptr(Register::VCYCLE), c.vert.total & DIMENSION_MASK);
    proof { lemma_writes_step(before, ll.interface().ops(), ws, 5, r is Ok); }
    if r.is_err() {
        return r;
    }

    let r = ll.wr16(M::reg_ptr(Register::HSYNC0), c.horiz.sync_start & DIMENSION_MASK);
    proof { lemma_writes_step(before, ll.interface().ops(), ws, 6, r is Ok); }
    if r.is_err() {
        return r;
    }
    let r = ll.wr16(M::reg_ptr(Register::HSYNC1), c.horiz.sync_end & DIMENSION_MASK);
    proof { lemma_writes_step(before, ll.interface().ops(), ws, 7, r is Ok); }
    if r.is_err() {
        return r;
    }
    let r = ll.wr16(M::reg_ptr(Register::HSIZE), c.horiz.visible & DIMENSION_MASK);
    proof { lemma_writes_step(before, ll.interface().ops(), ws, 8, r is Ok); }
    if r.is_err() {
        return r;
    }
    let r = ll.wr16(M::reg_ptr(Register::HOFFSET), c.horiz.offset & DIMENSION_MASK);
    proof { lemma_writes_step(before, ll.interface().ops(), ws, 9, r is Ok); }
    if r.is_err() {
        return r;
    }
    let r = ll.wr16(M::reg_ptr(Register::HCYCLE), c.horiz.total & DIMENSION_MASK);
    proof { lemma_writes_step(before, ll.interface().ops(), ws, 10, r is Ok); }
    if r.is_err() {
        return r;
    }

    let r = ll.wr8(M::reg_ptr(Register::PCLK_POL), c.pclk_pol.reg_pclk_pol_value());
    proof { lemma_writes_step(before, ll.interface().ops(), ws, 11, r is Ok); }
    if r.is_err() {
        return r;
    }

    // This one must be last because it actually activates the display.
    let r = ll.wr8(M::reg_ptr(Register::PCLK), c.pclk_div);
    proof {
        lemma_writes_step(before, ll.interface().ops(), ws, 12, r is Ok);
        if r is Ok {
            assert(ws.take(13) =~= ws);
        }
    }
    if r.is_err() {
        return r;
    }
    Ok(())
}

/// The register writes that `configure_video_pins` makes, in order.
pub open spec fn video_pins_writes<M: Model>() -> Seq<(u32, Seq<u8>)> {
    seq![
        (reg_addr::<M>(Register::OUTBITS), seq![0u8]),
        (reg_addr::<M>(Register::DITHER), seq![0u8]),
        (reg_addr::<M>(Register::SWIZZLE), seq![0u8]),
        (reg_addr::<M>(Register::CSPREAD), seq![0u8]),
        (reg_addr::<M>(Register::ADAPTIVE_FRAMERATE), seq![0u8]),
        (reg_addr::<M>(Register::GPIO), seq![0x83u8]),
    ]
}

/// Makes the writes of `video_pins_writes`, stopping at the first failure.
/// The electrical mode is not yet consulted: the writes are the same for
/// every mode.
pub(crate) fn configure_video_pins<M: Model, I: Interface>(
    ll: &mut LowLevel<M, I>,
    _mode: &RGBElectricalMode,
) -> (r: Result<(), I::Error>)
    ensures
        ran(old(ll).interface().ops(), final(ll).interface().ops(), writes_ops(video_pins_writes::<M>()), r is Ok),
        final(ll).next_dl_addr() == old(ll).next_dl_addr(),
        final(ll).dl_commands() == old(ll).dl_commands(),
{
    let ghost before = ll.interface().ops();
    let ghost ws = video_pins_writes::<M>();
    assert(ws.take(0) =~= Seq::<(u32, Seq<u8>)>::empty());
    assert(before + writes_ops(ws.take(0)) =~= before);

    let r = ll.wr8(M::reg_ptr(Register::OUTBITS), 0);
    proof { lemma_writes_step(before, ll.interface().ops(), ws, 0, r is Ok); }
    if r.is_err() {
        return r;
    }
    let r = ll.wr8(M::reg_ptr(Register::DITHER), 0);
    proof { lemma_writes_step(before, ll.interface().ops(), ws, 1, r is Ok); }
    if r.is_err() {
        return r;
    }
    let r = ll.wr8(M::reg_ptr(Register::SWIZZLE), 0);
    proof { lemma_writes_step(before, ll.interface().ops(), ws, 2, r is Ok); }
    if r.is_err() {
        return r;
    }
    let r = ll.wr8(M::reg_ptr(Register::CSPREAD), 0);
    proof { lemma_writes_step(before, ll.interface().ops(), ws, 3, r is Ok); }
    if r.is_err() {
        return r;
    }
    let r = ll.wr8(M::reg_ptr(Register::ADAPTIVE_FRAMERATE), 0);
    proof { lemma_writes_step(before, ll.interface().ops(), ws, 4, r is Ok); }
    if r.is_err() {
        return r;
    }
    let r = ll.wr8(M::reg_ptr(Register::GPIO), 0x83);
    proof {
        lemma_writes_step(before, ll.interface().ops(), ws, 5, r is Ok);
        if r is Ok {
            assert(ws.take(6) =~= ws);
        }
    }
    if r.is_err() {
        return r;
    }
    Ok(())
}

} // verus!
