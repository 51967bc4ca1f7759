//! A driver library for the EVE family of graphics controllers.

pub mod color;
pub mod commands;
pub mod config;
pub mod display_list;
pub mod error;
pub mod format_string;
pub mod graphics;
pub mod graphics_mode;
pub mod hal;
pub mod host_commands;
pub mod init;
pub mod interface;
pub mod low_level;
pub mod memory;
pub mod models;
pub mod registers;
pub mod strfmt;

use crate::display_list::JustBuilder;
use crate::interface::{ran, write_ops, IfaceOp, Interface};
use crate::low_level::registers::reg_addr;
use crate::low_level::{read_within, LowLevel, Register};
use crate::memory::RegionLayout;
use crate::models::Model;
use vstd::prelude::*;

/// Model type representing the BT815 and BT816 chips.
pub use models::bt815::BT815;

verus! {

/// An alias for [`BT815`](BT815), because both models belong to the same
/// generation and thus share a common API.
pub type BT816 = BT815;

/// The main type for this crate, providing a high-level API to an EVE chip
/// in terms of a low-level, platform-specific interface.
///
/// In order to interact with a real EVE chip you'll need to first select
/// an implementation of [`Interface`](interface::Interface) which you'll
/// access the chip through. This will typically be an adapter to the API
/// hardware for your platform. You can pass that interface object, along
/// with a selected model, to this type's constructor.
///
/// After instantiating an `EVE` object, the first step would typically
/// be to initialize it using its various initialization functions.
pub struct EVE<M: Model, I: Interface> {
    pub(crate) ll: LowLevel<M, I>,
}

impl<M: Model, I: Interface> EVE<M, I> {
    /// The low-level object that this one drives the chip through.
    pub closed spec fn low_level(&self) -> LowLevel<M, I> {
        self.ll
    }

    /// The operations performed on the interface so far.
    pub open spec fn ops(&self) -> Seq<IfaceOp> {
        self.low_level().interface().ops()
    }

    /// Construct a new `EVE` object for the given EVE model, communicating
    /// via the given interface.
    ///
    /// Models are represented by empty struct types in this crate, such
    /// as [`BT815`](BT815) for the BT815 and BT816 models. The different
    /// models all have a broadly-compatible API but later generations have
    /// additional functionality.
    #[allow(unused_variables)]
    pub fn new(m: M, ei: I) -> (r: Self)
        ensures
            r.low_level().interface() == ei,
            r.low_level().next_dl_addr() == M::DisplayListMem::BASE_ADDR,
            r.low_level().dl_commands() == Seq::<u32>::empty(),
    {
        Self::new_internal(ei)
    }

    // This is an internal version of `new` for situations where type inference
    // already implies a particular model type.
    pub(crate) fn new_internal(ei: I) -> (r: Self)
        ensures
            r.low_level().interface() == ei,
            r.low_level().next_dl_addr() == M::DisplayListMem::BASE_ADDR,
            r.low_level().dl_commands() == Seq::<u32>::empty(),
    {
        Self { ll: LowLevel::new(ei) }
    }

    /// Consumes the `EVE` object and returns its underlying interface.
    pub fn take_interface(self) -> (r: I)
        ensures
            r == self.low_level().interface(),
    {
        self.ll.take_interface()
    }

    pub fn borrow_interface<'a>(&'a mut self) -> (r: &'a mut I)
        ensures
            *r == old(self).low_level().interface(),
            final(self).low_level().interface() == *final(r),
            final(self).low_level().next_dl_addr() == old(self).low_level().next_dl_addr(),
            final(self).low_level().dl_commands() == old(self).low_level().dl_commands(),
    {
        self.ll.borrow_interface()
    }

    /// Consume the `EVE` object and returns an instance of `LowLevel`
    /// that uses the same interface.
    pub fn take_low_level(self) -> (r: LowLevel<M, I>)
        ensures
            r == self.low_level(),
    {
        self.ll
    }

    pub fn borrow_low_level<'a>(&'a mut self) -> (r: &'a mut LowLevel<M, I>)
        ensures
            *r == old(self).low_level(),
            final(self).low_level() == *final(r),
    {
        &mut self.ll
    }

    /// Sends commands to the device to configure and then activate the system
    /// clock.
    ///
    /// If this function succeeds then the system clock will be activated and
    /// the device will have begun (but not necessarily completed) its boot
    /// process. You could use the `poll_for_boot` method as an easy way to
    /// wait for the device to become ready, albeit via busy-waiting.
    ///
    /// The typical next steps are to first call `configure_video_pins` in
    /// order to configure the physical characteristics of the Parallel RGB
    /// interface, and then to call `start_video` to configure the video mode
    /// and activate the pixel clock.
    pub fn start_system_clock(&mut self, source: config::ClockSource, video: &config::VideoTimings) -> (r: Result<(), I::Error>)
        ensures
            ran(
                old(self).ops(),
                final(self).ops(),
                interface::host_cmds_ops(config::system_clock_cmds(source, video.sysclk_freq)),
                r is Ok,
            ),
            final(self).low_level().next_dl_addr() == old(self).low_level().next_dl_addr(),
            final(self).low_level().dl_commands() == old(self).low_level().dl_commands(),
    {
        config::activate_system_clock(&mut self.ll, source, video)
    }

    /// Busy-waits while polling the EVE ID for its ID register. Once it
    /// returns the expected value, it polls `CPURESET` until the device
    /// reports that its engines are running, which means that the boot
    /// process is complete.
    ///
    /// Gives up after `poll_limit` polls that did not show the device ready,
    /// returning `Ok(false)`; returns `Ok(true)` as soon as the device is
    /// ready.
    pub fn poll_for_boot(&mut self, poll_limit: u32) -> (r: Result<bool, I::Error>)
        ensures
            r matches Ok(b) ==> exists|vals: Seq<u8>|
                #[trigger] config::boot_poll_run(vals, poll_limit as nat)
                    && !config::boot_poll_continues(vals, poll_limit as nat)
                    && final(self).ops() == old(self).ops() + config::boot_poll_ops::<M>(vals)
                    && (b <==> config::boot_poll_ready(vals)),
            r is Err ==> exists|vals: Seq<u8>|
                #[trigger] config::boot_poll_run(vals, poll_limit as nat)
                    && config::boot_poll_continues(vals, poll_limit as nat)
                    && read_within(
                        old(self).ops() + config::boot_poll_ops::<M>(vals),
                        final(self).ops(),
                        reg_addr::<M>(config::boot_poll_reg(config::boot_poll_state(vals).0)),
                        1,
                        false,
                    ),
            final(self).low_level().next_dl_addr() == old(self).low_level().next_dl_addr(),
            final(self).low_level().dl_commands() == old(self).low_level().dl_commands(),
    {
        config::poll_for_boot(&mut self.ll, poll_limit)
    }

    pub fn configure_video_pins(&mut self, mode: &config::RGBElectricalMode) -> (r: Result<(), I::Error>)
        ensures
            ran(old(self).ops(), final(self).ops(), interface::writes_ops(config::video_pins_writes::<M>()), r is Ok),
            final(self).low_level().next_dl_addr() == old(self).low_level().next_dl_addr(),
            final(self).low_level().dl_commands() == old(self).low_level().dl_commands(),
    {
        config::configure_video_pins(&mut self.ll, mode)
    }

    /// Configures registers to achieve a particular graphics mode with the
    /// given timings.
    ///
    /// You should typically call `start_system_clock` first, using the
    /// same timing value, in order to activate the system clock. Calling
    /// `start_video` afterwards will then activate the graphics engine with
    /// a pixel clock derived from the system clock.
    ///
    /// If you call `start_video` with a different timings value than you most
    /// recently passed to `start_system_clock` then this is likely to
    /// produce an invalid video signal.
    ///
    /// If this function succeeds then the display will be active before it
    /// returns, assuming that the chip itself was already activated.
    pub fn start_video(&mut self, c: &config::VideoTimings) -> (r: Result<(), I::Error>)
        ensures
            ran(old(self).ops(), final(self).ops(), interface::writes_ops(config::pixel_clock_writes::<M>(*c)), r is Ok),
            final(self).low_level().next_dl_addr() == old(self).low_level().next_dl_addr(),
            final(self).low_level().dl_commands() == old(self).low_level().dl_commands(),
    {
        config::activate_pixel_clock(&mut self.ll, c)
    }

    /// Resets the display list cursor, lets `f` build a new display list
    /// through a builder that offers nothing but display list building, and
    /// then, if `f` succeeded, asks the device to swap the new display list
    /// in by writing `REG_DLSWAP`.
    ///
    /// `f` is handed a builder over this object's low-level state with the
    /// cursor at the start of display list memory and nothing else changed.
    /// If `f` fails, its error is returned and the state is as `f` left it.
    /// Otherwise the `REG_DLSWAP` write of 2 follows what `f` left, and its
    /// result is the result.
    pub fn new_display_list<F: FnOnce(&mut JustBuilder<LowLevel<M, I>>) -> Result<(), I::Error>>(
        &mut self,
        f: F,
    ) -> (r: Result<(), I::Error>)
        requires
            forall|b: &mut JustBuilder<LowLevel<M, I>>| #[trigger] f.requires((b,)),
        ensures
            exists|b: &mut JustBuilder<LowLevel<M, I>>, fr: Result<(), I::Error>|
                {
                    &&& #[trigger] call_ensures(f, (b,), fr)
                    &&& b.w.next_dl_addr() == M::DisplayListMem::BASE_ADDR
                    &&& b.w.interface() == old(self).low_level().interface()
                    &&& b.w.dl_commands() == old(self).low_level().dl_commands()
                    &&& fr is Err ==> r == fr && final(self).low_level() == *final(b.w)
                    &&& fr is Ok ==> {
                        &&& ran(
                            final(b.w).interface().ops(),
                            final(self).ops(),
                            write_ops(reg_addr::<M>(Register::DLSWAP), seq![2u8]),
                            r is Ok,
                        )
                        &&& final(self).low_level().next_dl_addr() == final(b.w).next_dl_addr()
                        &&& final(self).low_level().dl_commands() == final(b.w).dl_commands()
                    }
                },
    {
        self.ll.dl_reset();
        let ghost gb;
        let ghost gr;
        {
            let mut builder = JustBuilder::new(&mut self.ll);
            let bref = &mut builder;
            proof {
                gb = bref;
            }
            let r = f({ bref });
            proof {
                gr = r;
            }
            assert(exists|b: &mut JustBuilder<LowLevel<M, I>>| #[trigger] call_ensures(f, (b,), gr) && *b == *gb && *final(b) == *final(gb));
            if r.is_err() {
                assert(self.ll == *final(gb.w));
                return r;
            }
        }
        assert(self.ll == *final(gb.w));
        let dlswap_ptr = M::reg_ptr(Register::DLSWAP);
        let r = self.ll.wr8(dlswap_ptr, 0b00000010);
        r
    }
}

} // verus!
