use std::collections::BTreeMap;
use std::vec;
use std::vec::Vec;

use evegfx::config::{ClockFrequency, ClockPolarity, ClockSource, RGBElectricalMode, VideoTimingDimension, VideoTimings};
use evegfx::display_list::options::{GraphicsPrimitive, TestFunc};
use evegfx::display_list::{Builder, DLCmd};
use evegfx::interface::Interface;
use evegfx::low_level::{HostCmd, LowLevel};
use evegfx::memory::RegionLayout;
use evegfx::models::fake::Model as Exhaustive;
use evegfx::models::Model;
use evegfx::EVE;

#[derive(Debug, Clone, PartialEq, Eq)]
enum MockInterfaceCall {
    BeginWrite(u32),
    ContinueWrite(Vec<u8>),
    EndWrite(u32),
    BeginRead(u32),
    ContinueRead(usize),
    EndRead(u32),
    Cmd(u8, u8, u8),
}

#[derive(Debug)]
struct MockError;

/// Records every call and serves reads from a sparse memory whose unwritten
/// bytes read as 0xff. Writes go to memory too. A call number can be made
/// to fail.
struct MockInterface {
    calls: Vec<MockInterfaceCall>,
    mem: BTreeMap<u32, u8>,
    write_addr: Option<u32>,
    read_addr: Option<u32>,
    fail_at: Option<usize>,
    read_script: BTreeMap<u32, Vec<u8>>,
}

impl MockInterface {
    fn new() -> Self {
        MockInterface {
            calls: Vec::new(),
            mem: BTreeMap::new(),
            write_addr: None,
            read_addr: None,
            fail_at: None,
            read_script: BTreeMap::new(),
        }
    }

    fn setup_mem(&mut self, addr: u32, data: &[u8]) {
        for (i, b) in data.iter().enumerate() {
            self.mem.insert(addr + i as u32, *b);
        }
    }

    /// Successive one-byte reads at `addr` give these values in turn.
    fn script_reads(&mut self, addr: u32, values: &[u8]) {
        self.read_script.insert(addr, values.to_vec());
    }

    fn calls(self) -> Vec<MockInterfaceCall> {
        self.calls
    }

    fn record(&mut self, call: MockInterfaceCall) -> Result<(), MockError> {
        self.calls.push(call);
        if self.fail_at == Some(self.calls.len()) {
            Err(MockError)
        } else {
            Ok(())
        }
    }
}

impl Interface for MockInterface {
    type Error = MockError;

    fn begin_write(&mut self, addr: u32) -> Result<(), MockError> {
        self.write_addr = Some(addr);
        self.record(MockInterfaceCall::BeginWrite(addr))
    }

    fn continue_write(&mut self, v: &[u8]) -> Result<(), MockError> {
        let addr = self.write_addr.unwrap();
        for (i, b) in v.iter().enumerate() {
            self.mem.insert(addr + i as u32, *b);
        }
        self.record(MockInterfaceCall::ContinueWrite(v.to_vec()))
    }

    fn end_write(&mut self) -> Result<(), MockError> {
        let addr = self.write_addr.take().unwrap();
        self.record(MockInterfaceCall::EndWrite(addr))
    }

    fn begin_read(&mut self, addr: u32) -> Result<(), MockError> {
        self.read_addr = Some(addr);
        self.record(MockInterfaceCall::BeginRead(addr))
    }

    fn continue_read(&mut self, into: &mut [u8]) -> Result<(), MockError> {
        let addr = self.read_addr.unwrap();
        let scripted = match self.read_script.get_mut(&addr) {
            Some(values) if !values.is_empty() && into.len() == 1 => Some(values.remove(0)),
            _ => None,
        };
        match scripted {
            Some(v) => into[0] = v,
            None => {
                for i in 0..into.len() {
                    into[i] = *self.mem.get(&(addr + i as u32)).unwrap_or(&0xff);
                }
            }
        }
        self.record(MockInterfaceCall::ContinueRead(into.len()))
    }

    fn end_read(&mut self) -> Result<(), MockError> {
        let addr = self.read_addr.take().unwrap();
        self.record(MockInterfaceCall::EndRead(addr))
    }

    fn host_cmd(&mut self, cmd: u8, a0: u8, a1: u8) -> Result<(), MockError> {
        self.record(MockInterfaceCall::Cmd(cmd, a0, a1))
    }
}

fn test_obj<F: FnOnce(&mut MockInterface)>(setup: F) -> LowLevel<Exhaustive, MockInterface> {
    let mut interface = MockInterface::new();
    setup(&mut interface);
    LowLevel::new(interface)
}

fn reg(offset: u32) -> u32 {
    <<Exhaustive as Model>::RegisterMem as RegionLayout>::BASE_ADDR + offset
}

#[test]
fn test_wr8() {
    let mut eve = test_obj(|_| {});
    let addr = eve.main_mem_ptr(0x1f);
    eve.wr8(addr, 0x34).unwrap();
    let got = eve.take_interface().calls();
    let want = vec![
        MockInterfaceCall::BeginWrite(0x1f),
        MockInterfaceCall::ContinueWrite(vec![0x34 as u8]),
        MockInterfaceCall::EndWrite(0x1f),
    ];
    assert_eq!(&got[..], &want[..]);
}

#[test]
fn test_wr16() {
    let mut eve = test_obj(|_| {});
    let addr = eve.main_mem_ptr(0x2f);
    eve.wr16(addr, 0x1234).unwrap();
    let got = eve.take_interface().calls();
    let want = vec![
        MockInterfaceCall::BeginWrite(0x2f),
        MockInterfaceCall::ContinueWrite(vec![0x34, 0x12 as u8]),
        MockInterfaceCall::EndWrite(0x2f),
    ];
    assert_eq!(&got[..], &want[..]);
}

#[test]
fn test_wr32() {
    let mut eve = test_obj(|_| {});
    let addr = eve.main_mem_ptr(0x3f);
    eve.wr32(addr, 0x12345678).unwrap();
    let got = eve.take_interface().calls();
    let want = vec![
        MockInterfaceCall::BeginWrite(0x3f),
        MockInterfaceCall::ContinueWrite(vec![0x78, 0x56, 0x34, 0x12 as u8]),
        MockInterfaceCall::EndWrite(0x3f),
    ];
    assert_eq!(&got[..], &want[..]);
}

#[test]
fn test_wr8s() {
    let mut eve = test_obj(|_| {});
    let addr = eve.main_mem_ptr(0x3f);
    let data = ['h' as u8, 'e' as u8, 'l' as u8, 'l' as u8, 'o' as u8];
    eve.wr8s(addr, &data[..]).unwrap();
    let got = eve.take_interface().calls();
    let want = vec![
        MockInterfaceCall::BeginWrite(0x3f),
        MockInterfaceCall::ContinueWrite(vec!['h' as u8, 'e' as u8, 'l' as u8, 'l' as u8, 'o' as u8]),
        MockInterfaceCall::EndWrite(0x3f),
    ];
    assert_eq!(&got[..], &want[..]);
}

#[test]
fn test_rd8() {
    let mut eve = test_obj(|ei| {
        let data = [0x34 as u8];
        ei.setup_mem(0x1f, &data[..])
    });
    let addr = eve.main_mem_ptr(0x1f);
    let got = eve.rd8(addr).unwrap();
    assert_eq!(got, 0x34);

    let got_calls = eve.take_interface().calls();
    let want_calls = vec![
        MockInterfaceCall::BeginRead(0x1f),
        MockInterfaceCall::ContinueRead(1),
        MockInterfaceCall::EndRead(0x1f),
    ];
    assert_eq!(&got_calls[..], &want_calls[..]);
}

#[test]
fn test_rd16() {
    let mut eve = test_obj(|ei| {
        let data = [0x12, 0x34 as u8];
        ei.setup_mem(0x2f, &data[..])
    });
    let addr = eve.main_mem_ptr(0x2f);
    let got = eve.rd16(addr).unwrap();
    assert_eq!(got, 0x3412); // EVE is little-endian

    let got_calls = eve.take_interface().calls();
    let want_calls = vec![
        MockInterfaceCall::BeginRead(0x2f),
        MockInterfaceCall::ContinueRead(2),
        MockInterfaceCall::EndRead(0x2f),
    ];
    assert_eq!(&got_calls[..], &want_calls[..]);
}

#[test]
fn test_rd32() {
    let mut eve = test_obj(|ei| {
        let data = [0x12, 0x34, 0x56, 0x78 as u8];
        ei.setup_mem(0x3f, &data[..])
    });
    let addr = eve.main_mem_ptr(0x3f);
    let got = eve.rd32(addr).unwrap();
    assert_eq!(got, 0x78563412); // EVE is little-endian

    let got_calls = eve.take_interface().calls();
    let want_calls = vec![
        MockInterfaceCall::BeginRead(0x3f),
        MockInterfaceCall::ContinueRead(4),
        MockInterfaceCall::EndRead(0x3f),
    ];
    assert_eq!(&got_calls[..], &want_calls[..]);
}

#[test]
fn test_rd8s() {
    let orig_data = b"hello";
    let mut eve = test_obj(|ei| ei.setup_mem(0x4f, &orig_data[..]));
    let addr = eve.main_mem_ptr(0x4f);
    let mut read_data: [u8; 8] = [0, 0, 0, 0, 0, 0, 0, 0];
    eve.rd8s(addr, &mut read_data).unwrap();

    // We read more than we wrote, so we'll see some default
    // values here standing in for uninitialized memory.
    let want_data = b"hello\xff\xff\xff";
    assert_eq!(&read_data[..], &want_data[..]);

    let got_calls = eve.take_interface().calls();
    let want_calls = vec![
        MockInterfaceCall::BeginRead(0x4f),
        MockInterfaceCall::ContinueRead(8),
        MockInterfaceCall::EndRead(0x4f),
    ];
    assert_eq!(&got_calls[..], &want_calls[..]);
}

#[test]
fn test_host_command() {
    let mut eve = test_obj(|_| {});
    eve.host_command(HostCmd::ACTIVE, 0x23, 0x45).unwrap();

    let got_calls = eve.take_interface().calls();
    let want_calls = vec![MockInterfaceCall::Cmd(0x00, 0x23, 0x45)];
    assert_eq!(&got_calls[..], &want_calls[..]);
}

#[test]
fn test_dl() {
    let mut eve = test_obj(|_| {});

    eve.dl(DLCmd::begin(GraphicsPrimitive::Points)).unwrap();
    eve.dl(DLCmd::alpha_test(TestFunc::Never, 3)).unwrap();
    eve.dl_reset();
    eve.dl(DLCmd::begin(GraphicsPrimitive::Bitmaps)).unwrap();

    let base = <<Exhaustive as Model>::DisplayListMem as RegionLayout>::BASE_ADDR;

    let got_calls = eve.take_interface().calls();
    let want_calls = vec![
        MockInterfaceCall::BeginWrite(base + 0),
        MockInterfaceCall::ContinueWrite(vec![2, 0, 0, 31 as u8]),
        MockInterfaceCall::EndWrite(base + 0),
        MockInterfaceCall::BeginWrite(base + 4),
        MockInterfaceCall::ContinueWrite(vec![3, 0, 0, 9 as u8]),
        MockInterfaceCall::EndWrite(base + 4),
        MockInterfaceCall::BeginWrite(base + 0),
        MockInterfaceCall::ContinueWrite(vec![1, 0, 0, 31 as u8]),
        MockInterfaceCall::EndWrite(base + 0),
    ];
    assert_eq!(&got_calls[..], &want_calls[..]);
}

#[test]
fn dl_cursor_stays_on_last_word_when_memory_is_full() {
    let mut eve = test_obj(|_| {});
    let base = <<Exhaustive as Model>::DisplayListMem as RegionLayout>::BASE_ADDR;
    let len = <<Exhaustive as Model>::DisplayListMem as RegionLayout>::LENGTH;
    let words = len / 4;
    for _ in 0..(words + 2) {
        eve.dl(DLCmd::nop()).unwrap();
    }
    eve.dl(DLCmd::display()).unwrap();
    let calls = eve.take_interface().calls();
    // The command that filled the last word and the three after it all went
    // to the last word.
    let n = calls.len();
    assert_eq!(n as u32, (words + 3) * 3);
    for k in 1..=4 {
        assert_eq!(calls[n - 3 * k], MockInterfaceCall::BeginWrite(base + len - 4));
    }
    assert_eq!(calls[n - 15], MockInterfaceCall::BeginWrite(base + len - 8));
    assert_eq!(calls[n - 2], MockInterfaceCall::ContinueWrite(vec![0, 0, 0, 0]));
}

#[test]
fn dl_failure_leaves_cursor_in_place() {
    let mut eve = test_obj(|ei| ei.fail_at = Some(2));
    let base = <<Exhaustive as Model>::DisplayListMem as RegionLayout>::BASE_ADDR;
    assert!(eve.dl(DLCmd::nop()).is_err());
    eve.dl(DLCmd::display()).unwrap();
    let calls = eve.take_interface().calls();
    assert_eq!(calls[0], MockInterfaceCall::BeginWrite(base));
    assert_eq!(calls[1], MockInterfaceCall::ContinueWrite(vec![0, 0, 0, 0x2d]));
    // The write stopped at the failed call; the retry goes to the same place.
    assert_eq!(calls[2], MockInterfaceCall::BeginWrite(base));
}

#[test]
fn write_then_read_gives_back_the_value() {
    let mut eve = test_obj(|_| {});
    let addr = eve.main_mem_ptr(0x100);
    eve.wr32(addr, 0xdeadbeef).unwrap();
    assert_eq!(eve.rd32(addr).unwrap(), 0xdeadbeef);
    eve.wr16(addr, 0xbeef).unwrap();
    assert_eq!(eve.rd16(addr).unwrap(), 0xbeef);
}

#[test]
fn builder_on_low_level_writes_commands_in_order() {
    let mut eve = test_obj(|_| {});
    let base = <<Exhaustive as Model>::DisplayListMem as RegionLayout>::BASE_ADDR;
    eve.clear_all().unwrap();
    eve.vertex_translate((1, 2)).unwrap();
    let calls = eve.take_interface().calls();
    assert_eq!(calls.len(), 9);
    assert_eq!(calls[1], MockInterfaceCall::ContinueWrite(vec![7, 0, 0, 0x26]));
    assert_eq!(calls[3], MockInterfaceCall::BeginWrite(base + 4));
    assert_eq!(calls[4], MockInterfaceCall::ContinueWrite(vec![1, 0, 0, 0x2b]));
    assert_eq!(calls[7], MockInterfaceCall::ContinueWrite(vec![2, 0, 0, 0x2c]));
}

#[test]
fn start_system_clock_sends_host_commands() {
    let eve_if = MockInterface::new();
    let mut eve = EVE::new(evegfx::models::fake::Model, eve_if);
    let mode = VideoTimings::mode_720p();
    eve.start_system_clock(ClockSource::Internal, &mode).unwrap();
    let calls = eve.take_interface().calls();
    let want = vec![
        MockInterfaceCall::Cmd(0x43, 0, 0),
        MockInterfaceCall::Cmd(0x00, 0, 0),
        MockInterfaceCall::Cmd(0x42, 0, 0),
        MockInterfaceCall::Cmd(0x48, 0, 0),
        MockInterfaceCall::Cmd(0x61, 6, 0),
        MockInterfaceCall::Cmd(0x00, 0, 0),
        MockInterfaceCall::Cmd(0x68, 0, 0),
    ];
    assert_eq!(calls, want);
}

#[test]
fn start_system_clock_stops_at_failure() {
    let mut eve_if = MockInterface::new();
    eve_if.fail_at = Some(3);
    let mut eve = EVE::new(evegfx::models::fake::Model, eve_if);
    let mode = VideoTimings::mode_720p();
    assert!(eve.start_system_clock(ClockSource::External, &mode).is_err());
    assert_eq!(eve.take_interface().calls().len(), 3);
}

#[test]
fn poll_for_boot_waits_for_id_then_cpureset() {
    let mut eve_if = MockInterface::new();
    eve_if.script_reads(reg(0x00), &[0x00, 0x12, 0x7c]);
    eve_if.script_reads(reg(0x20), &[0x01, 0x00]);
    let mut eve = EVE::new(evegfx::models::fake::Model, eve_if);
    assert_eq!(eve.poll_for_boot(10).unwrap(), true);
    let calls = eve.take_interface().calls();
    // Three reads of ID and two of CPURESET.
    assert_eq!(calls.len(), 15);
    assert_eq!(calls[9], MockInterfaceCall::BeginRead(reg(0x20)));
}

#[test]
fn poll_for_boot_gives_up_at_limit() {
    let mut eve_if = MockInterface::new();
    eve_if.script_reads(reg(0x00), &[0x00, 0x00, 0x00, 0x00]);
    let mut eve = EVE::new(evegfx::models::fake::Model, eve_if);
    assert_eq!(eve.poll_for_boot(3).unwrap(), false);
    assert_eq!(eve.take_interface().calls().len(), 9);

    let eve_if = MockInterface::new();
    let mut eve = EVE::new(evegfx::models::fake::Model, eve_if);
    assert_eq!(eve.poll_for_boot(0).unwrap(), false);
    assert_eq!(eve.take_interface().calls().len(), 0);
}

#[test]
fn poll_for_boot_does_not_count_the_id_match() {
    // The read of ID that matches is not counted, so with a limit of one
    // there is still one read of CPURESET.
    let mut eve_if = MockInterface::new();
    eve_if.script_reads(reg(0x00), &[0x7c]);
    eve_if.script_reads(reg(0x20), &[0x00]);
    let mut eve = EVE::new(evegfx::models::fake::Model, eve_if);
    assert_eq!(eve.poll_for_boot(1).unwrap(), true);
}

#[test]
fn start_video_writes_timing_registers() {
    let eve_if = MockInterface::new();
    let mut eve = EVE::new(evegfx::models::fake::Model, eve_if);
    let mode = VideoTimings {
        sysclk_freq: ClockFrequency::F60MHz,
        pclk_div: 5,
        pclk_pol: ClockPolarity::FallingEdge,
        horiz: VideoTimingDimension::calculate(800, 40, 48, 88),
        vert: VideoTimingDimension::calculate(480, 13, 3, 32),
    };
    eve.start_video(&mode).unwrap();
    let calls = eve.take_interface().calls();
    assert_eq!(calls.len(), 13 * 3);
    assert_eq!(calls[0], MockInterfaceCall::BeginWrite(reg(0x0c)));
    assert_eq!(calls[1], MockInterfaceCall::ContinueWrite(vec![0x00, 0x87, 0x93, 0x03]));
    // HCYCLE is the sum of all of the horizontal periods.
    assert_eq!(calls[30], MockInterfaceCall::BeginWrite(reg(0x2c)));
    assert_eq!(calls[31], MockInterfaceCall::ContinueWrite(vec![0xd0, 0x03]));
    assert_eq!(calls[34], MockInterfaceCall::ContinueWrite(vec![1]));
    // PCLK comes last, because it starts the display.
    assert_eq!(calls[36], MockInterfaceCall::BeginWrite(reg(0x70)));
    assert_eq!(calls[37], MockInterfaceCall::ContinueWrite(vec![5]));
}

#[test]
fn configure_video_pins_writes_fixed_values() {
    let eve_if = MockInterface::new();
    let mut eve = EVE::new(evegfx::models::fake::Model, eve_if);
    eve.configure_video_pins(&RGBElectricalMode::new()).unwrap();
    let calls = eve.take_interface().calls();
    assert_eq!(calls.len(), 18);
    assert_eq!(calls[15], MockInterfaceCall::BeginWrite(reg(0x94)));
    assert_eq!(calls[16], MockInterfaceCall::ContinueWrite(vec![0x83]));
}

#[test]
fn new_display_list_swaps_after_building() {
    let eve_if = MockInterface::new();
    let mut eve = EVE::new(evegfx::models::fake::Model, eve_if);
    eve.new_display_list(|b| {
        b.clear_all()?;
        b.display()
    })
    .unwrap();
    let calls = eve.take_interface().calls();
    assert_eq!(calls.len(), 9);
    assert_eq!(calls[6], MockInterfaceCall::BeginWrite(reg(0x54)));
    assert_eq!(calls[7], MockInterfaceCall::ContinueWrite(vec![2]));
}

#[test]
fn read_chip_id_reads_four_bytes() {
    let mut ei = MockInterface::new();
    ei.setup_mem(0xC0000, &[0x08, 0x15, 0x01, 0x00]);
    let id = evegfx::interface::read_chip_id(&mut ei).unwrap();
    assert_eq!(id, [0x08, 0x15, 0x01, 0x00]);
}

#[test]
fn new_display_list_returns_the_builder_error_without_swapping() {
    let eve_if = MockInterface::new();
    let mut eve = EVE::new(evegfx::models::fake::Model, eve_if);
    let r = eve.new_display_list(|b| {
        b.display()?;
        Err(MockError)
    });
    assert!(r.is_err());
    let calls = eve.take_interface().calls();
    assert_eq!(calls.len(), 3);
    assert!(!calls.contains(&MockInterfaceCall::BeginWrite(reg(0x54))));
}

#[test]
fn dl_cursor_sticks_on_the_last_word() {
    let mut eve = test_obj(|_| {});
    let base = <<Exhaustive as Model>::DisplayListMem as RegionLayout>::BASE_ADDR;
    let len = <<Exhaustive as Model>::DisplayListMem as RegionLayout>::LENGTH;
    let words = (len / 4) as usize;
    for _ in 0..(words + 2) {
        eve.dl(DLCmd::from_raw(0)).unwrap();
    }
    let calls = eve.take_interface().calls();
    let begins: Vec<u32> = calls
        .iter()
        .filter_map(|c| match c {
            MockInterfaceCall::BeginWrite(a) => Some(*a),
            _ => None,
        })
        .collect();
    assert_eq!(begins.len(), words + 2);
    for (k, a) in begins.iter().enumerate() {
        let expected = base + std::cmp::min(4 * k as u32, len - 4);
        assert_eq!(*a, expected);
    }
}
