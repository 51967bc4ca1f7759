use std::cell::RefCell;
use std::vec::Vec;

use evegfx::interface::fake::{Error, Interface as FakeInterface};
use evegfx::interface::Interface;
use evegfx::low_level::LowLevel;
use evegfx::models::fake::Model as Exhaustive;

#[test]
fn fake_interface_reads_back_what_was_written() {
    let mut storage = [0u8; 64];
    let ei = FakeInterface::new(&mut storage[..]);
    let mut ll: LowLevel<Exhaustive, _> = LowLevel::new(ei);
    let addr = ll.main_mem_ptr(8);
    ll.wr32(addr, 0x11223344).unwrap();
    assert_eq!(ll.rd32(addr).unwrap(), 0x11223344);
    let mut buf = [0u8; 4];
    ll.rd8s(addr, &mut buf).unwrap();
    assert_eq!(buf, [0x44, 0x33, 0x22, 0x11]);
    drop(ll);
    assert_eq!(&storage[8..12], &[0x44, 0x33, 0x22, 0x11]);
}

#[test]
fn fake_interface_consecutive_continues_advance() {
    let mut storage = [0u8; 8];
    let mut ei = FakeInterface::new(&mut storage[..]);
    ei.begin_write(2).unwrap();
    ei.continue_write(&[1, 2]).unwrap();
    ei.continue_write(&[3]).unwrap();
    ei.end_write().unwrap();
    drop(ei);
    assert_eq!(storage, [0, 0, 1, 2, 3, 0, 0, 0]);
}

#[test]
fn fake_interface_rejects_out_of_bounds() {
    let mut storage = [0u8; 4];
    let mut ei = FakeInterface::new(&mut storage[..]);
    ei.begin_write(2).unwrap();
    match ei.continue_write(&[9, 9, 9]) {
        Err(Error::OutOfBounds) => {}
        _ => panic!("expected an out-of-bounds error"),
    }
    ei.end_write().unwrap();
    ei.begin_read(3).unwrap();
    let mut into = [7u8; 2];
    match ei.continue_read(&mut into) {
        Err(Error::OutOfBounds) => {}
        _ => panic!("expected an out-of-bounds error"),
    }
    // The byte that exists was read; the other is left alone.
    assert_eq!(into, [9, 7]);
    drop(ei);
    // The bytes that fit were written.
    assert_eq!(storage, [0, 0, 9, 9]);
}

#[test]
fn fake_interface_checks_sequence() {
    let mut storage = [0u8; 4];
    let mut ei = FakeInterface::new(&mut storage[..]);
    assert!(matches!(ei.continue_write(&[1]), Err(Error::IncorrectSequence)));
    assert!(matches!(ei.end_read(), Err(Error::IncorrectSequence)));
    ei.begin_write(0).unwrap();
    assert!(matches!(ei.begin_read(0), Err(Error::IncorrectSequence)));
    assert!(matches!(ei.begin_write(0), Err(Error::IncorrectSequence)));
    ei.end_write().unwrap();
    assert!(matches!(ei.end_write(), Err(Error::IncorrectSequence)));
    assert!(ei.host_cmd(0x68, 0, 0).is_ok());
}

#[test]
fn fake_interface_calls_write_callback() {
    let seen: RefCell<Vec<(u32, Vec<u8>)>> = RefCell::new(Vec::new());
    let mut storage = [0u8; 16];
    {
        let cb = |addr: u32, data: &[u8]| -> Result<(), u8> {
            seen.borrow_mut().push((addr, data.to_vec()));
            if data.len() > 2 {
                Err(7)
            } else {
                Ok(())
            }
        };
        let mut ei = FakeInterface::new_with_write_callback(&mut storage[..], cb);
        ei.begin_write(4).unwrap();
        ei.continue_write(&[1, 2]).unwrap();
        assert!(matches!(ei.continue_write(&[3, 4, 5]), Err(Error::WriteCallback(7))));
    }
    assert_eq!(seen.into_inner(), vec![(4, vec![1, 2]), (6, vec![3, 4, 5])]);
    assert_eq!(&storage[4..9], &[1, 2, 3, 4, 5]);
}
