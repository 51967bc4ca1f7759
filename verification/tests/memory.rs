use evegfx::low_level::Register;
use evegfx::memory::{MemoryRegion, RegionLayout, Slice};
use evegfx::models::fake::Model as Exhaustive;
use evegfx::models::Model;
use evegfx::registers::EVERegister;

#[test]
fn test_ptr_eq() {
    assert_eq!(<Exhaustive as Model>::MainMem::ptr(1), <Exhaustive as Model>::MainMem::ptr(1));
    assert_ne!(<Exhaustive as Model>::MainMem::ptr(1), <Exhaustive as Model>::MainMem::ptr(2));
    // Addresses from different memory regions on the same model are
    // comparable, but will always return false because the address
    // regions are required to be disjoint within a model.
    assert_ne!(<Exhaustive as Model>::MainMem::ptr(1), <Exhaustive as Model>::DisplayListMem::ptr(1));
}

#[test]
fn test_ptr_cmp() {
    assert!(<Exhaustive as Model>::MainMem::ptr(1) < <Exhaustive as Model>::MainMem::ptr(2));
    assert!(<Exhaustive as Model>::MainMem::ptr(2) >= <Exhaustive as Model>::MainMem::ptr(2));
    // Addresses from different memory regions on the same model are
    // comparable, and reflect the relative positions of those regions
    // in the memory map.
    assert!(<Exhaustive as Model>::MainMem::ptr(1) < <Exhaustive as Model>::DisplayListMem::ptr(1));
    assert!(!(<Exhaustive as Model>::MainMem::ptr(1) > <Exhaustive as Model>::DisplayListMem::ptr(1)));
}

#[test]
fn test_ptr() {
    assert_eq!(Register::VSYNC1.ptr::<Exhaustive>().to_raw(), 0x302050);
    assert_eq!(Register::VSYNC1.ptr::<Exhaustive>().to_raw(), 0x302050);
}

#[test]
fn registers_test_ptr() {
    assert_eq!(EVERegister::VSYNC1.ptr::<Exhaustive>().to_raw(), 0x302050);
    assert_eq!(EVERegister::VSYNC1.ptr::<Exhaustive>().to_raw(), 0x302050);
}

#[test]
fn ptr_offsets_wrap_within_region() {
    let len = <<Exhaustive as Model>::DisplayListMem as RegionLayout>::LENGTH;
    let base = <<Exhaustive as Model>::DisplayListMem as RegionLayout>::BASE_ADDR;
    let p = <Exhaustive as Model>::DisplayListMem::ptr(len + 8);
    assert_eq!(p.to_raw(), base + 8);
    assert_eq!(p.to_raw_offset(), 8);
    let q = p + 4u32;
    assert_eq!(q.to_raw(), base + 12);
    let r = p - 12u32;
    assert_eq!(r.to_raw(), base + len - 4);
}

#[test]
fn slice_bounds_and_contains() {
    let a = <Exhaustive as Model>::MainMem::ptr(0x10);
    let b = <Exhaustive as Model>::MainMem::ptr(0x20);
    let s: Slice<_> = (a..b).into();
    assert_eq!(s.len(), 0x10);
    assert!(s.contains(<Exhaustive as Model>::MainMem::ptr(0x10)));
    assert!(!s.contains(<Exhaustive as Model>::MainMem::ptr(0x20)));
    assert_eq!(s.raw_bounds(), (0x10, 0x20));
}

#[test]
fn spi_headers_encode_addresses() {
    let p = <Exhaustive as Model>::RegisterMem::ptr(0x54);
    let mut w = [0u8; 3];
    p.build_spi_write_header(&mut w);
    assert_eq!(w, [0x80 | 0x30, 0x20, 0x54]);
    let mut r = [0u8; 4];
    p.build_spi_read_header(&mut r);
    assert_eq!(r, [0x30, 0x20, 0x54, 0]);
}

#[test]
fn ptr_compound_assignment_moves_within_region() {
    let len = <<Exhaustive as Model>::DisplayListMem as RegionLayout>::LENGTH;
    let base = <<Exhaustive as Model>::DisplayListMem as RegionLayout>::BASE_ADDR;
    let mut p = <Exhaustive as Model>::DisplayListMem::ptr(8);
    p += 4u32;
    assert_eq!(p.to_raw(), base + 12);
    p += -4i32;
    assert_eq!(p.to_raw(), base + 8);
    p -= 12u32;
    assert_eq!(p.to_raw(), base + len - 4);
    p -= -8i32;
    assert_eq!(p.to_raw(), base + 4);
}
