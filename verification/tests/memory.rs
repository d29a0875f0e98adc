//! Tests of the guest-memory facade: mapping, little-endian access,
//! page-straddling reads and writes, and faults.

use aarch64_ir::error::{AccessKind, MMUError};
use aarch64_ir::memory_frame::{MemoryFrame, MmuData};

fn mmu_with_pages(ps: usize, bases: &[usize]) -> MmuData {
    let mut mmu = MmuData::new(ps);
    for &b in bases {
        assert!(mmu.map_page(b, vec![0u8; ps]));
    }
    mmu
}

#[test]
fn map_page_rejects_bad_pages() {
    let mut mmu = MmuData::new(16);
    assert!(!mmu.map_page(0x100, vec![0u8; 8]));
    assert!(mmu.map_page(0x100, vec![0u8; 16]));
    // Overlapping ranges are refused, adjacent ones are fine.
    assert!(!mmu.map_page(0x108, vec![0u8; 16]));
    assert!(!mmu.map_page(0x100, vec![0u8; 16]));
    assert!(mmu.map_page(0x110, vec![0u8; 16]));
}

#[test]
fn query_finds_the_mapped_page() {
    let mmu = mmu_with_pages(16, &[0x100]);
    let page = mmu.query(0x10A).unwrap();
    assert_eq!(page.vaddr, 0x100);
    assert_eq!(page.data.len(), 16);
    assert_eq!(
        mmu.query(0x200),
        Err(MMUError::PageFault(0x200, AccessKind::Read))
    );
}

#[test]
fn write_then_read_round_trips() {
    let mmu = mmu_with_pages(16, &[0x100]);
    let mut frame = MemoryFrame::new(mmu, 0x100);
    frame.write_u64(0x1122_3344_5566_7788).unwrap();
    let mut frame = MemoryFrame::new(frame_into_mmu(frame), 0x100);
    assert_eq!(frame.read_u64().unwrap(), 0x1122_3344_5566_7788);
}

// The frame owns its page table; tests move it between frames through a
// write-then-read pair at the same address instead.  A fresh frame is made
// by reading the table back out of the old one.
fn frame_into_mmu(frame: MemoryFrame) -> MmuData {
    frame.into_mmu()
}

#[test]
fn cursor_advances_in_order() {
    let mmu = mmu_with_pages(16, &[0x100]);
    let mut frame = MemoryFrame::new(mmu, 0x100);
    frame.write_u16(0xAABB).unwrap();
    frame.write_u16(0xCCDD).unwrap();
    let mut frame = MemoryFrame::new(frame.into_mmu(), 0x100);
    assert_eq!(frame.read_u8().unwrap(), 0xBB);
    assert_eq!(frame.read_u8().unwrap(), 0xAA);
    assert_eq!(frame.read_u16().unwrap(), 0xCCDD);
}

#[test]
fn reads_and_writes_straddle_pages() {
    // Two adjacent pages; an access crossing their boundary is serviced.
    let mmu = mmu_with_pages(16, &[0x100, 0x110]);
    let mut frame = MemoryFrame::new(mmu, 0x10C);
    frame.write_u64(0x0807_0605_0403_0201).unwrap();
    let mut frame = MemoryFrame::new(frame.into_mmu(), 0x10C);
    assert_eq!(frame.read_u32().unwrap(), 0x0403_0201);
    assert_eq!(frame.read_u32().unwrap(), 0x0807_0605);
}

#[test]
fn read_fault_names_first_unmapped_address() {
    let mmu = mmu_with_pages(16, &[0x100]);
    let mut frame = MemoryFrame::new(mmu, 0x10C);
    // Bytes 0x10C..0x110 are mapped; 0x110 is the first unmapped one.
    assert_eq!(
        frame.read_u64(),
        Err(MMUError::PageFault(0x110, AccessKind::Read))
    );
    // A failed access does not advance the cursor.
    assert_eq!(frame.read_u32().unwrap(), 0);
}

#[test]
fn write_fault_is_a_write_fault_and_changes_nothing() {
    let mmu = mmu_with_pages(16, &[0x100]);
    let mut frame = MemoryFrame::new(mmu, 0x10C);
    assert_eq!(
        frame.write_u64(0xFFFF_FFFF_FFFF_FFFF),
        Err(MMUError::PageFault(0x110, AccessKind::Write))
    );
    let mut frame = MemoryFrame::new(frame.into_mmu(), 0x10C);
    assert_eq!(frame.read_u32().unwrap(), 0);
}

#[test]
fn slice_read_and_write() {
    let mmu = mmu_with_pages(4, &[0x10, 0x14]);
    let mut frame = MemoryFrame::new(mmu, 0x12);
    frame.write(&[1, 2, 3, 4]).unwrap();
    let mut frame = MemoryFrame::new(frame.into_mmu(), 0x12);
    let mut buf = [0u8; 4];
    assert_eq!(frame.read(&mut buf), Ok(4));
    assert_eq!(buf, [1, 2, 3, 4]);
    let mut buf = [0u8; 4];
    assert_eq!(
        frame.read(&mut buf),
        Err(MMUError::PageFault(0x18, AccessKind::Read))
    );
}
