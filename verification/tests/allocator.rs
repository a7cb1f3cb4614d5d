//! The shared instruction memory: placement and reservation.

use pio_block::{RegisterBlock, PIO};

#[test]
fn auto_placement_starts_at_lowest_offset() {
    let mut pio = PIO::new(RegisterBlock::new());
    let words = [0x0001u16, 0x0002, 0x0003, 0x0004];
    assert_eq!(pio.find_offset_for_instructions(&words, None), Some(0));
    assert_eq!(pio.add_program(&words, None), Some(0));
    // The next automatic placement skips the reserved range and lands on
    // the lowest free offset.
    assert_eq!(pio.find_offset_for_instructions(&words, None), Some(4));
    assert_eq!(pio.add_program(&words, None), Some(4));
    assert_eq!(pio.find_offset_for_instructions(&words, None), Some(8));
}

#[test]
fn auto_placement_takes_first_gap_that_fits() {
    let mut pio = PIO::new(RegisterBlock::new());
    // Occupy [4, 8) and leave [0, 4) free.
    assert_eq!(pio.add_program(&[9u16, 9, 9, 9], Some(4)), Some(4));
    // A three-word program fits in the gap at the bottom.
    assert_eq!(pio.add_program(&[1u16, 2, 3], None), Some(0));
    // A two-word program no longer fits below; it goes after the block.
    assert_eq!(pio.add_program(&[7u16, 8], None), Some(8));
}

#[test]
fn fixed_origin_taken_exactly() {
    let mut pio = PIO::new(RegisterBlock::new());
    let words = [0x00a0u16, 0x00a1, 0x00a2, 0x00a3];
    assert_eq!(pio.find_offset_for_instructions(&words, Some(3)), Some(3));
    assert_eq!(pio.add_program(&words, Some(3)), Some(3));
    // An overlapping fixed origin fails and changes nothing.
    let before = pio.used_mask();
    assert_eq!(pio.add_program(&words, Some(1)), None);
    assert_eq!(pio.used_mask(), before);
    // A disjoint fixed origin still succeeds.
    assert_eq!(pio.add_program(&words, Some(10)), Some(10));
}

#[test]
fn fixed_origin_past_the_end_fails() {
    let mut pio = PIO::new(RegisterBlock::new());
    let words = [1u16, 2, 3, 4];
    // 30 + 4 > 32: no room.
    assert_eq!(pio.find_offset_for_instructions(&words, Some(30)), None);
    // 28 + 4 == 32: exactly at the end.
    assert_eq!(pio.find_offset_for_instructions(&words, Some(28)), Some(28));
}

#[test]
fn two_automatic_allocations_are_disjoint() {
    let mut pio = PIO::new(RegisterBlock::new());
    let first = [0x1111u16; 5];
    let second = [0x2222u16; 5];
    assert_eq!(pio.add_program(&first, None), Some(0));
    assert_eq!(pio.add_program(&second, None), Some(5));
    // The bitmap after both is the bitwise union of the two ranges:
    // bits 0..5 and bits 5..10.
    assert_eq!(pio.used_mask(), 0b0000_0011_1111_1111);
}

#[test]
fn oversize_request_is_refused_and_changes_nothing() {
    let mut pio = PIO::new(RegisterBlock::new());
    assert_eq!(pio.add_program(&[5u16; 12], None), Some(0));
    let before = pio.used_mask();
    // Longer than the whole memory.
    assert_eq!(pio.add_program(&[1u16; 33], None), None);
    assert_eq!(pio.used_mask(), before);
    // Longer than what is left (12 used, 21 asked).
    assert_eq!(pio.add_program(&[1u16; 21], None), None);
    assert_eq!(pio.used_mask(), before);
}

#[test]
fn reservation_writes_the_words() {
    let mut pio = PIO::new(RegisterBlock::new());
    let words = [0xa107u16, 0x8020, 0x6001];
    assert_eq!(pio.add_program(&words, Some(4)), Some(4));
    let regs = pio.registers();
    assert_eq!(regs.instr_mem[4], 0xa107);
    assert_eq!(regs.instr_mem[5], 0x8020);
    assert_eq!(regs.instr_mem[6], 0x6001);
    // Slots outside the range keep their reset value.
    assert_eq!(regs.instr_mem[3], 0);
    assert_eq!(regs.instr_mem[7], 0);
}

#[test]
fn whole_memory_fits_exactly_once() {
    let mut pio = PIO::new(RegisterBlock::new());
    assert_eq!(pio.add_program(&[3u16; 32], None), Some(0));
    assert_eq!(pio.used_mask(), u32::MAX);
    assert_eq!(pio.add_program(&[4u16], None), None);
}
