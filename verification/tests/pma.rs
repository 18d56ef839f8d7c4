use stm32_usb::usb_impl::pma::{
    holds, holds_run, low_half_of, merged, PmaError, PmaMemory, PMA_SLOTS,
};

fn patterned() -> PmaMemory {
    let mut cells = [0u32; 256];
    for (i, cell) in cells.iter_mut().enumerate() {
        *cell = 0xA500_0000 | ((i as u32) << 16) | (0x1000 + i as u32);
    }
    PmaMemory::new(cells)
}

#[test]
fn new_memory_reads_the_low_halves() {
    let mem = patterned();
    assert_eq!(mem.get_memory(0), Ok(0x1000));
    assert_eq!(mem.get_memory(7), Ok(0x1007));
    assert_eq!(mem.get_memory(255), Ok(0x10FF));
}

#[test]
fn write_then_read_returns_the_value_at_every_slot() {
    for index in 0..PMA_SLOTS {
        let mut mem = patterned();
        assert_eq!(mem.set_memory(index, 0xBEEF), Ok(()));
        assert_eq!(mem.get_memory(index), Ok(0xBEEF));
        for other in 0..PMA_SLOTS {
            if other != index {
                assert_eq!(mem.get_memory(other), Ok(0x1000 + other as u16));
            }
        }
    }
}

#[test]
fn write_leaves_both_neighbours_alone() {
    let mut mem = patterned();
    assert_eq!(mem.set_memory(100, 0x0001), Ok(()));
    assert_eq!(mem.get_memory(99), Ok(0x1063));
    assert_eq!(mem.get_memory(100), Ok(0x0001));
    assert_eq!(mem.get_memory(101), Ok(0x1065));
}

#[test]
fn write_keeps_the_high_half_of_the_cell() {
    let mut mem = patterned();
    assert_eq!(mem.set_memory(3, 0x0000), Ok(()));
    assert_eq!(mem.fields()[3], 0xA503_0000);
    assert_eq!(mem.set_memory(3, 0xFFFF), Ok(()));
    assert_eq!(mem.fields()[3], 0xA503_FFFF);
    assert_eq!(mem.fields()[2], 0xA502_1002);
    assert_eq!(mem.fields()[4], 0xA504_1004);
}

#[test]
fn read_outside_the_area_is_turned_down() {
    let mem = patterned();
    assert_eq!(mem.get_memory(256), Err(PmaError::OutOfBounds));
    assert_eq!(mem.get_memory(usize::MAX), Err(PmaError::OutOfBounds));
}

#[test]
fn write_outside_the_area_is_turned_down_and_writes_nothing() {
    let mut mem = patterned();
    assert_eq!(mem.set_memory(256, 1), Err(PmaError::OutOfBounds));
    assert_eq!(mem.set_memory(usize::MAX, 1), Err(PmaError::OutOfBounds));
    assert_eq!(mem.fields(), patterned().fields());
}

#[test]
fn last_slot_can_be_written_alone() {
    let mut mem = patterned();
    assert_eq!(mem.set_memory(255, 0x4242), Ok(()));
    assert_eq!(mem.get_memory(255), Ok(0x4242));
}

#[test]
fn bulk_write_equals_writes_one_by_one() {
    let values = [0x0102u16, 0x0304, 0x0506, 0x0708, 0x090A];
    let mut bulk = patterned();
    assert_eq!(bulk.set_from_buffer(0x20, &values), Ok(()));
    let mut single = patterned();
    for (k, value) in values.iter().enumerate() {
        assert_eq!(single.set_memory(0x20 + k, *value), Ok(()));
    }
    assert_eq!(bulk.fields(), single.fields());
    assert_eq!(bulk.get_memory(0x1F), Ok(0x101F));
    assert_eq!(bulk.get_memory(0x20), Ok(0x0102));
    assert_eq!(bulk.get_memory(0x24), Ok(0x090A));
    assert_eq!(bulk.get_memory(0x25), Ok(0x1025));
    assert_eq!(bulk.fields()[0x22], 0xA522_0506);
}

#[test]
fn bulk_write_must_end_below_the_last_slot() {
    let values = [7u16; 56];
    let mut mem = patterned();
    assert_eq!(mem.set_from_buffer(200, &values[..55]), Ok(()));
    assert_eq!(mem.get_memory(254), Ok(7));
    assert_eq!(mem.get_memory(255), Ok(0x10FF));
}

#[test]
fn bulk_write_past_the_end_fails_and_writes_nothing() {
    let values = [7u16; 56];
    let mut mem = patterned();
    assert_eq!(mem.set_from_buffer(200, &values), Err(PmaError::OutOfBounds));
    assert_eq!(mem.fields(), patterned().fields());
    assert_eq!(mem.set_from_buffer(255, &values[..1]), Err(PmaError::OutOfBounds));
    assert_eq!(mem.fields(), patterned().fields());
}

#[test]
fn bulk_write_from_outside_the_area_fails() {
    let mut mem = patterned();
    assert_eq!(mem.set_from_buffer(256, &[1, 2]), Err(PmaError::OutOfBounds));
    assert_eq!(mem.set_from_buffer(256, &[]), Err(PmaError::OutOfBounds));
    assert_eq!(mem.set_from_buffer(usize::MAX, &[1, 2]), Err(PmaError::OutOfBounds));
    assert_eq!(mem.fields(), patterned().fields());
}

#[test]
fn empty_bulk_write_inside_the_area_changes_nothing() {
    let mut mem = patterned();
    assert_eq!(mem.set_from_buffer(255, &[]), Ok(()));
    assert_eq!(mem.fields(), patterned().fields());
}

#[test]
fn storage_of_16_bit_cells_holds_the_slots_in_its_even_cells() {
    let mut cells = [0u16; 512];
    for (k, cell) in cells.iter_mut().enumerate() {
        *cell = if k % 2 == 0 { 0x2000 + (k / 2) as u16 } else { 0xEE00 + (k / 2) as u16 };
    }
    let mem = PmaMemory::from_gapped(&cells);
    assert_eq!(mem.get_memory(0), Ok(0x2000));
    assert_eq!(mem.get_memory(9), Ok(0x2009));
    assert_eq!(mem.get_memory(255), Ok(0x20FF));
    assert_eq!(mem.fields()[9], 0xEE09_2009);
    assert_eq!(mem.to_gapped(), cells);
}

#[test]
fn write_changes_one_even_cell_and_no_reserved_cell() {
    let mut cells = [0u16; 512];
    for (k, cell) in cells.iter_mut().enumerate() {
        *cell = k as u16;
    }
    let mut mem = PmaMemory::from_gapped(&cells);
    assert_eq!(mem.set_memory(17, 0xCAFE), Ok(()));
    let mut expected = cells;
    expected[34] = 0xCAFE;
    assert_eq!(mem.to_gapped(), expected);
    assert_eq!(mem.set_from_buffer(0x20, &[1, 2, 3]), Ok(()));
    expected[0x40] = 1;
    expected[0x42] = 2;
    expected[0x44] = 3;
    assert_eq!(mem.to_gapped(), expected);
}

#[test]
fn bounds_checks_match_the_area() {
    assert!(holds(0));
    assert!(holds(255));
    assert!(!holds(256));
    assert!(holds_run(0, 255));
    assert!(!holds_run(0, 256));
    assert!(holds_run(255, 0));
    assert!(!holds_run(255, 1));
    assert!(!holds_run(256, 0));
    assert!(!holds_run(1, usize::MAX));
    assert_eq!(low_half_of(0x1234_5678), 0x5678);
    assert_eq!(merged(0x1234_5678, 0xABCD), 0x1234_ABCD);
}
