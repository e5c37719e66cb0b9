use vcpu::memory::{create_memory, MemoryError};

#[test]
fn fresh_memory_is_zero_filled() {
    let mut m = create_memory(8);
    assert_eq!(m.len(), 8);
    m.set_read_cursor(0);
    for _ in 0..8 {
        assert_eq!(m.read_byte().unwrap(), 0);
    }
}

#[test]
fn read_past_end_is_out_of_bounds() {
    let mut m = create_memory(2);
    m.set_read_cursor(2);
    assert_eq!(m.read_byte().unwrap_err(), MemoryError::OutOfBounds);
    m.set_read_cursor(1);
    assert_eq!(m.read_word().unwrap_err(), MemoryError::OutOfBounds);
}

#[test]
fn write_then_read_byte_round_trip() {
    let mut m = create_memory(4);
    m.set_write_cursor(1);
    m.write_byte(0xAB).unwrap();
    m.set_read_cursor(1);
    assert_eq!(m.read_byte().unwrap(), 0xAB);
}

#[test]
fn write_then_read_word_round_trip_big_endian() {
    let mut m = create_memory(4);
    m.set_write_cursor(2);
    m.write_word(0x1234).unwrap();
    m.set_read_cursor(2);
    assert_eq!(m.read_byte().unwrap(), 0x12);
    assert_eq!(m.read_byte().unwrap(), 0x34);
    m.set_read_cursor(2);
    assert_eq!(m.read_word().unwrap(), 0x1234);
}

#[test]
fn write_past_end_is_out_of_bounds() {
    let mut m = create_memory(3);
    m.set_write_cursor(3);
    assert_eq!(m.write_byte(1).unwrap_err(), MemoryError::OutOfBounds);
    m.set_write_cursor(2);
    assert_eq!(m.write_word(1).unwrap_err(), MemoryError::OutOfBounds);
    m.set_read_cursor(0);
    for _ in 0..3 {
        assert_eq!(m.read_byte().unwrap(), 0);
    }
}

#[test]
fn cursors_are_independent() {
    let mut m = create_memory(4);
    m.set_write_cursor(0);
    m.set_read_cursor(3);
    m.write_byte(7).unwrap();
    m.write_byte(8).unwrap();
    assert_eq!(m.read_byte().unwrap(), 0);
    m.set_read_cursor(0);
    assert_eq!(m.read_byte().unwrap(), 7);
    assert_eq!(m.read_byte().unwrap(), 8);
}

#[test]
fn bulk_write_installs_program_at_start() {
    let mut m = create_memory(6);
    m.bulk_write(&vec![1, 2, 3]).unwrap();
    m.set_read_cursor(0);
    assert_eq!(m.read_byte().unwrap(), 1);
    assert_eq!(m.read_byte().unwrap(), 2);
    assert_eq!(m.read_byte().unwrap(), 3);
    assert_eq!(m.read_byte().unwrap(), 0);
}

#[test]
fn bulk_write_too_long_is_rejected_atomically() {
    let mut m = create_memory(4);
    let program = vec![9u8; 9];
    assert_eq!(m.bulk_write(&program).unwrap_err(), MemoryError::OutOfBounds);
    m.set_read_cursor(0);
    for _ in 0..4 {
        assert_eq!(m.read_byte().unwrap(), 0);
    }
}

#[test]
fn bulk_write_exact_capacity_succeeds() {
    let mut m = create_memory(2);
    m.bulk_write(&vec![5, 6]).unwrap();
    m.set_read_cursor(0);
    assert_eq!(m.read_word().unwrap(), 0x0506);
}
