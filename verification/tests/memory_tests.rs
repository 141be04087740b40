use chip8::memory::{check_range, AddressErrorKind, InvalidAddressError, Memory};

fn reserved(address: u16) -> InvalidAddressError {
    InvalidAddressError { address, kind: AddressErrorKind::Reserved }
}

fn out_of_range(address: u16) -> InvalidAddressError {
    InvalidAddressError { address, kind: AddressErrorKind::OutOfRange }
}

#[test]
fn new_memory_reads_zero_everywhere() {
    let memory = Memory::new();
    for address in 0x200u16..=0xFFF {
        assert_eq!(memory.read(address), Ok(0));
    }
}

#[test]
fn write_below_program_start_is_reserved() {
    let mut memory = Memory::new();
    assert_eq!(memory.write(0x1FF, 7), Err(reserved(0x1FF)));
    assert_eq!(memory.write(0x000, 7), Err(reserved(0x000)));
}

#[test]
fn write_at_program_start_is_read_back() {
    let mut memory = Memory::new();
    assert_eq!(memory.write(0x200, 0xAB), Ok(()));
    assert_eq!(memory.read(0x200), Ok(0xAB));
}

#[test]
fn read_past_the_end_is_out_of_range() {
    let memory = Memory::new();
    assert_eq!(memory.read(0x1000), Err(out_of_range(0x1000)));
    assert_eq!(memory.read(0xFFFF), Err(out_of_range(0xFFFF)));
}

#[test]
fn read_below_program_start_is_reserved() {
    let memory = Memory::new();
    assert_eq!(memory.read(0x000), Err(reserved(0x000)));
    assert_eq!(memory.read(0x1FF), Err(reserved(0x1FF)));
}

#[test]
fn write_past_the_end_is_out_of_range() {
    let mut memory = Memory::new();
    assert_eq!(memory.write(0x1000, 1), Err(out_of_range(0x1000)));
}

#[test]
fn last_address_is_usable() {
    let mut memory = Memory::new();
    assert_eq!(memory.write(0xFFF, 0x5A), Ok(()));
    assert_eq!(memory.read(0xFFF), Ok(0x5A));
}

#[test]
fn write_changes_one_byte_only() {
    let mut memory = Memory::new();
    memory.write(0x300, 1).unwrap();
    memory.write(0x301, 2).unwrap();
    memory.write(0x300, 9).unwrap();
    assert_eq!(memory.read(0x2FF), Ok(0));
    assert_eq!(memory.read(0x300), Ok(9));
    assert_eq!(memory.read(0x301), Ok(2));
    assert_eq!(memory.read(0x302), Ok(0));
}

#[test]
fn refused_write_changes_nothing() {
    let mut memory = Memory::new();
    memory.write(0x200, 0x11).unwrap();
    assert!(memory.write(0x1FF, 0x22).is_err());
    assert!(memory.write(0x1000, 0x33).is_err());
    assert_eq!(memory.read(0x200), Ok(0x11));
    assert_eq!(memory.read(0xFFF), Ok(0));
}

#[test]
fn wipe_clears_every_byte() {
    let mut memory = Memory::new();
    memory.write(0x200, 0xFF).unwrap();
    memory.write(0x7AB, 0x12).unwrap();
    memory.write(0xFFF, 0x34).unwrap();
    memory.wipe();
    for address in 0x200u16..=0xFFF {
        assert_eq!(memory.read(address), Ok(0));
    }
}

#[test]
fn check_range_accepts_program_addresses() {
    assert_eq!(check_range(0x200, 1), Ok(()));
    assert_eq!(check_range(0x200, 0xE00), Ok(()));
    assert_eq!(check_range(0xFFF, 1), Ok(()));
    assert_eq!(check_range(0xFFE, 2), Ok(()));
}

#[test]
fn check_range_of_nothing_is_fine_anywhere() {
    assert_eq!(check_range(0x000, 0), Ok(()));
    assert_eq!(check_range(0x1000, 0), Ok(()));
    assert_eq!(check_range(0xFFFF, 0), Ok(()));
}

#[test]
fn check_range_reports_the_first_refused_address() {
    assert_eq!(check_range(0x1FF, 2), Err(reserved(0x1FF)));
    assert_eq!(check_range(0x0000, 0xFFFF), Err(reserved(0x0000)));
    assert_eq!(check_range(0xFFF, 2), Err(out_of_range(0x1000)));
    assert_eq!(check_range(0xFF0, 17), Err(out_of_range(0x1000)));
    assert_eq!(check_range(0x200, 0xE01), Err(out_of_range(0x1000)));
    assert_eq!(check_range(0x1000, 1), Err(out_of_range(0x1000)));
    assert_eq!(check_range(0xFFFF, 0xFFFF), Err(out_of_range(0xFFFF)));
}
