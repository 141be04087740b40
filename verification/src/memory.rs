//! The 4 KiB address space of the machine, with range-checked access.

use vstd::prelude::*;

verus! {

/// Number of bytes in the address space.
pub const MEMORY_SIZE: usize = 4096;

/// First address that programs may read and write.
pub const PROGRAM_START: u16 = 0x200;

/// Last address of the address space.
pub const LAST_ADDRESS: u16 = 0xFFF;

/// Why an address was refused.
#[derive(Clone, Copy, Debug, PartialEq, Eq, Structural)]
pub enum AddressErrorKind {
    /// The address lies beyond the last byte of memory.
    OutOfRange,
    /// The address lies in the interpreter's own region below `PROGRAM_START`.
    Reserved,
}

/// A refused memory access: the address and the reason.
#[derive(Clone, Copy, Debug, PartialEq, Eq, Structural)]
pub struct InvalidAddressError {
    /// The address that was refused.
    pub address: u16,
    /// Why it was refused.
    pub kind: AddressErrorKind,
}

/// What an access to `address` yields before any byte is touched: nothing
/// for a program address, the error otherwise.
pub open spec fn address_fault(address: u16) -> Option<InvalidAddressError> {
    if address < PROGRAM_START {
        Some(InvalidAddressError { address, kind: AddressErrorKind::Reserved })
    } else if address > LAST_ADDRESS {
        Some(InvalidAddressError { address, kind: AddressErrorKind::OutOfRange })
    } else {
        None
    }
}

/// What an access to the `len` consecutive addresses from `start` yields
/// before any byte is touched: the error of the first address among them
/// that has one, nothing if they are all program addresses.
pub open spec fn range_fault(start: u16, len: nat) -> Option<InvalidAddressError> {
    if len == 0 {
        None
    } else if address_fault(start) is Some {
        address_fault(start)
    } else if start + len - 1 > LAST_ADDRESS {
        Some(InvalidAddressError { address: 0x1000, kind: AddressErrorKind::OutOfRange })
    } else {
        None
    }
}

/// What reading `address` yields on the contents `memory`.
pub open spec fn read_result(memory: Seq<u8>, address: u16) -> Result<u8, InvalidAddressError> {
    match address_fault(address) {
        Some(e) => Err(e),
        None => Ok(memory[address as int]),
    }
}

/// What writing `value` to `address` makes of the contents `memory`.
pub open spec fn write_result(memory: Seq<u8>, address: u16, value: u8) -> Result<
    Seq<u8>,
    InvalidAddressError,
> {
    match address_fault(address) {
        Some(e) => Err(e),
        None => Ok(memory.update(address as int, value)),
    }
}

/// [`range_fault`] is the error of the first address of the range that has
/// one: every address before it is a program address, and where there is no
/// error every address of the range is one.
pub proof fn lemma_range_fault_is_first(start: u16, len: nat)
    ensures
        range_fault(start, len) is None <==> forall|a: u16|
            start <= a < start + len ==> #[trigger] address_fault(a) is None,
        range_fault(start, len) matches Some(e) ==> start <= e.address < start + len
            && address_fault(e.address) == Some(e) && forall|a: u16|
            start <= a < e.address ==> #[trigger] address_fault(a) is None,
{
    if len > 0 {
        if address_fault(start) is Some {
        } else if start + len - 1 > LAST_ADDRESS {
            assert(address_fault(0x1000) is Some);
        }
    }
}

/// A byte that was written is the byte that is read back, and no other
/// address changes.
pub proof fn lemma_read_after_write(memory: Seq<u8>, address: u16, value: u8, other: u16)
    requires
        memory.len() == MEMORY_SIZE,
        address_fault(address) is None,
        other != address,
    ensures
        write_result(memory, address, value) matches Ok(written) && read_result(written, address)
            == Ok::<u8, InvalidAddressError>(value) && read_result(written, other) == read_result(
            memory,
            other,
        ),
{
}

/// The address space: 4096 bytes, of which those from `PROGRAM_START` on can
/// be read and written.
pub struct Memory {
    memory: [u8; 4096],
}

impl View for Memory {
    type V = Seq<u8>;

    closed spec fn view(&self) -> Seq<u8> {
        self.memory@
    }
}

impl Memory {
    /// The contents are always `MEMORY_SIZE` bytes.
    pub proof fn lemma_size(self)
        ensures
            self@.len() == MEMORY_SIZE,
    {
    }

    /// A memory of zero bytes.
    pub fn new() -> (m: Self)
        ensures
            m@ == Seq::new(MEMORY_SIZE as nat, |i: int| 0u8),
    {
        Self { memory: [0; 4096] }
    }

    /// Sets every byte to zero.
    pub fn wipe(&mut self)
        ensures
            final(self)@ == Seq::new(MEMORY_SIZE as nat, |i: int| 0u8),
    {
        self.memory = [0; 4096];
    }

    /// The byte at `address`, or why the address is refused.
    pub fn read(&self, address: u16) -> (r: Result<u8, InvalidAddressError>)
        ensures
            r == read_result(self@, address),
    {
        if address < PROGRAM_START {
            Err(InvalidAddressError { address, kind: AddressErrorKind::Reserved })
        } else if address > LAST_ADDRESS {
            Err(InvalidAddressError { address, kind: AddressErrorKind::OutOfRange })
        } else {
            Ok(self.memory[address as usize])
        }
    }

    /// Stores `value` at `address`, or says why the address is refused and
    /// leaves the contents as they were.
    pub fn write(&mut self, address: u16, value: u8) -> (r: Result<(), InvalidAddressError>)
        ensures
            match write_result(old(self)@, address, value) {
                Ok(written) => r is Ok && final(self)@ == written,
                Err(e) => r == Err::<(), InvalidAddressError>(e) && final(self)@ == old(self)@,
            },
    {
        if address < PROGRAM_START {
            Err(InvalidAddressError { address, kind: AddressErrorKind::Reserved })
        } else if address > LAST_ADDRESS {
            Err(InvalidAddressError { address, kind: AddressErrorKind::OutOfRange })
        } else {
            self.memory[address as usize] = value;
            Ok(())
        }
    }
}

/// Checks the `len` consecutive addresses from `start` without touching a
/// byte.
pub fn check_range(start: u16, len: u16) -> (r: Result<(), InvalidAddressError>)
    ensures
        r == match range_fault(start, len as nat) {
            Some(e) => Err::<(), InvalidAddressError>(e),
            None => Ok(()),
        },
{
    if len == 0 {
        Ok(())
    } else if start < PROGRAM_START {
        Err(InvalidAddressError { address: start, kind: AddressErrorKind::Reserved })
    } else if start > LAST_ADDRESS {
        Err(InvalidAddressError { address: start, kind: AddressErrorKind::OutOfRange })
    } else if len - 1 > LAST_ADDRESS - start {
        Err(InvalidAddressError { address: 0x1000, kind: AddressErrorKind::OutOfRange })
    } else {
        Ok(())
    }
}

} // verus!
