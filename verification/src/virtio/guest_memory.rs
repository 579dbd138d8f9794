//! Access to guest physical memory.
//!
//! Guest memory is shared with a running guest, so nothing is known of what
//! a read returns or of whether an access succeeds: callers are verified for
//! every outcome.
use sys_util::GuestAddress;
use sys_util::GuestMemory;
use sys_util::GuestMemoryError;
use vstd::prelude::*;

verus! {

/// `sys_util::GuestMemory`: a handle on the memory regions mapped into the
/// guest.
#[verifier::external_type_specification]
#[verifier::external_body]
pub struct ExGuestMemory(GuestMemory);

/// `sys_util::GuestMemoryError`: why an access to guest memory failed.
#[verifier::external_type_specification]
#[verifier::external_body]
pub struct ExGuestMemoryError(GuestMemoryError);

/// Guest physical addresses from this one on are never looked up in guest
/// memory: they count as unmapped. The lookup adds the size of a region to
/// its base without a check, for every region that starts at or below the
/// address. A mapping is shorter than 2^63 bytes, so below this limit the
/// sum stays in range.
pub const GUEST_ADDRESS_LIMIT: u64 = 0x8000_0000_0000_0000;

/// `sys_util::GuestMemory::read_obj_from_addr` at a four-byte object: the
/// four bytes at guest physical address `addr`, or the reason why they
/// cannot be read. At or above the limit the call may overflow.
#[verifier::external_body]
pub(crate) fn read_four(memory: &GuestMemory, addr: u64) -> Result<[u8; 4], GuestMemoryError>
    requires
        addr < GUEST_ADDRESS_LIMIT,
{
    memory.read_obj_from_addr::<[u8; 4]>(GuestAddress(addr))
}

/// `sys_util::GuestMemory::write_obj_at_addr` at a four-byte object: stores
/// `bytes` at guest physical address `addr`, or says why it cannot. At or
/// above the limit the call may overflow.
#[verifier::external_body]
pub(crate) fn write_four(memory: &GuestMemory, bytes: [u8; 4], addr: u64) -> Result<
    (),
    GuestMemoryError,
>
    requires
        addr < GUEST_ADDRESS_LIMIT,
{
    memory.write_obj_at_addr::<[u8; 4]>(bytes, GuestAddress(addr))
}

/// `sys_util::GuestMemoryError::InvalidGuestAddress`: the error that guest
/// memory gives for an address that it does not map.
#[verifier::external_body]
pub(crate) fn invalid_address(addr: u64) -> GuestMemoryError {
    GuestMemoryError::InvalidGuestAddress(GuestAddress(addr))
}

/// The `Display` text of a `sys_util::GuestMemoryError`.
#[verifier::external_body]
pub(crate) fn error_text(e: &GuestMemoryError) -> String {
    format!("{}", e)
}

} // verus!
