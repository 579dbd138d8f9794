//! The pmem request protocol.
//!
//! A request is a chain of two descriptors. The first is device-readable,
//! exactly four bytes long, and carries the little-endian request type; only
//! type 0, flush, exists. The second is device-writable and at least four
//! bytes long; it receives the little-endian status code.
use crate::virtio::endian::le_bytes_u32;
use crate::virtio::endian::read_u32;
use crate::virtio::endian::write_u32;
use crate::virtio::guest_memory::error_text;
use crate::virtio::guest_memory::invalid_address;
use crate::virtio::guest_memory::read_four;
use crate::virtio::guest_memory::write_four;
use crate::virtio::guest_memory::GUEST_ADDRESS_LIMIT;
use crate::virtio::queue::DescriptorChain;
use sys_util::GuestMemory;
use sys_util::GuestMemoryError;
use vstd::prelude::*;
use vstd::string::StringExecFns;

verus! {

/// Request type: make the backing storage durable.
pub const VIRTIO_PMEM_REQ_TYPE_FLUSH: u32 = 0;

/// Status code: the request succeeded.
pub const VIRTIO_PMEM_RESP_TYPE_OK: u32 = 0;

/// Status code: the request failed with an I/O error.
pub const VIRTIO_PMEM_RESP_TYPE_EIO: u32 = 1;

/// Size in bytes of the request structure: one 32-bit type.
pub const REQUEST_SIZE: u32 = 4;

/// Size in bytes of the response structure: one 32-bit status code.
pub const RESPONSE_SIZE: u32 = 4;

/// Why a descriptor chain is not a pmem request.
#[derive(Debug)]
pub enum ParseError {
    /// Guest gave us bad memory addresses.
    GuestMemory(GuestMemoryError),
    /// Guest gave us a write only descriptor that protocol says to read from.
    UnexpectedWriteOnlyDescriptor,
    /// Guest gave us a read only descriptor that protocol says to write to.
    UnexpectedReadOnlyDescriptor,
    /// Guest gave us too few descriptors in a descriptor chain.
    DescriptorChainTooShort,
    /// Guest gave us a buffer that was too short to use.
    BufferLengthTooSmall,
    /// Guest sent us invalid request.
    InvalidRequest,
}

impl ParseError {
    /// The message of the error; for a guest memory error, the words that
    /// come before the description of that error.
    pub open spec fn message(&self) -> Seq<char> {
        match self {
            ParseError::BufferLengthTooSmall => "buffer length too small"@,
            ParseError::DescriptorChainTooShort => "descriptor chain too short"@,
            ParseError::GuestMemory(_) => "bad guest memory address: "@,
            ParseError::InvalidRequest => "invalid request"@,
            ParseError::UnexpectedReadOnlyDescriptor => "unexpected read-only descriptor"@,
            ParseError::UnexpectedWriteOnlyDescriptor => "unexpected write-only descriptor"@,
        }
    }

    /// Describes the error. For a guest memory error, the description of
    /// that error follows the message.
    pub fn to_string(&self) -> (s: String)
        ensures
            !(self is GuestMemory) ==> s@ == self.message(),
            self is GuestMemory ==> exists|detail: Seq<char>| s@ == self.message() + detail,
    {
        match self {
            ParseError::BufferLengthTooSmall => String::from_str("buffer length too small"),
            ParseError::DescriptorChainTooShort => String::from_str("descriptor chain too short"),
            ParseError::GuestMemory(e) => {
                let detail = error_text(e);
                let s = String::from_str("bad guest memory address: ").concat(detail.as_str());
                assert(s@ == self.message() + detail@);
                s
            },
            ParseError::InvalidRequest => String::from_str("invalid request"),
            ParseError::UnexpectedReadOnlyDescriptor => String::from_str(
                "unexpected read-only descriptor",
            ),
            ParseError::UnexpectedWriteOnlyDescriptor => String::from_str(
                "unexpected write-only descriptor",
            ),
        }
    }
}

/// A request that the guest makes of the device.
#[derive(Clone, Copy, Debug, PartialEq, Eq, Structural)]
pub enum Request {
    /// Flush the backing storage, then report the status at
    /// `status_address` in guest memory.
    Flush { status_address: u64 },
}

/// What the chain `chain` parses to when loading the request type from its
/// head gives `loaded`. The checks apply in this order: the head is
/// readable; it is exactly as long as a request; the type loads; the type is
/// flush; a second descriptor follows; it is writable; it is at least as
/// long as a response.
pub open spec fn parsed(chain: &DescriptorChain, loaded: Result<u32, GuestMemoryError>) -> Result<
    Request,
    ParseError,
> {
    if chain.write_only() {
        Err(ParseError::UnexpectedWriteOnlyDescriptor)
    } else if chain.len != REQUEST_SIZE {
        Err(ParseError::InvalidRequest)
    } else {
        match loaded {
            Err(e) => Err(ParseError::GuestMemory(e)),
            Ok(type_) => if type_ != VIRTIO_PMEM_REQ_TYPE_FLUSH {
                Err(ParseError::InvalidRequest)
            } else {
                match chain.next {
                    None => Err(ParseError::DescriptorChainTooShort),
                    Some(status) => if !status.write_only() {
                        Err(ParseError::UnexpectedReadOnlyDescriptor)
                    } else if status.len < RESPONSE_SIZE {
                        Err(ParseError::BufferLengthTooSmall)
                    } else {
                        Ok(Request::Flush { status_address: status.addr })
                    },
                }
            },
        }
    }
}

/// The request type that the chain `chain` is rejected for: the type that
/// was loaded from a head that passed its checks and that is not flush.
pub open spec fn unknown_type(chain: &DescriptorChain, loaded: Result<u32, GuestMemoryError>) -> Option<
    u32,
> {
    match loaded {
        Ok(type_) => if !chain.write_only() && chain.len == REQUEST_SIZE && type_
            != VIRTIO_PMEM_REQ_TYPE_FLUSH {
            Some(type_)
        } else {
            None
        },
        Err(_) => None,
    }
}

/// What loading from guest physical address `addr` can give: anything
/// below the address limit, and only an error from the limit on.
pub open spec fn loads(addr: u64, loaded: Result<u32, GuestMemoryError>) -> bool {
    addr >= GUEST_ADDRESS_LIMIT ==> loaded is Err
}

/// The status code that reports how the flush went.
pub open spec fn status_code(flushed: bool) -> u32 {
    if flushed {
        VIRTIO_PMEM_RESP_TYPE_OK
    } else {
        VIRTIO_PMEM_RESP_TYPE_EIO
    }
}

/// The length to report in the used ring for a chain whose response was, or
/// was not, stored in guest memory.
pub open spec fn used_length(stored: bool) -> u32 {
    if stored {
        RESPONSE_SIZE
    } else {
        0
    }
}

impl Request {
    /// Parses the chain that starts at `avail_desc`, loading the request
    /// type from guest memory once the head descriptor has passed its
    /// checks. A chain whose head is write-only or of the wrong length is
    /// rejected without touching guest memory, and a head at or above the
    /// address limit is rejected as unmapped.
    pub fn parse(avail_desc: &DescriptorChain, memory: &GuestMemory) -> (r: Result<
        Request,
        ParseError,
    >)
        ensures
            avail_desc.write_only() ==> r == Err::<Request, ParseError>(
                ParseError::UnexpectedWriteOnlyDescriptor,
            ),
            !avail_desc.write_only() && avail_desc.len != REQUEST_SIZE ==> r == Err::<
                Request,
                ParseError,
            >(ParseError::InvalidRequest),
            exists|loaded: Result<u32, GuestMemoryError>|
                loads(avail_desc.addr, loaded) && r == #[trigger] parsed(avail_desc, loaded),
    {
        Request::parse_noting(avail_desc, memory).0
    }

    /// Parses as `parse` does, and beside the result gives the request type
    /// if the chain was rejected for it, for the caller to report.
    pub fn parse_noting(avail_desc: &DescriptorChain, memory: &GuestMemory) -> (r: (
        Result<Request, ParseError>,
        Option<u32>,
    ))
        ensures
            avail_desc.write_only() ==> r.0 == Err::<Request, ParseError>(
                ParseError::UnexpectedWriteOnlyDescriptor,
            ),
            !avail_desc.write_only() && avail_desc.len != REQUEST_SIZE ==> r.0 == Err::<
                Request,
                ParseError,
            >(ParseError::InvalidRequest),
            exists|loaded: Result<u32, GuestMemoryError>|
                {
                    &&& loads(avail_desc.addr, loaded)
                    &&& r.0 == #[trigger] parsed(avail_desc, loaded)
                    &&& r.1 == unknown_type(avail_desc, loaded)
                },
    {
        // The head contains the request type which MUST be readable.
        let ghost unread: Result<u32, GuestMemoryError> = Err(arbitrary());
        if avail_desc.is_write_only() {
            assert(loads(avail_desc.addr, unread) && parsed(avail_desc, unread) is Err
                && unknown_type(avail_desc, unread) is None);
            return (Err(ParseError::UnexpectedWriteOnlyDescriptor), None);
        }
        if avail_desc.len != REQUEST_SIZE {
            assert(loads(avail_desc.addr, unread) && parsed(avail_desc, unread) is Err
                && unknown_type(avail_desc, unread) is None);
            return (Err(ParseError::InvalidRequest), None);
        }
        let loaded = Request::load_type(memory, avail_desc.addr);
        let noted = match &loaded {
            Ok(type_) => if *type_ != VIRTIO_PMEM_REQ_TYPE_FLUSH {
                Some(*type_)
            } else {
                None
            },
            Err(_) => None,
        };
        (Request::parse_loaded(avail_desc, loaded), noted)
    }

    /// Parses the chain that starts at `avail_desc`, given what loading the
    /// request type from the head's buffer gave.
    pub fn parse_loaded(avail_desc: &DescriptorChain, loaded: Result<u32, GuestMemoryError>) -> (r:
        Result<Request, ParseError>)
        ensures
            r == parsed(avail_desc, loaded),
    {
        if avail_desc.is_write_only() {
            return Err(ParseError::UnexpectedWriteOnlyDescriptor);
        }
        if avail_desc.len != REQUEST_SIZE {
            return Err(ParseError::InvalidRequest);
        }
        let type_ = match loaded {
            Ok(type_) => type_,
            Err(e) => { return Err(ParseError::GuestMemory(e)); },
        };
        // Currently, there is only one virtio-pmem request, FLUSH.
        if type_ != VIRTIO_PMEM_REQ_TYPE_FLUSH {
            return Err(ParseError::InvalidRequest);
        }
        let status_desc = match avail_desc.next_descriptor() {
            Some(d) => d,
            None => { return Err(ParseError::DescriptorChainTooShort); },
        };
        // The status MUST always be writable.
        if status_desc.is_read_only() {
            return Err(ParseError::UnexpectedReadOnlyDescriptor);
        }
        if status_desc.len < RESPONSE_SIZE {
            return Err(ParseError::BufferLengthTooSmall);
        }
        Ok(Request::Flush { status_address: status_desc.addr })
    }

    /// Loads the four bytes stored at `addr` in guest memory and decodes them
    /// as the little-endian request type. An address at or above the limit
    /// is unmapped. Below it guest memory decides whether it gives the
    /// bytes, and which: `parse_loaded` says what follows from either.
    fn load_type(memory: &GuestMemory, addr: u64) -> (r: Result<u32, GuestMemoryError>)
        ensures
            loads(addr, r),
    {
        if addr >= GUEST_ADDRESS_LIMIT {
            return Err(invalid_address(addr));
        }
        match read_four(memory, addr) {
            Ok(bytes) => Ok(read_u32(bytes.as_slice())),
            Err(e) => Err(e),
        }
    }
}

/// The four bytes of the response that reports how the flush went.
pub fn response(flushed: bool) -> (bytes: [u8; 4])
    ensures
        bytes@ == le_bytes_u32(status_code(flushed)),
{
    let code = if flushed {
        VIRTIO_PMEM_RESP_TYPE_OK
    } else {
        VIRTIO_PMEM_RESP_TYPE_EIO
    };
    let mut bytes = [0u8;4];
    write_u32(&mut bytes, code);
    assert(bytes@ =~= le_bytes_u32(code));
    bytes
}

/// Stores the bytes of `response(flushed)` at `status_address` in guest
/// memory. An address at or above the limit is unmapped. Below it guest
/// memory decides whether it takes the bytes; the worker's transition says
/// what follows from either.
pub(crate) fn respond(memory: &GuestMemory, status_address: u64, flushed: bool) -> (r: Result<
    (),
    GuestMemoryError,
>)
    ensures
        status_address >= GUEST_ADDRESS_LIMIT ==> r is Err,
{
    if status_address >= GUEST_ADDRESS_LIMIT {
        return Err(invalid_address(status_address));
    }
    write_four(memory, response(flushed), status_address)
}

/// Every well-formed request parses to a flush that reports at the status
/// descriptor's address: a readable head of exactly the size of a request
/// that holds the flush type, followed by a writable descriptor of at least
/// the size of a response.
pub proof fn lemma_valid_request_parses(chain: &DescriptorChain, status: DescriptorChain)
    requires
        !chain.write_only(),
        chain.len == REQUEST_SIZE,
        chain.next == Some(Box::new(status)),
        status.write_only(),
        status.len >= RESPONSE_SIZE,
    ensures
        parsed(chain, Ok(VIRTIO_PMEM_REQ_TYPE_FLUSH)) == Ok::<Request, ParseError>(
            (Request::Flush { status_address: status.addr }),
        ),
{
}

} // verus!
