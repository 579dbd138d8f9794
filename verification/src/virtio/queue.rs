//! What a device and its transport see of a virtqueue: the registers that
//! configure it and the descriptor chains that come out of it.
use vstd::prelude::*;

verus! {

/// Descriptor flag: another descriptor follows in the chain.
pub const VIRTQ_DESC_F_NEXT: u16 = 0x1;

/// Descriptor flag: the buffer is written by the device and only read by the
/// driver.
pub const VIRTQ_DESC_F_WRITE: u16 = 0x2;

/// The driver-programmable attributes of one virtqueue.
#[derive(Clone, Copy, Debug, PartialEq, Eq, Structural)]
pub struct Queue {
    /// Number of descriptors in use; a power of two, or zero while disabled.
    pub size: u16,
    /// Set by the driver once the rings are installed.
    pub ready: bool,
    /// Guest physical address of the descriptor table.
    pub desc_table: u64,
    /// Guest physical address of the available ring.
    pub avail_ring: u64,
    /// Guest physical address of the used ring.
    pub used_ring: u64,
}

impl Queue {
    /// A disabled queue of `size` descriptors with no rings installed.
    pub fn new(size: u16) -> (q: Queue)
        ensures
            q == (Queue { size, ready: false, desc_table: 0, avail_ring: 0, used_ring: 0 }),
    {
        Queue { size, ready: false, desc_table: 0, avail_ring: 0, used_ring: 0 }
    }

    /// A queue can be serviced once it is ready and has a non-zero size.
    pub open spec fn usable(&self) -> bool {
        self.ready && self.size != 0
    }

    /// Whether the queue can be serviced.
    pub fn is_usable(&self) -> (r: bool)
        ensures
            r == self.usable(),
    {
        self.ready && self.size != 0
    }
}

/// A descriptor of an available chain together with the descriptors that
/// follow it.
#[derive(Debug)]
pub struct DescriptorChain {
    /// Index of this descriptor in the descriptor table.
    pub index: u16,
    /// Guest physical address of the buffer.
    pub addr: u64,
    /// Length of the buffer in bytes.
    pub len: u32,
    /// The descriptor's flag bits.
    pub flags: u16,
    /// The descriptor that this one links to and all that follow it, or
    /// `None` at the end of the chain.
    pub next: Option<Box<DescriptorChain>>,
}

impl DescriptorChain {
    /// The buffer is device-writable.
    pub open spec fn write_only(&self) -> bool {
        self.flags & VIRTQ_DESC_F_WRITE != 0
    }

    /// Whether the device may only write the buffer.
    pub fn is_write_only(&self) -> (r: bool)
        ensures
            r == self.write_only(),
    {
        self.flags & VIRTQ_DESC_F_WRITE != 0
    }

    /// Whether the device may only read the buffer.
    pub fn is_read_only(&self) -> (r: bool)
        ensures
            r == !self.write_only(),
    {
        self.flags & VIRTQ_DESC_F_WRITE == 0
    }

    /// The descriptor that follows this one.
    pub fn next_descriptor(&self) -> (r: Option<&DescriptorChain>)
        ensures
            match r {
                Some(d) => self.next == Some(Box::new(*d)),
                None => self.next is None,
            },
    {
        match &self.next {
            Some(d) => Some(&**d),
            None => None,
        }
    }
}

} // verus!
