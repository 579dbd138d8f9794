//! The contract between a virtio device and its transport.
use vstd::prelude::*;

verus! {

/// Device type of a persistent-memory device.
pub const TYPE_PMEM: u32 = 27;

/// Feature bit: the device complies with version 1 of the virtio
/// specification.
pub const VIRTIO_F_VERSION_1: u32 = 32;

/// Interrupt status bit: the used ring has entries for the driver to examine.
pub const INTERRUPT_STATUS_USED_RING: u32 = 0x1;

/// A virtio device as its transport sees it.
pub trait VirtioDevice {
    /// The virtio device type.
    fn device_type(&self) -> u32;

    /// The maximum size of each of the device's queues.
    fn queue_max_sizes(&self) -> Vec<u16>;

    /// The 64-bit bitmap of the features that the device offers.
    fn features(&self) -> u64;

    /// Records the feature bits that the driver acknowledges.
    fn ack_features(&mut self, value: u64);

    /// Copies device configuration space, from `offset` on, into `data`.
    fn read_config(&self, offset: u64, data: &mut [u8]);
}

/// `bits` is a feature bitmap that `device.features()` can return.
pub open spec fn offers<D: VirtioDevice>(device: &D, bits: u64) -> bool {
    call_ensures(D::features, (device,), bits)
}

/// The bytes of `dst` after `copy_config`.
pub open spec fn config_copied(dst: Seq<u8>, dst_offset: u64, src: Seq<u8>, src_offset: u64) -> Seq<
    u8,
> {
    if dst_offset <= dst.len() && src_offset <= src.len() {
        let n = if dst.len() - dst_offset <= src.len() - src_offset {
            dst.len() - dst_offset
        } else {
            src.len() - src_offset
        };
        Seq::new(
            dst.len(),
            |i: int|
                if dst_offset <= i < dst_offset + n {
                    src[src_offset + (i - dst_offset)]
                } else {
                    dst[i]
                },
        )
    } else {
        dst
    }
}

/// Copies configuration bytes from `src`, starting at `src_offset`, over
/// `dst`, starting at `dst_offset`: as many as both hold from there on, and
/// none if either offset lies past its end.
pub fn copy_config(dst: &mut [u8], dst_offset: u64, src: &[u8], src_offset: u64)
    ensures
        final(dst)@ == config_copied(old(dst)@, dst_offset, src@, src_offset),
{
    let dst_len = dst.len();
    let src_len = src.len();
    if dst_offset > dst_len as u64 || src_offset > src_len as u64 {
        return ;
    }
    let d0: usize = dst_offset as usize;
    let s0: usize = src_offset as usize;
    let n: usize = if dst_len - d0 <= src_len - s0 {
        dst_len - d0
    } else {
        src_len - s0
    };
    let mut k: usize = 0;
    while k < n
        invariant
            dst@.len() == old(dst)@.len(),
            dst_len == dst@.len(),
            src_len == src@.len(),
            d0 == dst_offset,
            s0 == src_offset,
            d0 + n <= dst_len,
            s0 + n <= src_len,
            k <= n,
            forall|i: int|
                0 <= i < d0 + k ==> dst@[i] == config_copied(
                    old(dst)@,
                    dst_offset,
                    src@,
                    src_offset,
                )[i],
            forall|i: int| d0 + k <= i < dst_len ==> dst@[i] == old(dst)@[i],
        decreases n - k,
    {
        dst[d0 + k] = src[s0 + k];
        k += 1;
    }
    assert(dst@ =~= config_copied(old(dst)@, dst_offset, src@, src_offset));
}

} // verus!
