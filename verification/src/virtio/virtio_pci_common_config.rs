//! The virtio-PCI common configuration register block.
//!
//! ```text
//! offset  width  register               driver access
//! 0x00    4      device_feature_select  read-write
//! 0x04    4      device_feature         read-only
//! 0x08    4      driver_feature_select  read-write
//! 0x0c    4      driver_feature         write-only
//! 0x10    2      msix_config            read-write, ignored
//! 0x12    2      num_queues             read-only
//! 0x14    1      device_status          read-write
//! 0x15    1      config_generation      read-only
//! 0x16    2      queue_select           read-write
//! 0x18    2      queue_size             read-write
//! 0x1a    2      queue_msix_vector      read-write, ignored
//! 0x1c    2      queue_enable           read-write
//! 0x1e    2      queue_notify_off       read-only
//! 0x20    4/8    queue_desc             read-write
//! 0x28    4/8    queue_avail            read-write
//! 0x30    4/8    queue_used             read-write
//! ```
//!
//! All multi-byte registers are little-endian. Registers from `queue_size`
//! on act on the queue that `queue_select` names; with a selector past the
//! last queue, reads give zero and writes are dropped.
use crate::virtio::endian::le_bytes_u16;
use crate::virtio::endian::le_bytes_u32;
use crate::virtio::endian::le_bytes_u64;
use crate::virtio::endian::le_u16;
use crate::virtio::endian::le_u32;
use crate::virtio::endian::le_u64;
use crate::virtio::endian::read_u16;
use crate::virtio::endian::read_u32;
use crate::virtio::endian::read_u64;
use crate::virtio::endian::write_u16;
use crate::virtio::endian::write_u32;
use crate::virtio::endian::write_u64;
use crate::virtio::queue::Queue;
use crate::virtio::virtio_device::offers;
use crate::virtio::virtio_device::VirtioDevice;
use vstd::prelude::*;

verus! {

/// `addr` with its low 32 bits replaced by `x`.
pub open spec fn low_replaced(addr: u64, x: u32) -> u64 {
    (addr & !0xffff_ffffu64) | (x as u64)
}

/// `addr` with its high 32 bits replaced by `x`.
pub open spec fn high_replaced(addr: u64, x: u32) -> u64 {
    (addr & 0xffff_ffffu64) | ((x as u64) << 32)
}

/// The half of the 64-bit feature bitmap that the select register `page`
/// makes visible: the low half on page 0, the high half on page 1, nothing
/// on any other page.
pub open spec fn feature_page(features: u64, page: u32) -> u32 {
    if page == 0 {
        features as u32
    } else if page == 1 {
        (features >> 32) as u32
    } else {
        0
    }
}

/// The bits of the 64-bit feature bitmap that a write of `value` to the
/// driver feature register acknowledges while `page` is selected.
pub open spec fn feature_bits(page: u32, value: u32) -> u64
    recommends
        page < 2,
{
    if page == 0 {
        value as u64
    } else {
        (value as u64) << 32
    }
}

/// The queue `q` after a 16-bit write of `value` at `offset`.
pub open spec fn queue_after_word(q: Queue, offset: u64, value: u16) -> Queue {
    if offset == 0x18 {
        Queue { size: value, ..q }
    } else if offset == 0x1c {
        Queue { ready: value == 1, ..q }
    } else {
        q
    }
}

/// The queue `q` after a 32-bit write of `value` at `offset`.
pub open spec fn queue_after_dword(q: Queue, offset: u64, value: u32) -> Queue {
    if offset == 0x20 {
        Queue { desc_table: low_replaced(q.desc_table, value), ..q }
    } else if offset == 0x24 {
        Queue { desc_table: high_replaced(q.desc_table, value), ..q }
    } else if offset == 0x28 {
        Queue { avail_ring: low_replaced(q.avail_ring, value), ..q }
    } else if offset == 0x2c {
        Queue { avail_ring: high_replaced(q.avail_ring, value), ..q }
    } else if offset == 0x30 {
        Queue { used_ring: low_replaced(q.used_ring, value), ..q }
    } else if offset == 0x34 {
        Queue { used_ring: high_replaced(q.used_ring, value), ..q }
    } else {
        q
    }
}

/// The queue `q` after a 64-bit write of `value` at `offset`.
pub open spec fn queue_after_qword(q: Queue, offset: u64, value: u64) -> Queue {
    if offset == 0x20 {
        Queue { desc_table: value, ..q }
    } else if offset == 0x28 {
        Queue { avail_ring: value, ..q }
    } else if offset == 0x30 {
        Queue { used_ring: value, ..q }
    } else {
        q
    }
}

/// The queue `q` after a write of the bytes `data` at `offset`.
pub open spec fn queue_after_write(q: Queue, offset: u64, data: Seq<u8>) -> Queue {
    if data.len() == 2 {
        queue_after_word(q, offset, le_u16(data))
    } else if data.len() == 4 {
        queue_after_dword(q, offset, le_u32(data))
    } else if data.len() == 8 {
        queue_after_qword(q, offset, le_u64(data))
    } else {
        q
    }
}

/// Replaces the low half of an address register.
fn lo(v: &mut u64, x: u32)
    ensures
        *final(v) == low_replaced(*old(v), x),
{
    *v = (*v & !0xffff_ffffu64) | (x as u64)
}

/// Replaces the high half of an address register.
fn hi(v: &mut u64, x: u32)
    ensures
        *final(v) == high_replaced(*old(v), x),
{
    *v = (*v & 0xffff_ffffu64) | ((x as u64) << 32)
}

/// The device-wide state of the common configuration block. The per-queue
/// registers live in the queues themselves.
#[derive(Clone, Copy, Debug, PartialEq, Eq, Structural)]
pub struct VirtioPciCommonConfig {
    /// The device status byte; the driver may set any bits in any order.
    pub driver_status: u8,
    /// Configuration generation; never changed by the driver.
    pub config_generation: u8,
    /// Page of the device feature bitmap that `device_feature` shows.
    pub device_feature_select: u32,
    /// Page of the feature bitmap that a `driver_feature` write acknowledges.
    pub driver_feature_select: u32,
    /// Index of the queue that the per-queue registers act on.
    pub queue_select: u16,
}

impl VirtioPciCommonConfig {
    /// The selector names one of `queues`.
    pub open spec fn selects(&self, queues: Seq<Queue>) -> bool {
        (self.queue_select as int) < queues.len()
    }

    /// `queues` with `f` applied to the selected queue, if there is one.
    pub open spec fn on_selected(&self, queues: Seq<Queue>, f: spec_fn(Queue) -> Queue) -> Seq<
        Queue,
    > {
        if self.selects(queues) {
            queues.update(self.queue_select as int, f(queues[self.queue_select as int]))
        } else {
            queues
        }
    }

    /// What an 8-bit read at `offset` returns.
    pub open spec fn byte_at(&self, offset: u64) -> u8 {
        if offset == 0x14 {
            self.driver_status
        } else if offset == 0x15 {
            self.config_generation
        } else {
            0
        }
    }

    /// What a 16-bit read at `offset` returns.
    pub open spec fn word_at(&self, offset: u64, queues: Seq<Queue>) -> u16 {
        if offset == 0x12 {
            queues.len() as u16
        } else if offset == 0x16 || offset == 0x1e {
            self.queue_select
        } else if offset == 0x18 && self.selects(queues) {
            queues[self.queue_select as int].size
        } else if offset == 0x1c && self.selects(queues) && queues[self.queue_select as int].ready {
            1
        } else {
            0
        }
    }

    /// What a 32-bit read at `offset` returns from a device that offers
    /// `features`.
    pub open spec fn dword_at(&self, offset: u64, features: u64) -> u32 {
        if offset == 0x00 {
            self.device_feature_select
        } else if offset == 0x04 {
            feature_page(features, self.device_feature_select)
        } else if offset == 0x08 {
            self.driver_feature_select
        } else {
            0
        }
    }

    /// The buffer `data` after a read at `offset`: the register of the
    /// buffer's width, little-endian. A buffer of any other width is left as
    /// it was, and an 8-byte buffer is zeroed at every offset.
    pub open spec fn bytes_read(
        &self,
        offset: u64,
        data: Seq<u8>,
        queues: Seq<Queue>,
        features: u64,
    ) -> Seq<u8> {
        if data.len() == 1 {
            seq![self.byte_at(offset)]
        } else if data.len() == 2 {
            le_bytes_u16(self.word_at(offset, queues))
        } else if data.len() == 4 {
            le_bytes_u32(self.dword_at(offset, features))
        } else if data.len() == 8 {
            le_bytes_u64(0)
        } else {
            data
        }
    }

    /// The register block after an 8-bit write of `value` at `offset`.
    pub open spec fn after_byte(&self, offset: u64, value: u8) -> VirtioPciCommonConfig {
        if offset == 0x14 {
            VirtioPciCommonConfig { driver_status: value, ..*self }
        } else {
            *self
        }
    }

    /// The register block after a 16-bit write of `value` at `offset`.
    pub open spec fn after_word(&self, offset: u64, value: u16) -> VirtioPciCommonConfig {
        if offset == 0x16 {
            VirtioPciCommonConfig { queue_select: value, ..*self }
        } else {
            *self
        }
    }

    /// The register block after a 32-bit write of `value` at `offset`.
    pub open spec fn after_dword(&self, offset: u64, value: u32) -> VirtioPciCommonConfig {
        if offset == 0x00 {
            VirtioPciCommonConfig { device_feature_select: value, ..*self }
        } else if offset == 0x08 {
            VirtioPciCommonConfig { driver_feature_select: value, ..*self }
        } else {
            *self
        }
    }

    /// The register block after a write of the bytes `data` at `offset`.
    pub open spec fn after_write(&self, offset: u64, data: Seq<u8>) -> VirtioPciCommonConfig {
        if data.len() == 1 {
            self.after_byte(offset, data[0])
        } else if data.len() == 2 {
            self.after_word(offset, le_u16(data))
        } else if data.len() == 4 {
            self.after_dword(offset, le_u32(data))
        } else {
            *self
        }
    }

    /// The queues after a write of the bytes `data` at `offset`.
    pub open spec fn queues_after_write(&self, offset: u64, data: Seq<u8>, queues: Seq<Queue>) -> Seq<
        Queue,
    > {
        self.on_selected(queues, |q: Queue| queue_after_write(q, offset, data))
    }

    /// Whether a read of `width` bytes at `offset` asks the device for its
    /// features.
    pub open spec fn reads_features(offset: u64, width: nat) -> bool {
        width == 4 && offset == 0x04
    }

    /// Whether a write of `width` bytes at `offset` hands an acknowledgement
    /// to the device: a 32-bit write to the driver feature register while one
    /// of the two pages of the feature bitmap is selected.
    pub open spec fn acknowledges(&self, offset: u64, width: nat) -> bool {
        width == 4 && offset == 0x0c && self.driver_feature_select < 2
    }

    /// Whether `offset` is a register that the driver may write with
    /// `width` bytes. The two registers that are present but ignored count
    /// among them.
    pub open spec fn writable(offset: u64, width: nat) -> bool {
        ||| width == 1 && offset == 0x14
        ||| width == 2 && (offset == 0x10 || offset == 0x16 || offset == 0x18 || offset == 0x1a
            || offset == 0x1c)
        ||| width == 4 && (offset == 0x00 || offset == 0x08 || offset == 0x0c || offset == 0x20
            || offset == 0x24 || offset == 0x28 || offset == 0x2c || offset == 0x30 || offset
            == 0x34)
        ||| width == 8 && (offset == 0x20 || offset == 0x28 || offset == 0x30)
    }

    /// Whether a write of `width` bytes at `offset` is one to warn of: a
    /// write of a width that the block honours to an offset that is
    /// unmapped or read-only at that width.
    pub open spec fn invalid_write(offset: u64, width: nat) -> bool {
        (width == 1 || width == 2 || width == 4 || width == 8) && !Self::writable(offset, width)
    }

    /// Whether a write of `width` bytes at `offset` is one to warn of. The
    /// block drops such a write without a word; whoever embeds it asks here
    /// and warns.
    pub fn is_invalid_write(offset: u64, width: usize) -> (r: bool)
        ensures
            r == Self::invalid_write(offset, width as nat),
    {
        match width {
            1 => offset != 0x14,
            2 => !(offset == 0x10 || offset == 0x16 || offset == 0x18 || offset == 0x1a || offset
                == 0x1c),
            4 => !(offset == 0x00 || offset == 0x08 || offset == 0x0c || offset == 0x20 || offset
                == 0x24 || offset == 0x28 || offset == 0x2c || offset == 0x30 || offset == 0x34),
            8 => !(offset == 0x20 || offset == 0x28 || offset == 0x30),
            _ => false,
        }
    }

    /// Serves a driver read of `data.len()` bytes at `offset`. Only the
    /// buffer changes.
    pub fn read<D: VirtioDevice>(
        &mut self,
        offset: u64,
        data: &mut [u8],
        queues: &mut Vec<Queue>,
        device: &mut D,
    )
        ensures
            exists|features: u64|
                {
                    &&& Self::reads_features(offset, old(data)@.len()) ==> offers(
                        &*old(device),
                        features,
                    )
                    &&& final(data)@ == #[trigger] old(self).bytes_read(
                        offset,
                        old(data)@,
                        old(queues)@,
                        features,
                    )
                },
            *final(self) == *old(self),
            *final(queues) == *old(queues),
            *final(device) == *old(device),
    {
        let len = data.len();
        if len == 1 {
            let v = self.read_common_config_byte(offset);
            data[0] = v;
            assert(data@ =~= old(self).bytes_read(offset, old(data)@, old(queues)@, 0));
        } else if len == 2 {
            let v = self.read_common_config_word(offset, queues);
            write_u16(data, v);
            assert(data@ =~= old(self).bytes_read(offset, old(data)@, old(queues)@, 0));
        } else if len == 4 {
            let v = self.read_common_config_dword(offset, device);
            let ghost features = choose|features: u64|
                {
                    &&& offset == 0x04 ==> offers(&*device, features)
                    &&& v == #[trigger] self.dword_at(offset, features)
                };
            write_u32(data, v);
            assert(data@ =~= old(self).bytes_read(offset, old(data)@, old(queues)@, features));
        } else if len == 8 {
            let v = self.read_common_config_qword(offset);
            write_u64(data, v);
            assert(data@ =~= old(self).bytes_read(offset, old(data)@, old(queues)@, 0));
        } else {
            assert(data@ =~= old(self).bytes_read(offset, old(data)@, old(queues)@, 0));
        }
    }

    /// Serves a driver write of the bytes `data` at `offset`. Writes of a
    /// width other than 1, 2, 4 or 8, and writes to read-only or unmapped
    /// offsets, change nothing.
    pub fn write<D: VirtioDevice>(
        &mut self,
        offset: u64,
        data: &[u8],
        queues: &mut Vec<Queue>,
        device: &mut D,
    )
        ensures
            *final(self) == old(self).after_write(offset, data@),
            final(queues)@ == old(self).queues_after_write(offset, data@, old(queues)@),
            !old(self).acknowledges(offset, data@.len()) ==> *final(device) == *old(device),
            old(self).acknowledges(offset, data@.len()) ==> exists|d: &mut D|
                {
                    &&& *d == *old(device)
                    &&& *final(d) == *final(device)
                    &&& #[trigger] call_ensures(
                        D::ack_features,
                        (d, feature_bits(old(self).driver_feature_select, le_u32(data@))),
                        (),
                    )
                },
    {
        let len = data.len();
        if len == 1 {
            self.write_common_config_byte(offset, data[0]);
        } else if len == 2 {
            self.write_common_config_word(offset, read_u16(data), queues);
        } else if len == 4 {
            self.write_common_config_dword(offset, read_u32(data), queues, device);
        } else if len == 8 {
            self.write_common_config_qword(offset, read_u64(data), queues);
        }
        assert(queues@ =~= old(self).queues_after_write(offset, data@, old(queues)@));
    }

    /// An 8-bit register read.
    pub fn read_common_config_byte(&self, offset: u64) -> (v: u8)
        ensures
            v == self.byte_at(offset),
    {
        // The driver is only allowed to do aligned, properly sized access.
        match offset {
            0x14 => self.driver_status,
            0x15 => self.config_generation,
            _ => 0,
        }
    }

    /// An 8-bit register write: only the device status is writable.
    pub fn write_common_config_byte(&mut self, offset: u64, value: u8)
        ensures
            *final(self) == old(self).after_byte(offset, value),
    {
        match offset {
            0x14 => self.driver_status = value,
            _ => {},
        }
    }

    /// A 16-bit register read.
    pub fn read_common_config_word(&self, offset: u64, queues: &Vec<Queue>) -> (v: u16)
        ensures
            v == self.word_at(offset, queues@),
    {
        match offset {
            0x10 => 0,
            0x12 => {
                #[verifier::truncate]
                let n = queues.len() as u16;
                n
            },
            0x16 => self.queue_select,
            0x18 => {
                let size = self.with_queue(
                    queues,
                    (|q: &Queue| -> (r: u16)
                        ensures
                            r == q.size,
                        { q.size }),
                );
                match size {
                    Some(s) => s,
                    None => 0,
                }
            },
            0x1c => {
                let ready = self.with_queue(
                    queues,
                    (|q: &Queue| -> (r: bool)
                        ensures
                            r == q.ready,
                        { q.ready }),
                );
                match ready {
                    Some(true) => 1,
                    _ => 0,
                }
            },
            0x1e => self.queue_select,
            _ => 0,
        }
    }

    /// A 16-bit register write.
    pub fn write_common_config_word(&mut self, offset: u64, value: u16, queues: &mut Vec<Queue>)
        ensures
            *final(self) == old(self).after_word(offset, value),
            final(queues)@ == old(self).on_selected(
                old(queues)@,
                |q: Queue| queue_after_word(q, offset, value),
            ),
    {
        match offset {
            0x10 => (),
            0x16 => self.queue_select = value,
            0x18 => self.with_queue_mut(
                queues,
                (|q: &mut Queue|
                    ensures
                        *final(q) == queue_after_word(*old(q), 0x18, value),
                    { q.size = value }),
            ),
            0x1a => (),
            0x1c => self.with_queue_mut(
                queues,
                (|q: &mut Queue|
                    ensures
                        *final(q) == queue_after_word(*old(q), 0x1c, value),
                    { q.ready = value == 1 }),
            ),
            _ => {},
        }
        proof {
            assert(queues@ =~= old(self).on_selected(
                old(queues)@,
                |q: Queue| queue_after_word(q, offset, value),
            ));
        }
    }

    /// A 32-bit register read.
    pub fn read_common_config_dword<D: VirtioDevice>(&self, offset: u64, device: &D) -> (v: u32)
        ensures
            exists|features: u64|
                {
                    &&& offset == 0x04 ==> offers(device, features)
                    &&& v == #[trigger] self.dword_at(offset, features)
                },
    {
        match offset {
            0x00 => {
                assert(self.dword_at(offset, 0) == self.device_feature_select);
                self.device_feature_select
            },
            0x04 => {
                let features = device.features();
                assert(self.dword_at(offset, features) == feature_page(
                    features,
                    self.device_feature_select,
                ));
                if self.device_feature_select == 0 {
                    #[verifier::truncate]
                    (features as u32)
                } else if self.device_feature_select == 1 {
                    #[verifier::truncate]
                    ((features >> 32) as u32)
                } else {
                    0
                }
            },
            0x08 => {
                assert(self.dword_at(offset, 0) == self.driver_feature_select);
                self.driver_feature_select
            },
            _ => {
                assert(self.dword_at(offset, 0) == 0);
                0
            },
        }
    }

    /// A 32-bit register write.
    pub fn write_common_config_dword<D: VirtioDevice>(
        &mut self,
        offset: u64,
        value: u32,
        queues: &mut Vec<Queue>,
        device: &mut D,
    )
        ensures
            *final(self) == old(self).after_dword(offset, value),
            final(queues)@ == old(self).on_selected(
                old(queues)@,
                |q: Queue| queue_after_dword(q, offset, value),
            ),
            !old(self).acknowledges(offset, 4) ==> *final(device) == *old(device),
            old(self).acknowledges(offset, 4) ==> exists|d: &mut D|
                {
                    &&& *d == *old(device)
                    &&& *final(d) == *final(device)
                    &&& #[trigger] call_ensures(
                        D::ack_features,
                        (d, feature_bits(old(self).driver_feature_select, value)),
                        (),
                    )
                },
    {
        match offset {
            0x00 => self.device_feature_select = value,
            0x08 => self.driver_feature_select = value,
            0x0c => {
                if self.driver_feature_select == 0 {
                    let bits = value as u64;
                    assert(bits == feature_bits(self.driver_feature_select, value));
                    device.ack_features(bits);
                } else if self.driver_feature_select == 1 {
                    let bits = (value as u64) << 32;
                    assert(bits == feature_bits(self.driver_feature_select, value));
                    device.ack_features(bits);
                }
            },
            0x20 => self.with_queue_mut(
                queues,
                (|q: &mut Queue|
                    ensures
                        *final(q) == queue_after_dword(*old(q), 0x20, value),
                    { lo(&mut q.desc_table, value) }),
            ),
            0x24 => self.with_queue_mut(
                queues,
                (|q: &mut Queue|
                    ensures
                        *final(q) == queue_after_dword(*old(q), 0x24, value),
                    { hi(&mut q.desc_table, value) }),
            ),
            0x28 => self.with_queue_mut(
                queues,
                (|q: &mut Queue|
                    ensures
                        *final(q) == queue_after_dword(*old(q), 0x28, value),
                    { lo(&mut q.avail_ring, value) }),
            ),
            0x2c => self.with_queue_mut(
                queues,
                (|q: &mut Queue|
                    ensures
                        *final(q) == queue_after_dword(*old(q), 0x2c, value),
                    { hi(&mut q.avail_ring, value) }),
            ),
            0x30 => self.with_queue_mut(
                queues,
                (|q: &mut Queue|
                    ensures
                        *final(q) == queue_after_dword(*old(q), 0x30, value),
                    { lo(&mut q.used_ring, value) }),
            ),
            0x34 => self.with_queue_mut(
                queues,
                (|q: &mut Queue|
                    ensures
                        *final(q) == queue_after_dword(*old(q), 0x34, value),
                    { hi(&mut q.used_ring, value) }),
            ),
            _ => {},
        }
        assert(queues@ =~= old(self).on_selected(
            old(queues)@,
            |q: Queue| queue_after_dword(q, offset, value),
        ));
    }

    /// A 64-bit register read: always zero, whatever the offset.
    pub fn read_common_config_qword(&self, offset: u64) -> (v: u64)
        ensures
            v == 0,
    {
        0
    }

    /// A 64-bit register write: installs a whole ring address at once.
    pub fn write_common_config_qword(&mut self, offset: u64, value: u64, queues: &mut Vec<Queue>)
        ensures
            *final(self) == *old(self),
            final(queues)@ == old(self).on_selected(
                old(queues)@,
                |q: Queue| queue_after_qword(q, offset, value),
            ),
    {
        match offset {
            0x20 => self.with_queue_mut(
                queues,
                (|q: &mut Queue|
                    ensures
                        *final(q) == queue_after_qword(*old(q), 0x20, value),
                    { q.desc_table = value }),
            ),
            0x28 => self.with_queue_mut(
                queues,
                (|q: &mut Queue|
                    ensures
                        *final(q) == queue_after_qword(*old(q), 0x28, value),
                    { q.avail_ring = value }),
            ),
            0x30 => self.with_queue_mut(
                queues,
                (|q: &mut Queue|
                    ensures
                        *final(q) == queue_after_qword(*old(q), 0x30, value),
                    { q.used_ring = value }),
            ),
            _ => {},
        }
        assert(queues@ =~= old(self).on_selected(
            old(queues)@,
            |q: Queue| queue_after_qword(q, offset, value),
        ));
    }

    /// Applies `f` to the selected queue and returns what it gives, or
    /// `None` when the selector is past the last queue.
    pub fn with_queue<U, F>(&self, queues: &Vec<Queue>, f: F) -> (r: Option<U>) where
        F: FnOnce(&Queue) -> U,

        requires
            self.selects(queues@) ==> call_requires(f, (&queues@[self.queue_select as int],)),
        ensures
            match r {
                Some(u) => self.selects(queues@) && call_ensures(
                    f,
                    (&queues@[self.queue_select as int],),
                    u,
                ),
                None => !self.selects(queues@),
            },
    {
        let sel = self.queue_select as usize;
        if sel < queues.len() {
            Some(f(&queues[sel]))
        } else {
            None
        }
    }

    /// Lets `f` change the selected queue; does nothing when the selector is
    /// past the last queue. No other queue changes.
    pub fn with_queue_mut<F: FnOnce(&mut Queue)>(&self, queues: &mut Vec<Queue>, f: F)
        requires
            self.selects(old(queues)@) ==> forall|q: &mut Queue|
                *q == old(queues)@[self.queue_select as int] ==> call_requires(f, (q,)),
        ensures
            !self.selects(old(queues)@) ==> final(queues)@ == old(queues)@,
            self.selects(old(queues)@) ==> exists|q: &mut Queue|
                {
                    &&& *q == old(queues)@[self.queue_select as int]
                    &&& #[trigger] call_ensures(f, (q,), ())
                    &&& final(queues)@ == old(queues)@.update(
                        self.queue_select as int,
                        *final(q),
                    )
                },
    {
        let sel = self.queue_select as usize;
        if sel < queues.len() {
            f(&mut queues[sel]);
        }
    }
}

/// The ring address of `q` that the register pair at `base` holds.
pub open spec fn ring_address(q: Queue, base: u64) -> u64 {
    if base == 0x20 {
        q.desc_table
    } else if base == 0x28 {
        q.avail_ring
    } else {
        q.used_ring
    }
}

/// The low 32 bits of `v`.
pub open spec fn low_half(v: u64) -> u32 {
    (v & 0xffff_ffff) as u32
}

/// The high 32 bits of `v`.
pub open spec fn high_half(v: u64) -> u32 {
    (v >> 32) as u32
}

/// A ring address survives being written in halves: after a write of the
/// low half of `v` at `base` and one of its high half at `base + 4`, in
/// either order, the selected queue's address at `base` is `v`, as it is
/// after one 8-byte write of `v` at `base`.
pub proof fn lemma_split_write_round_trip(
    regs: VirtioPciCommonConfig,
    queues: Seq<Queue>,
    base: u64,
    v: u64,
)
    requires
        base == 0x20 || base == 0x28 || base == 0x30,
        regs.selects(queues),
    ensures
        ({
            let low = le_bytes_u32(low_half(v));
            let high = le_bytes_u32(high_half(v));
            let k = regs.queue_select as int;
            let low_first = regs.queues_after_write(
                (base + 4) as u64,
                high,
                regs.queues_after_write(base, low, queues),
            );
            let high_first = regs.queues_after_write(
                base,
                low,
                regs.queues_after_write((base + 4) as u64, high, queues),
            );
            let whole = regs.queues_after_write(base, le_bytes_u64(v), queues);
            &&& ring_address(low_first[k], base) == v
            &&& ring_address(high_first[k], base) == v
            &&& ring_address(whole[k], base) == v
            &&& regs.after_write(base, low) == regs
            &&& regs.after_write((base + 4) as u64, high) == regs
            &&& regs.after_write(base, le_bytes_u64(v)) == regs
        }),
{
    let low = low_half(v);
    let high = high_half(v);
    crate::virtio::endian::lemma_le_round_trip(0, low, v);
    crate::virtio::endian::lemma_le_round_trip(0, high, v);
    assert(le_bytes_u32(low).len() == 4);
    assert(le_bytes_u32(high).len() == 4);
    assert(le_bytes_u64(v).len() == 8);
    assert forall|a: u64|
        high_replaced(low_replaced(a, low_half(v)), high_half(v)) == v && low_replaced(
            high_replaced(a, high_half(v)),
            low_half(v),
        ) == v by {
        assert(((((a & !0xffff_ffffu64) | ((v & 0xffff_ffff) as u32 as u64)) & 0xffff_ffffu64) | (((v
            >> 32) as u32 as u64) << 32)) == v) by (bit_vector);
        assert(((((a & 0xffff_ffffu64) | (((v >> 32) as u32 as u64) << 32)) & !0xffff_ffffu64) | ((v
            & 0xffff_ffff) as u32 as u64)) == v) by (bit_vector);
    }
}

/// The driver cannot change what is read-only. No write, at any offset and
/// of any width, changes the configuration generation. A write at the
/// configuration generation register or at the device feature register
/// changes nothing at all: not the register block, not a queue, and the
/// device is not even told.
pub proof fn lemma_read_only_registers(
    regs: VirtioPciCommonConfig,
    queues: Seq<Queue>,
    offset: u64,
    data: Seq<u8>,
)
    ensures
        regs.after_write(offset, data).config_generation == regs.config_generation,
        offset == 0x15 || offset == 0x04 ==> {
            &&& regs.after_write(offset, data) == regs
            &&& regs.queues_after_write(offset, data, queues) == queues
            &&& !regs.acknowledges(offset, data.len())
        },
{
    assert(offset == 0x15 || offset == 0x04 ==> regs.queues_after_write(offset, data, queues)
        =~= queues);
}

/// Each queue has registers of its own. A write changes no queue but the
/// selected one, and never the number of queues; and once the selector is
/// set to `k`, the per-queue registers read what queue `k` holds.
pub proof fn lemma_selector_isolation(
    regs: VirtioPciCommonConfig,
    queues: Seq<Queue>,
    offset: u64,
    data: Seq<u8>,
    k: u16,
)
    ensures
        regs.queues_after_write(offset, data, queues).len() == queues.len(),
        forall|j: int|
            0 <= j < queues.len() && j != regs.queue_select ==> regs.queues_after_write(
                offset,
                data,
                queues,
            )[j] == queues[j],
        ({
            let switched = regs.after_write(0x16, le_bytes_u16(k));
            &&& switched.queue_select == k
            &&& (k as int) < queues.len() ==> {
                &&& switched.word_at(0x18, queues) == queues[k as int].size
                &&& switched.word_at(0x1c, queues) == if queues[k as int].ready {
                    1u16
                } else {
                    0u16
                }
            }
            &&& (k as int) >= queues.len() ==> {
                &&& switched.word_at(0x18, queues) == 0
                &&& switched.word_at(0x1c, queues) == 0
            }
        }),
{
    crate::virtio::endian::lemma_le_round_trip(k, 0, 0);
    assert(le_bytes_u16(k).len() == 2);
}

/// A write to warn of is dropped: it changes neither the register block nor
/// a queue, and the device is not told.
pub proof fn lemma_invalid_write_is_dropped(
    regs: VirtioPciCommonConfig,
    queues: Seq<Queue>,
    offset: u64,
    data: Seq<u8>,
)
    requires
        VirtioPciCommonConfig::invalid_write(offset, data.len()),
    ensures
        regs.after_write(offset, data) == regs,
        regs.queues_after_write(offset, data, queues) == queues,
        !regs.acknowledges(offset, data.len()),
{
    assert(regs.queues_after_write(offset, data, queues) =~= queues);
}

} // verus!
