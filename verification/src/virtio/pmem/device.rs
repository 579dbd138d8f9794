//! The pmem device object: its configuration space and its life cycle.
//!
//! At every moment the device is in one of two dispositions. Before
//! activation it owns its backing file and nothing else. Activation hands
//! the file over to a worker, together with the queue, and in the same step
//! takes the worker's handle and the event that stops it. The file never
//! comes back, so a device activates at most once.
use crate::virtio::endian::le64_field;
use crate::virtio::endian::le_bytes_u64;
use crate::virtio::queue::Queue;
use crate::virtio::virtio_device::config_copied;
use crate::virtio::virtio_device::copy_config;
use crate::virtio::virtio_device::VirtioDevice;
use crate::virtio::virtio_device::TYPE_PMEM;
use crate::virtio::virtio_device::VIRTIO_F_VERSION_1;
use vstd::prelude::*;

verus! {

/// `sys_util::Error`: an error number that a system call left behind.
#[verifier::external_type_specification]
#[verifier::external_body]
pub struct ExSysError(sys_util::Error);

/// The size of the device's only queue.
pub const QUEUE_SIZE: u16 = 256;

/// Length in bytes of the device's configuration space.
pub const CONFIG_SIZE: usize = 16;

/// The device's configuration space: the guest physical address and the
/// size of the mapping, each a little-endian 64-bit field.
pub open spec fn config_space(mapping_address: u64, mapping_size: u64) -> Seq<u8> {
    le_bytes_u64(mapping_address) + le_bytes_u64(mapping_size)
}

/// What an activation hands to the worker that it starts.
#[derive(Debug)]
pub struct Activation<F, Q> {
    /// The queue that the worker services.
    pub queue: Queue,
    /// The event that tells the worker of newly available chains.
    pub queue_event: Q,
    /// The backing file, for the worker to flush.
    pub disk_image: F,
}

/// What a device holds at one moment of its life.
#[derive(Debug)]
enum Holdings<F, E, W> {
    /// Not activated: the backing file.
    Backing(F),
    /// Activated: the kill event and the handle of the worker.
    Worker(E, W),
}

/// A pmem device. It owns, without ever looking inside them, a backing file
/// `F`, an event `E` that stops its worker, and the handle `W` of that
/// worker.
#[derive(Debug)]
pub struct Pmem<F, E, W> {
    holdings: Holdings<F, E, W>,
    mapping_address: u64,
    mapping_size: u64,
}

impl<F, E, W> Pmem<F, E, W> {
    /// The backing file, while the device owns it.
    pub closed spec fn backing(&self) -> Option<F> {
        match self.holdings {
            Holdings::Backing(f) => Some(f),
            Holdings::Worker(_, _) => None,
        }
    }

    /// The event that stops the worker, once the device is activated.
    pub closed spec fn kill(&self) -> Option<E> {
        match self.holdings {
            Holdings::Backing(_) => None,
            Holdings::Worker(e, _) => Some(e),
        }
    }

    /// The handle of the worker, once the device is activated.
    pub closed spec fn worker(&self) -> Option<W> {
        match self.holdings {
            Holdings::Backing(_) => None,
            Holdings::Worker(_, w) => Some(w),
        }
    }

    /// Guest physical address at which the device's memory is mapped.
    pub closed spec fn address(&self) -> u64 {
        self.mapping_address
    }

    /// Size in bytes of the mapping.
    pub closed spec fn size(&self) -> u64 {
        self.mapping_size
    }

    /// The device is not activated: it owns its backing file and has
    /// neither kill event nor worker.
    pub open spec fn idle(&self) -> bool {
        self.backing() is Some && self.kill() is None && self.worker() is None
    }

    /// The device is activated: it holds the kill event and the handle of
    /// its worker, and has handed its backing file over.
    pub open spec fn activated(&self) -> bool {
        self.backing() is None && self.kill() is Some && self.worker() is Some
    }

    /// At every moment exactly one of the two dispositions holds.
    pub proof fn lemma_dispositions(&self)
        ensures
            self.idle() != self.activated(),
    {
    }

    /// A device that owns `disk_image` and is not yet activated.
    pub fn new(disk_image: F, mapping_address: u64, mapping_size: u64) -> (r: Result<
        Pmem<F, E, W>,
        sys_util::Error,
    >)
        ensures
            r matches Ok(pmem) && pmem.backing() == Some(disk_image) && pmem.idle()
                && pmem.address() == mapping_address && pmem.size() == mapping_size,
    {
        Ok(Pmem { holdings: Holdings::Backing(disk_image), mapping_address, mapping_size })
    }

    /// The backing file, while the device owns it: the descriptor to keep
    /// open for the device.
    pub fn disk_image(&self) -> (r: Option<&F>)
        ensures
            match r {
                Some(f) => self.backing() == Some(*f),
                None => self.backing() is None,
            },
    {
        match &self.holdings {
            Holdings::Backing(f) => Some(f),
            Holdings::Worker(_, _) => None,
        }
    }

    /// Activates the device in one step. With exactly one queue, exactly
    /// one queue event and the backing file still owned, the device hands
    /// all three out for the worker and keeps `kill_event` and
    /// `worker_thread` in their place. Otherwise nothing changes and the
    /// kill event and the handle come back, so that a second activation
    /// does nothing.
    pub fn activate<Q>(
        &mut self,
        queues: Vec<Queue>,
        queue_events: Vec<Q>,
        kill_event: E,
        worker_thread: W,
    ) -> (r: Result<Activation<F, Q>, (E, W)>)
        ensures
            final(self).address() == old(self).address(),
            final(self).size() == old(self).size(),
            r is Ok <==> queues@.len() == 1 && queue_events@.len() == 1 && old(self).backing()
                is Some,
            match r {
                Ok(activation) => {
                    &&& queues@ == seq![activation.queue]
                    &&& queue_events@ == seq![activation.queue_event]
                    &&& old(self).backing() == Some(activation.disk_image)
                    &&& final(self).backing() is None
                    &&& final(self).kill() == Some(kill_event)
                    &&& final(self).worker() == Some(worker_thread)
                },
                Err(back) => {
                    &&& queues@.len() != 1 || queue_events@.len() != 1 || old(self).backing()
                        is None
                    &&& back == (kill_event, worker_thread)
                    &&& *final(self) == *old(self)
                },
            },
    {
        let mut rest = queues;
        let mut rest_events = queue_events;
        if rest.len() != 1 || rest_events.len() != 1 {
            return Err((kill_event, worker_thread));
        }
        let mut held = Holdings::Worker(kill_event, worker_thread);
        core::mem::swap(&mut self.holdings, &mut held);
        match held {
            Holdings::Backing(disk_image) => {
                let queue = rest.remove(0);
                let queue_event = rest_events.remove(0);
                assert(queues@ =~= seq![queue]);
                assert(queue_events@ =~= seq![queue_event]);
                Ok(Activation { queue, queue_event, disk_image })
            },
            Holdings::Worker(e, w) => {
                let mut offered = Holdings::Worker(e, w);
                core::mem::swap(&mut self.holdings, &mut offered);
                match offered {
                    Holdings::Worker(kill_event, worker_thread) => Err(
                        (kill_event, worker_thread),
                    ),
                    Holdings::Backing(_) => vstd::pervasive::unreached(),
                }
            },
        }
    }

    /// Ends the device's life and hands out the kill event and the worker's
    /// handle of an activated device, for its owner to signal the one and
    /// join the other. A device that was never activated has neither; its
    /// backing file goes with it.
    pub fn shutdown(self) -> (r: Option<(E, W)>)
        ensures
            match r {
                Some((kill_event, worker_thread)) => self.kill() == Some(kill_event)
                    && self.worker() == Some(worker_thread),
                None => self.idle(),
            },
    {
        match self.holdings {
            Holdings::Backing(_) => None,
            Holdings::Worker(kill_event, worker_thread) => Some((kill_event, worker_thread)),
        }
    }
}

impl<F, E, W> VirtioDevice for Pmem<F, E, W> {
    fn device_type(&self) -> (r: u32)
        ensures
            r == TYPE_PMEM,
    {
        TYPE_PMEM
    }

    fn queue_max_sizes(&self) -> (r: Vec<u16>)
        ensures
            r@ == seq![QUEUE_SIZE],
    {
        vec![QUEUE_SIZE]
    }

    /// Only version 1 compliance is offered.
    fn features(&self) -> (bits: u64)
        ensures
            bits == 1u64 << VIRTIO_F_VERSION_1,
    {
        1u64 << VIRTIO_F_VERSION_1
    }

    /// The device has no feature to switch on: nothing changes.
    fn ack_features(&mut self, value: u64)
        ensures
            *final(self) == *old(self),
    {
    }

    /// Copies the configuration space, from `offset` on, to the front of
    /// `data`: as many bytes as are left in the one and fit in the other.
    fn read_config(&self, offset: u64, data: &mut [u8])
        ensures
            final(data)@ == config_copied(
                old(data)@,
                0,
                config_space(self.address(), self.size()),
                offset,
            ),
    {
        let mut config = le64_field(self.mapping_address);
        let mut size = le64_field(self.mapping_size);
        config.append(&mut size);
        copy_config(data, 0, config.as_slice(), offset);
    }
}

} // verus!
