//! Virtio devices and their PCI transport registers.
pub mod endian;
pub mod guest_memory;
pub mod pmem;
pub mod queue;
pub mod virtio_device;
pub mod virtio_pci_common_config;

pub use self::pmem::device::Pmem;
pub use self::queue::DescriptorChain;
pub use self::queue::Queue;
pub use self::virtio_device::copy_config;
pub use self::virtio_device::VirtioDevice;
pub use self::virtio_device::INTERRUPT_STATUS_USED_RING;
pub use self::virtio_device::TYPE_PMEM;
pub use self::virtio_device::VIRTIO_F_VERSION_1;
pub use self::virtio_pci_common_config::VirtioPciCommonConfig;
