//! Device models for a virtual machine monitor: the virtio
//! persistent-memory device and the virtio-PCI common configuration
//! register block through which a guest configures a virtio device.
//!
//! The library decides and computes; it does not block, spawn threads or
//! touch files and event descriptors. Whoever embeds it performs those
//! steps and hands the results in:
//!
//! * [`virtio::virtio_pci_common_config`] decodes the guest's register
//!   accesses and applies them to the queues and the device.
//! * [`virtio::pmem::request`] parses descriptor chains into requests and
//!   encodes responses.
//! * [`virtio::pmem::worker`] is the state machine that services the
//!   device's queue, and [`virtio::pmem::trace`] states what holds of its
//!   runs.
//! * [`virtio::pmem::device`] is the device object: its configuration
//!   space, its features and its life cycle.
pub mod virtio;
