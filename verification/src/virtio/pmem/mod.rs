//! The virtio persistent-memory device.
//!
//! The device reports where its memory is mapped in the guest and serves
//! one request, flush. [`Pmem`] is the device object, [`request`] the wire
//! protocol and its parser, and [`worker`] the state machine that services
//! the device's queue once the device is activated.
pub mod device;
pub mod request;
pub mod trace;
pub mod worker;
