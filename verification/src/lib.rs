//! A host-side J2534 "PassThru" driver core for a serial-attached vehicle
//! interface.
//!
//! The crate holds the driver's rules as plain state and pure decisions: the wire
//! frame codec, request/response correlation, the channel registry with its
//! filter tables and bounded receive queues, IOCTL dispatch and the mapping of
//! every outcome onto the J2534 status codes. Whoever owns the serial port and
//! the threads performs the I/O and hands each device reply back to the function
//! that completes the operation.

pub mod channels;
pub mod comm;
pub mod ioctl;
pub mod j2534_common;
pub mod passthru_drv;
pub mod text;
pub mod wire;
