//! Descriptor lifecycle and I/O decision layer for kernel TUN/TAP interfaces.
//!
//! The modules here hold what can be decided from plain values: the interface
//! kinds and their device classes, the device-control request codes, the
//! configuration each kind needs, the naming of devices, the teardown order of a
//! descriptor and the outcome of completion-based reads and writes. The system
//! calls themselves are made by the caller, who hands the results back.

mod error;
pub mod ioctl;
mod kind;
pub mod overlapped;
pub mod provision;
pub mod teardown;

pub use error::TunTapError;
pub use kind::{VirtualInterfaceInfo, VirtualInterfaceType};
