//! Host-side protocol for memory buffers that are shared with an asynchronous
//! compute device.
//!
//! The device finishes asynchronous transfers only when a blocking, device-wide
//! synchronise is issued. Until then the contents of a buffer that a transfer
//! touches are undefined and its memory must stay alive. This crate holds the
//! rules that keep a host program on the safe side of that boundary:
//!
//! * [`SyncLock`] is a two-state latch, idle or pending, that each buffer owns;
//! * [`MustSync`] is the guard that every asynchronous transfer hands out. It
//!   keeps the buffer's latch pending, and exclusively borrowed, until the
//!   device has been synchronised;
//! * [`Buffer`] and [`Device`] decide which native calls an operation needs.
//!
//! The crate performs no native call itself. Every operation returns the
//! [`DeviceCall`]s that the embedding program has to issue, in order, before it
//! calls into the crate again.

pub mod buffer;
pub mod device;
pub mod model;
pub mod must_sync;

pub use crate::buffer::Allocation;
pub use crate::buffer::Buffer;
pub use crate::buffer::BufferView;
pub use crate::device::Device;
pub use crate::device::DeviceCall;
pub use crate::device::ELEMENT_BYTES;
pub use crate::must_sync::Latch;
pub use crate::must_sync::MustSync;
pub use crate::must_sync::SyncLock;
pub use crate::must_sync::Synchronising;
