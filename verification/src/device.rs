//! The device handle and the vocabulary of native calls.

use vstd::prelude::*;

verus! {

/// Size in bytes of one buffer element.
pub const ELEMENT_BYTES: usize = 4;

/// One call of the device's native interface, with the handles and the byte
/// region it is issued on.
///
/// Transfers name a region of a buffer by its offset and length in bytes. The
/// host memory that a transfer reads from or writes to stays with the caller.
#[derive(Clone, Copy, Debug, PartialEq, Eq, Structural)]
pub enum DeviceCall {
    /// Take one more share of the device.
    RetainDevice { device: usize },
    /// Give one share of the device back. The device is destroyed with its
    /// last share.
    ReleaseDevice { device: usize },
    /// Block until every asynchronous transfer issued so far has completed.
    SyncDevice { device: usize },
    /// Allocate a buffer of `byte_len` bytes. The device answers with the new
    /// buffer's handle, or with the null handle when it refuses.
    NewBuffer { device: usize, byte_len: usize },
    /// Destroy a buffer.
    ReleaseBuffer { buffer: usize },
    /// Copy host memory into the region; complete on return.
    WriteBuffer { buffer: usize, offset: usize, byte_len: usize },
    /// Copy the region into host memory; complete on return.
    ReadBuffer { buffer: usize, offset: usize, byte_len: usize },
    /// Start copying host memory into the region; complete after the next
    /// synchronise.
    WriteBufferAsync { buffer: usize, offset: usize, byte_len: usize },
    /// Start copying the region into host memory; complete after the next
    /// synchronise.
    ReadBufferAsync { buffer: usize, offset: usize, byte_len: usize },
}

/// A share of a native device.
///
/// `raw` is the native handle. `tag` identifies the group of shares that were
/// made from one another: two values with the same tag stand for the same
/// device.
pub struct Device {
    raw: usize,
    tag: usize,
}

impl Device {
    /// The native handle.
    pub closed spec fn spec_raw(&self) -> usize {
        self.raw
    }

    /// The identity that all shares of one device have in common.
    pub closed spec fn spec_tag(&self) -> usize {
        self.tag
    }

    /// Wraps a native handle whose share the caller owns.
    pub fn new(raw: usize, tag: usize) -> (device: Device)
        ensures
            device.spec_raw() == raw,
            device.spec_tag() == tag,
    {
        Device { raw, tag }
    }

    /// The native handle.
    #[verifier::when_used_as_spec(spec_raw)]
    pub fn raw(&self) -> (raw: usize)
        ensures
            raw == self.spec_raw(),
    {
        self.raw
    }

    /// The identity that all shares of one device have in common.
    #[verifier::when_used_as_spec(spec_tag)]
    pub fn tag(&self) -> (tag: usize)
        ensures
            tag == self.spec_tag(),
    {
        self.tag
    }

    /// Gives this share up. Buffers and guards made through it hold shares of
    /// their own and stay usable.
    pub fn release(self) -> (call: DeviceCall)
        ensures
            call == (DeviceCall::ReleaseDevice { device: self.raw() }),
    {
        DeviceCall::ReleaseDevice { device: self.raw }
    }
}

} // verus!
