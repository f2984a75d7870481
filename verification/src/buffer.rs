//! Buffers and the operations on them.

use crate::device::Device;
use crate::device::DeviceCall;
use crate::device::ELEMENT_BYTES;
use crate::must_sync::Latch;
use crate::must_sync::MustSync;
use crate::must_sync::SyncLock;
use vstd::prelude::*;

verus! {

/// What a [`Buffer`] stands for.
pub struct BufferView {
    /// The native handle of the device memory; never null.
    pub raw: usize,
    /// The number of elements, fixed at creation.
    pub size: nat,
    /// The native handle of the device that the memory belongs to, of which
    /// the buffer holds one share.
    pub device: usize,
    /// The identity of that device.
    pub tag: usize,
    /// The state of the buffer's latch.
    pub latch: Latch,
}

impl BufferView {
    /// The handle is not null and the size in bytes fits the machine.
    pub open spec fn wf(self) -> bool {
        &&& self.raw != 0
        &&& self.size * ELEMENT_BYTES <= usize::MAX
    }

    /// The size of the whole buffer in bytes.
    pub open spec fn byte_len(self) -> usize {
        (self.size * ELEMENT_BYTES) as usize
    }

    /// Whether the buffer may be read and written: no guard holds its latch,
    /// and none was lost while holding it.
    pub open spec fn accessible(self) -> bool {
        self.latch == Latch::Idle
    }

    /// The same buffer with its latch in another state.
    pub open spec fn with_latch(self, latch: Latch) -> BufferView {
        BufferView { latch, ..self }
    }

    /// The blocking write of `len` elements: the whole buffer, or nothing
    /// when the lengths disagree.
    pub open spec fn write(self, len: nat) -> Option<DeviceCall> {
        if len == self.size {
            Some(DeviceCall::WriteBuffer { buffer: self.raw, offset: 0, byte_len: self.byte_len() })
        } else {
            None
        }
    }

    /// The blocking read of the whole buffer.
    pub open spec fn read(self) -> DeviceCall {
        DeviceCall::ReadBuffer { buffer: self.raw, offset: 0, byte_len: self.byte_len() }
    }

    /// The blocking read into `len` elements: the whole buffer, or nothing
    /// when the lengths disagree.
    pub open spec fn read_to_slice(self, len: nat) -> Option<DeviceCall> {
        if len == self.size {
            Some(self.read())
        } else {
            None
        }
    }

    /// The calls of an asynchronous write of the whole buffer whose guard
    /// synchronises `device`.
    pub open spec fn write_async(self, device: usize) -> Seq<DeviceCall> {
        seq![
            DeviceCall::WriteBufferAsync { buffer: self.raw, offset: 0, byte_len: self.byte_len() },
            DeviceCall::RetainDevice { device },
        ]
    }

    /// The calls of an asynchronous read of the whole buffer whose guard
    /// synchronises `device`.
    pub open spec fn read_async(self, device: usize) -> Seq<DeviceCall> {
        seq![
            DeviceCall::ReadBufferAsync { buffer: self.raw, offset: 0, byte_len: self.byte_len() },
            DeviceCall::RetainDevice { device },
        ]
    }

    /// The calls that fill a new buffer and take its share of the device.
    pub open spec fn create(self) -> Seq<DeviceCall> {
        seq![
            DeviceCall::WriteBuffer { buffer: self.raw, offset: 0, byte_len: self.byte_len() },
            DeviceCall::RetainDevice { device: self.device },
        ]
    }

    /// The calls that destroy the buffer.
    pub open spec fn release(self) -> Seq<DeviceCall> {
        seq![
            DeviceCall::SyncDevice { device: self.device },
            DeviceCall::ReleaseDevice { device: self.device },
            DeviceCall::ReleaseBuffer { buffer: self.raw },
        ]
    }
}

/// What is fixed of a buffer when it is made.
struct Region {
    buf: usize,
    size: usize,
    device: usize,
    tag: usize,
}

impl Region {
    #[verifier::type_invariant]
    spec fn inv(self) -> bool {
        &&& self.buf != 0
        &&& self.size * ELEMENT_BYTES <= usize::MAX
    }
}

/// A region of device memory that holds a fixed number of elements.
///
/// A buffer owns its native handle, one share of its device and one latch.
pub struct Buffer {
    region: Region,
    sync_lock: SyncLock,
}

impl View for Buffer {
    type V = BufferView;

    closed spec fn view(&self) -> BufferView {
        BufferView {
            raw: self.region.buf,
            size: self.region.size as nat,
            device: self.region.device,
            tag: self.region.tag,
            latch: self.sync_lock@,
        }
    }
}

/// A buffer that the device has been asked to allocate.
pub struct Allocation {
    size: usize,
    device: usize,
    tag: usize,
}

impl Allocation {
    /// The number of elements asked for.
    pub closed spec fn size(&self) -> nat {
        self.size as nat
    }

    /// The native handle of the device asked.
    pub closed spec fn device(&self) -> usize {
        self.device
    }

    /// The identity of the device asked.
    pub closed spec fn tag(&self) -> usize {
        self.tag
    }

    #[verifier::type_invariant]
    spec fn inv(self) -> bool {
        self.size * ELEMENT_BYTES <= usize::MAX
    }

    /// The buffer that `raw` stands for.
    pub open spec fn buffer(&self, raw: usize) -> BufferView {
        BufferView {
            raw,
            size: self.size(),
            device: self.device(),
            tag: self.tag(),
            latch: Latch::Idle,
        }
    }

    /// Takes the device's answer to the allocation. The null handle means
    /// that the device refused: there is no buffer then, and nothing to
    /// call. Any other handle becomes the buffer, with the calls that copy
    /// the initial contents into it and take its share of the device.
    pub fn adopt(self, raw: usize) -> (r: Option<(Buffer, Vec<DeviceCall>)>)
        ensures
            raw == 0 ==> r is None,
            raw != 0 ==> (r matches Some((buffer, calls)) && buffer@ == self.buffer(raw)
                && buffer@.wf() && calls@ == self.buffer(raw).create()),
    {
        proof {
            use_type_invariant(&self);
        }
        if raw == 0 {
            None
        } else {
            let byte_len = self.size * ELEMENT_BYTES;
            let region = Region { buf: raw, size: self.size, device: self.device, tag: self.tag };
            let buffer = Buffer { region, sync_lock: SyncLock::default() };
            let calls = vec![
                DeviceCall::WriteBuffer { buffer: raw, offset: 0, byte_len },
                DeviceCall::RetainDevice { device: self.device },
            ];
            Some((buffer, calls))
        }
    }
}

impl Device {
    /// Asks for a new buffer of `len` elements: returns the allocation to
    /// issue and the value that takes the device's answer.
    pub fn create_buffer(&self, len: usize) -> (r: (DeviceCall, Allocation))
        requires
            len * ELEMENT_BYTES <= usize::MAX,
        ensures
            r.0 == (DeviceCall::NewBuffer {
                device: self.raw(),
                byte_len: (len * ELEMENT_BYTES) as usize,
            }),
            r.1.size() == len,
            r.1.device() == self.raw(),
            r.1.tag() == self.tag(),
    {
        let byte_len = len * ELEMENT_BYTES;
        (
            DeviceCall::NewBuffer { device: self.raw(), byte_len },
            Allocation { size: len, device: self.raw(), tag: self.tag() },
        )
    }

    /// Adopts a buffer that was allocated on this device by other means.
    /// `byte_size` is the size in bytes that the device reports for `raw`;
    /// the buffer holds the whole elements that fit in it. The returned call
    /// takes the buffer's share of the device.
    ///
    /// `raw` must be a live buffer of this device that nothing else uses.
    pub fn create_buffer_from_raw(&self, raw: usize, byte_size: usize) -> (r: (Buffer, DeviceCall))
        requires
            raw != 0,
        ensures
            r.0@ == (BufferView {
                raw,
                size: (byte_size / ELEMENT_BYTES) as nat,
                device: self.raw(),
                tag: self.tag(),
                latch: Latch::Idle,
            }),
            r.0@.wf(),
            r.1 == (DeviceCall::RetainDevice { device: self.raw() }),
    {
        let size = byte_size / ELEMENT_BYTES;
        let region = Region { buf: raw, size, device: self.raw(), tag: self.tag() };
        let buffer = Buffer { region, sync_lock: SyncLock::default() };
        (buffer, DeviceCall::RetainDevice { device: self.raw() })
    }

    /// Whether `buf` belongs to this device.
    pub fn same_device_as_buf(&self, buf: &Buffer) -> (same: bool)
        ensures
            same == (self.tag() == buf@.tag),
    {
        self.tag() == buf.region.tag
    }

    /// Writes `len` elements to the buffer asynchronously.
    ///
    /// Where `len` is not the buffer's size nothing happens. Otherwise the
    /// returned calls start the transfer and the guard keeps the buffer
    /// borrowed, and its latch pending, until it has finished; its result is
    /// the unit value.
    pub fn write_buffer_async<'s>(&self, buffer: &'s mut Buffer, len: usize) -> (r: Option<
        (MustSync<'s, impl FnOnce() -> ()>, Vec<DeviceCall>),
    >)
        requires
            old(buffer)@.accessible(),
        ensures
            old(buffer)@.wf(),
            len != old(buffer)@.size ==> r is None && final(buffer)@ == old(buffer)@,
            len == old(buffer)@.size ==> (r matches Some((guard, calls)) && guard.device()
                == self.raw() && guard.latch()@ == Latch::Pending && guard.deferred().requires(())
                && final(buffer)@ == old(buffer)@.with_latch(final(guard.latch())@) && calls@
                == old(buffer)@.write_async(self.raw())),
    {
        proof {
            use_type_invariant(&buffer.region);
        }
        buffer.sync_lock.check_valid();
        if buffer.region.size != len {
            None
        } else {
            let byte_len = buffer.region.size * ELEMENT_BYTES;
            let transfer = DeviceCall::WriteBufferAsync {
                buffer: buffer.region.buf,
                offset: 0,
                byte_len,
            };
            let (guard, retain) = MustSync::new(self, &mut buffer.sync_lock, || ());
            Some((guard, vec![transfer, retain]))
        }
    }

    /// Reads the whole buffer asynchronously.
    ///
    /// The returned calls start the transfer and the guard keeps the buffer
    /// borrowed, and its latch pending, until it has finished. Its result is
    /// the number of elements that the destination then holds.
    pub fn read_buffer_async<'s>(&self, buffer: &'s mut Buffer) -> (r: (
        MustSync<'s, impl FnOnce() -> usize>,
        Vec<DeviceCall>,
    ))
        requires
            old(buffer)@.accessible(),
        ensures
            old(buffer)@.wf(),
            r.0.device() == self.raw(),
            r.0.latch()@ == Latch::Pending,
            r.0.deferred().requires(()),
            forall|n: usize| r.0.deferred().ensures((), n) ==> n == old(buffer)@.size,
            final(buffer)@ == old(buffer)@.with_latch(final(r.0.latch())@),
            r.1@ == old(buffer)@.read_async(self.raw()),
    {
        proof {
            use_type_invariant(&buffer.region);
        }
        buffer.sync_lock.check_valid();
        let size = buffer.region.size;
        let byte_len = size * ELEMENT_BYTES;
        let transfer = DeviceCall::ReadBufferAsync {
            buffer: buffer.region.buf,
            offset: 0,
            byte_len,
        };
        let (guard, retain) = MustSync::new(
            self,
            &mut buffer.sync_lock,
            move || -> (n: usize) ensures n == size { size },
        );
        (guard, vec![transfer, retain])
    }

    /// Reads the buffer into `len` elements asynchronously.
    ///
    /// Where `len` is not the buffer's size nothing happens. Otherwise the
    /// returned calls start the transfer and the guard keeps the buffer
    /// borrowed, and its latch pending, until it has finished; its result is
    /// the unit value.
    pub fn read_buffer_to_slice_async<'s>(&self, buffer: &'s mut Buffer, len: usize) -> (r: Option<
        (MustSync<'s, impl FnOnce() -> ()>, Vec<DeviceCall>),
    >)
        requires
            old(buffer)@.accessible(),
        ensures
            old(buffer)@.wf(),
            len != old(buffer)@.size ==> r is None && final(buffer)@ == old(buffer)@,
            len == old(buffer)@.size ==> (r matches Some((guard, calls)) && guard.device()
                == self.raw() && guard.latch()@ == Latch::Pending && guard.deferred().requires(())
                && final(buffer)@ == old(buffer)@.with_latch(final(guard.latch())@) && calls@
                == old(buffer)@.read_async(self.raw())),
    {
        proof {
            use_type_invariant(&buffer.region);
        }
        buffer.sync_lock.check_valid();
        if buffer.region.size != len {
            None
        } else {
            let byte_len = buffer.region.size * ELEMENT_BYTES;
            let transfer = DeviceCall::ReadBufferAsync {
                buffer: buffer.region.buf,
                offset: 0,
                byte_len,
            };
            let (guard, retain) = MustSync::new(self, &mut buffer.sync_lock, || ());
            Some((guard, vec![transfer, retain]))
        }
    }
}

/// Latch exclusivity: a buffer whose latch is pending, because a guard holds
/// it or was lost holding it, admits neither a blocking access nor a new
/// asynchronous transfer.
pub proof fn lemma_pending_buffer_is_inaccessible(buffer: BufferView)
    requires
        buffer.latch == Latch::Pending,
    ensures
        !buffer.accessible(),
{
}

/// A buffer whose guard was dropped or forgotten before it finished stays
/// inaccessible. `before` is the buffer when the transfer was issued, `after`
/// the buffer once the guard's borrow has ended.
pub proof fn lemma_lost_guard_locks_buffer<'a, F>(
    before: BufferView,
    after: BufferView,
    guard: MustSync<'a, F>,
)
    requires
        guard.latch()@ == Latch::Pending,
        after == before.with_latch(final(guard.latch())@),
        has_resolved(guard),
    ensures
        !after.accessible(),
        after == before.with_latch(Latch::Pending),
{
    guard.lemma_lost_guard();
}

impl Buffer {
    /// Writes `len` elements to the buffer: the call to issue, or nothing
    /// where `len` is not the buffer's size.
    pub fn write(&self, len: usize) -> (call: Option<DeviceCall>)
        requires
            self@.accessible(),
        ensures
            call == self@.write(len as nat),
            len != self@.size ==> call is None,
            self@.wf(),
    {
        proof {
            use_type_invariant(&self.region);
        }
        self.sync_lock.check_valid();
        if self.region.size != len {
            None
        } else {
            let byte_len = self.region.size * ELEMENT_BYTES;
            Some(DeviceCall::WriteBuffer { buffer: self.region.buf, offset: 0, byte_len })
        }
    }

    /// Reads the buffer into `len` elements: the call to issue, or nothing
    /// where `len` is not the buffer's size.
    pub fn read_to_slice(&self, len: usize) -> (call: Option<DeviceCall>)
        requires
            self@.accessible(),
        ensures
            call == self@.read_to_slice(len as nat),
            len != self@.size ==> call is None,
            self@.wf(),
    {
        proof {
            use_type_invariant(&self.region);
        }
        self.sync_lock.check_valid();
        if self.region.size != len {
            None
        } else {
            let byte_len = self.region.size * ELEMENT_BYTES;
            Some(DeviceCall::ReadBuffer { buffer: self.region.buf, offset: 0, byte_len })
        }
    }

    /// Reads the whole buffer: the call to issue, into a destination of
    /// [`Buffer::size`] elements.
    pub fn read(&self) -> (call: DeviceCall)
        requires
            self@.accessible(),
        ensures
            call == self@.read(),
            self@.wf(),
    {
        proof {
            use_type_invariant(&self.region);
        }
        self.sync_lock.check_valid();
        let byte_len = self.region.size * ELEMENT_BYTES;
        DeviceCall::ReadBuffer { buffer: self.region.buf, offset: 0, byte_len }
    }

    /// The native handle. Whoever uses it answers for keeping it alive and
    /// for making no second buffer of it.
    pub fn raw(&self) -> (raw: usize)
        ensures
            raw == self@.raw,
            raw != 0,
    {
        proof {
            use_type_invariant(&self.region);
        }
        self.region.buf
    }

    /// The buffer's latch, to look at.
    pub fn sync_lock(&self) -> (lock: &SyncLock)
        ensures
            lock@ == self@.latch,
    {
        &self.sync_lock
    }

    /// The buffer's latch. It must not be replaced by another one while a
    /// guard may still refer to it.
    pub fn raw_sync_lock(&mut self) -> (lock: &mut SyncLock)
        ensures
            lock@ == old(self)@.latch,
            final(self)@ == old(self)@.with_latch(final(lock)@),
    {
        &mut self.sync_lock
    }

    /// The size in elements.
    pub fn size(&self) -> (size: usize)
        ensures
            size == self@.size,
            self@.wf(),
    {
        proof {
            use_type_invariant(&self.region);
        }
        self.region.size
    }

    /// Destroys the buffer: the calls that wait for any transfer still
    /// outstanding, give the buffer's share of the device back and free the
    /// device memory.
    pub fn release(self) -> (calls: Vec<DeviceCall>)
        ensures
            calls@ == self@.release(),
    {
        vec![
            DeviceCall::SyncDevice { device: self.region.device },
            DeviceCall::ReleaseDevice { device: self.region.device },
            DeviceCall::ReleaseBuffer { buffer: self.region.buf },
        ]
    }
}

} // verus!
