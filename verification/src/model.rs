//! What the protocol relies on from the device, and what follows from it.
//!
//! [`DeviceModel`] states how a device answers the calls of [`DeviceCall`]:
//! blocking transfers take effect at once, asynchronous writes wait in issue
//! order for the next synchronise, and the device counts its shares. The
//! lemmas below hold of every device that behaves so.

use crate::buffer::BufferView;
use crate::device::DeviceCall;
use crate::device::ELEMENT_BYTES;
use vstd::prelude::*;

verus! {

/// The elements `first .. first + data.len()` of a buffer, to be replaced by
/// `data`.
pub struct Write<T> {
    pub buffer: usize,
    pub first: int,
    pub data: Seq<T>,
}

/// The host's picture of one device.
pub struct DeviceModel<T> {
    /// The native handle of the device.
    pub handle: usize,
    /// The number of shares taken and not given back. The device lives
    /// while it is positive.
    pub shares: int,
    /// The elements of each live buffer, by its native handle.
    pub contents: Map<usize, Seq<T>>,
    /// The asynchronous writes issued since the last synchronise, oldest
    /// first.
    pub queued: Seq<Write<T>>,
}

/// The write that a transfer call stands for when it copies from `data`: the
/// byte region in elements.
pub open spec fn write_of<T>(buffer: usize, offset: usize, byte_len: usize, data: Seq<T>) -> Write<
    T,
> {
    Write { buffer, first: offset as int / ELEMENT_BYTES as int, data }
}

/// Whether a byte region covers exactly `count` whole elements.
pub open spec fn whole_elements(offset: usize, byte_len: usize, count: nat) -> bool {
    &&& offset as int % ELEMENT_BYTES as int == 0
    &&& byte_len == count * ELEMENT_BYTES
}

/// `contents` after a write. A write that does not fit a live buffer changes
/// nothing.
pub open spec fn store<T>(contents: Map<usize, Seq<T>>, w: Write<T>) -> Map<usize, Seq<T>> {
    if contents.dom().contains(w.buffer) && 0 <= w.first && w.first + w.data.len()
        <= contents[w.buffer].len() {
        let old = contents[w.buffer];
        contents.insert(
            w.buffer,
            old.subrange(0, w.first) + w.data + old.subrange(w.first + w.data.len(), old.len() as int),
        )
    } else {
        contents
    }
}

/// `contents` after the writes of `queued` have taken effect in issue order.
pub open spec fn settle<T>(contents: Map<usize, Seq<T>>, queued: Seq<Write<T>>) -> Map<
    usize,
    Seq<T>,
>
    decreases queued.len(),
{
    if queued.len() == 0 {
        contents
    } else {
        store(settle(contents, queued.drop_last()), queued.last())
    }
}

impl<T> DeviceModel<T> {
    /// Whether the device holds `buffer` with the size that `buffer` states.
    pub open spec fn holds(self, buffer: BufferView) -> bool {
        &&& self.contents.dom().contains(buffer.raw)
        &&& self.contents[buffer.raw].len() == buffer.size
    }

    /// Whether the device is alive.
    pub open spec fn alive(self) -> bool {
        self.shares > 0
    }

    /// The device after one call. A transfer copies from `data`; a transfer
    /// whose region is not `data.len()` whole elements changes nothing, and
    /// so does a call on another device.
    pub open spec fn step(self, call: DeviceCall, data: Seq<T>) -> DeviceModel<T> {
        match call {
            DeviceCall::RetainDevice { device } => if device == self.handle {
                DeviceModel { shares: self.shares + 1, ..self }
            } else {
                self
            },
            DeviceCall::ReleaseDevice { device } => if device == self.handle {
                DeviceModel { shares: self.shares - 1, ..self }
            } else {
                self
            },
            DeviceCall::SyncDevice { device } => if device == self.handle {
                DeviceModel {
                    contents: settle(self.contents, self.queued),
                    queued: Seq::empty(),
                    ..self
                }
            } else {
                self
            },
            DeviceCall::NewBuffer { device, byte_len } => self,
            DeviceCall::ReleaseBuffer { buffer } => DeviceModel {
                contents: self.contents.remove(buffer),
                ..self
            },
            DeviceCall::WriteBuffer { buffer, offset, byte_len } => if whole_elements(
                offset,
                byte_len,
                data.len(),
            ) {
                DeviceModel {
                    contents: store(self.contents, write_of(buffer, offset, byte_len, data)),
                    ..self
                }
            } else {
                self
            },
            DeviceCall::ReadBuffer { buffer, offset, byte_len } => self,
            DeviceCall::WriteBufferAsync { buffer, offset, byte_len } => if whole_elements(
                offset,
                byte_len,
                data.len(),
            ) {
                DeviceModel {
                    queued: self.queued.push(write_of(buffer, offset, byte_len, data)),
                    ..self
                }
            } else {
                self
            },
            DeviceCall::ReadBufferAsync { buffer, offset, byte_len } => self,
        }
    }

    /// The device after `calls`, in order, each transfer copying from `data`.
    pub open spec fn run(self, calls: Seq<DeviceCall>, data: Seq<T>) -> DeviceModel<T>
        decreases calls.len(),
    {
        if calls.len() == 0 {
            self
        } else {
            self.run(calls.drop_last(), data).step(calls.last(), data)
        }
    }

    /// What a read issued now has put in host memory once it is complete: a
    /// blocking read when it returns, an asynchronous read after the next
    /// synchronise.
    pub open spec fn fetch(self, call: DeviceCall) -> Seq<T> {
        match call {
            DeviceCall::ReadBuffer { buffer, offset, byte_len } => self.contents[buffer].subrange(
                offset as int / ELEMENT_BYTES as int,
                (offset + byte_len) / ELEMENT_BYTES as int,
            ),
            DeviceCall::ReadBufferAsync { buffer, offset, byte_len } => settle(
                self.contents,
                self.queued,
            )[buffer].subrange(
                offset as int / ELEMENT_BYTES as int,
                (offset + byte_len) / ELEMENT_BYTES as int,
            ),
            _ => Seq::empty(),
        }
    }
}

/// The calls that finish a guard on `device`, by either way of finishing it.
pub open spec fn finish_guard(device: usize) -> Seq<DeviceCall> {
    seq![DeviceCall::SyncDevice { device }, DeviceCall::ReleaseDevice { device }]
}

proof fn lemma_run_one<T>(m: DeviceModel<T>, a: DeviceCall, data: Seq<T>)
    ensures
        m.run(seq![a], data) == m.step(a, data),
{
    reveal_with_fuel(DeviceModel::run, 2);
    assert(seq![a].drop_last() =~= Seq::<DeviceCall>::empty());
}

proof fn lemma_run_two<T>(m: DeviceModel<T>, a: DeviceCall, b: DeviceCall, data: Seq<T>)
    ensures
        m.run(seq![a, b], data) == m.step(a, data).step(b, data),
{
    assert(seq![a, b].drop_last() =~= seq![a]);
    lemma_run_one(m, a, data);
}

proof fn lemma_run_three<T>(
    m: DeviceModel<T>,
    a: DeviceCall,
    b: DeviceCall,
    c: DeviceCall,
    data: Seq<T>,
)
    ensures
        m.run(seq![a, b, c], data) == m.step(a, data).step(b, data).step(c, data),
{
    assert(seq![a, b, c].drop_last() =~= seq![a, b]);
    lemma_run_two(m, a, b, data);
}

/// Running two lists of calls one after the other is running their
/// concatenation.
pub proof fn lemma_run_concat<T>(
    m: DeviceModel<T>,
    first: Seq<DeviceCall>,
    second: Seq<DeviceCall>,
    data: Seq<T>,
)
    ensures
        m.run(first + second, data) == m.run(first, data).run(second, data),
    decreases second.len(),
{
    if second.len() == 0 {
        assert(first + second =~= first);
    } else {
        assert((first + second).drop_last() =~= first + second.drop_last());
        lemma_run_concat(m, first, second.drop_last(), data);
    }
}

/// A write keeps every buffer alive and of its size.
proof fn lemma_store_keeps_shape<T>(contents: Map<usize, Seq<T>>, w: Write<T>, buffer: usize)
    ensures
        store(contents, w).dom().contains(buffer) == contents.dom().contains(buffer),
        contents.dom().contains(buffer) ==> store(contents, w)[buffer].len()
            == contents[buffer].len(),
{
}

/// Settling keeps every buffer alive and of its size.
proof fn lemma_settle_keeps_shape<T>(
    contents: Map<usize, Seq<T>>,
    queued: Seq<Write<T>>,
    buffer: usize,
)
    ensures
        settle(contents, queued).dom().contains(buffer) == contents.dom().contains(buffer),
        contents.dom().contains(buffer) ==> settle(contents, queued)[buffer].len()
            == contents[buffer].len(),
    decreases queued.len(),
{
    if queued.len() > 0 {
        lemma_settle_keeps_shape(contents, queued.drop_last(), buffer);
        lemma_store_keeps_shape(settle(contents, queued.drop_last()), queued.last(), buffer);
    }
}

/// A write of a whole buffer leaves exactly the written elements in it.
proof fn lemma_store_whole<T>(contents: Map<usize, Seq<T>>, buffer: usize, v: Seq<T>)
    requires
        contents.dom().contains(buffer),
        contents[buffer].len() == v.len(),
    ensures
        store(contents, Write { buffer, first: 0, data: v })[buffer] == v,
{
    let old = contents[buffer];
    assert(old.subrange(0, 0) + v + old.subrange(v.len() as int, old.len() as int) =~= v);
}

/// Blocking round trip: on a device that holds the buffer, a blocking write
/// of `v` followed by a blocking read yields `v`.
pub proof fn lemma_write_then_read<T>(m: DeviceModel<T>, buffer: BufferView, v: Seq<T>)
    requires
        buffer.wf(),
        m.holds(buffer),
        v.len() == buffer.size,
    ensures
        buffer.write(v.len()) is Some,
        m.step(buffer.write(v.len())->0, v).fetch(buffer.read()) == v,
        m.step(buffer.write(v.len())->0, v).holds(buffer),
{
    lemma_store_whole(m.contents, buffer.raw, v);
    let after = m.step(buffer.write(v.len())->0, v);
    assert(after.contents[buffer.raw] == v);
    assert(v.subrange(0, buffer.size as int) =~= v);
}

/// Asynchronous round trip: on a device that holds the buffer, an
/// asynchronous write of `v` whose guard is finished on that device, followed
/// by a blocking read, yields `v`. Until the guard is finished the write
/// waits.
pub proof fn lemma_write_async_then_read<T>(m: DeviceModel<T>, buffer: BufferView, v: Seq<T>)
    requires
        buffer.wf(),
        m.holds(buffer),
        v.len() == buffer.size,
    ensures
        ({
            let issued = m.run(buffer.write_async(m.handle), v);
            let finished = issued.run(finish_guard(m.handle), v);
            &&& issued.contents == m.contents
            &&& issued.queued == m.queued.push(Write { buffer: buffer.raw, first: 0, data: v })
            &&& finished.fetch(buffer.read()) == v
            &&& finished.holds(buffer)
            &&& finished.queued.len() == 0
            &&& finished.shares == m.shares
        }),
{
    let transfer = DeviceCall::WriteBufferAsync {
        buffer: buffer.raw,
        offset: 0,
        byte_len: buffer.byte_len(),
    };
    let retain = DeviceCall::RetainDevice { device: m.handle };
    let sync = DeviceCall::SyncDevice { device: m.handle };
    let release = DeviceCall::ReleaseDevice { device: m.handle };
    lemma_run_two(m, transfer, retain, v);
    let issued = m.run(buffer.write_async(m.handle), v);
    lemma_run_two(issued, sync, release, v);
    let finished = issued.run(finish_guard(m.handle), v);
    let w = Write { buffer: buffer.raw, first: 0, data: v };
    assert(issued.queued == m.queued.push(w));
    assert(issued.queued.drop_last() =~= m.queued);
    lemma_settle_keeps_shape(m.contents, m.queued, buffer.raw);
    lemma_store_whole(settle(m.contents, m.queued), buffer.raw, v);
    assert(finished.contents == store(settle(m.contents, m.queued), w));
    assert(v.subrange(0, buffer.size as int) =~= v);
}

/// Asynchronous reads agree with blocking ones: on a device that holds the
/// buffer and has no write waiting, a read of either kind yields the buffer's
/// contents, all `size` elements of them.
pub proof fn lemma_reads_agree<T>(m: DeviceModel<T>, buffer: BufferView)
    requires
        buffer.wf(),
        m.holds(buffer),
        m.queued.len() == 0,
    ensures
        m.fetch(buffer.read()) == m.contents[buffer.raw],
        m.fetch(buffer.read_async(m.handle)[0]) == m.contents[buffer.raw],
        m.fetch(buffer.read()).len() == buffer.size,
{
    let all = m.contents[buffer.raw];
    assert(all.subrange(0, buffer.size as int) =~= all);
}

/// A buffer holds one share of its device from the calls that make it to the
/// calls that destroy it, and a guard holds one from the calls that start its
/// transfer to the calls that finish it.
pub proof fn lemma_shares<T>(m: DeviceModel<T>, buffer: BufferView, data: Seq<T>)
    requires
        buffer.device == m.handle,
    ensures
        m.run(buffer.create(), data).shares == m.shares + 1,
        m.run(buffer.release(), data).shares == m.shares - 1,
        m.run(buffer.write_async(m.handle), data).shares == m.shares + 1,
        m.run(buffer.read_async(m.handle), data).shares == m.shares + 1,
        m.run(finish_guard(m.handle), data).shares == m.shares - 1,
{
    lemma_run_two(
        m,
        DeviceCall::WriteBuffer { buffer: buffer.raw, offset: 0, byte_len: buffer.byte_len() },
        DeviceCall::RetainDevice { device: buffer.device },
        data,
    );
    lemma_run_three(
        m,
        DeviceCall::SyncDevice { device: buffer.device },
        DeviceCall::ReleaseDevice { device: buffer.device },
        DeviceCall::ReleaseBuffer { buffer: buffer.raw },
        data,
    );
    lemma_run_two(
        m,
        DeviceCall::WriteBufferAsync { buffer: buffer.raw, offset: 0, byte_len: buffer.byte_len() },
        DeviceCall::RetainDevice { device: m.handle },
        data,
    );
    lemma_run_two(
        m,
        DeviceCall::ReadBufferAsync { buffer: buffer.raw, offset: 0, byte_len: buffer.byte_len() },
        DeviceCall::RetainDevice { device: m.handle },
        data,
    );
    lemma_run_two(
        m,
        DeviceCall::SyncDevice { device: m.handle },
        DeviceCall::ReleaseDevice { device: m.handle },
        data,
    );
}

/// The device outlives its wrapper: once a buffer has been made, giving up
/// the share through which it was made leaves the device alive and the buffer
/// in place, and the buffer's own share goes only with the calls that destroy
/// the buffer.
pub proof fn lemma_device_outlives_wrapper<T>(
    m: DeviceModel<T>,
    buffer: BufferView,
    data: Seq<T>,
)
    requires
        m.alive(),
        buffer.wf(),
        buffer.device == m.handle,
        m.holds(buffer),
        data.len() == buffer.size,
    ensures
        ({
            let made = m.run(buffer.create(), data);
            let orphaned = made.step(DeviceCall::ReleaseDevice { device: m.handle }, data);
            let gone = orphaned.run(buffer.release(), data);
            &&& orphaned.alive()
            &&& orphaned.holds(buffer)
            &&& orphaned.fetch(buffer.read()) == data
            &&& gone.shares == m.shares - 1
            &&& !gone.contents.dom().contains(buffer.raw)
        }),
{
    lemma_run_two(
        m,
        DeviceCall::WriteBuffer { buffer: buffer.raw, offset: 0, byte_len: buffer.byte_len() },
        DeviceCall::RetainDevice { device: buffer.device },
        data,
    );
    lemma_store_whole(m.contents, buffer.raw, data);
    let made = m.run(buffer.create(), data);
    let orphaned = made.step(DeviceCall::ReleaseDevice { device: m.handle }, data);
    lemma_run_three(
        orphaned,
        DeviceCall::SyncDevice { device: buffer.device },
        DeviceCall::ReleaseDevice { device: buffer.device },
        DeviceCall::ReleaseBuffer { buffer: buffer.raw },
        data,
    );
    assert(data.subrange(0, buffer.size as int) =~= data);
}

/// The calls that make each of `buffers`, in order.
pub open spec fn create_all(buffers: Seq<BufferView>) -> Seq<DeviceCall>
    decreases buffers.len(),
{
    if buffers.len() == 0 {
        Seq::empty()
    } else {
        create_all(buffers.drop_last()) + buffers.last().create()
    }
}

/// The calls that destroy each of `buffers`, in order.
pub open spec fn release_all(buffers: Seq<BufferView>) -> Seq<DeviceCall>
    decreases buffers.len(),
{
    if buffers.len() == 0 {
        Seq::empty()
    } else {
        release_all(buffers.drop_last()) + buffers.last().release()
    }
}

/// Calls do not change which device the model stands for.
proof fn lemma_run_keeps_handle<T>(m: DeviceModel<T>, calls: Seq<DeviceCall>, data: Seq<T>)
    ensures
        m.run(calls, data).handle == m.handle,
    decreases calls.len(),
{
    if calls.len() > 0 {
        lemma_run_keeps_handle(m, calls.drop_last(), data);
    }
}

proof fn lemma_create_all_shares<T>(m: DeviceModel<T>, buffers: Seq<BufferView>, data: Seq<T>)
    requires
        forall|i: int| 0 <= i < buffers.len() ==> (#[trigger] buffers[i]).device == m.handle,
    ensures
        m.run(create_all(buffers), data).shares == m.shares + buffers.len(),
    decreases buffers.len(),
{
    if buffers.len() > 0 {
        let before = m.run(create_all(buffers.drop_last()), data);
        lemma_create_all_shares(m, buffers.drop_last(), data);
        lemma_run_keeps_handle(m, create_all(buffers.drop_last()), data);
        lemma_run_concat(m, create_all(buffers.drop_last()), buffers.last().create(), data);
        lemma_shares(before, buffers.last(), data);
    }
}

proof fn lemma_release_all_shares<T>(m: DeviceModel<T>, buffers: Seq<BufferView>, data: Seq<T>)
    requires
        forall|i: int| 0 <= i < buffers.len() ==> (#[trigger] buffers[i]).device == m.handle,
    ensures
        m.run(release_all(buffers), data).shares == m.shares - buffers.len(),
    decreases buffers.len(),
{
    if buffers.len() > 0 {
        let before = m.run(release_all(buffers.drop_last()), data);
        lemma_release_all_shares(m, buffers.drop_last(), data);
        lemma_run_keeps_handle(m, release_all(buffers.drop_last()), data);
        lemma_run_concat(m, release_all(buffers.drop_last()), buffers.last().release(), data);
        lemma_shares(before, buffers.last(), data);
    }
}

/// Device lifetime: of a device whose only share is its wrapper's, after
/// `buffers` have been made and the wrapper has been given up, the shares left
/// are those of the buffers not yet destroyed. So the device is alive as long
/// as one of them is left, and it is destroyed with the last.
pub proof fn lemma_device_lives_while_buffers_live<T>(
    m: DeviceModel<T>,
    buffers: Seq<BufferView>,
    destroyed: int,
    data: Seq<T>,
)
    requires
        m.shares == 1,
        forall|i: int| 0 <= i < buffers.len() ==> (#[trigger] buffers[i]).device == m.handle,
        0 <= destroyed <= buffers.len(),
    ensures
        ({
            let made = m.run(create_all(buffers), data);
            let orphaned = made.step(DeviceCall::ReleaseDevice { device: m.handle }, data);
            let later = orphaned.run(release_all(buffers.take(destroyed)), data);
            &&& later.shares == buffers.len() - destroyed
            &&& later.alive() <==> destroyed < buffers.len()
        }),
{
    lemma_create_all_shares(m, buffers, data);
    lemma_run_keeps_handle(m, create_all(buffers), data);
    let made = m.run(create_all(buffers), data);
    let orphaned = made.step(DeviceCall::ReleaseDevice { device: m.handle }, data);
    lemma_release_all_shares(orphaned, buffers.take(destroyed), data);
}

} // verus!
