use oidn::Buffer;
use oidn::Device;
use oidn::DeviceCall;
use oidn::Latch;
use oidn::MustSync;
use oidn::SyncLock;
use oidn::ELEMENT_BYTES;
use std::cell::Cell;
use std::collections::HashMap;

/// A transfer that waits for the next synchronise.
enum Queued {
    Write { buffer: usize, first: usize, data: Vec<f32> },
    Read { buffer: usize, first: usize, count: usize },
}

/// A device in host memory that answers the native calls as a real one
/// does: blocking transfers at once, asynchronous ones at the next
/// synchronise, in the order in which they were issued.
struct Host {
    handle: usize,
    shares: i64,
    next: usize,
    refuse: bool,
    buffers: HashMap<usize, Vec<f32>>,
    queued: Vec<Queued>,
    delivered: Vec<Vec<f32>>,
    log: Vec<DeviceCall>,
}

impl Host {
    /// A device with one share, the one of its wrapper.
    fn new(handle: usize) -> Host {
        Host {
            handle,
            shares: 1,
            next: 0x1000,
            refuse: false,
            buffers: HashMap::new(),
            queued: Vec::new(),
            delivered: Vec::new(),
            log: Vec::new(),
        }
    }

    fn device(&self) -> Device {
        Device::new(self.handle, 1)
    }

    /// Answers an allocation with the new handle, or with null.
    fn allocate(&mut self, call: DeviceCall) -> usize {
        self.log.push(call);
        match call {
            DeviceCall::NewBuffer { device, byte_len } => {
                assert_eq!(device, self.handle);
                if self.refuse {
                    0
                } else {
                    let raw = self.next;
                    self.next += 0x10;
                    self.buffers.insert(raw, vec![0.0; byte_len / ELEMENT_BYTES]);
                    raw
                }
            }
            other => panic!("not an allocation: {:?}", other),
        }
    }

    /// The size in bytes of a live buffer.
    fn buffer_size(&self, raw: usize) -> usize {
        self.buffers[&raw].len() * ELEMENT_BYTES
    }

    /// Performs one call. A write copies from `src`, a blocking read copies
    /// to `dst`.
    fn perform(&mut self, call: DeviceCall, src: &[f32], dst: &mut [f32]) {
        self.log.push(call);
        match call {
            DeviceCall::RetainDevice { device } => {
                assert_eq!(device, self.handle);
                assert!(self.shares > 0);
                self.shares += 1;
            }
            DeviceCall::ReleaseDevice { device } => {
                assert_eq!(device, self.handle);
                assert!(self.shares > 0);
                self.shares -= 1;
            }
            DeviceCall::SyncDevice { device } => {
                assert_eq!(device, self.handle);
                let queued: Vec<Queued> = self.queued.drain(..).collect();
                for q in queued {
                    match q {
                        Queued::Write { buffer, first, data } => {
                            let mem = self.buffers.get_mut(&buffer).unwrap();
                            mem[first..first + data.len()].copy_from_slice(&data);
                        }
                        Queued::Read { buffer, first, count } => {
                            let mem = &self.buffers[&buffer];
                            self.delivered.push(mem[first..first + count].to_vec());
                        }
                    }
                }
            }
            DeviceCall::NewBuffer { .. } => panic!("allocations go through allocate"),
            DeviceCall::ReleaseBuffer { buffer } => {
                assert!(self.buffers.remove(&buffer).is_some());
            }
            DeviceCall::WriteBuffer { buffer, offset, byte_len } => {
                let (first, count) = elements(offset, byte_len);
                assert_eq!(count, src.len());
                let mem = self.buffers.get_mut(&buffer).unwrap();
                mem[first..first + count].copy_from_slice(src);
            }
            DeviceCall::ReadBuffer { buffer, offset, byte_len } => {
                let (first, count) = elements(offset, byte_len);
                assert_eq!(count, dst.len());
                dst.copy_from_slice(&self.buffers[&buffer][first..first + count]);
            }
            DeviceCall::WriteBufferAsync { buffer, offset, byte_len } => {
                let (first, count) = elements(offset, byte_len);
                assert_eq!(count, src.len());
                assert!(self.buffers.contains_key(&buffer));
                self.queued.push(Queued::Write { buffer, first, data: src.to_vec() });
            }
            DeviceCall::ReadBufferAsync { buffer, offset, byte_len } => {
                let (first, count) = elements(offset, byte_len);
                assert!(self.buffers.contains_key(&buffer));
                self.queued.push(Queued::Read { buffer, first, count });
            }
        }
    }

    /// Performs calls that move no data.
    fn run(&mut self, calls: &[DeviceCall]) {
        for call in calls {
            self.perform(*call, &[], &mut []);
        }
    }

    /// Makes a buffer from `contents` as the library directs, or none where
    /// the device refuses.
    fn create(&mut self, device: &Device, contents: &[f32]) -> Option<Buffer> {
        assert!(contents.len() <= usize::MAX / ELEMENT_BYTES);
        let (allocate, allocation) = device.create_buffer(contents.len());
        let raw = self.allocate(allocate);
        let (buffer, calls) = allocation.adopt(raw)?;
        for call in calls {
            self.perform(call, contents, &mut []);
        }
        Some(buffer)
    }

    /// Blocking write, as a program built on the library does it.
    fn write(&mut self, buffer: &Buffer, contents: &[f32]) -> Option<()> {
        assert_eq!(buffer.sync_lock().state(), Latch::Idle);
        let call = buffer.write(contents.len())?;
        self.perform(call, contents, &mut []);
        Some(())
    }

    /// Blocking read of the whole buffer.
    fn read(&mut self, buffer: &Buffer) -> Vec<f32> {
        assert_eq!(buffer.sync_lock().state(), Latch::Idle);
        let mut contents = vec![0.0; buffer.size()];
        let call = buffer.read();
        self.perform(call, &[], &mut contents);
        contents
    }

    /// Blocking read into a slice.
    fn read_to_slice(&mut self, buffer: &Buffer, contents: &mut [f32]) -> Option<()> {
        assert_eq!(buffer.sync_lock().state(), Latch::Idle);
        let call = buffer.read_to_slice(contents.len())?;
        self.perform(call, &[], contents);
        Some(())
    }
}

/// A byte region in elements.
fn elements(offset: usize, byte_len: usize) -> (usize, usize) {
    assert_eq!(offset % ELEMENT_BYTES, 0);
    assert_eq!(byte_len % ELEMENT_BYTES, 0);
    (offset / ELEMENT_BYTES, byte_len / ELEMENT_BYTES)
}

#[test]
fn buffer_read_write() {
    let mut host = Host::new(7);
    let device = host.device();
    let mut buffer = match host.create(&device, &[0.0]) {
        Some(buffer) => buffer,
        None => {
            println!("Test skipped due to buffer creation failing");
            return;
        }
    };
    host.write(&buffer, &[1.0]).unwrap();
    assert_eq!(host.read(&buffer), vec![1.0]);

    // asynchronous read of the whole buffer
    let (guard, calls) = device.read_buffer_async(&mut buffer);
    host.run(&calls);
    let (sync, waiting) = guard.synchronise_now();
    host.perform(sync, &[], &mut []);
    let (count, release) = waiting.complete();
    host.perform(release, &[], &mut []);
    let mut read = host.delivered.pop().unwrap();
    read.truncate(count);
    assert_eq!(read, vec![1.0]);

    let mut slice = vec![0.0];
    host.read_to_slice(&buffer, &mut slice).unwrap();
    assert_eq!(slice, vec![1.0]);

    // asynchronous write
    let (guard, calls) = device.write_buffer_async(&mut buffer, 1).unwrap();
    for call in calls {
        host.perform(call, &[2.0], &mut []);
    }
    let (sync, waiting) = guard.synchronise_now();
    host.perform(sync, &[], &mut []);
    let ((), release) = waiting.complete();
    host.perform(release, &[], &mut []);

    // asynchronous read into a slice
    let mut slice = vec![0.0];
    let (guard, calls) = device.read_buffer_to_slice_async(&mut buffer, slice.len()).unwrap();
    host.run(&calls);
    let (sync, waiting) = guard.synchronise_now();
    host.perform(sync, &[], &mut []);
    let ((), release) = waiting.complete();
    host.perform(release, &[], &mut []);
    slice.copy_from_slice(&host.delivered.pop().unwrap());
    assert_eq!(slice, vec![2.0]);
    assert_eq!(host.shares, 2);
}

#[test]
fn buffer_import_read_write() {
    let mut host = Host::new(7);
    let device = host.device();
    let raw_buffer = host.allocate(DeviceCall::NewBuffer {
        device: device.raw(),
        byte_len: std::mem::size_of::<f32>(),
    });
    if raw_buffer == 0 {
        println!("Test skipped due to buffer creation failing");
        return;
    }
    let byte_size = host.buffer_size(raw_buffer);
    let (buffer, retain) = device.create_buffer_from_raw(raw_buffer, byte_size);
    host.perform(retain, &[], &mut []);
    host.write(&buffer, &[1.0]).unwrap();
    assert_eq!(host.read(&buffer), vec![1.0]);
    let mut slice = vec![0.0];
    host.read_to_slice(&buffer, &mut slice).unwrap();
    assert_eq!(slice, vec![1.0]);
}

#[test]
fn round_trip_of_several_elements() {
    let mut host = Host::new(3);
    let device = host.device();
    let buffer = host.create(&device, &[0.5, 1.5, 2.5]).unwrap();
    assert_eq!(host.read(&buffer), vec![0.5, 1.5, 2.5]);
    host.write(&buffer, &[4.0, 5.0, 6.0]).unwrap();
    assert_eq!(host.read(&buffer), vec![4.0, 5.0, 6.0]);
    let mut slice = vec![0.0; 3];
    host.read_to_slice(&buffer, &mut slice).unwrap();
    assert_eq!(slice, vec![4.0, 5.0, 6.0]);
}

#[test]
fn async_write_is_visible_after_the_guard_completes() {
    let mut host = Host::new(3);
    let device = host.device();
    let mut buffer = host.create(&device, &[1.0, 1.0]).unwrap();
    let (guard, calls) = device.write_buffer_async(&mut buffer, 2).unwrap();
    for call in calls {
        host.perform(call, &[2.0, 3.0], &mut []);
    }
    // issued, not yet synchronised: the device still holds the old contents
    assert_eq!(host.buffers[&0x1000], vec![1.0, 1.0]);
    let (sync, waiting) = guard.synchronise_now();
    host.perform(sync, &[], &mut []);
    let ((), release) = waiting.complete();
    host.perform(release, &[], &mut []);
    assert_eq!(host.read(&buffer), vec![2.0, 3.0]);
}

#[test]
fn async_write_is_visible_after_the_guard_is_discarded() {
    let mut host = Host::new(3);
    let device = host.device();
    let mut buffer = host.create(&device, &[0.0]).unwrap();
    let (guard, calls) = device.write_buffer_async(&mut buffer, 1).unwrap();
    for call in calls {
        host.perform(call, &[2.0], &mut []);
    }
    let (sync, waiting) = guard.synchronise_now();
    host.perform(sync, &[], &mut []);
    let release = waiting.discard();
    host.perform(release, &[], &mut []);
    assert_eq!(buffer.sync_lock().state(), Latch::Idle);
    assert_eq!(host.read(&buffer), vec![2.0]);
}

#[test]
fn create_buffer_asks_for_four_bytes_an_element() {
    let device = Device::new(9, 1);
    let (call, allocation) = device.create_buffer(3);
    assert_eq!(call, DeviceCall::NewBuffer { device: 9, byte_len: 12 });
    let (buffer, calls) = allocation.adopt(0x40).unwrap();
    assert_eq!(
        calls,
        vec![
            DeviceCall::WriteBuffer { buffer: 0x40, offset: 0, byte_len: 12 },
            DeviceCall::RetainDevice { device: 9 },
        ]
    );
    assert_eq!(buffer.size(), 3);
    assert_eq!(buffer.raw(), 0x40);
    assert_eq!(buffer.sync_lock().state(), Latch::Idle);
    assert_eq!(ELEMENT_BYTES, 4);
}

#[test]
fn create_buffer_of_no_elements() {
    let device = Device::new(9, 1);
    let (call, allocation) = device.create_buffer(0);
    assert_eq!(call, DeviceCall::NewBuffer { device: 9, byte_len: 0 });
    let (buffer, calls) = allocation.adopt(0x40).unwrap();
    assert_eq!(calls[0], DeviceCall::WriteBuffer { buffer: 0x40, offset: 0, byte_len: 0 });
    assert_eq!(buffer.size(), 0);
    assert_eq!(buffer.write(0), Some(DeviceCall::WriteBuffer { buffer: 0x40, offset: 0, byte_len: 0 }));
    assert_eq!(buffer.write(1), None);
}

#[test]
fn refused_allocation_makes_no_buffer() {
    let mut host = Host::new(7);
    host.refuse = true;
    let device = host.device();
    assert!(host.create(&device, &[0.0]).is_none());
    // nothing but the allocation was asked of the device
    assert_eq!(host.log, vec![DeviceCall::NewBuffer { device: 7, byte_len: 4 }]);
    assert_eq!(host.shares, 1);

    let (_, allocation) = device.create_buffer(1);
    assert!(allocation.adopt(0).is_none());
}

#[test]
fn create_buffer_from_raw_counts_whole_elements() {
    let device = Device::new(9, 1);
    let (buffer, retain) = device.create_buffer_from_raw(0x80, 10);
    assert_eq!(retain, DeviceCall::RetainDevice { device: 9 });
    assert_eq!(buffer.size(), 2);
    assert_eq!(buffer.raw(), 0x80);
    assert_eq!(buffer.read(), DeviceCall::ReadBuffer { buffer: 0x80, offset: 0, byte_len: 8 });

    let (empty, _) = device.create_buffer_from_raw(0x90, 3);
    assert_eq!(empty.size(), 0);
}

#[test]
fn blocking_transfers_cover_the_whole_buffer() {
    let device = Device::new(9, 1);
    let (buffer, _) = device.create_buffer_from_raw(0x80, 20);
    assert_eq!(buffer.size(), 5);
    assert_eq!(
        buffer.write(5),
        Some(DeviceCall::WriteBuffer { buffer: 0x80, offset: 0, byte_len: 20 })
    );
    assert_eq!(
        buffer.read_to_slice(5),
        Some(DeviceCall::ReadBuffer { buffer: 0x80, offset: 0, byte_len: 20 })
    );
    assert_eq!(buffer.read(), DeviceCall::ReadBuffer { buffer: 0x80, offset: 0, byte_len: 20 });
}

#[test]
fn size_mismatch_is_reported_and_nothing_is_called() {
    let mut host = Host::new(7);
    let device = host.device();
    let mut buffer = host.create(&device, &[1.0, 2.0]).unwrap();
    let calls_so_far = host.log.len();

    assert_eq!(buffer.write(1), None);
    assert_eq!(buffer.write(3), None);
    assert_eq!(buffer.read_to_slice(0), None);
    assert_eq!(buffer.read_to_slice(3), None);
    assert!(host.write(&buffer, &[9.0]).is_none());
    let mut short = vec![0.0];
    assert!(host.read_to_slice(&buffer, &mut short).is_none());
    assert_eq!(short, vec![0.0]);

    assert!(device.write_buffer_async(&mut buffer, 1).is_none());
    assert!(device.write_buffer_async(&mut buffer, 3).is_none());
    assert!(device.read_buffer_to_slice_async(&mut buffer, 1).is_none());
    assert!(device.read_buffer_to_slice_async(&mut buffer, 3).is_none());

    // no guard was made: the latch is idle and the contents are untouched
    assert_eq!(buffer.sync_lock().state(), Latch::Idle);
    assert_eq!(host.log.len(), calls_so_far);
    assert_eq!(host.read(&buffer), vec![1.0, 2.0]);
}

#[test]
fn async_entry_points_issue_the_transfer_then_retain() {
    let device = Device::new(9, 1);
    let (mut buffer, _) = device.create_buffer_from_raw(0x80, 8);

    let (guard, calls) = device.write_buffer_async(&mut buffer, 2).unwrap();
    assert_eq!(
        calls,
        vec![
            DeviceCall::WriteBufferAsync { buffer: 0x80, offset: 0, byte_len: 8 },
            DeviceCall::RetainDevice { device: 9 },
        ]
    );
    let (sync, waiting) = guard.synchronise_now();
    assert_eq!(sync, DeviceCall::SyncDevice { device: 9 });
    let ((), release) = waiting.complete();
    assert_eq!(release, DeviceCall::ReleaseDevice { device: 9 });

    let (guard, calls) = device.read_buffer_async(&mut buffer);
    assert_eq!(
        calls,
        vec![
            DeviceCall::ReadBufferAsync { buffer: 0x80, offset: 0, byte_len: 8 },
            DeviceCall::RetainDevice { device: 9 },
        ]
    );
    let (sync, waiting) = guard.synchronise_now();
    assert_eq!(sync, DeviceCall::SyncDevice { device: 9 });
    let (count, release) = waiting.complete();
    assert_eq!(count, 2);
    assert_eq!(release, DeviceCall::ReleaseDevice { device: 9 });

    let (guard, calls) = device.read_buffer_to_slice_async(&mut buffer, 2).unwrap();
    assert_eq!(
        calls,
        vec![
            DeviceCall::ReadBufferAsync { buffer: 0x80, offset: 0, byte_len: 8 },
            DeviceCall::RetainDevice { device: 9 },
        ]
    );
    let (sync, waiting) = guard.synchronise_now();
    assert_eq!(sync, DeviceCall::SyncDevice { device: 9 });
    assert_eq!(waiting.discard(), DeviceCall::ReleaseDevice { device: 9 });
    assert_eq!(buffer.sync_lock().state(), Latch::Idle);
}

#[test]
fn guard_synchronises_the_device_it_was_issued_on() {
    let owner = Device::new(9, 1);
    let other = Device::new(11, 2);
    let (mut buffer, _) = owner.create_buffer_from_raw(0x80, 4);
    let (guard, calls) = other.write_buffer_async(&mut buffer, 1).unwrap();
    assert_eq!(calls[1], DeviceCall::RetainDevice { device: 11 });
    let (sync, waiting) = guard.synchronise_now();
    assert_eq!(sync, DeviceCall::SyncDevice { device: 11 });
    assert_eq!(waiting.discard(), DeviceCall::ReleaseDevice { device: 11 });
}

#[test]
fn latch_starts_idle() {
    let lock = SyncLock::default();
    assert_eq!(lock.state(), Latch::Idle);
    lock.check_valid();
}

#[test]
fn latch_is_pending_while_the_guard_is_unfinished() {
    let device = Device::new(9, 1);
    let mut lock = SyncLock::default();
    let (guard, retain) = MustSync::new(&device, &mut lock, || 5u8);
    assert_eq!(retain, DeviceCall::RetainDevice { device: 9 });
    let (sync, waiting) = guard.synchronise_now();
    assert_eq!(sync, DeviceCall::SyncDevice { device: 9 });
    let (result, release) = waiting.complete();
    assert_eq!(result, 5);
    assert_eq!(release, DeviceCall::ReleaseDevice { device: 9 });
    assert_eq!(lock.state(), Latch::Idle);
    lock.check_valid();
}

#[test]
fn dropped_guard_leaves_the_latch_pending() {
    let device = Device::new(9, 1);
    let (mut buffer, _) = device.create_buffer_from_raw(0x80, 4);
    {
        let (_guard, _calls) = device.write_buffer_async(&mut buffer, 1).unwrap();
    }
    // the guard never finished: synchronous access must be refused from now on
    assert_eq!(buffer.sync_lock().state(), Latch::Pending);
    assert_eq!(buffer.raw_sync_lock().state(), Latch::Pending);
}

#[test]
fn forgotten_guard_leaves_the_latch_pending() {
    let device = Device::new(9, 1);
    let mut lock = SyncLock::default();
    let (guard, _) = MustSync::new(&device, &mut lock, || ());
    std::mem::forget(guard);
    assert_eq!(lock.state(), Latch::Pending);
}

#[test]
fn half_finished_guard_leaves_the_latch_pending() {
    let device = Device::new(9, 1);
    let mut lock = SyncLock::default();
    let (guard, _) = MustSync::new(&device, &mut lock, || ());
    let (_sync, waiting) = guard.synchronise_now();
    drop(waiting);
    assert_eq!(lock.state(), Latch::Pending);
}

#[test]
fn second_guard_after_the_first_has_finished() {
    let device = Device::new(9, 1);
    let mut lock = SyncLock::default();
    let (first, _) = MustSync::new(&device, &mut lock, || 1u8);
    let (_, waiting) = first.synchronise_now();
    let (one, _) = waiting.complete();
    assert_eq!(lock.state(), Latch::Idle);
    let (second, _) = MustSync::new(&device, &mut lock, || 2u8);
    let (_, waiting) = second.synchronise_now();
    let (two, _) = waiting.complete();
    assert_eq!((one, two), (1, 2));
    assert_eq!(lock.state(), Latch::Idle);
}

#[test]
fn deferred_computation_runs_once_on_complete() {
    let runs = Cell::new(0u32);
    let device = Device::new(9, 1);
    let mut lock = SyncLock::default();
    let (guard, _) = MustSync::new(&device, &mut lock, || {
        runs.set(runs.get() + 1);
        runs.get()
    });
    assert_eq!(runs.get(), 0);
    let (_, waiting) = guard.synchronise_now();
    // the synchronise has been handed out, the computation has not run
    assert_eq!(runs.get(), 0);
    let (result, _) = waiting.complete();
    assert_eq!(result, 1);
    assert_eq!(runs.get(), 1);
}

#[test]
fn deferred_computation_does_not_run_on_discard() {
    let runs = Cell::new(0u32);
    let device = Device::new(9, 1);
    let mut lock = SyncLock::default();
    let (guard, _) = MustSync::new(&device, &mut lock, || runs.set(runs.get() + 1));
    let (sync, waiting) = guard.synchronise_now();
    assert_eq!(sync, DeviceCall::SyncDevice { device: 9 });
    assert_eq!(waiting.discard(), DeviceCall::ReleaseDevice { device: 9 });
    assert_eq!(runs.get(), 0);
    assert_eq!(lock.state(), Latch::Idle);
}

#[test]
fn buffer_keeps_the_device_alive_after_its_wrapper() {
    let mut host = Host::new(7);
    let device = host.device();
    let buffer = host.create(&device, &[3.0]).unwrap();
    assert_eq!(host.shares, 2);

    let release = device.release();
    assert_eq!(release, DeviceCall::ReleaseDevice { device: 7 });
    host.perform(release, &[], &mut []);
    assert_eq!(host.shares, 1);
    assert_eq!(host.read(&buffer), vec![3.0]);

    let raw = buffer.raw();
    let calls = buffer.release();
    assert_eq!(
        calls,
        vec![
            DeviceCall::SyncDevice { device: 7 },
            DeviceCall::ReleaseDevice { device: 7 },
            DeviceCall::ReleaseBuffer { buffer: raw },
        ]
    );
    host.run(&calls);
    assert_eq!(host.shares, 0);
    assert!(host.buffers.is_empty());
}

#[test]
fn guard_holds_a_share_until_it_finishes() {
    let mut host = Host::new(7);
    let device = host.device();
    let mut buffer = host.create(&device, &[3.0]).unwrap();
    let (guard, calls) = device.read_buffer_async(&mut buffer);
    host.run(&calls);
    assert_eq!(host.shares, 3);
    let (sync, waiting) = guard.synchronise_now();
    host.perform(sync, &[], &mut []);
    assert_eq!(host.shares, 3);
    let (_, release) = waiting.complete();
    host.perform(release, &[], &mut []);
    assert_eq!(host.shares, 2);
}

#[test]
fn same_device_goes_by_the_tag() {
    let device = Device::new(9, 1);
    let clone = Device::new(9, 1);
    let stranger = Device::new(9, 2);
    let (buffer, _) = device.create_buffer_from_raw(0x80, 4);
    assert!(device.same_device_as_buf(&buffer));
    assert!(clone.same_device_as_buf(&buffer));
    assert!(!stranger.same_device_as_buf(&buffer));
    assert_eq!(device.raw(), 9);
    assert_eq!(device.tag(), 1);
}

#[test]
fn raw_sync_lock_is_the_buffers_own_latch() {
    let device = Device::new(9, 1);
    let (mut buffer, _) = device.create_buffer_from_raw(0x80, 4);
    {
        let (_guard, _retain) = MustSync::new(&device, buffer.raw_sync_lock(), || ());
    }
    assert_eq!(buffer.sync_lock().state(), Latch::Pending);
}
