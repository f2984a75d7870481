//! The latch of a buffer and the guard of an asynchronous transfer.

use crate::device::Device;
use crate::device::DeviceCall;
use vstd::prelude::*;

verus! {

/// The two states of a [`SyncLock`].
#[derive(Clone, Copy, Debug, PartialEq, Eq, Structural)]
pub enum Latch {
    /// No asynchronous transfer is outstanding; the resource may be accessed.
    Idle,
    /// A guard holds the latch, or held it and was lost before it finished.
    Pending,
}

/// A latch that tells whether its resource still waits for a synchronise.
///
/// A latch is made idle. Making a [`MustSync`] turns it pending and finishing
/// that guard turns it idle again. A guard that is dropped or forgotten
/// without being finished leaves its latch pending for good, so that every
/// later access is refused instead of racing the device.
pub struct SyncLock {
    state: Latch,
}

impl View for SyncLock {
    type V = Latch;

    closed spec fn view(&self) -> Latch {
        self.state
    }
}

impl Default for SyncLock {
    /// An idle latch.
    fn default() -> (lock: SyncLock)
        ensures
            lock@ == Latch::Idle,
    {
        SyncLock { state: Latch::Idle }
    }
}

impl SyncLock {
    /// Whether the resource may be accessed.
    pub open spec fn valid(&self) -> bool {
        self@ == Latch::Idle
    }

    /// The current state, for callers that have to test it at run time
    /// before they call [`SyncLock::check_valid`].
    pub fn state(&self) -> (state: Latch)
        ensures
            state == self@,
    {
        self.state
    }

    /// Checks that no guard holds the latch.
    ///
    /// A pending latch here means that the guard of this resource was lost
    /// without being finished: the call is refused.
    pub fn check_valid(&self)
        requires
            self.valid(),
    {
    }

    /// Takes the latch for a new guard.
    fn acquire(&mut self)
        requires
            old(self).valid(),
        ensures
            final(self)@ == Latch::Pending,
    {
        self.state = Latch::Pending;
    }

    /// Gives the latch back when its guard finishes.
    fn release(&mut self)
        ensures
            final(self)@ == Latch::Idle,
    {
        self.state = Latch::Idle;
    }
}

/// At most one guard: a pending latch admits no new guard.
pub proof fn lemma_pending_latch_admits_no_guard(lock: SyncLock)
    requires
        lock@ == Latch::Pending,
    ensures
        !lock.valid(),
{
}

/// States that a synchronise must happen before the borrowed resource is
/// used again.
///
/// A guard holds a share of the device, the exclusive borrow of the resource's
/// latch, which it keeps pending, and the computation that yields the
/// transfer's result. [`MustSync::synchronise_now`] is the only way on: it
/// hands out the blocking synchronise and the [`Synchronising`] value that
/// finishes the guard once the device has been synchronised.
///
/// A guard that is dropped or forgotten instead leaves the latch pending.
pub struct MustSync<'a, F> {
    /// The device that must be synchronised.
    raw_device: usize,
    /// The latch to release when the guard finishes.
    lock: &'a mut SyncLock,
    /// Computes the result once the device has been synchronised.
    func: F,
}

/// A guard whose synchronise has been handed out.
///
/// Once the device has been synchronised, [`Synchronising::complete`] yields
/// the transfer's result and [`Synchronising::discard`] gives it up. Both
/// release the latch and the guard's share of the device.
pub struct Synchronising<'a, F> {
    raw_device: usize,
    lock: &'a mut SyncLock,
    func: F,
}

impl<'a, F> MustSync<'a, F> {
    /// The device that the guard synchronises.
    pub closed spec fn device(&self) -> usize {
        self.raw_device
    }

    /// The borrowed latch.
    pub closed spec fn latch(&self) -> &'a mut SyncLock {
        self.lock
    }

    /// The deferred computation.
    pub closed spec fn deferred(&self) -> F {
        self.func
    }

    /// Makes the guard of an asynchronous transfer that has just been issued
    /// on `device`, over the latch of the resource that the transfer touches.
    ///
    /// The guard takes a share of the device, which the returned call
    /// acquires, and turns the latch pending. `func` runs at most once, when
    /// the finished guard is asked for its result.
    ///
    /// The latch must be idle: guards do not nest.
    pub fn new(device: &Device, sync_lock: &'a mut SyncLock, func: F) -> (r: (
        MustSync<'a, F>,
        DeviceCall,
    ))
        requires
            old(sync_lock).valid(),
        ensures
            r.0.device() == device.raw(),
            r.0.deferred() == func,
            r.0.latch()@ == Latch::Pending,
            *final(sync_lock) == *final(r.0.latch()),
            r.1 == (DeviceCall::RetainDevice { device: device.raw() }),
    {
        sync_lock.check_valid();
        sync_lock.acquire();
        let raw_device = device.raw();
        (
            MustSync { raw_device, lock: sync_lock, func },
            DeviceCall::RetainDevice { device: raw_device },
        )
    }

    /// A guard that is dropped or forgotten keeps its latch as it is:
    /// pending, so that the latch admits no access and no new guard.
    pub proof fn lemma_lost_guard(self)
        requires
            has_resolved(self),
        ensures
            final(self.latch())@ == self.latch()@,
            self.latch()@ == Latch::Pending ==> !final(self.latch()).valid(),
    {
    }

    /// Starts finishing the guard: returns the blocking synchronise to issue
    /// now, and the value that finishes the guard afterwards. The latch stays
    /// pending in between.
    pub fn synchronise_now(self) -> (r: (DeviceCall, Synchronising<'a, F>))
        ensures
            r.0 == (DeviceCall::SyncDevice { device: self.device() }),
            r.1.device() == self.device(),
            r.1.deferred() == self.deferred(),
            r.1.latch()@ == self.latch()@,
            *final(r.1.latch()) == *final(self.latch()),
    {
        let MustSync { raw_device, lock, func } = self;
        (DeviceCall::SyncDevice { device: raw_device }, Synchronising { raw_device, lock, func })
    }
}

impl<'a, F> Synchronising<'a, F> {
    /// The device that has been synchronised.
    pub closed spec fn device(&self) -> usize {
        self.raw_device
    }

    /// The borrowed latch.
    pub closed spec fn latch(&self) -> &'a mut SyncLock {
        self.lock
    }

    /// The deferred computation.
    pub closed spec fn deferred(&self) -> F {
        self.func
    }

    /// A half-finished guard that is dropped or forgotten keeps its latch as
    /// it is: pending, so that the latch admits no access and no new guard.
    pub proof fn lemma_lost_guard(self)
        requires
            has_resolved(self),
        ensures
            final(self.latch())@ == self.latch()@,
            self.latch()@ == Latch::Pending ==> !final(self.latch()).valid(),
    {
    }

    /// Finishes the guard after the device has been synchronised: runs the
    /// deferred computation, once, and returns its result with the call that
    /// gives the guard's share of the device back. The latch is idle again.
    pub fn complete<R>(self) -> (r: (R, DeviceCall)) where F: FnOnce() -> R
        requires
            self.deferred().requires(()),
        ensures
            self.deferred().ensures((), r.0),
            r.1 == (DeviceCall::ReleaseDevice { device: self.device() }),
            final(self.latch())@ == Latch::Idle,
    {
        let Synchronising { raw_device, lock, func } = self;
        lock.release();
        (func(), DeviceCall::ReleaseDevice { device: raw_device })
    }

    /// Finishes the guard after the device has been synchronised without
    /// asking for the result: the deferred computation does not run. Returns
    /// the call that gives the guard's share of the device back. The latch is
    /// idle again.
    pub fn discard(self) -> (call: DeviceCall)
        ensures
            call == (DeviceCall::ReleaseDevice { device: self.device() }),
            final(self.latch())@ == Latch::Idle,
    {
        let Synchronising { raw_device, lock, func } = self;
        lock.release();
        DeviceCall::ReleaseDevice { device: raw_device }
    }
}

} // verus!
