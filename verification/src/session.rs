use vstd::prelude::*;

use crate::device::GraphicsDevice;
use crate::errors::CaptureError;
use crate::resolver::CaptureTarget;
use crate::texture::{staging_of, GpuTexture, BGRA8_UNORM};

verus! {

/// Size of a capture target at the moment the session is armed.
#[derive(Clone, Copy, Debug, PartialEq, Eq, Structural)]
pub struct TargetSize {
    pub width: u32,
    pub height: u32,
}

/// The bounded queue of captured frames between the platform and the
/// frame-arrived callback.  A single-shot snapshot needs no buffering, so
/// its capacity is exactly one; it is created by the session and closed by
/// the callback before the waiter is signalled.
#[derive(Clone, Copy, Debug, PartialEq, Eq, Structural)]
pub struct FramePool {
    /// The one target this pool delivers frames for.
    pub target: CaptureTarget,
    pub format: u32,
    pub size: TargetSize,
    pub capacity: usize,
    pub closed: bool,
}

/// States of a capture subscription: started exactly once, closed exactly
/// once in intent, with a second close tolerated as a no-op.
#[derive(Clone, Copy, Debug, PartialEq, Eq, Structural)]
pub enum SubscriptionState {
    Created,
    Started,
    Closed,
}

/// An active subscription that will receive frame-arrived notifications.
#[derive(Clone, Copy, Debug, PartialEq, Eq, Structural)]
pub struct CaptureSessionHandle {
    pub state: SubscriptionState,
}

impl CaptureSessionHandle {
    /// The one transition from `Created` to `Started`.
    pub fn start(&mut self)
        requires
            old(self).state is Created,
        ensures
            final(self).state is Started,
    {
        self.state = SubscriptionState::Started;
    }

    /// Close the subscription.  Closing an already closed subscription is a
    /// no-op success, so a double close is harmless.
    pub fn close(&mut self)
        ensures
            final(self).state is Closed,
    {
        self.state = SubscriptionState::Closed;
    }
}

/// The single-use, single-item hand-off slot through which the callback
/// passes exactly one value to the blocked caller.
pub struct HandOffSlot {
    pub value: Option<Result<GpuTexture, CaptureError>>,
}

impl HandOffSlot {
    pub fn new() -> (s: Self)
        ensures
            s.value is None,
    {
        HandOffSlot { value: None }
    }

    /// Deliver the one value.  The slot must still be empty: the protocol
    /// hands off at most once per capture.
    pub fn send(&mut self, v: Result<GpuTexture, CaptureError>)
        requires
            old(self).value is None,
        ensures
            final(self).value == Some(v),
    {
        self.value = Some(v);
    }

    /// Consume the one value.
    pub fn take_value(&mut self) -> (v: Result<GpuTexture, CaptureError>)
        requires
            old(self).value is Some,
        ensures
            v == old(self).value.unwrap(),
            final(self).value is None,
    {
        let value = self.value.take();
        match value {
            Some(v) => v,
            None => unreached(),
        }
    }
}

/// Phases of one `take` operation.  A session that has not been armed yet
/// does not exist as a value, so the idle phase has no representation here;
/// arming is the constructor.
#[derive(Clone, Copy, Debug, PartialEq, Eq, Structural)]
pub enum SessionPhase {
    Armed,
    Capturing,
    Completed,
    Aborted,
}

/// The one-shot capture protocol: a frame pool of capacity one, a capture
/// subscription, and the hand-off slot that bridges the platform's
/// event-driven frame delivery to the caller's blocking wait.
pub struct CaptureSession {
    pub phase: SessionPhase,
    pub pool: FramePool,
    pub subscription: CaptureSessionHandle,
    pub slot: HandOffSlot,
}

impl CaptureSession {
    /// Protocol invariant, established by `arm` and preserved by every step.
    ///
    /// Its heart is the ordering guarantee: whenever the hand-off slot holds
    /// a value, the subscription and the pool are already closed, so by the
    /// time the caller is woken no further notification can be meaningful.
    pub open spec fn wf(self) -> bool {
        &&& self.pool.capacity == 1
        &&& self.pool.format == BGRA8_UNORM
        &&& (self.phase is Armed ==> self.subscription.state is Created && !self.pool.closed
            && self.slot.value is None)
        &&& (self.phase is Capturing ==> !(self.subscription.state is Created))
        &&& (self.subscription.state is Started ==> self.slot.value is None)
        &&& (self.slot.value is Some ==> self.subscription.state is Closed && self.pool.closed)
        &&& (self.phase is Completed ==> self.subscription.state is Closed && self.pool.closed)
        &&& (self.phase is Aborted ==> self.subscription.state is Closed && self.pool.closed)
        &&& (self.slot.value matches Some(Ok(t)) ==> t.wf() && !t.mapped
            && t.desc.cpu_readable() && t.desc.width == self.pool.size.width
            && t.desc.height == self.pool.size.height && t.desc.format == self.pool.format)
    }

    /// Arm a session for one target: a frame pool of capacity exactly one,
    /// fixed 32-bit BGRA format, sized to the target's current size, plus a
    /// subscription bound to that pool, not yet started.
    pub fn arm(target: CaptureTarget, size: TargetSize) -> (s: Self)
        ensures
            s.wf(),
            s.phase is Armed,
            s.pool == (FramePool { target, format: BGRA8_UNORM, size, capacity: 1, closed: false }),
            s.subscription.state is Created,
            s.slot.value is None,
    {
        CaptureSession {
            phase: SessionPhase::Armed,
            pool: FramePool { target, format: BGRA8_UNORM, size, capacity: 1, closed: false },
            subscription: CaptureSessionHandle { state: SubscriptionState::Created },
            slot: HandOffSlot::new(),
        }
    }

    /// Start the capture: from here on the platform may deliver frame
    /// notifications, on whatever thread it owns, and the caller blocks on
    /// the hand-off slot.
    pub fn start_capture(&mut self)
        requires
            old(self).wf(),
            old(self).phase is Armed,
        ensures
            final(self).wf(),
            final(self).phase is Capturing,
            final(self).subscription.state is Started,
            final(self).pool == old(self).pool,
            final(self).slot.value is None,
    {
        self.subscription.start();
        self.phase = SessionPhase::Capturing;
    }

    /// Whether the callback has delivered its one value.
    pub fn signalled(&self) -> (b: bool)
        ensures
            b == (self.slot.value is Some),
    {
        self.slot.value.is_some()
    }

    /// The frame-arrived callback body, run by the platform's notification
    /// mechanism while the caller is blocked.
    ///
    /// An empty notification (`frame` is `None`, the pool had no frame
    /// ready) is tolerated by returning without signalling, so a spurious
    /// wake-up cannot end the wait early.  A meaningful frame is copied into
    /// a freshly allocated staging texture; then the subscription and the
    /// pool are closed — before anything is sent — and only then is the
    /// staging copy handed off.  A failure to allocate the staging copy is
    /// handed off through the same slot, never dropped, so the caller is
    /// woken exactly once either way.  A notification that arrives after the
    /// subscription was closed changes nothing at all.
    pub fn on_frame_arrived(
        &mut self,
        device: &mut GraphicsDevice,
        frame: Option<GpuTexture>,
        staging_pitch: usize,
    )
        requires
            old(self).wf(),
            old(self).phase is Capturing,
            frame matches Some(f) ==> f.wf() && !f.mapped && f.desc.width == old(
                self,
            ).pool.size.width && f.desc.height == old(self).pool.size.height && f.desc.format
                == old(self).pool.format && staging_pitch >= f.desc.width * 4 && staging_pitch
                * f.desc.height <= usize::MAX,
            old(self).subscription.state is Started && frame is Some ==> old(device).allocations
                < u64::MAX,
        ensures
            final(self).wf(),
            final(self).phase is Capturing,
            final(self).pool.format == old(self).pool.format,
            final(self).pool.size == old(self).pool.size,
            final(self).pool.capacity == old(self).pool.capacity,
            final(self).pool.target == old(self).pool.target,
            old(self).subscription.state is Closed ==> *final(self) == *old(self) && *final(device)
                == *old(device),
            old(self).subscription.state is Started && frame is None ==> *final(self) == *old(self)
                && *final(device) == *old(device),
            old(self).subscription.state is Started && frame is Some && old(device).alloc_failures
                > 0 ==> {
                &&& final(self).subscription.state is Closed
                &&& final(self).pool.closed
                &&& final(self).slot.value == Some(
                    Err::<GpuTexture, CaptureError>(CaptureError::ResourceAllocation),
                )
                &&& *final(device) == (GraphicsDevice {
                    alloc_failures: (old(device).alloc_failures - 1) as u32,
                    ..*old(device)
                })
            },
            old(self).subscription.state is Started && frame is Some && old(device).alloc_failures
                == 0 ==> {
                &&& final(self).subscription.state is Closed
                &&& final(self).pool.closed
                &&& final(self).slot.value matches Some(Ok(t)) && t.desc == staging_of(
                    frame.unwrap().desc,
                ) && t.row_pitch == staging_pitch && frame.unwrap().same_pixels(t)
                &&& *final(device) == (GraphicsDevice {
                    allocations: (old(device).allocations + 1) as u64,
                    ..*old(device)
                })
            },
    {
        match self.subscription.state {
            SubscriptionState::Closed => {
                // The source was already stopped; the notification is
                // unobservable.
            },
            _ => {
                match frame {
                    None => {
                        // The pool was empty: tolerate the spurious
                        // notification and keep waiting.
                    },
                    Some(f) => {
                        match device.create_staging_texture(&f, staging_pitch) {
                            Err(_) => {
                                // End the capture, then forward the failure
                                // to the blocked caller.
                                self.subscription.close();
                                self.pool.closed = true;
                                self.slot.send(Err(CaptureError::ResourceAllocation));
                            },
                            Ok(mut staging) => {
                                let copied = device.copy_resource(&mut staging, &f);
                                proof {
                                    assert(copied is Ok);
                                }
                                // End the capture before signalling, so no
                                // further notification can be meaningful.
                                self.subscription.close();
                                self.pool.closed = true;
                                self.slot.send(Ok(staging));
                            },
                        }
                    },
                }
            },
        }
    }

    /// The caller's side of the hand-off: consume the one delivered value
    /// and leave the session in its terminal phase.  The callback closed the
    /// subscription and pool before sending, so nothing remains to tear
    /// down.
    pub fn receive(&mut self) -> (r: Result<GpuTexture, CaptureError>)
        requires
            old(self).wf(),
            old(self).phase is Capturing,
            old(self).slot.value is Some,
        ensures
            final(self).wf(),
            r == old(self).slot.value.unwrap(),
            r is Ok <==> final(self).phase is Completed,
            r is Err <==> final(self).phase is Aborted,
            final(self).subscription.state is Closed,
            final(self).pool.closed,
    {
        let v = self.slot.take_value();
        match &v {
            Ok(_) => {
                self.phase = SessionPhase::Completed;
            },
            Err(_) => {
                self.phase = SessionPhase::Aborted;
            },
        }
        v
    }

    /// Give up a capture on which no value will arrive any more (the bounded
    /// wait ran out).  The subscription and the pool are closed on this exit
    /// path too, so no live notification registration leaks.
    pub fn abort(&mut self)
        requires
            old(self).wf(),
            old(self).phase is Capturing,
            old(self).slot.value is None,
        ensures
            final(self).wf(),
            final(self).phase is Aborted,
            final(self).subscription.state is Closed,
            final(self).pool.closed,
            final(self).slot.value is None,
    {
        self.subscription.close();
        self.pool.closed = true;
        self.phase = SessionPhase::Aborted;
    }
}

/// Law: the callback closes the subscription and the frame pool before it
/// signals the waiter.  Whenever the hand-off slot holds a value, the
/// subscription and the pool are already closed, so by the time the blocked
/// caller wakes, no further frame notification can be observed.
pub proof fn lemma_signal_implies_closed(s: CaptureSession)
    requires
        s.wf(),
        s.slot.value is Some,
    ensures
        s.subscription.state is Closed,
        s.pool.closed,
{
}

} // verus!
