use vstd::prelude::*;

use crate::device::GraphicsDevice;
use crate::errors::CaptureError;
use crate::resolver::CaptureTarget;
use crate::session::{CaptureSession, TargetSize};
use crate::texture::{staging_of, GpuTexture, BGRA8_UNORM};

verus! {

/// The one entity that survives a capture: a CPU-readable staging texture
/// wrapped as a device-agnostic surface, the unit handed to the encoder.
pub struct PixelSurface {
    pub texture: GpuTexture,
}

/// What a frame delivered by the pool looks like: a well-formed, unmapped
/// texture of the pool's size and format, for which the device's choice of
/// staging row pitch is wide enough and the staging allocation fits memory.
pub open spec fn frame_fits(f: GpuTexture, size: TargetSize, staging_pitch: usize) -> bool {
    &&& f.wf()
    &&& !f.mapped
    &&& f.desc.width == size.width
    &&& f.desc.height == size.height
    &&& f.desc.format == BGRA8_UNORM
    &&& staging_pitch >= f.desc.width * 4
    &&& staging_pitch * f.desc.height <= usize::MAX
}

/// The first meaningful frame among the notifications, if any: the one the
/// protocol consumes.
pub open spec fn first_frame(ns: Seq<Option<GpuTexture>>) -> Option<GpuTexture>
    decreases ns.len(),
{
    if ns.len() == 0 {
        None
    } else if ns[0] is Some {
        ns[0]
    } else {
        first_frame(ns.subrange(1, ns.len() as int))
    }
}

pub struct CaptureSnapshot;

impl CaptureSnapshot {
    /// Take exactly one frame of `target` and return it as a CPU-readable
    /// surface.
    ///
    /// The platform delivers frame-arrived notifications in its own order
    /// and on its own thread; `notifications` stands for that sequence as
    /// the blocked caller would observe it, each entry either a frame or a
    /// spurious empty wake-up, and `staging_pitch` for the row pitch the
    /// device gives the staging copy.  The session consumes the first
    /// meaningful frame and no other: it copies it into fresh staging
    /// memory, closes the subscription and pool, and only then wakes the
    /// caller.  An allocation failure inside the callback comes back as
    /// `ResourceAllocation` rather than a hang; if no frame ever arrives the
    /// bounded wait ends in `CaptureTimeout`, with the subscription and pool
    /// closed on that path too.
    pub fn take(
        device: &mut GraphicsDevice,
        target: &CaptureTarget,
        size: TargetSize,
        notifications: Vec<Option<GpuTexture>>,
        staging_pitch: usize,
    ) -> (r: Result<PixelSurface, CaptureError>)
        requires
            forall|i: int|
                0 <= i < notifications@.len() ==> (#[trigger] notifications@[i] matches Some(f)
                    ==> frame_fits(f, size, staging_pitch)),
            old(device).allocations < u64::MAX,
        ensures
            r is Ok <==> first_frame(notifications@) is Some && old(device).alloc_failures == 0,
            first_frame(notifications@) is None ==> r == Err::<PixelSurface, CaptureError>(
                CaptureError::CaptureTimeout,
            ) && *final(device) == *old(device),
            first_frame(notifications@) is Some && old(device).alloc_failures > 0 ==> r == Err::<
                PixelSurface,
                CaptureError,
            >(CaptureError::ResourceAllocation) && *final(device) == (GraphicsDevice {
                alloc_failures: (old(device).alloc_failures - 1) as u32,
                ..*old(device)
            }),
            r matches Ok(s) ==> {
                &&& s.texture.wf()
                &&& !s.texture.mapped
                &&& s.texture.desc == staging_of(first_frame(notifications@).unwrap().desc)
                &&& s.texture.desc.width == size.width
                &&& s.texture.desc.height == size.height
                &&& s.texture.desc.cpu_readable()
                &&& s.texture.row_pitch == staging_pitch
                &&& first_frame(notifications@).unwrap().same_pixels(s.texture)
                &&& *final(device) == (GraphicsDevice {
                    allocations: (old(device).allocations + 1) as u64,
                    ..*old(device)
                })
            },
    {
        let mut session = CaptureSession::arm(*target, size);
        session.start_capture();
        let mut pending = notifications;
        while pending.len() > 0
            invariant
                session.wf(),
                session.phase is Capturing,
                session.pool.size == size,
                forall|i: int|
                    0 <= i < pending@.len() ==> (#[trigger] pending@[i] matches Some(f)
                        ==> frame_fits(f, size, staging_pitch)),
                old(device).allocations < u64::MAX,
                session.slot.value is None ==> {
                    &&& *device == *old(device)
                    &&& session.subscription.state is Started
                    &&& first_frame(pending@) == first_frame(notifications@)
                },
                session.slot.value is Some ==> {
                    &&& first_frame(notifications@) is Some
                    &&& old(device).alloc_failures > 0 ==> session.slot.value == Some(
                        Err::<GpuTexture, CaptureError>(CaptureError::ResourceAllocation),
                    ) && *device == (GraphicsDevice {
                        alloc_failures: (old(device).alloc_failures - 1) as u32,
                        ..*old(device)
                    })
                    &&& old(device).alloc_failures == 0 ==> (session.slot.value matches Some(Ok(t))
                        && t.desc == staging_of(first_frame(notifications@).unwrap().desc)
                        && t.row_pitch == staging_pitch && first_frame(
                        notifications@,
                    ).unwrap().same_pixels(t) && *device == (GraphicsDevice {
                        allocations: (old(device).allocations + 1) as u64,
                        ..*old(device)
                    }))
                },
            decreases pending@.len(),
        {
            let ghost pre = pending@;
            let ev = pending.remove(0);
            let ghost evg = ev;
            proof {
                assert(pending@ =~= pre.subrange(1, pre.len() as int));
            }
            session.on_frame_arrived(device, ev, staging_pitch);
            proof {
                if evg is None {
                    assert(first_frame(pre) == first_frame(pre.subrange(1, pre.len() as int)));
                } else {
                    assert(first_frame(pre) == pre[0]);
                }
            }
        }
        if session.signalled() {
            match session.receive() {
                Ok(texture) => Ok(PixelSurface { texture }),
                Err(e) => Err(e),
            }
        } else {
            // No frame ever arrived: the bounded wait is over.  Close the
            // subscription and pool on this exit path too.
            session.abort();
            Err(CaptureError::CaptureTimeout)
        }
    }
}

} // verus!
