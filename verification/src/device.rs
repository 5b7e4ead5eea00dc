use vstd::prelude::*;

use crate::errors::CaptureError;
use crate::texture::{staging_of, GpuTexture, RawPixelBuffer, TextureDescriptor};

verus! {

/// The GPU device and its immediate execution context, modeled by what the
/// capture protocol observes of it: how many staging textures it has handed
/// out, and (for fault injection) how many upcoming allocations will fail.
///
/// The device creates GPU resources and performs GPU-side copies; it knows
/// nothing of capture semantics.
pub struct GraphicsDevice {
    /// Number of staging textures this device has allocated so far.
    pub allocations: u64,
    /// How many of the next allocations will fail with `ResourceAllocation`.
    pub alloc_failures: u32,
}

impl GraphicsDevice {
    /// Bind a device to the default adapter.  `adapter_available` stands for
    /// the machine's state: with no compatible adapter or driver the device
    /// cannot be created.
    pub fn create(adapter_available: bool) -> (r: Result<GraphicsDevice, CaptureError>)
        ensures
            r is Ok <==> adapter_available,
            r is Ok ==> r.unwrap().allocations == 0 && r.unwrap().alloc_failures == 0,
            r is Err ==> r == Err::<GraphicsDevice, CaptureError>(CaptureError::DeviceCreation),
    {
        if adapter_available {
            Ok(GraphicsDevice { allocations: 0, alloc_failures: 0 })
        } else {
            Err(CaptureError::DeviceCreation)
        }
    }

    /// Arrange for the next `n` allocations on this device to fail, as an
    /// out-of-memory condition would make them.
    pub fn inject_alloc_failures(&mut self, n: u32)
        ensures
            *final(self) == (GraphicsDevice { alloc_failures: n, ..*old(self) }),
    {
        self.alloc_failures = n;
    }

    /// Allocate a staging texture shaped after `src`: identical image shape,
    /// CPU-read staging usage, no bind flags.  The device chooses the row
    /// pitch of the new texture; `row_pitch` stands for that choice.  Its
    /// fresh contents are unspecified.
    pub fn create_staging_texture(&mut self, src: &GpuTexture, row_pitch: usize) -> (r: Result<
        GpuTexture,
        CaptureError,
    >)
        requires
            src.wf(),
            row_pitch >= src.desc.width * 4,
            row_pitch * src.desc.height <= usize::MAX,
            old(self).allocations < u64::MAX,
        ensures
            r is Ok <==> old(self).alloc_failures == 0,
            r is Err ==> r == Err::<GpuTexture, CaptureError>(CaptureError::ResourceAllocation)
                && *final(self) == (GraphicsDevice {
                alloc_failures: (old(self).alloc_failures - 1) as u32,
                ..*old(self)
            }),
            r is Ok ==> {
                &&& *final(self) == (GraphicsDevice {
                    allocations: (old(self).allocations + 1) as u64,
                    ..*old(self)
                })
                &&& r.unwrap().wf()
                &&& r.unwrap().desc == staging_of(src.desc)
                &&& r.unwrap().row_pitch == row_pitch
                &&& !r.unwrap().mapped
            },
    {
        if self.alloc_failures > 0 {
            self.alloc_failures = self.alloc_failures - 1;
            return Err(CaptureError::ResourceAllocation);
        }
        self.allocations = self.allocations + 1;
        let len: usize = row_pitch * src.desc.height as usize;
        let data: Vec<u8> = alloc_bytes(len);
        let desc = TextureDescriptor {
            width: src.desc.width,
            height: src.desc.height,
            format: src.desc.format,
            usage: crate::texture::TextureUsage::Staging,
            bind_flags: 0,
            cpu_read: true,
        };
        Ok(GpuTexture { desc, row_pitch, data, mapped: false })
    }

    /// Full-resource copy from `src` into `dst`.  The copy is refused with
    /// `CopyMismatch` unless the two image shapes agree; on success every
    /// row's first `width * 4` bytes in `dst` equal those of `src`, and the
    /// shape, pitch and mapping state of `dst` are untouched.
    pub fn copy_resource(&self, dst: &mut GpuTexture, src: &GpuTexture) -> (r: Result<
        (),
        CaptureError,
    >)
        requires
            src.wf(),
            old(dst).wf(),
            !old(dst).mapped,
        ensures
            r is Ok <==> old(dst).desc.same_image(src.desc),
            r is Err ==> r == Err::<(), CaptureError>(CaptureError::CopyMismatch) && *final(dst)
                == *old(dst),
            r is Ok ==> {
                &&& final(dst).desc == old(dst).desc
                &&& final(dst).row_pitch == old(dst).row_pitch
                &&& !final(dst).mapped
                &&& final(dst).wf()
                &&& src.same_pixels(*final(dst))
            },
    {
        if !(dst.desc.width == src.desc.width && dst.desc.height == src.desc.height
            && dst.desc.format == src.desc.format) {
            return Err(CaptureError::CopyMismatch);
        }
        let height: usize = dst.desc.height as usize;
        let row_bytes: usize = dst.desc.width as usize * 4;
        let dst_pitch: usize = dst.row_pitch;
        let src_pitch: usize = src.row_pitch;
        let src_len: usize = src.data.len();
        let mut data: Vec<u8> = Vec::new();
        let mut r: usize = 0;
        while r < height
            invariant
                src.wf(),
                old(dst).wf(),
                0 <= r <= height,
                height == dst.desc.height,
                row_bytes == dst.desc.width * 4,
                dst_pitch == old(dst).row_pitch,
                src_pitch == src.row_pitch,
                src_len == src.data@.len(),
                src.desc.width == old(dst).desc.width,
                src.desc.height == old(dst).desc.height,
                data@.len() == r * dst_pitch,
                forall|rr: int, cc: int|
                    0 <= rr < r && 0 <= cc < row_bytes ==> data@[rr * dst_pitch + cc]
                        == src.byte_at(rr, cc),
            decreases height - r,
        {
            let mut c: usize = 0;
            while c < dst_pitch
                invariant
                    src.wf(),
                    old(dst).wf(),
                    0 <= r < height,
                    0 <= c <= dst_pitch,
                    height == dst.desc.height,
                    row_bytes == dst.desc.width * 4,
                    dst_pitch == old(dst).row_pitch,
                    src_pitch == src.row_pitch,
                    src_len == src.data@.len(),
                    src.desc.width == old(dst).desc.width,
                    src.desc.height == old(dst).desc.height,
                    data@.len() == r * dst_pitch + c,
                    forall|rr: int, cc: int|
                        0 <= rr < r && 0 <= cc < row_bytes ==> data@[rr * dst_pitch + cc]
                            == src.byte_at(rr, cc),
                    forall|cc: int|
                        0 <= cc < c && cc < row_bytes ==> data@[r * dst_pitch + cc] == src.byte_at(
                            r as int,
                            cc,
                        ),
                decreases dst_pitch - c,
            {
                proof {
                    crate::texture::lemma_row_index_in_bounds(
                        r as int,
                        c as int,
                        dst_pitch as int,
                        height as int,
                    );
                }
                if c < row_bytes {
                    proof {
                        crate::texture::lemma_row_index_in_bounds(
                            r as int,
                            c as int,
                            src_pitch as int,
                            src.desc.height as int,
                        );
                        assert(src.desc.height * src_pitch == src_pitch * src.desc.height)
                            by (nonlinear_arith);
                        assert(r * src_pitch + c < src_len);
                    }
                    let b: u8 = src.data[r * src_pitch + c];
                    data.push(b);
                } else {
                    data.push(0u8);
                }
                proof {
                    assert forall|rr: int, cc: int|
                        0 <= rr < r && 0 <= cc < row_bytes implies #[trigger] (rr * dst_pitch + cc)
                        < r * dst_pitch by {
                        crate::texture::lemma_row_index_in_bounds(rr, cc, dst_pitch as int, r as int);
                    }
                }
                c = c + 1;
            }
            proof {
                assert((r + 1) * dst_pitch == r * dst_pitch + dst_pitch) by (nonlinear_arith);
            }
            r = r + 1;
        }
        proof {
            assert(data@.len() == height * dst_pitch);
            assert(height * dst_pitch == dst_pitch * height) by (nonlinear_arith);
        }
        dst.data = data;
        proof {
            assert(dst.wf());
            assert forall|rr: int, cc: int|
                0 <= rr < src.desc.height && 0 <= cc < src.row_bytes() implies src.byte_at(rr, cc)
                == dst.byte_at(rr, cc) by {
                crate::texture::lemma_row_index_in_bounds(
                    rr,
                    cc,
                    dst_pitch as int,
                    height as int,
                );
            }
        }
        Ok(())
    }

    /// Map a staging texture so the CPU can read its bytes.  Fails with
    /// `InvalidMapTarget` unless the texture is CPU-readable staging memory
    /// that is not already mapped; on success the returned view carries the
    /// texture's bytes and row pitch, and the texture is marked mapped until
    /// `unmap` releases it.
    pub fn map_for_read(&self, tex: &mut GpuTexture) -> (r: Result<RawPixelBuffer, CaptureError>)
        requires
            old(tex).wf(),
        ensures
            r is Ok <==> old(tex).desc.cpu_readable() && !old(tex).mapped,
            r is Err ==> r == Err::<RawPixelBuffer, CaptureError>(CaptureError::InvalidMapTarget)
                && *final(tex) == *old(tex),
            r is Ok ==> {
                &&& *final(tex) == (GpuTexture { mapped: true, ..*old(tex) })
                &&& r.unwrap().bytes@ == old(tex).data@
                &&& r.unwrap().row_pitch == old(tex).row_pitch
                &&& r.unwrap().width == old(tex).desc.width
                &&& r.unwrap().height == old(tex).desc.height
                &&& r.unwrap().wf()
            },
    {
        let readable = match tex.desc.usage {
            crate::texture::TextureUsage::Staging => tex.desc.cpu_read,
            crate::texture::TextureUsage::Default => false,
        };
        if !readable || tex.mapped {
            return Err(CaptureError::InvalidMapTarget);
        }
        let bytes = clone_bytes(&tex.data);
        tex.mapped = true;
        Ok(RawPixelBuffer {
            bytes,
            row_pitch: tex.row_pitch,
            width: tex.desc.width,
            height: tex.desc.height,
        })
    }

    /// Release the one outstanding mapping of `tex`.  Must follow a
    /// successful `map_for_read`; afterwards the texture may be mapped again.
    pub fn unmap(&self, tex: &mut GpuTexture)
        requires
            old(tex).wf(),
            old(tex).mapped,
        ensures
            *final(tex) == (GpuTexture { mapped: false, ..*old(tex) }),
    {
        tex.mapped = false;
    }
}

/// A zero-filled byte buffer of the given length.
fn alloc_bytes(len: usize) -> (v: Vec<u8>)
    ensures
        v@.len() == len,
{
    let mut v: Vec<u8> = Vec::new();
    let mut i: usize = 0;
    while i < len
        invariant
            0 <= i <= len,
            v@.len() == i,
        decreases len - i,
    {
        v.push(0u8);
        i = i + 1;
    }
    v
}

/// An element-for-element copy of a byte buffer.
fn clone_bytes(src: &Vec<u8>) -> (v: Vec<u8>)
    ensures
        v@ == src@,
{
    let mut v: Vec<u8> = Vec::new();
    let mut i: usize = 0;
    while i < src.len()
        invariant
            0 <= i <= src@.len(),
            v@.len() == i,
            forall|j: int| 0 <= j < i ==> v@[j] == src@[j],
        decreases src@.len() - i,
    {
        let b: u8 = src[i];
        v.push(b);
        i = i + 1;
    }
    proof {
        assert(v@ =~= src@);
    }
    v
}

/// Law: unmapping releases the device-level lock completely.  On any
/// CPU-readable staging texture the sequence map, unmap, map, unmap succeeds
/// as a whole: the second map is as good as the first.
pub fn remap_after_unmap(device: &GraphicsDevice, tex: &mut GpuTexture) -> (r: (
    Result<RawPixelBuffer, CaptureError>,
    Result<RawPixelBuffer, CaptureError>,
))
    requires
        old(tex).wf(),
        old(tex).desc.cpu_readable(),
        !old(tex).mapped,
    ensures
        r.0 is Ok,
        r.1 is Ok,
        !final(tex).mapped,
        *final(tex) == *old(tex),
{
    let first = device.map_for_read(tex);
    device.unmap(tex);
    let second = device.map_for_read(tex);
    device.unmap(tex);
    (first, second)
}

} // verus!
