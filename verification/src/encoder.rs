use vstd::prelude::*;

use crate::device::GraphicsDevice;
use crate::errors::CaptureError;
use crate::repack::{bgra_to_rgba, repack_rows};
use crate::snapshot::PixelSurface;
use crate::texture::GpuTexture;

verus! {

/// The byte at tightly packed offset `cc` of row `rr` of the encoder's
/// output: the texture's BGRA bytes with blue and red swapped into RGBA
/// order, rows packed to exactly `width * 4` bytes.
pub open spec fn rgba_byte_of(t: GpuTexture, rr: int, cc: int) -> u8 {
    let p = cc / 4;
    let k = cc % 4;
    if k == 0 {
        t.byte_at(rr, 4 * p + 2)
    } else if k == 2 {
        t.byte_at(rr, 4 * p)
    } else {
        t.byte_at(rr, cc)
    }
}

/// The CPU half of serializing a snapshot: map the surface's staging
/// texture for read, repack each pitched row to its logical `width * 4`
/// bytes, convert BGRA byte order to RGBA, and unmap the texture before
/// returning, on the failure path as well as on success.  The returned
/// bytes are what the image container gets to write.
pub fn surface_to_rgba(device: &GraphicsDevice, surface: &mut PixelSurface) -> (r: Result<
    Vec<u8>,
    CaptureError,
>)
    requires
        old(surface).texture.wf(),
        (old(surface).texture.desc.width * 4) * old(surface).texture.desc.height <= usize::MAX,
    ensures
        *final(surface) == *old(surface),
        r is Ok <==> old(surface).texture.desc.cpu_readable() && !old(surface).texture.mapped,
        r is Err ==> r == Err::<Vec<u8>, CaptureError>(CaptureError::InvalidMapTarget),
        r matches Ok(bytes) ==> {
            &&& bytes@.len() == old(surface).texture.desc.height * (old(
                surface,
            ).texture.desc.width * 4)
            &&& forall|rr: int, cc: int|
                0 <= rr < old(surface).texture.desc.height && 0 <= cc < old(
                    surface,
                ).texture.desc.width * 4 ==> bytes@[rr * (old(surface).texture.desc.width * 4) + cc]
                    == rgba_byte_of(old(surface).texture, rr, cc)
        },
{
    let buf = match device.map_for_read(&mut surface.texture) {
        Ok(b) => b,
        Err(e) => {
            return Err(e);
        },
    };
    let packed = repack_rows(&buf);
    let ghost w4 = surface.texture.desc.width * 4int;
    let ghost h = surface.texture.desc.height as int;
    proof {
        assert(packed@.len() % 4 == 0) by {
            let width = surface.texture.desc.width as int;
            assert(h * w4 == 4 * (h * width)) by (nonlinear_arith)
                requires
                    w4 == width * 4,
            ;
            assert((4 * (h * width)) % 4 == 0);
        }
    }
    let rgba = bgra_to_rgba(&packed);
    device.unmap(&mut surface.texture);
    proof {
        let t = old(surface).texture;
        assert forall|rr: int, cc: int| 0 <= rr < h && 0 <= cc < w4 implies rgba@[rr * w4 + cc]
            == rgba_byte_of(t, rr, cc) by {
            let pc = cc / 4;
            let k = cc % 4;
            let width = t.desc.width as int;
            let q = rr * width + pc;
            assert(cc == 4 * pc + k && 0 <= k < 4);
            assert(0 <= pc && pc < width) by (nonlinear_arith)
                requires
                    cc == 4 * pc + k,
                    0 <= k < 4,
                    0 <= cc < w4,
                    w4 == width * 4,
            ;
            assert(rr * w4 + cc == 4 * q + k) by (nonlinear_arith)
                requires
                    w4 == width * 4,
                    q == rr * width + pc,
                    cc == 4 * pc + k,
            ;
            assert(4 * q + 4 <= h * w4) by (nonlinear_arith)
                requires
                    q == rr * width + pc,
                    0 <= pc < width,
                    0 <= rr < h,
                    w4 == width * 4,
            ;
            assert(4 * pc + 4 <= w4) by (nonlinear_arith)
                requires
                    0 <= pc < width,
                    w4 == width * 4,
            ;
            assert(rgba@[4 * q] == packed@[4 * q + 2]);
            assert(rgba@[4 * q + 1] == packed@[4 * q + 1]);
            assert(rgba@[4 * q + 2] == packed@[4 * q]);
            assert(rgba@[4 * q + 3] == packed@[4 * q + 3]);
            assert(packed@[rr * (buf.width * 4) + (4 * pc)] == buf.byte_at(rr, 4 * pc));
            assert(packed@[rr * (buf.width * 4) + (4 * pc + 1)] == buf.byte_at(rr, 4 * pc + 1));
            assert(packed@[rr * (buf.width * 4) + (4 * pc + 2)] == buf.byte_at(rr, 4 * pc + 2));
            assert(packed@[rr * (buf.width * 4) + (4 * pc + 3)] == buf.byte_at(rr, 4 * pc + 3));
            assert(4 * q == rr * w4 + 4 * pc);
            assert(rgba@[rr * w4 + cc] == rgba_byte_of(t, rr, cc));
        }
    }
    Ok(rgba)
}

} // verus!
