use vstd::prelude::*;

use crate::texture::RawPixelBuffer;

verus! {

/// Repack a mapped staging buffer into tightly packed rows.
///
/// The GPU lays rows out `row_pitch` bytes apart, which may exceed the
/// logical `width * 4`; the output holds exactly `width * 4` bytes per row,
/// each row copied from the first `width * 4` bytes of the corresponding
/// pitched row, for every row up to `height`.
pub fn repack_rows(buf: &RawPixelBuffer) -> (out: Vec<u8>)
    requires
        buf.wf(),
        (buf.width * 4) * buf.height <= usize::MAX,
    ensures
        out@.len() == buf.height * (buf.width * 4),
        forall|r: int, c: int|
            0 <= r < buf.height && 0 <= c < buf.width * 4 ==> out@[r * (buf.width * 4) + c]
                == buf.byte_at(r, c),
{
    let height: usize = buf.height as usize;
    let row_bytes: usize = buf.width as usize * 4;
    let pitch: usize = buf.row_pitch;
    let src_len: usize = buf.bytes.len();
    let mut out: Vec<u8> = Vec::new();
    let mut r: usize = 0;
    while r < height
        invariant
            buf.wf(),
            0 <= r <= height,
            height == buf.height,
            row_bytes == buf.width * 4,
            pitch == buf.row_pitch,
            src_len == buf.bytes@.len(),
            out@.len() == r * row_bytes,
            forall|rr: int, cc: int|
                0 <= rr < r && 0 <= cc < row_bytes ==> out@[rr * row_bytes + cc] == buf.byte_at(
                    rr,
                    cc,
                ),
        decreases height - r,
    {
        let mut c: usize = 0;
        while c < row_bytes
            invariant
                buf.wf(),
                0 <= r < height,
                0 <= c <= row_bytes,
                height == buf.height,
                row_bytes == buf.width * 4,
                pitch == buf.row_pitch,
                src_len == buf.bytes@.len(),
                out@.len() == r * row_bytes + c,
                forall|rr: int, cc: int|
                    0 <= rr < r && 0 <= cc < row_bytes ==> out@[rr * row_bytes + cc] == buf.byte_at(
                        rr,
                        cc,
                    ),
                forall|cc: int|
                    0 <= cc < c ==> out@[r * row_bytes + cc] == buf.byte_at(r as int, cc),
            decreases row_bytes - c,
        {
            proof {
                crate::texture::lemma_row_index_in_bounds(r as int, c as int, pitch as int, height as int);
                assert(buf.height * pitch == pitch * buf.height) by (nonlinear_arith);
                assert(r * pitch + c < src_len);
            }
            let b: u8 = buf.bytes[r * pitch + c];
            out.push(b);
            proof {
                assert forall|rr: int, cc: int|
                    0 <= rr < r && 0 <= cc < row_bytes implies #[trigger] (rr * row_bytes + cc) < r
                    * row_bytes by {
                    crate::texture::lemma_row_index_in_bounds(rr, cc, row_bytes as int, r as int);
                }
            }
            c = c + 1;
        }
        proof {
            assert((r + 1) * row_bytes == r * row_bytes + row_bytes) by (nonlinear_arith);
        }
        r = r + 1;
    }
    proof {
        assert(out@.len() == height * row_bytes);
    }
    out
}

/// Swap each pixel's blue and red channels, turning 32-bit BGRA byte order
/// into the RGBA order the image container expects.  Green and alpha stay
/// where they are.
pub fn bgra_to_rgba(pixels: &Vec<u8>) -> (out: Vec<u8>)
    requires
        pixels@.len() % 4 == 0,
    ensures
        out@.len() == pixels@.len(),
        forall|p: int|
            #![trigger out@[4 * p]]
            0 <= p && 4 * p < pixels@.len() ==> {
                &&& out@[4 * p] == pixels@[4 * p + 2]
                &&& out@[4 * p + 1] == pixels@[4 * p + 1]
                &&& out@[4 * p + 2] == pixels@[4 * p]
                &&& out@[4 * p + 3] == pixels@[4 * p + 3]
            },
{
    let len: usize = pixels.len();
    let mut out: Vec<u8> = Vec::new();
    let mut i: usize = 0;
    while i < len
        invariant
            pixels@.len() == len,
            len % 4 == 0,
            i % 4 == 0,
            0 <= i <= len,
            out@.len() == i,
            forall|p: int|
                #![trigger out@[4 * p]]
                0 <= p && 4 * p < i ==> {
                    &&& out@[4 * p] == pixels@[4 * p + 2]
                    &&& out@[4 * p + 1] == pixels@[4 * p + 1]
                    &&& out@[4 * p + 2] == pixels@[4 * p]
                    &&& out@[4 * p + 3] == pixels@[4 * p + 3]
                },
        decreases len - i,
    {
        proof {
            assert(i + 3 < len) by {
                assert(i < len && i % 4 == 0 && len % 4 == 0);
                assert(len - i >= 4) by (nonlinear_arith)
                    requires
                        i < len,
                        i % 4 == 0,
                        len % 4 == 0,
                ;
            }
        }
        let blue: u8 = pixels[i];
        let green: u8 = pixels[i + 1];
        let red: u8 = pixels[i + 2];
        let alpha: u8 = pixels[i + 3];
        out.push(red);
        out.push(green);
        out.push(blue);
        out.push(alpha);
        proof {
            assert((i + 4) % 4 == 0) by (nonlinear_arith)
                requires
                    i % 4 == 0,
            ;
            assert forall|p: int| #![trigger out@[4 * p]] 0 <= p && 4 * p < i + 4 implies {
                &&& out@[4 * p] == pixels@[4 * p + 2]
                &&& out@[4 * p + 1] == pixels@[4 * p + 1]
                &&& out@[4 * p + 2] == pixels@[4 * p]
                &&& out@[4 * p + 3] == pixels@[4 * p + 3]
            } by {
                if 4 * p < i {
                    assert(4 * p + 4 <= i) by (nonlinear_arith)
                        requires
                            4 * p < i,
                            i % 4 == 0,
                    ;
                } else {
                    assert(4 * p == i) by (nonlinear_arith)
                        requires
                            i <= 4 * p < i + 4,
                            i % 4 == 0,
                    ;
                }
                assert(out@[4 * p] == pixels@[4 * p + 2]);
                assert(out@[4 * p + 1] == pixels@[4 * p + 1]);
                assert(out@[4 * p + 2] == pixels@[4 * p]);
                assert(out@[4 * p + 3] == pixels@[4 * p + 3]);
            }
        }
        i = i + 4;
    }
    out
}

} // verus!
