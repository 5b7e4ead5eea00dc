use vstd::prelude::*;

verus! {

/// Format code of the one pixel format the capture pipeline uses:
/// 32-bit BGRA, unsigned normalized (the DXGI code for that layout).
pub const BGRA8_UNORM: u32 = 87;

/// Usage class of a texture.
#[derive(Clone, Copy, Debug, PartialEq, Eq, Structural)]
pub enum TextureUsage {
    /// GPU-only memory; the CPU cannot map it.
    Default,
    /// Staging memory whose bytes the CPU can map.
    Staging,
}

/// The part of a texture descriptor the capture protocol reasons about:
/// image shape plus access class.
#[derive(Clone, Copy, Debug, PartialEq, Eq, Structural)]
pub struct TextureDescriptor {
    pub width: u32,
    pub height: u32,
    pub format: u32,
    pub usage: TextureUsage,
    pub bind_flags: u32,
    pub cpu_read: bool,
}

impl TextureDescriptor {
    /// Two textures may take part in a full-resource copy exactly when their
    /// image shapes agree.
    pub open spec fn same_image(self, other: Self) -> bool {
        self.width == other.width && self.height == other.height && self.format == other.format
    }

    /// A descriptor the CPU may map for reading.
    pub open spec fn cpu_readable(self) -> bool {
        self.usage is Staging && self.cpu_read
    }
}

/// The staging counterpart of a descriptor: identical image shape, but
/// CPU-readable staging memory with no GPU bind flags.
pub open spec fn staging_of(src: TextureDescriptor) -> TextureDescriptor {
    TextureDescriptor {
        usage: TextureUsage::Staging,
        bind_flags: 0,
        cpu_read: true,
        ..src
    }
}

/// A 2D GPU pixel buffer, modeled with its bytes laid out row by row at a
/// fixed row pitch, together with its CPU-mapping state.
pub struct GpuTexture {
    pub desc: TextureDescriptor,
    /// Bytes between the starts of consecutive rows; at least `width * 4`.
    pub row_pitch: usize,
    /// `row_pitch * height` bytes of backing storage.
    pub data: Vec<u8>,
    /// Whether the CPU currently holds a mapping of this texture.
    pub mapped: bool,
}

impl GpuTexture {
    /// Number of meaningful bytes in each row.
    pub open spec fn row_bytes(self) -> int {
        self.desc.width * 4
    }

    /// Storage layout invariant.
    pub open spec fn wf(self) -> bool {
        &&& self.row_pitch >= self.desc.width * 4
        &&& self.data@.len() == self.row_pitch * self.desc.height
    }

    /// Byte `c` of row `r`.
    pub open spec fn byte_at(self, r: int, c: int) -> u8 {
        self.data@[r * self.row_pitch + c]
    }

    /// The visible image of `self` equals that of `other`: for every row the
    /// first `width * 4` bytes agree, whatever either row pitch is.
    pub open spec fn same_pixels(self, other: Self) -> bool {
        forall|r: int, c: int|
            0 <= r < self.desc.height && 0 <= c < self.row_bytes() ==> self.byte_at(r, c)
                == other.byte_at(r, c)
    }
}

/// A CPU-resident view of a mapped staging texture: the raw bytes together
/// with the row pitch the rows are laid out at.
pub struct RawPixelBuffer {
    pub bytes: Vec<u8>,
    pub row_pitch: usize,
    pub width: u32,
    pub height: u32,
}

impl RawPixelBuffer {
    /// Number of meaningful bytes in each row.
    pub open spec fn row_bytes(self) -> int {
        self.width * 4
    }

    /// Storage layout invariant.
    pub open spec fn wf(self) -> bool {
        &&& self.row_pitch >= self.width * 4
        &&& self.bytes@.len() == self.row_pitch * self.height
    }

    /// Byte `c` of row `r`.
    pub open spec fn byte_at(self, r: int, c: int) -> u8 {
        self.bytes@[r * self.row_pitch + c]
    }
}

/// Any in-range row/column pair addresses a byte inside a pitched buffer.
pub proof fn lemma_row_index_in_bounds(r: int, c: int, pitch: int, height: int)
    requires
        0 <= r < height,
        0 <= c < pitch,
    ensures
        0 <= r * pitch + c < height * pitch,
{
    assert(0 <= r * pitch + c < height * pitch) by (nonlinear_arith)
        requires
            0 <= r < height,
            0 <= c < pitch,
    ;
}

} // verus!
