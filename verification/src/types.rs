use vstd::prelude::*;

verus! {

/// Enumerated pixel formats carried by the image and tile registers.
/// A three-bit code outside the enumeration is recoverable: the decoder
/// substitutes `Rgba` and goes on.
#[derive(Clone, Copy, Debug, PartialEq, Eq, Structural)]
pub enum DpColorFormat {
    Rgba,
    Yuv,
    ColorIndex,
    IntensityAlpha,
    Intensity,
}

/// Rendering cycle mode, consumed by Fill Rectangle's mode branch.
#[derive(Clone, Copy, Debug, PartialEq, Eq, Structural)]
pub enum CycleMode {
    One,
    Two,
    Copy,
    Fill,
}

/// A corner-inclusive rectangle in 30.2 fixed point.  Each field holds the
/// raw bit pattern of a coordinate; the coordinate's value is the field
/// divided by four.
#[derive(Clone, Copy, Debug, PartialEq, Eq, Structural)]
pub struct FixedRect {
    pub x0: u32,
    pub y0: u32,
    pub x1: u32,
    pub y1: u32,
}

/// An image register: one describes the render target, one the texture
/// source.  Replaced wholesale by Set Color Image / Set Texture Image.
#[derive(Clone, Copy, Debug, PartialEq, Eq, Structural)]
pub struct ImageFormat {
    pub color_format: DpColorFormat,
    /// Bits per pixel, one of 4, 8, 16 or 32.
    pub bpp: u32,
    /// Width in pixels, at least 1 (a ten-bit field plus one).
    pub width: u32,
    /// Byte offset of the image in system memory (a 26-bit field).
    pub dram_addr: u32,
}

impl ImageFormat {
    /// Data-model invariant: the decoder can only produce these shapes.
    pub open spec fn inv(&self) -> bool {
        &&& self.bpp == 4 || self.bpp == 8 || self.bpp == 16 || self.bpp == 32
        &&& 1 <= self.width <= 1024
        &&& self.dram_addr < 0x4000000
    }

    /// Bytes per row of the image.
    pub open spec fn spec_pitch(&self) -> int {
        self.width * self.bpp / 8
    }

    pub fn pitch(&self) -> (r: u32)
        requires
            self.inv(),
        ensures
            r == self.spec_pitch(),
    {
        self.width * self.bpp / 8
    }
}

/// Configuration of one of the eight tiles of the texture cache.
/// Set Tile replaces every field but `rect`; Load Tile replaces `rect`
/// with the rectangle it was asked to load.
#[derive(Clone, Copy, Debug, PartialEq, Eq, Structural)]
pub struct TileDescriptor {
    pub color_format: DpColorFormat,
    /// Bits per texel, one of 4, 8, 16 or 32.
    pub bpp: u32,
    /// Bytes per row inside the texture cache, a multiple of 8.
    pub pitch: u32,
    /// Byte offset inside the texture cache, a multiple of 8.
    pub tmem_addr: u32,
    /// Palette index, a four-bit field.
    pub palette: u32,
    pub clamp_s: bool,
    pub clamp_t: bool,
    pub mirror_s: bool,
    pub mirror_t: bool,
    /// Wrap mask per axis, always of the form 2^n - 1.
    pub mask_s: u32,
    pub mask_t: u32,
    /// Coordinate shift per axis, a four-bit field.
    pub shift_s: u32,
    pub shift_t: u32,
    /// The last rectangle loaded into this tile by Load Tile.
    pub rect: FixedRect,
}

impl TileDescriptor {
    /// Data-model invariant: the decoder can only produce these shapes.
    pub open spec fn inv(&self) -> bool {
        &&& self.bpp == 4 || self.bpp == 8 || self.bpp == 16 || self.bpp == 32
        &&& self.pitch % 8 == 0 && self.pitch <= 4088
        &&& self.tmem_addr % 8 == 0 && self.tmem_addr <= 4088
        &&& self.palette <= 15
        &&& exists|n: u32| n < 16 && self.mask_s == (1u32 << n) - 1
        &&& exists|n: u32| n < 16 && self.mask_t == (1u32 << n) - 1
        &&& self.shift_s <= 15 && self.shift_t <= 15
    }
}

/// State forwarded to the external pixel pipeline.  The core records what
/// it hands over; the per-pixel combine and blend math happens outside.
#[derive(Clone, Copy, Debug, PartialEq, Eq, Structural)]
pub struct PipelineConfig {
    /// Raw Set Other Modes word.
    pub other_modes: u64,
    /// Raw Set Combine Mode word.
    pub combine: u64,
    /// Blend color, converted to the pipeline's RGBA channel order.
    pub blend_color: u32,
}

/// A fatal configuration fault.  It ends the command's processing and is
/// surfaced to the embedding system; the core never aborts the process.
#[derive(Clone, Copy, Debug, PartialEq, Eq, Structural)]
pub enum DpFault {
    /// Load Tile: the tile's and the texture image's texel sizes are not a
    /// supported combination (both must be 8 or both 16 bits per texel).
    LoadTileBppMismatch,
    /// Fill Rectangle: a rectangle coordinate does not survive the
    /// fixed-point rescale exactly.
    FillRectUnaligned,
    /// Fill Rectangle issued in Two or Copy cycle mode.
    FillRectUnsupportedMode,
    /// A buffer region the command needs does not resolve within memory
    /// or within the texture cache.
    MemoryRange,
}

/// A fully decoded Texture Rectangle invocation, handed to the external
/// slope rasterizer by the embedding system.
#[derive(Clone, Copy, Debug, PartialEq, Eq, Structural)]
pub struct TexRectCmd {
    /// Tile index, 0 to 7.
    pub tile: u32,
    /// Destination rectangle as an exclusive extent in raw 30.2 bits:
    /// the decoded corner-inclusive rectangle with one whole pixel taken
    /// off its width and height.
    pub rect: FixedRect,
    /// Base texture coordinate, raw bits of a signed 6.10 value.
    pub s: u16,
    pub t: u16,
    /// Per-step texture deltas, raw bits of signed 6.10 values.
    pub dsdx: u16,
    pub dtdy: u16,
    /// Source texel block: the tile's loaded rectangle, as inclusive
    /// texel counts, at `tmem_addr` with `tmem_pitch` inside the cache.
    pub tex_width: u32,
    pub tex_height: u32,
    pub tmem_addr: u32,
    pub tmem_pitch: u32,
    pub src_color_format: DpColorFormat,
    pub src_bpp: u32,
    /// Destination image register at the time of the command.
    pub fb: ImageFormat,
    /// The fixed working area the rasterizer draws over, in pixels.
    /// It is a constant of this core, not derived from any register.
    pub dst_width: u32,
    pub dst_height: u32,
}

/// A fill issued in One cycle mode: it goes through the pixel-pipeline
/// aware fill routine of the external rasterizer, not a flat write.
#[derive(Clone, Copy, Debug, PartialEq, Eq, Structural)]
pub struct PipelineFillCmd {
    /// Whole-pixel destination rectangle in raw 30.2 bits.
    pub rect: FixedRect,
    /// The fill color register, to be read in ABGR channel order.
    pub color_abgr: u32,
    /// Destination image register at the time of the command.
    pub fb: ImageFormat,
    /// The fixed working area the rasterizer draws over, in pixels.
    pub dst_width: u32,
    pub dst_height: u32,
}

/// What one submitted word led to.
#[derive(Clone, Copy, Debug, PartialEq, Eq, Structural)]
pub enum DpEvent {
    /// A multi-word command is waiting for its continuation.
    Pending,
    /// The command's whole effect happened inside the core.
    Applied,
    /// The opcode is not implemented; the command was dropped.
    Unknown(u8),
    /// The external slope rasterizer must draw this textured rectangle.
    TextureRectangle(TexRectCmd),
    /// The external rasterizer must run this fill through the pipeline.
    PipelineFill(PipelineFillCmd),
}

} // verus!
