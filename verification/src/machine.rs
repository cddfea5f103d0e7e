use vstd::prelude::*;
use crate::types::{
    CycleMode, DpColorFormat, DpEvent, DpFault, FixedRect, ImageFormat, PipelineConfig,
    PipelineFillCmd, TexRectCmd, TileDescriptor,
};
use crate::raster::{copied_rows, copy_rect_rows, fill_rect_words, filled_rows};
use crate::bits::{lemma_size_code_bpp, lemma_u32_pow2_ge_one, lemma_u64_mask_le};

verus! {

/// The opcode of a command: the top six bits below the sign bit of the
/// command's first word.
pub open spec fn opcode_of(w: u64) -> u64 {
    (w >> 56) & 0x3f
}

/// The opcodes this core implements.
pub open spec fn is_known_opcode(op: u64) -> bool {
    ||| op == 0x24
    ||| op == 0x28
    ||| op == 0x2d
    ||| op == 0x2f
    ||| op == 0x34
    ||| op == 0x35
    ||| op == 0x36
    ||| op == 0x37
    ||| op == 0x39
    ||| op == 0x3c
    ||| op == 0x3d
    ||| op == 0x3f
}

/// How many 64-bit words an opcode needs before it runs.  Texture
/// Rectangle takes two; everything else, unknown opcodes included, one.
pub open spec fn words_required(op: u64) -> nat {
    if op == 0x24 {
        2
    } else {
        1
    }
}

/// Four 12-bit coordinate fields, top-left corner in the upper fields
/// (the Set Scissor and Load Tile layout).
pub open spec fn spec_rect_tl_first(w: u64) -> FixedRect {
    FixedRect {
        x0: ((w >> 44) & 0xfff) as u32,
        y0: ((w >> 32) & 0xfff) as u32,
        x1: ((w >> 12) & 0xfff) as u32,
        y1: (w & 0xfff) as u32,
    }
}

/// Four 12-bit coordinate fields, bottom-right corner in the upper fields
/// (the Texture Rectangle and Fill Rectangle layout).
pub open spec fn spec_rect_br_first(w: u64) -> FixedRect {
    FixedRect {
        x1: ((w >> 44) & 0xfff) as u32,
        y1: ((w >> 32) & 0xfff) as u32,
        x0: ((w >> 12) & 0xfff) as u32,
        y0: (w & 0xfff) as u32,
    }
}

/// The enumerated color format of a three-bit code.  Codes outside the
/// enumeration are recoverable and decode to the default `Rgba`.
pub open spec fn spec_color_format(bits: u64) -> DpColorFormat {
    if bits == 1 {
        DpColorFormat::Yuv
    } else if bits == 2 {
        DpColorFormat::ColorIndex
    } else if bits == 3 {
        DpColorFormat::IntensityAlpha
    } else if bits == 4 {
        DpColorFormat::Intensity
    } else {
        DpColorFormat::Rgba
    }
}

/// The image register decoded by Set Color Image / Set Texture Image.
pub open spec fn spec_image_format(w: u64) -> ImageFormat {
    ImageFormat {
        color_format: spec_color_format((w >> 53) & 7),
        bpp: 4u32 << (((w >> 51) & 3) as u32),
        width: (((w >> 32) & 0x3ff) + 1) as u32,
        dram_addr: (w & 0x3ffffff) as u32,
    }
}

/// The cycle-mode field of Set Other Modes.
pub open spec fn spec_cycle_mode(w: u64) -> CycleMode {
    let bits = (w >> 52) & 3;
    if bits == 0 {
        CycleMode::One
    } else if bits == 1 {
        CycleMode::Two
    } else if bits == 2 {
        CycleMode::Copy
    } else {
        CycleMode::Fill
    }
}

/// A packed 32-bit color reordered from ABGR to RGBA channel order.
pub open spec fn spec_abgr_to_rgba(c: u32) -> u32 {
    ((c & 0xff) << 24) | (((c >> 8) & 0xff) << 16) | (((c >> 16) & 0xff) << 8) | ((c >> 24)
        & 0xff)
}

/// A tile descriptor's format fields decoded by Set Tile; the loaded
/// rectangle is kept.
pub open spec fn spec_tile_update(t: TileDescriptor, w: u64) -> TileDescriptor {
    TileDescriptor {
        color_format: spec_color_format((w >> 53) & 7),
        bpp: 4u32 << (((w >> 51) & 3) as u32),
        pitch: (((w >> 41) & 0x1ff) * 8) as u32,
        tmem_addr: (((w >> 32) & 0x1ff) * 8) as u32,
        palette: ((w >> 20) & 0xf) as u32,
        clamp_s: (w >> 9) & 1 == 1,
        clamp_t: (w >> 19) & 1 == 1,
        mirror_s: (w >> 8) & 1 == 1,
        mirror_t: (w >> 18) & 1 == 1,
        mask_s: ((1u32 << (((w >> 4) & 0xf) as u32)) - 1) as u32,
        mask_t: ((1u32 << (((w >> 14) & 0xf) as u32)) - 1) as u32,
        shift_s: (w & 0xf) as u32,
        shift_t: ((w >> 10) & 0xf) as u32,
        rect: t.rect,
    }
}

/// How many corner-inclusive texels a 30.2 fixed-point span covers:
/// the truncated difference of the raw coordinates plus one.  The
/// subtraction wraps like the 32-bit hardware register it models.
pub open spec fn spec_span_texels(lo: u32, hi: u32) -> u32 {
    if hi >= lo {
        ((hi - lo) / 4 + 1) as u32
    } else {
        ((hi + 0x100000000 - lo) / 4 + 1) as u32
    }
}

/// A raw 30.2 coordinate less one whole pixel, wrapping like the 32-bit
/// hardware register it models.
pub open spec fn spec_wsub4(x: u32) -> u32 {
    if x >= 4 {
        (x - 4) as u32
    } else {
        (x + 0x100000000 - 4) as u32
    }
}

/// The whole observable register state of the core.
#[verifier::ext_equal]
pub ghost struct State {
    pub clip: FixedRect,
    pub fb: ImageFormat,
    pub tex: ImageFormat,
    pub tiles: Seq<TileDescriptor>,
    pub fill_color: u32,
    pub cycle_mode: CycleMode,
    pub pipeline: PipelineConfig,
    pub tmem: Seq<u8>,
    pub pending: Seq<u64>,
}

impl State {
    /// The state invariant: eight well-formed tiles, a 4096-byte texture
    /// cache, well-formed image registers, and at most one buffered word,
    /// which can only belong to the one two-word command.
    pub open spec fn wf(&self) -> bool {
        &&& self.tiles.len() == 8
        &&& self.tmem.len() == 4096
        &&& self.pending.len() <= 1
        &&& self.pending.len() == 1 ==> opcode_of(self.pending[0]) == 0x24
        &&& self.fb.inv()
        &&& self.tex.inv()
        &&& forall|i: int| 0 <= i < 8 ==> (#[trigger] self.tiles[i]).inv()
    }
}

/// The outcome of submitting one word: the registers after, the system
/// memory after, and what the caller is told.
#[verifier::ext_equal]
pub ghost struct Step {
    pub post: State,
    pub mem: Seq<u8>,
    pub out: Result<DpEvent, DpFault>,
}

/// Load Tile: store the requested rectangle in the tile, then copy its
/// texel rows from the texture image into the texture cache.  The width
/// actually copied truncates to the texture image's width.  `pre` is the
/// state with the pending buffer already cleared.
pub open spec fn load_tile_step(pre: State, mem: Seq<u8>, w: u64) -> Step {
    let idx = ((w >> 24) & 7) as int;
    let rect = spec_rect_tl_first(w);
    let tile = pre.tiles[idx];
    let st = State { tiles: pre.tiles.update(idx, TileDescriptor { rect, ..tile }), ..pre };
    let width = spec_span_texels(rect.x0, rect.x1);
    let height = spec_span_texels(rect.y0, rect.y1);
    let copy_width: u32 = if width <= pre.tex.width {
        width
    } else {
        pre.tex.width
    };
    if !(tile.bpp == pre.tex.bpp && (tile.bpp == 8 || tile.bpp == 16)) {
        Step { post: st, mem, out: Err(DpFault::LoadTileBppMismatch) }
    } else {
        let rowbytes = copy_width * (tile.bpp / 8);
        // the copy starts at the rectangle's top-left texel in the image
        let sbase = pre.tex.dram_addr + (rect.y0 / 4) * pre.tex.spec_pitch() + (rect.x0 / 4) * (
        tile.bpp / 8);
        if !(tile.pitch >= rowbytes && tile.tmem_addr + (height - 1) * tile.pitch + rowbytes
            <= 4096 && sbase + (height - 1) * pre.tex.spec_pitch() + rowbytes <= mem.len()) {
            Step { post: st, mem, out: Err(DpFault::MemoryRange) }
        } else {
            Step {
                post: State {
                    tmem: copied_rows(
                        st.tmem,
                        tile.tmem_addr as int,
                        tile.pitch as int,
                        mem,
                        sbase,
                        pre.tex.spec_pitch(),
                        rowbytes as int,
                        height as nat,
                    ),
                    ..st
                },
                mem,
                out: Ok(DpEvent::Applied),
            }
        }
    }
}

/// Fill Rectangle.  In Fill mode the framebuffer is addressed as packed
/// 32-bit words: the rectangle is rescaled by `32 / fb.bpp`, must rescale
/// to whole pixels exactly, and is filled flat with the fill color as a
/// big-endian RGBA word.  In One mode the whole-pixel rectangle is handed
/// to the external pipeline-aware fill.  Two and Copy modes are
/// unsupported.  `pre` is the state with the pending buffer cleared.
pub open spec fn fill_rect_step(pre: State, mem: Seq<u8>, w: u64) -> Step {
    let r = spec_rect_br_first(w);
    if pre.cycle_mode == CycleMode::Fill {
        let b = 32int / pre.fb.bpp as int;
        let rx0 = r.x0 as int / b;
        let ry0 = r.y0 as int / b;
        let rx1 = (r.x1 + 4) as int / b - 4;
        let ry1 = (r.y1 + 4) as int / b - 4;
        if !(rx0 % 4 == 0 && ry0 % 4 == 0 && rx1 >= 0 && rx1 % 4 == 0 && ry1 >= 0 && ry1 % 4
            == 0) {
            Step { post: pre, mem, out: Err(DpFault::FillRectUnaligned) }
        } else {
            let px0 = rx0 / 4;
            let py0 = ry0 / 4;
            let px1 = rx1 / 4;
            let py1 = ry1 / 4;
            // The fixed 320 x 240 working area, in 32-bit words.
            if !(px1 < 320int / b && py1 < 240 && pre.fb.dram_addr + py1 * pre.fb.spec_pitch() + 4
                * (px1 + 1) <= mem.len()) {
                Step { post: pre, mem, out: Err(DpFault::MemoryRange) }
            } else if px1 < px0 || py1 < py0 {
                Step { post: pre, mem, out: Ok(DpEvent::Applied) }
            } else {
                Step {
                    post: pre,
                    mem: filled_rows(
                        mem,
                        pre.fb.dram_addr as int,
                        pre.fb.spec_pitch(),
                        px0,
                        px1,
                        py0,
                        (py1 - py0 + 1) as nat,
                        pre.fill_color,
                    ),
                    out: Ok(DpEvent::Applied),
                }
            }
        }
    } else if pre.cycle_mode == CycleMode::One {
        if !(r.x0 % 4 == 0 && r.y0 % 4 == 0 && r.x1 % 4 == 0 && r.y1 % 4 == 0) {
            Step { post: pre, mem, out: Err(DpFault::FillRectUnaligned) }
        } else {
            Step {
                post: pre,
                mem,
                out: Ok(
                    DpEvent::PipelineFill(
                        PipelineFillCmd {
                            rect: r,
                            color_abgr: pre.fill_color,
                            fb: pre.fb,
                            dst_width: 320,
                            dst_height: 240,
                        },
                    ),
                ),
            }
        }
    } else {
        Step { post: pre, mem, out: Err(DpFault::FillRectUnsupportedMode) }
    }
}

/// The fully decoded Texture Rectangle invocation built from its two
/// words: the destination rectangle as an exclusive extent, the raw 6.10
/// texture coordinate and deltas, and the source block resolved from the
/// addressed tile.
pub open spec fn spec_tex_rect_cmd(pre: State, w0: u64, w1: u64) -> TexRectCmd {
    let tile_idx = ((w0 >> 24) & 7) as u32;
    let r = spec_rect_br_first(w0);
    let tile = pre.tiles[tile_idx as int];
    TexRectCmd {
        tile: tile_idx,
        rect: FixedRect { x0: r.x0, y0: r.y0, x1: spec_wsub4(r.x1), y1: spec_wsub4(r.y1) },
        s: ((w1 >> 48) & 0xffff) as u16,
        t: ((w1 >> 32) & 0xffff) as u16,
        dsdx: ((w1 >> 16) & 0xffff) as u16,
        dtdy: (w1 & 0xffff) as u16,
        tex_width: spec_span_texels(tile.rect.x0, tile.rect.x1),
        tex_height: spec_span_texels(tile.rect.y0, tile.rect.y1),
        tmem_addr: tile.tmem_addr,
        tmem_pitch: tile.pitch,
        src_color_format: tile.color_format,
        src_bpp: tile.bpp,
        fb: pre.fb,
        dst_width: 320,
        dst_height: 240,
    }
}

/// One submitted word, from any state: append it to the pending buffer;
/// if the command's word count is not yet reached, wait; otherwise run
/// the opcode's handler and clear the buffer.  This function is the whole
/// specification of `Rdp::op`.
pub open spec fn step(pre: State, mem: Seq<u8>, w: u64) -> Step {
    let buf = pre.pending.push(w);
    let op = opcode_of(buf[0]);
    if buf.len() < words_required(op) {
        Step { post: State { pending: buf, ..pre }, mem, out: Ok(DpEvent::Pending) }
    } else {
        let run = State { pending: Seq::empty(), ..pre };
        if op == 0x2d {
            Step {
                post: State { clip: spec_rect_tl_first(w), ..run },
                mem,
                out: Ok(DpEvent::Applied),
            }
        } else if op == 0x3d {
            Step { post: State { tex: spec_image_format(w), ..run }, mem, out: Ok(DpEvent::Applied) }
        } else if op == 0x3f {
            Step { post: State { fb: spec_image_format(w), ..run }, mem, out: Ok(DpEvent::Applied) }
        } else if op == 0x28 {
            Step { post: run, mem, out: Ok(DpEvent::Applied) }
        } else if op == 0x2f {
            Step {
                post: State {
                    cycle_mode: spec_cycle_mode(w),
                    pipeline: PipelineConfig { other_modes: w, ..pre.pipeline },
                    ..run
                },
                mem,
                out: Ok(DpEvent::Applied),
            }
        } else if op == 0x35 {
            let idx = ((w >> 24) & 7) as int;
            Step {
                post: State {
                    tiles: pre.tiles.update(idx, spec_tile_update(pre.tiles[idx], w)),
                    ..run
                },
                mem,
                out: Ok(DpEvent::Applied),
            }
        } else if op == 0x3c {
            Step {
                post: State { pipeline: PipelineConfig { combine: w, ..pre.pipeline }, ..run },
                mem,
                out: Ok(DpEvent::Applied),
            }
        } else if op == 0x39 {
            Step {
                post: State {
                    pipeline: PipelineConfig {
                        blend_color: spec_abgr_to_rgba((w & 0xffffffff) as u32),
                        ..pre.pipeline
                    },
                    ..run
                },
                mem,
                out: Ok(DpEvent::Applied),
            }
        } else if op == 0x37 {
            Step {
                post: State { fill_color: (w & 0xffffffff) as u32, ..run },
                mem,
                out: Ok(DpEvent::Applied),
            }
        } else if op == 0x34 {
            load_tile_step(run, mem, w)
        } else if op == 0x36 {
            fill_rect_step(run, mem, w)
        } else if op == 0x24 {
            Step {
                post: run,
                mem,
                out: Ok(DpEvent::TextureRectangle(spec_tex_rect_cmd(pre, buf[0], buf[1]))),
            }
        } else {
            Step { post: run, mem, out: Ok(DpEvent::Unknown((op & 0x3f) as u8)) }
        }
    }
}

fn rect_tl_first(w: u64) -> (r: FixedRect)
    ensures
        r == spec_rect_tl_first(w),
        r.x0 <= 0xfff && r.y0 <= 0xfff && r.x1 <= 0xfff && r.y1 <= 0xfff,
{
    proof {
        lemma_u64_mask_le(w >> 44, 0xfff);
        lemma_u64_mask_le(w >> 32, 0xfff);
        lemma_u64_mask_le(w >> 12, 0xfff);
        lemma_u64_mask_le(w, 0xfff);
    }
    FixedRect {
        x0: ((w >> 44) & 0xfff) as u32,
        y0: ((w >> 32) & 0xfff) as u32,
        x1: ((w >> 12) & 0xfff) as u32,
        y1: (w & 0xfff) as u32,
    }
}

fn rect_br_first(w: u64) -> (r: FixedRect)
    ensures
        r == spec_rect_br_first(w),
        r.x0 <= 0xfff && r.y0 <= 0xfff && r.x1 <= 0xfff && r.y1 <= 0xfff,
{
    proof {
        lemma_u64_mask_le(w >> 44, 0xfff);
        lemma_u64_mask_le(w >> 32, 0xfff);
        lemma_u64_mask_le(w >> 12, 0xfff);
        lemma_u64_mask_le(w, 0xfff);
    }
    FixedRect {
        x1: ((w >> 44) & 0xfff) as u32,
        y1: ((w >> 32) & 0xfff) as u32,
        x0: ((w >> 12) & 0xfff) as u32,
        y0: (w & 0xfff) as u32,
    }
}

fn color_format_of(bits: u64) -> (r: DpColorFormat)
    ensures
        r == spec_color_format(bits),
{
    if bits == 1 {
        DpColorFormat::Yuv
    } else if bits == 2 {
        DpColorFormat::ColorIndex
    } else if bits == 3 {
        DpColorFormat::IntensityAlpha
    } else if bits == 4 {
        DpColorFormat::Intensity
    } else {
        DpColorFormat::Rgba
    }
}

fn image_format(w: u64) -> (r: ImageFormat)
    ensures
        r == spec_image_format(w),
        r.inv(),
{
    proof {
        lemma_u64_mask_le(w >> 51, 3);
        lemma_u64_mask_le(w >> 32, 0x3ff);
        lemma_u64_mask_le(w, 0x3ffffff);
        lemma_size_code_bpp(((w >> 51) & 3) as u32);
    }
    ImageFormat {
        color_format: color_format_of((w >> 53) & 7),
        bpp: 4u32 << (((w >> 51) & 3) as u32),
        width: (((w >> 32) & 0x3ff) + 1) as u32,
        dram_addr: (w & 0x3ffffff) as u32,
    }
}

fn cycle_mode_of(w: u64) -> (r: CycleMode)
    ensures
        r == spec_cycle_mode(w),
{
    let bits = (w >> 52) & 3;
    if bits == 0 {
        CycleMode::One
    } else if bits == 1 {
        CycleMode::Two
    } else if bits == 2 {
        CycleMode::Copy
    } else {
        CycleMode::Fill
    }
}

fn abgr_to_rgba(c: u32) -> (r: u32)
    ensures
        r == spec_abgr_to_rgba(c),
{
    ((c & 0xff) << 24) | (((c >> 8) & 0xff) << 16) | (((c >> 16) & 0xff) << 8) | ((c >> 24)
        & 0xff)
}

fn low32(w: u64) -> (r: u32)
    ensures
        r == (w & 0xffffffff) as u32,
{
    proof {
        lemma_u64_mask_le(w, 0xffffffff);
    }
    (w & 0xffffffff) as u32
}

fn low16(w: u64) -> (r: u16)
    ensures
        r == (w & 0xffff) as u16,
{
    proof {
        lemma_u64_mask_le(w, 0xffff);
    }
    (w & 0xffff) as u16
}

fn tile_update(t: TileDescriptor, w: u64) -> (r: TileDescriptor)
    ensures
        r == spec_tile_update(t, w),
        r.inv(),
{
    proof {
        lemma_u64_mask_le(w >> 51, 3);
        lemma_u64_mask_le(w >> 41, 0x1ff);
        lemma_u64_mask_le(w >> 32, 0x1ff);
        lemma_u64_mask_le(w >> 20, 0xf);
        lemma_u64_mask_le(w >> 4, 0xf);
        lemma_u64_mask_le(w >> 14, 0xf);
        lemma_u64_mask_le(w, 0xf);
        lemma_u64_mask_le(w >> 10, 0xf);
        lemma_size_code_bpp(((w >> 51) & 3) as u32);
        lemma_u32_pow2_ge_one(((w >> 4) & 0xf) as u32);
        lemma_u32_pow2_ge_one(((w >> 14) & 0xf) as u32);
    }
    let ns = ((w >> 4) & 0xf) as u32;
    let nt = ((w >> 14) & 0xf) as u32;
    let r = TileDescriptor {
        color_format: color_format_of((w >> 53) & 7),
        bpp: 4u32 << (((w >> 51) & 3) as u32),
        pitch: (((w >> 41) & 0x1ff) * 8) as u32,
        tmem_addr: (((w >> 32) & 0x1ff) * 8) as u32,
        palette: ((w >> 20) & 0xf) as u32,
        clamp_s: (w >> 9) & 1 == 1,
        clamp_t: (w >> 19) & 1 == 1,
        mirror_s: (w >> 8) & 1 == 1,
        mirror_t: (w >> 18) & 1 == 1,
        mask_s: (1u32 << ns) - 1,
        mask_t: (1u32 << nt) - 1,
        shift_s: (w & 0xf) as u32,
        shift_t: ((w >> 10) & 0xf) as u32,
        rect: t.rect,
    };
    proof {
        assert(ns < 16 && r.mask_s == (1u32 << ns) - 1);
        assert(nt < 16 && r.mask_t == (1u32 << nt) - 1);
    }
    r
}

fn span_texels(lo: u32, hi: u32) -> (r: u32)
    ensures
        r == spec_span_texels(lo, hi),
        r >= 1,
{
    if hi >= lo {
        (hi - lo) / 4 + 1
    } else {
        let d = (hi as u64) + 0x100000000 - (lo as u64);
        ((d / 4) as u32) + 1
    }
}

fn wsub4(x: u32) -> (r: u32)
    ensures
        r == spec_wsub4(x),
{
    if x >= 4 {
        x - 4
    } else {
        ((x as u64) + 0x100000000 - 4) as u32
    }
}

/// The command processor: register state, texture cache and pending
/// command buffer.  One instance models one coprocessor.
pub struct Rdp {
    tmem: Vec<u8>,
    clip: FixedRect,
    fb: ImageFormat,
    tex: ImageFormat,
    tiles: Vec<TileDescriptor>,
    fill_color: u32,
    cycle_mode: CycleMode,
    pipeline: PipelineConfig,
    cmdbuf: Vec<u64>,
    cmdlen: usize,
}

impl View for Rdp {
    type V = State;

    closed spec fn view(&self) -> State {
        State {
            clip: self.clip,
            fb: self.fb,
            tex: self.tex,
            tiles: self.tiles@,
            fill_color: self.fill_color,
            cycle_mode: self.cycle_mode,
            pipeline: self.pipeline,
            tmem: self.tmem@,
            pending: self.cmdbuf@.take(self.cmdlen as int),
        }
    }
}

/// The tile registers a zero Set Tile word would configure.
pub open spec fn init_tile() -> TileDescriptor {
    TileDescriptor {
        color_format: DpColorFormat::Rgba,
        bpp: 4,
        pitch: 0,
        tmem_addr: 0,
        palette: 0,
        clamp_s: false,
        clamp_t: false,
        mirror_s: false,
        mirror_t: false,
        mask_s: 0,
        mask_t: 0,
        shift_s: 0,
        shift_t: 0,
        rect: FixedRect { x0: 0, y0: 0, x1: 0, y1: 0 },
    }
}

/// The power-on state: every register as a zero command word would set
/// it, an empty pending buffer, and a zeroed texture cache.
pub open spec fn init_state() -> State {
    State {
        clip: FixedRect { x0: 0, y0: 0, x1: 0, y1: 0 },
        fb: ImageFormat { color_format: DpColorFormat::Rgba, bpp: 4, width: 1, dram_addr: 0 },
        tex: ImageFormat { color_format: DpColorFormat::Rgba, bpp: 4, width: 1, dram_addr: 0 },
        tiles: Seq::new(8, |i: int| init_tile()),
        fill_color: 0,
        cycle_mode: CycleMode::One,
        pipeline: PipelineConfig { other_modes: 0, combine: 0, blend_color: 0 },
        tmem: Seq::new(4096, |i: int| 0u8),
        pending: Seq::empty(),
    }
}

impl Rdp {
    /// The representation invariant: the abstract state is well formed
    /// and the fixed-capacity command buffer holds its sixteen slots.
    pub closed spec fn wf(&self) -> bool {
        &&& self.cmdlen <= 1
        &&& self.cmdbuf@.len() == 16
        &&& self@.wf()
    }

    pub fn new() -> (r: Rdp)
        ensures
            r.wf(),
            r@.wf(),
            r@ == init_state(),
    {
        let mut tmem: Vec<u8> = Vec::new();
        let mut i: usize = 0;
        while i < 4096
            invariant
                i <= 4096,
                tmem@ == Seq::new(i as nat, |j: int| 0u8),
            decreases 4096 - i,
        {
            tmem.push(0);
            proof {
                assert(tmem@ =~= Seq::new((i + 1) as nat, |j: int| 0u8));
            }
            i = i + 1;
        }
        let tile = TileDescriptor {
            color_format: DpColorFormat::Rgba,
            bpp: 4,
            pitch: 0,
            tmem_addr: 0,
            palette: 0,
            clamp_s: false,
            clamp_t: false,
            mirror_s: false,
            mirror_t: false,
            mask_s: 0,
            mask_t: 0,
            shift_s: 0,
            shift_t: 0,
            rect: FixedRect { x0: 0, y0: 0, x1: 0, y1: 0 },
        };
        let mut tiles: Vec<TileDescriptor> = Vec::new();
        let mut t: usize = 0;
        while t < 8
            invariant
                t <= 8,
                tile == init_tile(),
                tiles@ == Seq::new(t as nat, |j: int| init_tile()),
            decreases 8 - t,
        {
            tiles.push(tile);
            proof {
                assert(tiles@ =~= Seq::new((t + 1) as nat, |j: int| init_tile()));
            }
            t = t + 1;
        }
        let mut cmdbuf: Vec<u64> = Vec::new();
        let mut c: usize = 0;
        while c < 16
            invariant
                c <= 16,
                cmdbuf@.len() == c,
            decreases 16 - c,
        {
            cmdbuf.push(0);
            c = c + 1;
        }
        let r = Rdp {
            tmem,
            clip: FixedRect { x0: 0, y0: 0, x1: 0, y1: 0 },
            fb: ImageFormat {
                color_format: DpColorFormat::Rgba,
                bpp: 4,
                width: 1,
                dram_addr: 0,
            },
            tex: ImageFormat {
                color_format: DpColorFormat::Rgba,
                bpp: 4,
                width: 1,
                dram_addr: 0,
            },
            tiles,
            fill_color: 0,
            cycle_mode: CycleMode::One,
            pipeline: PipelineConfig { other_modes: 0, combine: 0, blend_color: 0 },
            cmdbuf,
            cmdlen: 0,
        };
        proof {
            assert(r@.pending =~= Seq::<u64>::empty());
            assert(r@ =~= init_state());
            lemma_u32_pow2_ge_one(0);
            assert((1u32 << 0u32) == 1) by (bit_vector);
            assert(init_tile().inv()) by {
                assert(0u32 < 16 && init_tile().mask_s == (1u32 << 0u32) - 1);
            }
            assert(r.wf());
        }
        r
    }
}

impl Rdp {
    /// Load Tile, on a core whose pending buffer is already cleared:
    /// store the requested rectangle in the tile, then copy its texel
    /// rows from the texture image in `mem` into the texture cache.
    fn do_load_tile(&mut self, w: u64, mem: &Vec<u8>) -> (r: Result<DpEvent, DpFault>)
        requires
            old(self).wf(),
            old(self)@.pending == Seq::<u64>::empty(),
        ensures
            final(self).wf(),
            final(self)@ == load_tile_step(old(self)@, mem@, w).post,
            r == load_tile_step(old(self)@, mem@, w).out,
    {
        let ghost pre = self@;
        proof {
            lemma_u64_mask_le(w >> 24, 7);
        }
        let idx = ((w >> 24) & 7) as usize;
        let rect = rect_tl_first(w);
        let tile = self.tiles[idx];
        proof {
            assert(pre.tiles[idx as int].inv());
        }
        self.tiles[idx] = TileDescriptor { rect, ..tile };
        proof {
            assert(self@ =~= State {
                tiles: pre.tiles.update(
                    idx as int,
                    TileDescriptor { rect, ..pre.tiles[idx as int] },
                ),
                ..pre
            });
            assert(forall|i: int| 0 <= i < 8 ==> (#[trigger] self@.tiles[i]).inv());
        }
        let width = span_texels(rect.x0, rect.x1);
        let height = span_texels(rect.y0, rect.y1);
        let copy_width = if width <= self.tex.width {
            width
        } else {
            self.tex.width
        };
        if !(tile.bpp == self.tex.bpp && (tile.bpp == 8 || tile.bpp == 16)) {
            proof {
                assert(self.wf());
                assert(self@ == load_tile_step(pre, mem@, w).post);
            }
            return Err(DpFault::LoadTileBppMismatch);
        }
        proof {
            assert(copy_width <= 1024);
            assert(copy_width * (tile.bpp / 8) <= 2048) by (nonlinear_arith)
                requires
                    copy_width <= 1024,
                    tile.bpp == 8 || tile.bpp == 16,
            ;
        }
        let rowbytes = copy_width * (tile.bpp / 8);
        let spitch = self.tex.pitch();
        let s0i = rect.x0 / 4;
        let t0i = rect.y0 / 4;
        proof {
            assert(t0i <= 1023 && s0i <= 1023);
            assert((t0i as u64) * (spitch as u64) <= 1023 * 4096) by (nonlinear_arith)
                requires
                    t0i <= 1023,
                    spitch <= 4096,
            ;
            assert((s0i as u64) * (((tile.bpp / 8)) as u64) <= 1023 * 2) by (nonlinear_arith)
                requires
                    s0i <= 1023,
                    tile.bpp == 8 || tile.bpp == 16,
            ;
        }
        let sbase = (self.tex.dram_addr as u64) + (t0i as u64) * (spitch as u64) + (s0i as u64)
            * ((tile.bpp / 8) as u64);
        let h64 = height as u64;
        proof {
            assert((h64 - 1) * (tile.pitch as u64) <= 0xffffffffu64 * 4088)
                by (nonlinear_arith)
                requires
                    1 <= h64 <= 0x100000000u64,
                    tile.pitch <= 4088,
            ;
            assert((h64 - 1) * (spitch as u64) <= 0xffffffffu64 * 4096)
                by (nonlinear_arith)
                requires
                    1 <= h64 <= 0x100000000u64,
                    spitch <= 4096,
            ;
        }
        let dst_need = (tile.tmem_addr as u64) + (h64 - 1) * (tile.pitch as u64) + (
        rowbytes as u64);
        let src_need = sbase + (h64 - 1) * (spitch as u64) + (rowbytes as u64);
        if !(tile.pitch >= rowbytes && dst_need <= 4096 && src_need <= (mem.len() as u64)) {
            proof {
                assert(self.wf());
                assert(self@ == load_tile_step(pre, mem@, w).post);
            }
            return Err(DpFault::MemoryRange);
        }
        copy_rect_rows(
            &mut self.tmem,
            tile.tmem_addr as usize,
            tile.pitch as usize,
            mem,
            sbase as usize,
            spitch as usize,
            rowbytes as usize,
            height as usize,
        );
        proof {
            crate::raster::lemma_copied_rows_len(
                pre.tmem,
                tile.tmem_addr as int,
                tile.pitch as int,
                mem@,
                sbase as int,
                spitch as int,
                rowbytes as int,
                height as nat,
            );
            assert(self@ =~= load_tile_step(pre, mem@, w).post);
            assert(self.wf());
        }
        Ok(DpEvent::Applied)
    }

    /// Fill Rectangle, on a core whose pending buffer is already cleared.
    /// In Fill mode the rectangle is rescaled to 32-bit words and filled
    /// flat into `mem`; in One mode the fill is handed to the external
    /// pipeline; Two and Copy modes fault.
    fn do_fill_rect(&mut self, w: u64, mem: &mut Vec<u8>) -> (r: Result<DpEvent, DpFault>)
        requires
            old(self).wf(),
            old(self)@.pending == Seq::<u64>::empty(),
        ensures
            final(self).wf(),
            final(self)@ == fill_rect_step(old(self)@, old(mem)@, w).post,
            final(mem)@ == fill_rect_step(old(self)@, old(mem)@, w).mem,
            r == fill_rect_step(old(self)@, old(mem)@, w).out,
    {
        let ghost pre = self@;
        let ghost mem0 = mem@;
        let rct = rect_br_first(w);
        match self.cycle_mode {
            CycleMode::Fill => {
                let b = 32 / self.fb.bpp;
                let qx0 = rct.x0 / b;
                let qy0 = rct.y0 / b;
                let qx1 = (rct.x1 + 4) / b;
                let qy1 = (rct.y1 + 4) / b;
                proof {
                    assert(b as int == 32int / pre.fb.bpp as int);
                    assert((qx1 as int - 4) % 4 == qx1 as int % 4);
                    assert((qy1 as int - 4) % 4 == qy1 as int % 4);
                }
                if !(qx0 % 4 == 0 && qy0 % 4 == 0 && qx1 >= 4 && qx1 % 4 == 0 && qy1 >= 4
                    && qy1 % 4 == 0) {
                    proof {
                        assert(self.wf());
                        assert(self@ == fill_rect_step(pre, mem0, w).post);
                    }
                    return Err(DpFault::FillRectUnaligned);
                }
                let px0 = qx0 / 4;
                let py0 = qy0 / 4;
                let px1 = qx1 / 4 - 1;
                let py1 = qy1 / 4 - 1;
                proof {
                    assert((qx1 as int - 4) / 4 == qx1 as int / 4 - 1);
                    assert((qy1 as int - 4) / 4 == qy1 as int / 4 - 1);
                }
                let words_w = 320 / b;
                if !(px1 < words_w && py1 < 240) {
                    proof {
                        assert(self.wf());
                        assert(self@ == fill_rect_step(pre, mem0, w).post);
                    }
                    return Err(DpFault::MemoryRange);
                }
                let pitch = self.fb.pitch();
                proof {
                    assert(pre.fb.width * pre.fb.bpp / 8 <= 4096) by (nonlinear_arith)
                        requires
                            pre.fb.width <= 1024,
                            pre.fb.bpp <= 32,
                    ;
                    assert((py1 as u64) * (pitch as u64) <= 239 * 4096) by (nonlinear_arith)
                        requires
                            py1 < 240,
                            pitch <= 4096,
                    ;
                }
                let need = (self.fb.dram_addr as u64) + (py1 as u64) * (pitch as u64) + 4 * ((
                px1 as u64) + 1);
                if !(need <= (mem.len() as u64)) {
                    proof {
                        assert(self.wf());
                        assert(self@ == fill_rect_step(pre, mem0, w).post);
                    }
                    return Err(DpFault::MemoryRange);
                }
                if px1 < px0 || py1 < py0 {
                    proof {
                        assert(self.wf());
                        assert(self@ == fill_rect_step(pre, mem0, w).post);
                    }
                    return Ok(DpEvent::Applied);
                }
                fill_rect_words(
                    mem,
                    self.fb.dram_addr as usize,
                    pitch as usize,
                    px0 as usize,
                    px1 as usize,
                    py0 as usize,
                    py1 as usize,
                    self.fill_color,
                );
                proof {
                    crate::raster::lemma_filled_rows_len(
                        mem0,
                        pre.fb.dram_addr as int,
                        pre.fb.spec_pitch(),
                        px0 as int,
                        px1 as int,
                        py0 as int,
                        (py1 - py0 + 1) as nat,
                        pre.fill_color,
                    );
                    assert(self.wf());
                    assert(self@ == fill_rect_step(pre, mem0, w).post);
                    assert(mem@ == fill_rect_step(pre, mem0, w).mem);
                }
                Ok(DpEvent::Applied)
            }
            CycleMode::One => {
                if !(rct.x0 % 4 == 0 && rct.y0 % 4 == 0 && rct.x1 % 4 == 0 && rct.y1 % 4
                    == 0) {
                    proof {
                        assert(self.wf());
                        assert(self@ == fill_rect_step(pre, mem0, w).post);
                    }
                    return Err(DpFault::FillRectUnaligned);
                }
                proof {
                    assert(self.wf());
                    assert(self@ == fill_rect_step(pre, mem0, w).post);
                }
                Ok(
                    DpEvent::PipelineFill(
                        PipelineFillCmd {
                            rect: rct,
                            color_abgr: self.fill_color,
                            fb: self.fb,
                            dst_width: 320,
                            dst_height: 240,
                        },
                    ),
                )
            }
            CycleMode::Two => {
                proof {
                    assert(self.wf());
                    assert(self@ == fill_rect_step(pre, mem0, w).post);
                }
                Err(DpFault::FillRectUnsupportedMode)
            }
            CycleMode::Copy => {
                proof {
                    assert(self.wf());
                    assert(self@ == fill_rect_step(pre, mem0, w).post);
                }
                Err(DpFault::FillRectUnsupportedMode)
            }
        }
    }

    /// Submit one command word.  The word is appended to the pending
    /// buffer; a command whose word count is not yet reached waits with
    /// no other effect, and a complete command runs its handler and
    /// clears the buffer.  `mem` is the externally owned system memory
    /// holding the framebuffer and the texture image.  The whole
    /// behaviour is the transition function `step`.
    pub fn op(&mut self, cmd: u64, mem: &mut Vec<u8>) -> (r: Result<DpEvent, DpFault>)
        requires
            old(self).wf(),
        ensures
            final(self).wf(),
            final(self)@.wf(),
            final(self)@ == step(old(self)@, old(mem)@, cmd).post,
            final(mem)@ == step(old(self)@, old(mem)@, cmd).mem,
            r == step(old(self)@, old(mem)@, cmd).out,
    {
        let ghost pre = self@;
        let ghost mem0 = mem@;
        let ghost buf = pre.pending.push(cmd);

        let slot = self.cmdlen;
        self.cmdbuf[slot] = cmd;
        self.cmdlen = slot + 1;
        proof {
            assert(self@.pending =~= buf);
            assert(self.cmdbuf@[0] == buf[0]);
        }
        let first = self.cmdbuf[0];
        let opc = (first >> 56) & 0x3f;
        proof {
            assert(opc == opcode_of(buf[0]));
        }

        if opc == 0x24 && self.cmdlen < 2 {
            proof {
                assert(buf.len() < words_required(opcode_of(buf[0])));
                assert(self@ =~= step(pre, mem0, cmd).post);
                assert(self.wf());
            }
            return Ok(DpEvent::Pending);
        }
        self.cmdlen = 0;
        let ghost run = State { pending: Seq::<u64>::empty(), ..pre };
        proof {
            assert(buf.len() >= words_required(opcode_of(buf[0])));
            assert(self@ =~= run);
        }

        if opc == 0x2d {
            self.clip = rect_tl_first(cmd);
            proof {
                assert(self@ =~= step(pre, mem0, cmd).post);
                assert(self.wf());
            }
            Ok(DpEvent::Applied)
        } else if opc == 0x3d {
            self.tex = image_format(cmd);
            proof {
                assert(self@ =~= step(pre, mem0, cmd).post);
                assert(self.wf());
            }
            Ok(DpEvent::Applied)
        } else if opc == 0x3f {
            self.fb = image_format(cmd);
            proof {
                assert(self@ =~= step(pre, mem0, cmd).post);
                assert(self.wf());
            }
            Ok(DpEvent::Applied)
        } else if opc == 0x28 {
            proof {
                assert(self@ =~= step(pre, mem0, cmd).post);
                assert(self.wf());
            }
            Ok(DpEvent::Applied)
        } else if opc == 0x2f {
            self.cycle_mode = cycle_mode_of(cmd);
            self.pipeline.other_modes = cmd;
            proof {
                assert(self@ =~= step(pre, mem0, cmd).post);
                assert(self.wf());
            }
            Ok(DpEvent::Applied)
        } else if opc == 0x35 {
            proof {
                lemma_u64_mask_le(cmd >> 24, 7);
            }
            let idx = ((cmd >> 24) & 7) as usize;
            let t = self.tiles[idx];
            let nt = tile_update(t, cmd);
            self.tiles[idx] = nt;
            proof {
                assert(self@.tiles =~= pre.tiles.update(
                    idx as int,
                    spec_tile_update(pre.tiles[idx as int], cmd),
                ));
                assert(self@ =~= step(pre, mem0, cmd).post);
                assert(forall|i: int| 0 <= i < 8 ==> (#[trigger] self@.tiles[i]).inv());
                assert(self.wf());
            }
            Ok(DpEvent::Applied)
        } else if opc == 0x3c {
            self.pipeline.combine = cmd;
            proof {
                assert(self@ =~= step(pre, mem0, cmd).post);
                assert(self.wf());
            }
            Ok(DpEvent::Applied)
        } else if opc == 0x39 {
            self.pipeline.blend_color = abgr_to_rgba(low32(cmd));
            proof {
                assert(self@ =~= step(pre, mem0, cmd).post);
                assert(self.wf());
            }
            Ok(DpEvent::Applied)
        } else if opc == 0x37 {
            self.fill_color = low32(cmd);
            proof {
                assert(self@ =~= step(pre, mem0, cmd).post);
                assert(self.wf());
            }
            Ok(DpEvent::Applied)
        } else if opc == 0x34 {
            let r = self.do_load_tile(cmd, mem);
            proof {
                assert(self@ == step(pre, mem0, cmd).post);
            }
            r
        } else if opc == 0x36 {
            let r = self.do_fill_rect(cmd, mem);
            proof {
                assert(self@ == step(pre, mem0, cmd).post);
                assert(mem@ == step(pre, mem0, cmd).mem);
            }
            r
        } else if opc == 0x24 {
            let w1 = self.cmdbuf[1];
            proof {
                assert(buf.len() == 2);
                assert(self.cmdbuf@[1] == buf[1]);
                lemma_u64_mask_le(first >> 24, 7);
            }
            let tile_idx = ((first >> 24) & 7) as u32;
            let td = self.tiles[tile_idx as usize];
            let rct = rect_br_first(first);
            let evcmd = TexRectCmd {
                tile: tile_idx,
                rect: FixedRect {
                    x0: rct.x0,
                    y0: rct.y0,
                    x1: wsub4(rct.x1),
                    y1: wsub4(rct.y1),
                },
                s: low16(w1 >> 48),
                t: low16(w1 >> 32),
                dsdx: low16(w1 >> 16),
                dtdy: low16(w1),
                tex_width: span_texels(td.rect.x0, td.rect.x1),
                tex_height: span_texels(td.rect.y0, td.rect.y1),
                tmem_addr: td.tmem_addr,
                tmem_pitch: td.pitch,
                src_color_format: td.color_format,
                src_bpp: td.bpp,
                fb: self.fb,
                dst_width: 320,
                dst_height: 240,
            };
            proof {
                assert(evcmd == spec_tex_rect_cmd(pre, buf[0], buf[1]));
                assert(self@ =~= step(pre, mem0, cmd).post);
                assert(self.wf());
            }
            Ok(DpEvent::TextureRectangle(evcmd))
        } else {
            proof {
                lemma_u64_mask_le(opc, 0x3f);
                assert(self@ =~= step(pre, mem0, cmd).post);
                assert(self.wf());
            }
            Ok(DpEvent::Unknown((opc & 0x3f) as u8))
        }
    }

    pub fn clip(&self) -> (r: FixedRect)
        ensures
            r == self@.clip,
    {
        self.clip
    }

    pub fn fb(&self) -> (r: ImageFormat)
        ensures
            r == self@.fb,
    {
        self.fb
    }

    pub fn tex(&self) -> (r: ImageFormat)
        ensures
            r == self@.tex,
    {
        self.tex
    }

    pub fn tile(&self, idx: usize) -> (r: TileDescriptor)
        requires
            self.wf(),
            idx < 8,
        ensures
            r == self@.tiles[idx as int],
    {
        self.tiles[idx]
    }

    pub fn fill_color(&self) -> (r: u32)
        ensures
            r == self@.fill_color,
    {
        self.fill_color
    }

    pub fn cycle_mode(&self) -> (r: CycleMode)
        ensures
            r == self@.cycle_mode,
    {
        self.cycle_mode
    }

    pub fn pipeline(&self) -> (r: PipelineConfig)
        ensures
            r == self@.pipeline,
    {
        self.pipeline
    }

    pub fn pending_len(&self) -> (r: usize)
        requires
            self.wf(),
        ensures
            r == self@.pending.len(),
    {
        self.cmdlen
    }

    /// The texture cache, for the embedding system's rasterizer to read.
    pub fn tmem_bytes(&self) -> (r: &Vec<u8>)
        ensures
            r@ == self@.tmem,
    {
        &self.tmem
    }
}

} // verus!
