use vstd::prelude::*;
use crate::machine::{
    is_known_opcode, opcode_of, spec_color_format, spec_tex_rect_cmd, spec_tile_update, step,
    words_required, State,
};
use crate::types::{DpEvent, DpFault, TileDescriptor};

verus! {

/// Every opcode whose word count is one completes on a single submitted
/// word: from an idle core the submission never waits, and the pending
/// buffer is back to length zero afterwards, whatever the word decodes
/// to.
pub proof fn lemma_single_word_command_completes(pre: State, mem: Seq<u8>, w: u64)
    requires
        pre.wf(),
        pre.pending.len() == 0,
        words_required(opcode_of(w)) == 1,
    ensures
        step(pre, mem, w).post.pending.len() == 0,
        step(pre, mem, w).out != Ok::<DpEvent, DpFault>(DpEvent::Pending),
{
    let buf = pre.pending.push(w);
    assert(buf[0] == w);
    assert(buf.len() == 1);
}

/// Texture Rectangle takes exactly two words.  After the first, the core
/// has only recorded the word: registers, texture cache and memory are
/// untouched and one word is pending.  The second word triggers the
/// rasterizer invocation decoded from both words and clears the buffer.
pub proof fn lemma_texture_rectangle_two_words(pre: State, mem: Seq<u8>, w0: u64, w1: u64)
    requires
        pre.wf(),
        pre.pending.len() == 0,
        opcode_of(w0) == 0x24,
    ensures
        ({
            let first = step(pre, mem, w0);
            &&& first.out == Ok::<DpEvent, DpFault>(DpEvent::Pending)
            &&& first.mem == mem
            &&& first.post == State { pending: seq![w0], ..pre }
        }),
        ({
            let second = step(step(pre, mem, w0).post, mem, w1);
            &&& second.out == Ok::<DpEvent, DpFault>(
                DpEvent::TextureRectangle(spec_tex_rect_cmd(pre, w0, w1)),
            )
            &&& second.mem == mem
            &&& second.post == State { pending: Seq::empty(), ..pre }
        }),
{
    let buf = pre.pending.push(w0);
    assert(buf =~= seq![w0]);
    assert(buf[0] == w0);
    let first = step(pre, mem, w0);
    assert(first.post =~= State { pending: seq![w0], ..pre });
    let buf2 = first.post.pending.push(w1);
    assert(buf2 =~= seq![w0, w1]);
    assert(buf2[0] == w0 && buf2[1] == w1);
    let second = step(first.post, mem, w1);
    assert(spec_tex_rect_cmd(first.post, w0, w1) == spec_tex_rect_cmd(pre, w0, w1));
    assert(second.post =~= State { pending: Seq::<u64>::empty(), ..pre });
}

/// An unknown opcode drops the command whole: every register, the
/// texture cache and memory keep their exact values, the pending buffer
/// is cleared, and the caller is told which opcode was dropped.
pub proof fn lemma_unknown_opcode_no_effect(pre: State, mem: Seq<u8>, w: u64)
    requires
        pre.wf(),
        pre.pending.len() == 0,
        !is_known_opcode(opcode_of(w)),
    ensures
        step(pre, mem, w).post == pre,
        step(pre, mem, w).mem == mem,
        step(pre, mem, w).out == Ok::<DpEvent, DpFault>(
            DpEvent::Unknown((opcode_of(w) & 0x3f) as u8),
        ),
{
    let buf = pre.pending.push(w);
    assert(buf[0] == w);
    assert(step(pre, mem, w).post =~= pre);
}

/// A fatal fault never touches memory: whenever a submitted word ends
/// in a fault, the system memory holds exactly the bytes it held.
pub proof fn lemma_fault_leaves_memory(pre: State, mem: Seq<u8>, w: u64)
    ensures
        step(pre, mem, w).out is Err ==> step(pre, mem, w).mem == mem,
{
}

/// A Set Tile word assembled from field values already in their bit
/// ranges.  The two clamp and mirror flags are passed as single bits.
pub open spec fn set_tile_word(
    idx: u64,
    cf: u64,
    size: u64,
    pitch_units: u64,
    tmem_units: u64,
    palette: u64,
    clamp_t_bit: u64,
    mirror_t_bit: u64,
    mask_t_n: u64,
    shift_t: u64,
    clamp_s_bit: u64,
    mirror_s_bit: u64,
    mask_s_n: u64,
    shift_s: u64,
) -> u64 {
    (0x35u64 << 56) | (cf << 53) | (size << 51) | (pitch_units << 41) | (tmem_units << 32) | (
    idx << 24) | (palette << 20) | (clamp_t_bit << 19) | (mirror_t_bit << 18) | (mask_t_n
        << 14) | (shift_t << 10) | (clamp_s_bit << 9) | (mirror_s_bit << 8) | (mask_s_n << 4)
        | shift_s
}

/// Set Tile round-trip: decoding a word assembled from in-range field
/// values yields a tile descriptor whose fields are exactly those
/// values, with each wrap mask of the form 2^n - 1, and with the loaded
/// rectangle untouched.  The zero pattern and n = 0 masks are included.
pub proof fn lemma_set_tile_round_trip(
    t0: TileDescriptor,
    idx: u64,
    cf: u64,
    size: u64,
    pitch_units: u64,
    tmem_units: u64,
    palette: u64,
    clamp_t_bit: u64,
    mirror_t_bit: u64,
    mask_t_n: u64,
    shift_t: u64,
    clamp_s_bit: u64,
    mirror_s_bit: u64,
    mask_s_n: u64,
    shift_s: u64,
)
    requires
        idx < 8,
        cf < 8,
        size < 4,
        pitch_units < 0x200,
        tmem_units < 0x200,
        palette < 16,
        clamp_t_bit < 2,
        mirror_t_bit < 2,
        mask_t_n < 16,
        shift_t < 16,
        clamp_s_bit < 2,
        mirror_s_bit < 2,
        mask_s_n < 16,
        shift_s < 16,
    ensures
        ({
            let w = set_tile_word(
                idx,
                cf,
                size,
                pitch_units,
                tmem_units,
                palette,
                clamp_t_bit,
                mirror_t_bit,
                mask_t_n,
                shift_t,
                clamp_s_bit,
                mirror_s_bit,
                mask_s_n,
                shift_s,
            );
            let t = spec_tile_update(t0, w);
            &&& opcode_of(w) == 0x35
            &&& words_required(opcode_of(w)) == 1
            &&& ((w >> 24) & 7) == idx
            &&& t.color_format == spec_color_format(cf)
            &&& t.bpp == (4u32 << (size as u32))
            &&& t.pitch == pitch_units * 8
            &&& t.tmem_addr == tmem_units * 8
            &&& t.palette == palette
            &&& t.clamp_s == (clamp_s_bit == 1)
            &&& t.clamp_t == (clamp_t_bit == 1)
            &&& t.mirror_s == (mirror_s_bit == 1)
            &&& t.mirror_t == (mirror_t_bit == 1)
            &&& t.mask_s == (1u32 << (mask_s_n as u32)) - 1
            &&& t.mask_t == (1u32 << (mask_t_n as u32)) - 1
            &&& t.shift_s == shift_s
            &&& t.shift_t == shift_t
            &&& t.rect == t0.rect
        }),
{
    let w = set_tile_word(
        idx,
        cf,
        size,
        pitch_units,
        tmem_units,
        palette,
        clamp_t_bit,
        mirror_t_bit,
        mask_t_n,
        shift_t,
        clamp_s_bit,
        mirror_s_bit,
        mask_s_n,
        shift_s,
    );
    assert((w >> 56) & 0x3f == 0x35 && (w >> 24) & 7 == idx && (w >> 53) & 7 == cf && (w >> 51)
        & 3 == size && (w >> 41) & 0x1ff == pitch_units && (w >> 32) & 0x1ff == tmem_units && (
    w >> 20) & 0xf == palette && (w >> 19) & 1 == clamp_t_bit && (w >> 18) & 1 == mirror_t_bit
        && (w >> 14) & 0xf == mask_t_n && (w >> 10) & 0xf == shift_t && (w >> 9) & 1
        == clamp_s_bit && (w >> 8) & 1 == mirror_s_bit && (w >> 4) & 0xf == mask_s_n && w & 0xf
        == shift_s) by (bit_vector)
        requires
            w == (0x35u64 << 56) | (cf << 53) | (size << 51) | (pitch_units << 41) | (tmem_units
                << 32) | (idx << 24) | (palette << 20) | (clamp_t_bit << 19) | (mirror_t_bit
                << 18) | (mask_t_n << 14) | (shift_t << 10) | (clamp_s_bit << 9) | (
            mirror_s_bit << 8) | (mask_s_n << 4) | shift_s,
            idx < 8,
            cf < 8,
            size < 4,
            pitch_units < 0x200,
            tmem_units < 0x200,
            palette < 16,
            clamp_t_bit < 2,
            mirror_t_bit < 2,
            mask_t_n < 16,
            shift_t < 16,
            clamp_s_bit < 2,
            mirror_s_bit < 2,
            mask_s_n < 16,
            shift_s < 16,
    ;
    crate::bits::lemma_u32_pow2_ge_one(mask_s_n as u32);
    crate::bits::lemma_u32_pow2_ge_one(mask_t_n as u32);
}

} // verus!
