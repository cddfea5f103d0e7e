use rdp::CycleMode;
use rdp::DpColorFormat;
use rdp::DpEvent;
use rdp::Rdp;

fn op_word(op: u64) -> u64 {
    op << 56
}

fn image_word(op: u64, cf: u64, size: u64, width: u64, dram: u64) -> u64 {
    (op << 56) | (cf << 53) | (size << 51) | ((width - 1) << 32) | dram
}

fn rect_tl_word(op: u64, x0: u64, y0: u64, x1: u64, y1: u64) -> u64 {
    (op << 56) | (x0 << 44) | (y0 << 32) | (x1 << 12) | y1
}

#[test]
fn set_scissor_decodes_clip() {
    let mut r = Rdp::new();
    let mut mem: Vec<u8> = vec![0u8; 16];
    let w: u64 = rect_tl_word(0x2d, 40, 20, 401, 240);
    let ev = r.op(w, &mut mem);
    assert_eq!(ev, Ok(DpEvent::Applied));
    assert_eq!(r.pending_len(), 0);
    let c = r.clip();
    assert_eq!(c.x0, 40);
    assert_eq!(c.y0, 20);
    assert_eq!(c.x1, 401);
    assert_eq!(c.y1, 240);
}

#[test]
fn set_color_image_decodes() {
    let mut r = Rdp::new();
    let mut mem: Vec<u8> = vec![0u8; 16];
    let w: u64 = image_word(0x3f, 0, 2, 320, 0x100);
    assert_eq!(r.op(w, &mut mem), Ok(DpEvent::Applied));
    let fb = r.fb();
    assert_eq!(fb.color_format, DpColorFormat::Rgba);
    assert_eq!(fb.bpp, 16);
    assert_eq!(fb.width, 320);
    assert_eq!(fb.dram_addr, 0x100);
    assert_eq!(fb.pitch(), 640);
    // the texture register is untouched
    assert_eq!(r.tex().width, 1);
}

#[test]
fn set_texture_image_decodes() {
    let mut r = Rdp::new();
    let mut mem: Vec<u8> = vec![0u8; 16];
    let w: u64 = image_word(0x3d, 3, 1, 64, 0x40);
    assert_eq!(r.op(w, &mut mem), Ok(DpEvent::Applied));
    let tex = r.tex();
    assert_eq!(tex.color_format, DpColorFormat::IntensityAlpha);
    assert_eq!(tex.bpp, 8);
    assert_eq!(tex.width, 64);
    assert_eq!(tex.dram_addr, 0x40);
    assert_eq!(tex.pitch(), 64);
    assert_eq!(r.fb().width, 1);
}

#[test]
fn invalid_color_format_substitutes_default() {
    let mut r = Rdp::new();
    let mut mem: Vec<u8> = vec![0u8; 16];
    let w: u64 = image_word(0x3d, 7, 0, 2, 0);
    assert_eq!(r.op(w, &mut mem), Ok(DpEvent::Applied));
    assert_eq!(r.tex().color_format, DpColorFormat::Rgba);
    assert_eq!(r.tex().bpp, 4);
}

#[test]
fn sync_tile_acknowledged_no_change() {
    let mut r = Rdp::new();
    let mut mem: Vec<u8> = vec![7u8; 16];
    let before_fb = r.fb();
    assert_eq!(r.op(op_word(0x28), &mut mem), Ok(DpEvent::Applied));
    assert_eq!(r.pending_len(), 0);
    assert_eq!(r.fb(), before_fb);
    assert_eq!(mem, vec![7u8; 16]);
}

#[test]
fn set_other_modes_sets_cycle_and_forwards() {
    let mut r = Rdp::new();
    let mut mem: Vec<u8> = vec![0u8; 16];
    assert_eq!(r.cycle_mode(), CycleMode::One);
    let w: u64 = op_word(0x2f) | (3u64 << 52) | 0xabcd;
    assert_eq!(r.op(w, &mut mem), Ok(DpEvent::Applied));
    assert_eq!(r.cycle_mode(), CycleMode::Fill);
    assert_eq!(r.pipeline().other_modes, w);

    let w2: u64 = op_word(0x2f) | (2u64 << 52);
    assert_eq!(r.op(w2, &mut mem), Ok(DpEvent::Applied));
    assert_eq!(r.cycle_mode(), CycleMode::Copy);
    let w1: u64 = op_word(0x2f) | (1u64 << 52);
    assert_eq!(r.op(w1, &mut mem), Ok(DpEvent::Applied));
    assert_eq!(r.cycle_mode(), CycleMode::Two);
}

#[test]
fn set_combine_mode_forwards_raw_word() {
    let mut r = Rdp::new();
    let mut mem: Vec<u8> = vec![0u8; 16];
    let w: u64 = op_word(0x3c) | 0x123456789abcd;
    assert_eq!(r.op(w, &mut mem), Ok(DpEvent::Applied));
    assert_eq!(r.pipeline().combine, w);
}

#[test]
fn set_blend_color_converts_channel_order() {
    let mut r = Rdp::new();
    let mut mem: Vec<u8> = vec![0u8; 16];
    let w: u64 = op_word(0x39) | 0x11223344;
    assert_eq!(r.op(w, &mut mem), Ok(DpEvent::Applied));
    // ABGR 0x11223344 reordered to RGBA is the byte-reversed word
    assert_eq!(r.pipeline().blend_color, 0x44332211);
}

#[test]
fn set_fill_color_stores_raw_value() {
    let mut r = Rdp::new();
    let mut mem: Vec<u8> = vec![0u8; 16];
    let w: u64 = op_word(0x37) | 0xfffc_fffc;
    assert_eq!(r.op(w, &mut mem), Ok(DpEvent::Applied));
    assert_eq!(r.fill_color(), 0xfffc_fffc);
}

#[test]
fn single_word_commands_reset_pending() {
    // every one-word opcode completes on one submission
    let ops: [u64; 11] = [0x28, 0x2d, 0x2f, 0x34, 0x35, 0x36, 0x37, 0x39, 0x3c, 0x3d, 0x3f];
    for &o in ops.iter() {
        let mut r = Rdp::new();
        let mut mem: Vec<u8> = vec![0u8; 4096];
        let _ = r.op(op_word(o), &mut mem);
        assert_eq!(r.pending_len(), 0);
    }
}

#[test]
fn unknown_opcode_leaves_state_unchanged() {
    let mut r = Rdp::new();
    let mut mem: Vec<u8> = vec![9u8; 64];
    // give the registers non-default values first
    assert_eq!(
        r.op(image_word(0x3f, 0, 2, 320, 0x80), &mut mem),
        Ok(DpEvent::Applied)
    );
    assert_eq!(r.op(op_word(0x37) | 0x55667788, &mut mem), Ok(DpEvent::Applied));
    let fb = r.fb();
    let tex = r.tex();
    let clip = r.clip();
    let tile3 = r.tile(3);
    let fill = r.fill_color();
    let mode = r.cycle_mode();
    let pipe = r.pipeline();
    let tmem_before = r.tmem_bytes().clone();

    let ev = r.op(0x00aa_bbcc_dd11_2233, &mut mem);
    assert_eq!(ev, Ok(DpEvent::Unknown(0)));
    assert_eq!(r.pending_len(), 0);
    assert_eq!(r.fb(), fb);
    assert_eq!(r.tex(), tex);
    assert_eq!(r.clip(), clip);
    assert_eq!(r.tile(3), tile3);
    assert_eq!(r.fill_color(), fill);
    assert_eq!(r.cycle_mode(), mode);
    assert_eq!(r.pipeline(), pipe);
    assert_eq!(r.tmem_bytes(), &tmem_before);
    assert_eq!(mem, vec![9u8; 64]);

    // an unknown opcode other than zero is reported back
    let ev2 = r.op(0x01u64 << 56, &mut mem);
    assert_eq!(ev2, Ok(DpEvent::Unknown(0x01)));
}
