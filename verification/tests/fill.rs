use rdp::DpEvent;
use rdp::DpFault;
use rdp::Rdp;

fn op_word(op: u64) -> u64 {
    op << 56
}

fn image_word(op: u64, cf: u64, size: u64, width: u64, dram: u64) -> u64 {
    (op << 56) | (cf << 53) | (size << 51) | ((width - 1) << 32) | dram
}

fn rect_br_word(op: u64, x0: u64, y0: u64, x1: u64, y1: u64) -> u64 {
    (op << 56) | (x1 << 44) | (y1 << 32) | (x0 << 12) | y0
}

/// A core configured for fill tests: 16-bit 320-wide framebuffer at
/// offset 0, Fill cycle mode, fill color 0x11223344.
fn fill_setup(mem: &mut Vec<u8>) -> Rdp {
    let mut r = Rdp::new();
    assert_eq!(r.op(image_word(0x3f, 0, 2, 320, 0), mem), Ok(DpEvent::Applied));
    assert_eq!(r.op(op_word(0x2f) | (3u64 << 52), mem), Ok(DpEvent::Applied));
    assert_eq!(r.op(op_word(0x37) | 0x11223344, mem), Ok(DpEvent::Applied));
    r
}

#[test]
fn fill_rectangle_fill_mode_writes_big_endian_words() {
    let mut mem: Vec<u8> = vec![0u8; 240 * 640];
    let mut r = fill_setup(&mut mem);
    // pixel rectangle (0,0) ..= (31,15); with 16 bits per pixel the
    // word rescale divides both axes by two: words (0,0) ..= (15,7)
    let w: u64 = rect_br_word(0x36, 0, 0, 31 << 2, 15 << 2);
    assert_eq!(r.op(w, &mut mem), Ok(DpEvent::Applied));
    assert_eq!(r.pending_len(), 0);

    // reference fill computed directly: the color repeated big-endian
    let mut expect: Vec<u8> = vec![0u8; 240 * 640];
    let color: [u8; 4] = [0x11, 0x22, 0x33, 0x44];
    for y in 0..8usize {
        for x in 0..16usize {
            for k in 0..4usize {
                expect[y * 640 + x * 4 + k] = color[k];
            }
        }
    }
    assert_eq!(mem, expect);
}

#[test]
fn fill_rectangle_offset_rect_exact_bytes() {
    let mut mem: Vec<u8> = vec![0u8; 240 * 640];
    let mut r = fill_setup(&mut mem);
    // pixels (8,2) ..= (15,5): words (4,1) ..= (7,2)
    let w: u64 = rect_br_word(0x36, 8 << 2, 2 << 2, 15 << 2, 5 << 2);
    assert_eq!(r.op(w, &mut mem), Ok(DpEvent::Applied));
    let mut expect: Vec<u8> = vec![0u8; 240 * 640];
    let color: [u8; 4] = [0x11, 0x22, 0x33, 0x44];
    for y in 1..3usize {
        for x in 4..8usize {
            for k in 0..4usize {
                expect[y * 640 + x * 4 + k] = color[k];
            }
        }
    }
    assert_eq!(mem, expect);
}

#[test]
fn fill_rectangle_unaligned_faults_without_writing() {
    let mut mem: Vec<u8> = vec![0u8; 240 * 640];
    let mut r = fill_setup(&mut mem);
    // x1 does not rescale to a whole word: (122 + 4) / 2 = 63, not a
    // multiple of four
    let w: u64 = rect_br_word(0x36, 0, 0, 122, 15 << 2);
    assert_eq!(r.op(w, &mut mem), Err(DpFault::FillRectUnaligned));
    assert_eq!(r.pending_len(), 0);
    assert!(mem.iter().all(|&b| b == 0));
}

#[test]
fn fill_rectangle_out_of_memory_faults_without_writing() {
    let mut mem: Vec<u8> = vec![0u8; 64];
    let mut r = fill_setup(&mut mem);
    let w: u64 = rect_br_word(0x36, 0, 0, 31 << 2, 15 << 2);
    assert_eq!(r.op(w, &mut mem), Err(DpFault::MemoryRange));
    assert!(mem.iter().all(|&b| b == 0));
}

#[test]
fn fill_rectangle_two_and_copy_modes_fault() {
    let mut mem: Vec<u8> = vec![0u8; 64];
    let mut r = Rdp::new();
    assert_eq!(r.op(op_word(0x2f) | (1u64 << 52), &mut mem), Ok(DpEvent::Applied));
    let w: u64 = rect_br_word(0x36, 0, 0, 4, 4);
    assert_eq!(r.op(w, &mut mem), Err(DpFault::FillRectUnsupportedMode));

    assert_eq!(r.op(op_word(0x2f) | (2u64 << 52), &mut mem), Ok(DpEvent::Applied));
    assert_eq!(r.op(w, &mut mem), Err(DpFault::FillRectUnsupportedMode));
    assert!(mem.iter().all(|&b| b == 0));
}

#[test]
fn fill_rectangle_one_mode_goes_through_pipeline() {
    let mut mem: Vec<u8> = vec![0u8; 64];
    let mut r = Rdp::new();
    assert_eq!(
        r.op(image_word(0x3f, 0, 2, 320, 0), &mut mem),
        Ok(DpEvent::Applied)
    );
    assert_eq!(r.op(op_word(0x37) | 0xa1b2c3d4, &mut mem), Ok(DpEvent::Applied));
    // cycle mode One is the reset state; whole-pixel rectangle
    let w: u64 = rect_br_word(0x36, 1 << 2, 2 << 2, 10 << 2, 20 << 2);
    let ev = r.op(w, &mut mem);
    let cmd = match ev {
        Ok(DpEvent::PipelineFill(c)) => c,
        other => panic!("expected a pipeline fill, got {:?}", other),
    };
    // the rectangle is handed over unrescaled, the color in ABGR order
    assert_eq!(cmd.rect.x0, 1 << 2);
    assert_eq!(cmd.rect.y0, 2 << 2);
    assert_eq!(cmd.rect.x1, 10 << 2);
    assert_eq!(cmd.rect.y1, 20 << 2);
    assert_eq!(cmd.color_abgr, 0xa1b2c3d4);
    assert_eq!(cmd.fb, r.fb());
    assert_eq!((cmd.dst_width, cmd.dst_height), (320, 240));
    assert!(mem.iter().all(|&b| b == 0)); // the fill itself is external

    // a fractional coordinate faults in One mode too
    let bad: u64 = rect_br_word(0x36, 1, 0, 10 << 2, 20 << 2);
    assert_eq!(r.op(bad, &mut mem), Err(DpFault::FillRectUnaligned));
}
