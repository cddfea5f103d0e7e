use vstd::prelude::*;
use vstd::arithmetic::mul::lemma_mul_inequality;
use crate::bits::lemma_u32_mask_le;

verus! {

/// The four bytes of a packed 32-bit color word laid out big-endian.
pub open spec fn color_word_bytes(c: u32) -> Seq<u8> {
    seq![
        ((c >> 24) & 0xff) as u8,
        ((c >> 16) & 0xff) as u8,
        ((c >> 8) & 0xff) as u8,
        (c & 0xff) as u8,
    ]
}

/// One row partially filled with the repeated big-endian color word:
/// bytes `base + 4*x0 .. end` take the word pattern (byte `i` gets the
/// word byte `(i - base) % 4`); everything else keeps its value.
pub open spec fn filled_row_to(s: Seq<u8>, base: int, x0: int, end: int, c: u32) -> Seq<u8> {
    Seq::new(
        s.len(),
        |i: int|
            if base + 4 * x0 <= i < end {
                color_word_bytes(c)[(i - base) % 4]
            } else {
                s[i]
            },
    )
}

/// One whole filled row: 32-bit words `x0 ..= x1` of the row at `base`.
pub open spec fn filled_row(s: Seq<u8>, base: int, x0: int, x1: int, c: u32) -> Seq<u8> {
    filled_row_to(s, base, x0, base + 4 * (x1 + 1), c)
}

/// Rows `y0 ..= y0 + n - 1` filled one after the other, later rows last.
pub open spec fn filled_rows(
    s: Seq<u8>,
    base: int,
    pitch: int,
    x0: int,
    x1: int,
    y0: int,
    n: nat,
    c: u32,
) -> Seq<u8>
    decreases n,
{
    if n == 0 {
        s
    } else {
        filled_row(
            filled_rows(s, base, pitch, x0, x1, y0, (n - 1) as nat, c),
            base + (y0 + n - 1) * pitch,
            x0,
            x1,
            c,
        )
    }
}

pub proof fn lemma_filled_rows_len(
    s: Seq<u8>,
    base: int,
    pitch: int,
    x0: int,
    x1: int,
    y0: int,
    n: nat,
    c: u32,
)
    ensures
        filled_rows(s, base, pitch, x0, x1, y0, n, c).len() == s.len(),
    decreases n,
{
    if n != 0 {
        lemma_filled_rows_len(s, base, pitch, x0, x1, y0, (n - 1) as nat, c);
    }
}

/// Fills the corner-inclusive word rectangle `(x0, y0) ..= (x1, y1)` of a
/// row-major grid of 32-bit words at byte offset `base` with row stride
/// `pitch`, writing `color` big-endian.
#[verifier::loop_isolation(false)]
pub fn fill_rect_words(
    mem: &mut Vec<u8>,
    base: usize,
    pitch: usize,
    x0: usize,
    x1: usize,
    y0: usize,
    y1: usize,
    color: u32,
)
    requires
        x0 <= x1,
        y0 <= y1,
        y1 < usize::MAX,
        base + y1 * pitch + 4 * (x1 + 1) <= old(mem).len(),
    ensures
        final(mem)@ == filled_rows(
            old(mem)@,
            base as int,
            pitch as int,
            x0 as int,
            x1 as int,
            y0 as int,
            (y1 - y0 + 1) as nat,
            color,
        ),
{
    proof {
        lemma_u32_mask_le(color >> 24, 0xff);
        lemma_u32_mask_le(color >> 16, 0xff);
        lemma_u32_mask_le(color >> 8, 0xff);
        lemma_u32_mask_le(color, 0xff);
    }
    let b0 = ((color >> 24) & 0xff) as u8;
    let b1 = ((color >> 16) & 0xff) as u8;
    let b2 = ((color >> 8) & 0xff) as u8;
    let b3 = (color & 0xff) as u8;
    let mut y = y0;
    while y <= y1
        invariant
            y0 <= y <= y1 + 1,
            x0 <= x1,
            base + y1 * pitch + 4 * (x1 + 1) <= old(mem).len(),
            mem@.len() == old(mem)@.len(),
            mem@ == filled_rows(
                old(mem)@,
                base as int,
                pitch as int,
                x0 as int,
                x1 as int,
                y0 as int,
                (y - y0) as nat,
                color,
            ),
        decreases y1 + 1 - y,
    {
        proof {
            lemma_mul_inequality(y as int, y1 as int, pitch as int);
        }
        let rowbase = base + y * pitch;
        let lo = rowbase + 4 * x0;
        let hi = rowbase + 4 * x1 + 4;
        let ghost snap = mem@;
        let mut j = lo;
        proof {
            assert(mem@ =~= filled_row_to(snap, rowbase as int, x0 as int, j as int, color));
        }
        while j < hi
            invariant
                lo <= j <= hi,
                lo == rowbase + 4 * x0,
                hi == rowbase + 4 * x1 + 4,
                rowbase == base + y * pitch,
                hi <= mem.len(),
                mem@.len() == snap.len(),
                b0 == ((color >> 24) & 0xff) as u8,
                b1 == ((color >> 16) & 0xff) as u8,
                b2 == ((color >> 8) & 0xff) as u8,
                b3 == (color & 0xff) as u8,
                mem@ == filled_row_to(snap, rowbase as int, x0 as int, j as int, color),
            decreases hi - j,
        {
            let k = (j - rowbase) % 4;
            let byte = if k == 0 {
                b0
            } else if k == 1 {
                b1
            } else if k == 2 {
                b2
            } else {
                b3
            };
            mem[j] = byte;
            proof {
                assert(mem@ =~= filled_row_to(snap, rowbase as int, x0 as int, j + 1 as int, color));
            }
            j = j + 1;
        }
        proof {
            assert(filled_row_to(snap, rowbase as int, x0 as int, hi as int, color)
                =~= filled_row(snap, rowbase as int, x0 as int, x1 as int, color));
            assert(mem@ == filled_rows(
                old(mem)@,
                base as int,
                pitch as int,
                x0 as int,
                x1 as int,
                y0 as int,
                (y + 1 - y0) as nat,
                color,
            ));
        }
        y = y + 1;
    }
}

/// One destination row partially overwritten from the source: bytes
/// `dbase .. dbase + n` take `src[sbase ..]`; everything else keeps its
/// value.
pub open spec fn copied_row(dst: Seq<u8>, dbase: int, src: Seq<u8>, sbase: int, n: int) -> Seq<
    u8,
> {
    Seq::new(
        dst.len(),
        |i: int|
            if dbase <= i < dbase + n {
                src[sbase + (i - dbase)]
            } else {
                dst[i]
            },
    )
}

/// `n` rows of `rowbytes` bytes copied one after the other, row `r` going
/// from `sbase + r * spitch` to `dbase + r * dpitch`, later rows last.
pub open spec fn copied_rows(
    dst: Seq<u8>,
    dbase: int,
    dpitch: int,
    src: Seq<u8>,
    sbase: int,
    spitch: int,
    rowbytes: int,
    n: nat,
) -> Seq<u8>
    decreases n,
{
    if n == 0 {
        dst
    } else {
        copied_row(
            copied_rows(dst, dbase, dpitch, src, sbase, spitch, rowbytes, (n - 1) as nat),
            dbase + (n - 1) * dpitch,
            src,
            sbase + (n - 1) * spitch,
            rowbytes,
        )
    }
}

pub proof fn lemma_copied_rows_len(
    dst: Seq<u8>,
    dbase: int,
    dpitch: int,
    src: Seq<u8>,
    sbase: int,
    spitch: int,
    rowbytes: int,
    n: nat,
)
    ensures
        copied_rows(dst, dbase, dpitch, src, sbase, spitch, rowbytes, n).len() == dst.len(),
    decreases n,
{
    if n != 0 {
        lemma_copied_rows_len(dst, dbase, dpitch, src, sbase, spitch, rowbytes, (n - 1) as nat);
    }
}

/// Copies `nrows` rows of `rowbytes` bytes from `src` into `dst`, the
/// source advancing by `spitch` and the destination by `dpitch` per row.
#[verifier::loop_isolation(false)]
pub fn copy_rect_rows(
    dst: &mut Vec<u8>,
    dbase: usize,
    dpitch: usize,
    src: &Vec<u8>,
    sbase: usize,
    spitch: usize,
    rowbytes: usize,
    nrows: usize,
)
    requires
        nrows >= 1 ==> dbase + (nrows - 1) * dpitch + rowbytes <= old(dst).len(),
        nrows >= 1 ==> sbase + (nrows - 1) * spitch + rowbytes <= src.len(),
    ensures
        final(dst)@ == copied_rows(
            old(dst)@,
            dbase as int,
            dpitch as int,
            src@,
            sbase as int,
            spitch as int,
            rowbytes as int,
            nrows as nat,
        ),
{
    let mut r: usize = 0;
    while r < nrows
        invariant
            r <= nrows,
            nrows >= 1 ==> dbase + (nrows - 1) * dpitch + rowbytes <= old(dst).len(),
            nrows >= 1 ==> sbase + (nrows - 1) * spitch + rowbytes <= src.len(),
            dst@.len() == old(dst)@.len(),
            dst@ == copied_rows(
                old(dst)@,
                dbase as int,
                dpitch as int,
                src@,
                sbase as int,
                spitch as int,
                rowbytes as int,
                r as nat,
            ),
        decreases nrows - r,
    {
        proof {
            lemma_mul_inequality(r as int, nrows - 1, dpitch as int);
            lemma_mul_inequality(r as int, nrows - 1, spitch as int);
        }
        let drow = dbase + r * dpitch;
        let srow = sbase + r * spitch;
        let ghost snap = dst@;
        let mut j: usize = 0;
        proof {
            assert(dst@ =~= copied_row(snap, drow as int, src@, srow as int, j as int));
        }
        while j < rowbytes
            invariant
                j <= rowbytes,
                drow + rowbytes <= dst.len(),
                srow + rowbytes <= src.len(),
                dst@.len() == snap.len(),
                dst@ == copied_row(snap, drow as int, src@, srow as int, j as int),
            decreases rowbytes - j,
        {
            let byte = src[srow + j];
            dst[drow + j] = byte;
            proof {
                assert(dst@ =~= copied_row(snap, drow as int, src@, srow as int, j + 1 as int));
            }
            j = j + 1;
        }
        proof {
            assert(dst@ == copied_rows(
                old(dst)@,
                dbase as int,
                dpitch as int,
                src@,
                sbase as int,
                spitch as int,
                rowbytes as int,
                (r + 1) as nat,
            ));
        }
        r = r + 1;
    }
}

} // verus!
