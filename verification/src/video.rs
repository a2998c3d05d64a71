//! Pixel and terminal-cell data of the video views.
use vstd::prelude::*;

verus! {

/// The RGB bytes of an RGBA image: the first three bytes of every group of
/// four (a trailing group of three is kept whole).
pub open spec fn rgb_of_rgba_spec(rgba: Seq<u8>) -> Seq<u8> {
    let n = rgba.len();
    Seq::new(
        (3 * (n / 4) + if n % 4 == 3 { 3int } else { 0int }) as nat,
        |k: int| rgba[4 * (k / 3) + k % 3],
    )
}

proof fn lemma_div3(i: int, j: int)
    requires
        0 <= i,
        0 <= j < 3,
    ensures
        (3 * i + j) / 3 == i,
        (3 * i + j) % 3 == j,
{
    assert((3 * i + j) / 3 == i && (3 * i + j) % 3 == j) by (nonlinear_arith)
        requires
            0 <= i,
            0 <= j < 3,
    ;
}

/// Drops the alpha byte of each pixel, for the local preview.
pub fn rgba_to_rgb(rgba: &[u8]) -> (rgb: Vec<u8>)
    requires
        rgba@.len() % 4 == 0 || rgba@.len() % 4 == 3,
    ensures
        rgb@ == rgb_of_rgba_spec(rgba@),
{
    let n = rgba.len();
    let mut out: Vec<u8> = Vec::new();
    let mut i: usize = 0;
    while n - i >= 4
        invariant
            n == rgba@.len(),
            i % 4 == 0,
            i <= n,
            out@.len() == 3 * (i / 4),
            forall|k: int| 0 <= k < out@.len() ==> out@[k] == rgba@[4 * (k / 3) + k % 3],
        decreases n - i,
    {
        let ghost q = i / 4;
        proof {
            lemma_div3(q as int, 0);
            lemma_div3(q as int, 1);
            lemma_div3(q as int, 2);
        }
        out.push(rgba[i]);
        out.push(rgba[i + 1]);
        out.push(rgba[i + 2]);
        i = i + 4;
    }
    if n - i == 3 {
        let ghost q = i / 4;
        proof {
            lemma_div3(q as int, 0);
            lemma_div3(q as int, 1);
            lemma_div3(q as int, 2);
        }
        out.push(rgba[i]);
        out.push(rgba[i + 1]);
        out.push(rgba[i + 2]);
    }
    assert(out@ == rgb_of_rgba_spec(rgba@));
    out
}

/// Whether `cp` is a Unicode scalar value, i.e. the code of a `char`.
pub open spec fn is_scalar_value(cp: u32) -> bool {
    cp <= 0x10FFFF && !(0xD800 <= cp <= 0xDFFF)
}

/// `char::from_u32`: the character with code `cp`, or `None` when `cp` is not
/// a Unicode scalar value.
#[verifier::external_body]
fn char_from_u32(cp: u32) -> (r: Option<char>)
    ensures
        r == if is_scalar_value(cp) { Some(cp as char) } else { None },
{
    char::from_u32(cp)
}

/// One Braille terminal cell: its glyph and color.
#[derive(Clone, Copy, Debug, PartialEq, Eq, Structural)]
pub struct BrailleCell {
    pub glyph: char,
    pub r: u8,
    pub g: u8,
    pub b: u8,
}

/// The little-endian number in four bytes.
pub open spec fn le_u32_spec(b0: u8, b1: u8, b2: u8, b3: u8) -> int {
    b0 + 256 * b1 + 65536 * b2 + 16777216 * b3
}

/// The glyph drawn for a code point: the character it codes, except that an
/// invalid code, NUL and space all draw as a space.
pub open spec fn glyph_spec(cp: u32) -> char {
    if is_scalar_value(cp) && cp != 0 && cp != 32 { cp as char } else { ' ' }
}

/// The Braille cell stored at byte offset `i`: a code point in four
/// little-endian bytes, then red, green and blue.
pub open spec fn braille_cell_at(cells: Seq<u8>, i: int) -> BrailleCell {
    BrailleCell {
        glyph: glyph_spec(le_u32_spec(cells[i], cells[i + 1], cells[i + 2], cells[i + 3]) as u32),
        r: cells[i + 4],
        g: cells[i + 5],
        b: cells[i + 6],
    }
}

/// How many cells of row `row` a buffer of `len` bytes holds, for rows of
/// `width` cells of `size` bytes each (cells cut off by the buffer's end are left out).
pub open spec fn cells_in_row(len: int, size: int, width: int, row: int) -> int {
    let avail = len / size - row * width;
    if avail < 0 { 0 } else if avail > width { width } else { avail }
}

/// Rows of Braille cells read from a renderer's output.
pub open spec fn braille_rows_spec(cells: Seq<u8>, width: u32, height: u32) -> Seq<Seq<BrailleCell>> {
    Seq::new(
        height as nat,
        |cy: int| Seq::new(
            cells_in_row(cells.len() as int, 8, width as int, cy) as nat,
            |cx: int| braille_cell_at(cells, (cy * width + cx) * 8),
        ),
    )
}

/// Index arithmetic that would leave `u32` (or, for the last byte of a cell,
/// `usize`) while walking `width` by `height` cells of `size` bytes.
pub open spec fn cell_index_overflows(width: u32, height: u32, size: int) -> bool {
    width > 0 && height > 0 && ((width * height - 1) * size > u32::MAX || (width * height - 1) * size + size - 1
        > usize::MAX)
}

proof fn lemma_cell_index(cy: int, cx: int, w: int, h: int, size: int, len: int)
    requires
        0 <= cy < h,
        0 <= cx < w,
        size > 0,
        len >= 0,
    ensures
        0 <= cy * w + cx <= w * h - 1,
        ((cy * w + cx) * size + size - 1 < len) <==> (cx < len / size - cy * w),
        (cy * w + cx) * size >= 0,
{
    assert(cy * w + cx <= w * h - 1) by (nonlinear_arith)
        requires
            0 <= cy < h,
            0 <= cx < w,
    ;
    assert(cy * w >= 0) by (nonlinear_arith)
        requires
            0 <= cy,
            0 <= w,
    ;
    let t = cy * w + cx;
    assert((t * size + size - 1 < len) <==> (t < len / size)) by (nonlinear_arith)
        requires
            size > 0,
            len >= 0,
            t >= 0,
    ;
    assert(t * size >= 0) by (nonlinear_arith)
        requires
            t >= 0,
            size > 0,
    ;
}

fn le_u32(b0: u8, b1: u8, b2: u8, b3: u8) -> (r: u32)
    ensures
        r as int == le_u32_spec(b0, b1, b2, b3),
{
    b0 as u32 + 256 * (b1 as u32) + 65536 * (b2 as u32) + 16777216 * (b3 as u32)
}

/// Reads a Braille renderer's output into rows of cells.
pub fn braille_rows(cells: &[u8], width: u32, height: u32) -> (rows: Vec<Vec<BrailleCell>>)
    requires
        !cell_index_overflows(width, height, 8),
    ensures
        rows@.len() == height,
        forall|cy: int| 0 <= cy < height ==> #[trigger] rows@[cy]@ == braille_rows_spec(cells@, width, height)[cy],
{
    let mut rows: Vec<Vec<BrailleCell>> = Vec::new();
    let mut cy: u32 = 0;
    while cy < height
        invariant
            cy <= height,
            rows@.len() == cy,
            !cell_index_overflows(width, height, 8),
            forall|k: int| 0 <= k < cy ==> #[trigger] rows@[k]@ == braille_rows_spec(cells@, width, height)[k],
        decreases height - cy,
    {
        let mut row: Vec<BrailleCell> = Vec::new();
        let mut cx: u32 = 0;
        while cx < width
            invariant
                cy < height,
                cx <= width,
                !cell_index_overflows(width, height, 8),
                row@.len() == (if cells_in_row(cells@.len() as int, 8, width as int, cy as int) < cx {
                    cells_in_row(cells@.len() as int, 8, width as int, cy as int)
                } else {
                    cx as int
                }),
                forall|k: int| 0 <= k < row@.len() ==> #[trigger] row@[k] == braille_cell_at(
                    cells@,
                    (cy * width + k) * 8,
                ),
            decreases width - cx,
        {
            proof {
                lemma_cell_index(cy as int, cx as int, width as int, height as int, 8, cells@.len() as int);
            }
            let idx = ((cy * width + cx) * 8) as usize;
            if idx + 7 < cells.len() {
                let cp = le_u32(cells[idx], cells[idx + 1], cells[idx + 2], cells[idx + 3]);
                let glyph = match char_from_u32(cp) {
                    Some(c) => if c == '\0' || c == ' ' { ' ' } else { c },
                    None => ' ',
                };
                assert(glyph == glyph_spec(cp));
                row.push(BrailleCell { glyph, r: cells[idx + 4], g: cells[idx + 5], b: cells[idx + 6] });
            }
            cx = cx + 1;
        }
        assert(row@ == braille_rows_spec(cells@, width, height)[cy as int]);
        rows.push(row);
        cy = cy + 1;
    }
    rows
}


/// A 24-bit color.
#[derive(Clone, Copy, Debug, PartialEq, Eq, Structural)]
pub struct Rgb {
    pub r: u8,
    pub g: u8,
    pub b: u8,
}

/// One half-block terminal cell: the upper pixel's color (drawn as the
/// glyph's foreground) and the lower pixel's (its background).
#[derive(Clone, Copy, Debug, PartialEq, Eq, Structural)]
pub struct HalfBlockCell {
    pub fg: Rgb,
    pub bg: Rgb,
}

/// The half-block cell stored at byte offset `i`: six color bytes.
pub open spec fn half_block_cell_at(cells: Seq<u8>, i: int) -> HalfBlockCell {
    HalfBlockCell {
        fg: Rgb { r: cells[i], g: cells[i + 1], b: cells[i + 2] },
        bg: Rgb { r: cells[i + 3], g: cells[i + 4], b: cells[i + 5] },
    }
}

/// Rows of half-block cells read from a renderer's output.
pub open spec fn half_block_rows_spec(cells: Seq<u8>, width: u32, height: u32) -> Seq<Seq<HalfBlockCell>> {
    Seq::new(
        height as nat,
        |cy: int| Seq::new(
            cells_in_row(cells.len() as int, 6, width as int, cy) as nat,
            |cx: int| half_block_cell_at(cells, (cy * width + cx) * 6),
        ),
    )
}

/// Reads a half-block renderer's output into rows of cells.
pub fn half_block_rows(cells: &[u8], width: u32, height: u32) -> (rows: Vec<Vec<HalfBlockCell>>)
    requires
        !cell_index_overflows(width, height, 6),
    ensures
        rows@.len() == height,
        forall|cy: int| 0 <= cy < height ==> #[trigger] rows@[cy]@ == half_block_rows_spec(cells@, width, height)[cy],
{
    let mut rows: Vec<Vec<HalfBlockCell>> = Vec::new();
    let mut cy: u32 = 0;
    while cy < height
        invariant
            cy <= height,
            rows@.len() == cy,
            !cell_index_overflows(width, height, 6),
            forall|k: int| 0 <= k < cy ==> #[trigger] rows@[k]@ == half_block_rows_spec(cells@, width, height)[k],
        decreases height - cy,
    {
        let mut row: Vec<HalfBlockCell> = Vec::new();
        let mut cx: u32 = 0;
        while cx < width
            invariant
                cy < height,
                cx <= width,
                !cell_index_overflows(width, height, 6),
                row@.len() == (if cells_in_row(cells@.len() as int, 6, width as int, cy as int) < cx {
                    cells_in_row(cells@.len() as int, 6, width as int, cy as int)
                } else {
                    cx as int
                }),
                forall|k: int| 0 <= k < row@.len() ==> #[trigger] row@[k] == half_block_cell_at(
                    cells@,
                    (cy * width + k) * 6,
                ),
            decreases width - cx,
        {
            proof {
                lemma_cell_index(cy as int, cx as int, width as int, height as int, 6, cells@.len() as int);
            }
            let idx = ((cy * width + cx) * 6) as usize;
            if idx + 5 < cells.len() {
                row.push(HalfBlockCell {
                    fg: Rgb { r: cells[idx], g: cells[idx + 1], b: cells[idx + 2] },
                    bg: Rgb { r: cells[idx + 3], g: cells[idx + 4], b: cells[idx + 5] },
                });
            }
            cx = cx + 1;
        }
        assert(row@ == half_block_rows_spec(cells@, width, height)[cy as int]);
        rows.push(row);
        cy = cy + 1;
    }
    rows
}

/// A renderer output of exactly `size` bytes per cell yields every cell of
/// every row.
pub proof fn law_full_output_gives_full_rows(len: int, size: int, width: int, row: int, height: int)
    requires
        size > 0,
        width >= 0,
        0 <= row < height,
        len == width * height * size,
    ensures
        cells_in_row(len, size, width, row) == width,
{
    assert(len / size == width * height) by (nonlinear_arith)
        requires
            size > 0,
            len == width * height * size,
    ;
    assert(width * height - row * width >= width) by (nonlinear_arith)
        requires
            0 <= row < height,
            width >= 0,
    ;
}

} // verus!
