//! Painting pixels into the panel's ARGB8888 buffer: solid rectangles, single
//! pixels, alpha-blended pixels, and 8x8 bitmap glyphs.
//!
//! Pixel (x, y) of a buffer `canvas_w` pixels wide occupies the four bytes
//! from `(y * canvas_w + x) * 4`, in little-endian order of its ARGB colour;
//! a pixel whose four bytes do not all lie in the buffer is skipped.

use vstd::prelude::*;

use font8x8::UnicodeFonts;

verus! {

/// Byte `k` (0 = least significant) of a colour.
pub open spec fn color_byte(color: u32, k: int) -> u8 {
    if k == 0 {
        (color & 0xff) as u8
    } else if k == 1 {
        ((color >> 8u32) & 0xff) as u8
    } else if k == 2 {
        ((color >> 16u32) & 0xff) as u8
    } else {
        ((color >> 24u32) & 0xff) as u8
    }
}

/// The first byte of pixel (x, y).
pub open spec fn pixel_offset(canvas_w: u32, x: int, y: int) -> int {
    (y * canvas_w + x) * 4
}

/// Byte `b` of a buffer of `len` bytes belongs to a pixel of `pixels` that
/// has non-negative coordinates and fits in the buffer.
pub open spec fn covers(canvas_w: u32, pixels: Set<(int, int)>, len: int, b: int) -> bool {
    exists|q: (int, int)|
        #![trigger pixels.contains(q)]
        pixels.contains(q) && q.0 >= 0 && q.1 >= 0 && pixel_offset(canvas_w, q.0, q.1) == (b / 4) * 4 && (b / 4)
            * 4 + 4 <= len
}

/// The buffer after every pixel of `pixels` is painted `color`.
pub open spec fn paint(canvas: Seq<u8>, canvas_w: u32, pixels: Set<(int, int)>, color: u32) -> Seq<u8> {
    Seq::new(
        canvas.len(),
        |b: int|
            if covers(canvas_w, pixels, canvas.len() as int, b) {
                color_byte(color, b % 4)
            } else {
                canvas[b]
            },
    )
}

/// The pixels of a rectangle, right and bottom edges excluded.
pub open spec fn rect_pixels(x0: int, y0: int, x1: int, y1: int) -> Set<(int, int)> {
    Set::new(|q: (int, int)| x0 <= q.0 < x1 && y0 <= q.1 < y1)
}

/// Painting two sets of pixels one after the other paints their union.
pub proof fn lemma_paint_union(canvas: Seq<u8>, canvas_w: u32, p: Set<(int, int)>, q: Set<(int, int)>, color: u32)
    ensures
        paint(paint(canvas, canvas_w, p, color), canvas_w, q, color) == paint(canvas, canvas_w, p.union(q), color),
{
    let len = canvas.len() as int;
    let lhs = paint(paint(canvas, canvas_w, p, color), canvas_w, q, color);
    let rhs = paint(canvas, canvas_w, p.union(q), color);
    assert forall|b: int| 0 <= b < len implies lhs[b] == rhs[b] by {
        if covers(canvas_w, p, len, b) {
            let w = choose|w: (int, int)|
                #![trigger p.contains(w)]
                p.contains(w) && w.0 >= 0 && w.1 >= 0 && pixel_offset(canvas_w, w.0, w.1) == (b / 4) * 4 && (b / 4)
                    * 4 + 4 <= len;
            assert(p.union(q).contains(w));
        }
        if covers(canvas_w, q, len, b) {
            let w = choose|w: (int, int)|
                #![trigger q.contains(w)]
                q.contains(w) && w.0 >= 0 && w.1 >= 0 && pixel_offset(canvas_w, w.0, w.1) == (b / 4) * 4 && (b / 4)
                    * 4 + 4 <= len;
            assert(p.union(q).contains(w));
        }
        if covers(canvas_w, p.union(q), len, b) {
            let w = choose|w: (int, int)|
                #![trigger p.union(q).contains(w)]
                p.union(q).contains(w) && w.0 >= 0 && w.1 >= 0 && pixel_offset(canvas_w, w.0, w.1) == (b / 4) * 4
                    && (b / 4) * 4 + 4 <= len;
            if p.contains(w) {
                assert(covers(canvas_w, p, len, b));
            } else {
                assert(covers(canvas_w, q, len, b));
            }
        }
    }
    assert(lhs =~= rhs);
}

/// Painting no pixel changes nothing.
pub proof fn lemma_paint_empty(canvas: Seq<u8>, canvas_w: u32, color: u32)
    ensures
        paint(canvas, canvas_w, Set::empty(), color) == canvas,
{
    assert(paint(canvas, canvas_w, Set::empty(), color) =~= canvas);
}

/// Writes the four bytes of `color` at `idx` when they fit in the buffer;
/// this paints the pixel whose first byte is `idx`.
fn write_pixel_bytes(canvas: &mut [u8], canvas_w: u32, Ghost(x): Ghost<int>, Ghost(y): Ghost<int>, idx: usize, color: u32)
    requires
        x >= 0,
        y >= 0,
        idx == pixel_offset(canvas_w, x, y),
    ensures
        final(canvas)@ == paint(old(canvas)@, canvas_w, set![(x, y)], color),
{
    let ghost len = canvas@.len() as int;
    if idx < canvas.len() && canvas.len() - idx >= 4 {
        canvas[idx] = (color & 0xff) as u8;
        canvas[idx + 1] = ((color >> 8) & 0xff) as u8;
        canvas[idx + 2] = ((color >> 16) & 0xff) as u8;
        canvas[idx + 3] = ((color >> 24) & 0xff) as u8;
    }
    proof {
        let p = set![(x, y)];
        let target = paint(old(canvas)@, canvas_w, p, color);
        assert forall|b: int| 0 <= b < len implies #[trigger] canvas@[b] == target[b] by {
            if covers(canvas_w, p, len, b) {
                let w = choose|w: (int, int)|
                    #![trigger p.contains(w)]
                    p.contains(w) && w.0 >= 0 && w.1 >= 0 && pixel_offset(canvas_w, w.0, w.1) == (b / 4) * 4 && (b
                        / 4) * 4 + 4 <= len;
                assert(w == (x, y));
            } else if idx <= b < idx + 4 && idx + 4 <= len {
                assert(p.contains((x, y)));
                assert(covers(canvas_w, p, len, b));
            }
        }
        assert(canvas@ =~= target);
    }
}

/// Paints one pixel; pixels with a negative coordinate or outside the buffer
/// are skipped.
pub fn put_pixel(canvas: &mut [u8], canvas_w: u32, x: i32, y: i32, color: u32)
    requires
        x >= 0 && y >= 0 ==> pixel_offset(canvas_w, x as int, y as int) <= u32::MAX,
    ensures
        final(canvas)@ == paint(old(canvas)@, canvas_w, set![(x as int, y as int)], color),
{
    if x < 0 || y < 0 {
        proof {
            let p = set![(x as int, y as int)];
            assert(paint(old(canvas)@, canvas_w, p, color) =~= old(canvas)@);
        }
        return;
    }
    let x = x as u32;
    let y = y as u32;
    proof {
        assert(0 <= (y as int) * (canvas_w as int)) by (nonlinear_arith);
    }
    let idx = ((y * canvas_w + x) * 4) as usize;
    write_pixel_bytes(canvas, canvas_w, Ghost(x as int), Ghost(y as int), idx, color);
}

/// `((src * alpha) + (dst * (255 - alpha))) / 255`: `src` over `dst` with
/// opacity `alpha`.
pub open spec fn blend(src: u8, dst: u8, alpha: u8) -> u8 {
    ((src * alpha + dst * (255 - alpha)) / 255) as u8
}

/// Blends `color` over pixel (x, y) with opacity `alpha` and makes the pixel
/// opaque; pixels with a negative coordinate or outside the buffer are
/// skipped.
pub fn put_pixel_alpha(canvas: &mut [u8], canvas_w: u32, x: i32, y: i32, color: u32, alpha: u8)
    requires
        x >= 0 && y >= 0 ==> pixel_offset(canvas_w, x as int, y as int) <= u32::MAX,
    ensures
        final(canvas)@ == if x >= 0 && y >= 0 && pixel_offset(canvas_w, x as int, y as int) + 4 <= old(
            canvas,
        )@.len() {
            let i = pixel_offset(canvas_w, x as int, y as int);
            old(canvas)@.update(i, blend(color_byte(color, 0), old(canvas)@[i], alpha)).update(
                i + 1,
                blend(color_byte(color, 1), old(canvas)@[i + 1], alpha),
            ).update(i + 2, blend(color_byte(color, 2), old(canvas)@[i + 2], alpha)).update(i + 3, 0xFF)
        } else {
            old(canvas)@
        },
{
    if x < 0 || y < 0 {
        return;
    }
    let x = x as u32;
    let y = y as u32;
    proof {
        assert(0 <= (y as int) * (canvas_w as int)) by (nonlinear_arith);
    }
    let idx = ((y * canvas_w + x) * 4) as usize;
    if idx >= canvas.len() || canvas.len() - idx < 4 {
        return;
    }
    let src: [u8; 4] = [
        (color & 0xff) as u8,
        ((color >> 8) & 0xff) as u8,
        ((color >> 16) & 0xff) as u8,
        ((color >> 24) & 0xff) as u8,
    ];
    let a = alpha as u16;
    let ghost start = canvas@;
    let mut i: usize = 0;
    while i < 3
        invariant
            i <= 3,
            idx + 4 <= canvas@.len(),
            canvas@.len() == start.len(),
            a == alpha,
            src@ == seq![color_byte(color, 0), color_byte(color, 1), color_byte(color, 2), color_byte(color, 3)],
            forall|j: int| 0 <= j < canvas@.len() && !(idx <= j < idx + i) ==> canvas@[j] == start[j],
            forall|k: int| 0 <= k < i ==> canvas@[idx + k] == blend(src@[k], start[idx + k], alpha),
        decreases 3 - i,
    {
        let dst = canvas[idx + i] as u16;
        let srcv = src[i] as u16;
        proof {
            assert(srcv * a <= 255 * a) by (nonlinear_arith)
                requires
                    srcv <= 255,
            ;
            assert(dst * (255 - a) <= 255 * (255 - a)) by (nonlinear_arith)
                requires
                    dst <= 255,
                    a <= 255,
            ;
        }
        canvas[idx + i] = (((srcv * a) + (dst * (255 - a))) / 255) as u8;
        i = i + 1;
    }
    canvas[idx + 3] = 0xFF;
    proof {
        let ii = idx as int;
        let target = start.update(ii, blend(color_byte(color, 0), start[ii], alpha)).update(
            ii + 1,
            blend(color_byte(color, 1), start[ii + 1], alpha),
        ).update(ii + 2, blend(color_byte(color, 2), start[ii + 2], alpha)).update(ii + 3, 0xFF);
        assert(canvas@ =~= target);
    }
}

/// Paints the rectangle of pixels `x0 <= x < x1`, `y0 <= y < y1`; pixels
/// outside the buffer are skipped.
pub fn fill_pixels(canvas: &mut [u8], canvas_w: u32, x0: u32, y0: u32, x1: u32, y1: u32, color: u32)
    requires
        x0 < x1 && y0 < y1 ==> pixel_offset(canvas_w, x1 - 1, y1 - 1) <= u32::MAX,
    ensures
        final(canvas)@ == paint(old(canvas)@, canvas_w, rect_pixels(x0 as int, y0 as int, x1 as int, y1 as int), color),
{
    let ghost start = canvas@;
    proof {
        lemma_paint_empty(start, canvas_w, color);
        assert(rect_pixels(x0 as int, y0 as int, x1 as int, y0 as int) =~= Set::<(int, int)>::empty());
    }
    let mut yy = y0;
    while yy < y1
        invariant
            y0 <= yy,
            yy <= y1 || yy == y0,
            x0 < x1 && y0 < y1 ==> pixel_offset(canvas_w, x1 - 1, y1 - 1) <= u32::MAX,
            canvas@ == paint(start, canvas_w, rect_pixels(x0 as int, y0 as int, x1 as int, yy as int), color),
        decreases y1 - yy,
    {
        let ghost done = rect_pixels(x0 as int, y0 as int, x1 as int, yy as int);
        proof {
            assert(done.union(rect_pixels(x0 as int, yy as int, x0 as int, yy + 1)) =~= done);
        }
        let mut xx = x0;
        while xx < x1
            invariant
                y0 <= yy < y1,
                x0 <= xx,
                xx <= x1 || xx == x0,
                pixel_offset(canvas_w, x1 - 1, y1 - 1) <= u32::MAX || x1 <= x0,
                done == rect_pixels(x0 as int, y0 as int, x1 as int, yy as int),
                canvas@ == paint(start, canvas_w, done.union(rect_pixels(x0 as int, yy as int, xx as int, yy + 1)), color),
            decreases x1 - xx,
        {
            proof {
                assert((yy as int) * (canvas_w as int) + xx <= (y1 - 1) * (canvas_w as int) + (x1 - 1)) by (nonlinear_arith)
                    requires
                        yy <= y1 - 1,
                        xx <= x1 - 1,
                ;
                assert(0 <= (yy as int) * (canvas_w as int)) by (nonlinear_arith);
            }
            let idx = ((yy * canvas_w + xx) * 4) as usize;
            let ghost before = done.union(rect_pixels(x0 as int, yy as int, xx as int, yy + 1));
            write_pixel_bytes(canvas, canvas_w, Ghost(xx as int), Ghost(yy as int), idx, color);
            proof {
                lemma_paint_union(start, canvas_w, before, set![(xx as int, yy as int)], color);
                assert(before.union(set![(xx as int, yy as int)]) =~= done.union(
                    rect_pixels(x0 as int, yy as int, xx + 1, yy + 1),
                ));
            }
            xx = xx + 1;
        }
        proof {
            if x0 < x1 {
                assert(xx == x1);
            }
            assert(done.union(rect_pixels(x0 as int, yy as int, xx as int, yy + 1)) =~= rect_pixels(
                x0 as int,
                y0 as int,
                x1 as int,
                yy + 1,
            ));
        }
        yy = yy + 1;
    }
    proof {
        assert(rect_pixels(x0 as int, y0 as int, x1 as int, yy as int) =~= rect_pixels(
            x0 as int,
            y0 as int,
            x1 as int,
            y1 as int,
        ));
    }
}

/// The 8x8 bitmap of a character in font8x8's Basic Latin set, one byte per
/// row from the top, bit `i` lit for column `i` from the left.
pub uninterp spec fn basic_font_glyph(ch: char) -> Option<Seq<u8>>;

/// Calls `font8x8::BASIC_FONTS.get`. It claims that a bitmap comes back
/// exactly for the characters U+0000..U+007F (the table holds those 128
/// characters in order and is searched by binary search), and that the
/// bitmap is the one `basic_font_glyph` names; the bitmaps themselves are
/// font8x8's data and are not stated.
#[verifier::external_body]
fn basic_glyph(ch: char) -> (r: Option<[u8; 8]>)
    ensures
        r is Some <==> (ch as u32) < 128,
        match r {
            Some(bitmap) => basic_font_glyph(ch) == Some(bitmap@),
            None => basic_font_glyph(ch) is None,
        },
{
    font8x8::BASIC_FONTS.get(ch)
}

/// Column `col` of row `row` of a glyph bitmap is lit.
pub open spec fn glyph_bit(bitmap: Seq<u8>, row: int, col: int) -> bool {
    (bitmap[row] >> (col as u32)) & 1u8 == 1u8
}

/// The `scale` x `scale` block of pixels that draws bitmap cell (row, col)
/// of a glyph whose top-left corner is (x, y).
pub open spec fn glyph_block(x: int, y: int, scale: int, row: int, col: int) -> Set<(int, int)> {
    rect_pixels(x + col * scale, y + row * scale, x + col * scale + scale, y + row * scale + scale)
}

/// The pixels of the lit cells among the first `n` cells (row by row).
pub open spec fn glyph_pixels_upto(bitmap: Seq<u8>, x: int, y: int, scale: int, n: int) -> Set<(int, int)> {
    Set::new(
        |q: (int, int)|
            exists|row: int, col: int|
                0 <= row < 8 && 0 <= col < 8 && row * 8 + col < n && glyph_bit(bitmap, row, col)
                    && #[trigger] glyph_block(x, y, scale, row, col).contains(q),
    )
}

/// The pixels that draw a glyph scaled by `scale` with its top-left corner
/// at (x, y).
pub open spec fn glyph_pixels(bitmap: Seq<u8>, x: int, y: int, scale: int) -> Set<(int, int)> {
    glyph_pixels_upto(bitmap, x, y, scale, 64)
}

/// Paints the `scale` x `scale` block with top-left corner (px, py).
fn fill_block(canvas: &mut [u8], canvas_w: u32, px: i32, py: i32, scale: i32, color: u32)
    requires
        scale >= 0,
        px + scale <= i32::MAX,
        py + scale <= i32::MAX,
        px + scale - 1 >= 0 && py + scale - 1 >= 0 ==> pixel_offset(canvas_w, px + scale - 1, py + scale - 1)
            <= u32::MAX,
    ensures
        final(canvas)@ == paint(old(canvas)@, canvas_w, rect_pixels(px as int, py as int, px + scale, py + scale), color),
{
    let ghost start = canvas@;
    proof {
        lemma_paint_empty(start, canvas_w, color);
        assert(rect_pixels(px as int, py as int, px + scale, py as int) =~= Set::<(int, int)>::empty());
    }
    let mut sy: i32 = 0;
    while sy < scale
        invariant
            0 <= sy <= scale,
            px + scale <= i32::MAX,
            py + scale <= i32::MAX,
            px + scale - 1 >= 0 && py + scale - 1 >= 0 ==> pixel_offset(canvas_w, px + scale - 1, py + scale - 1)
                <= u32::MAX,
            canvas@ == paint(start, canvas_w, rect_pixels(px as int, py as int, px + scale, py + sy), color),
        decreases scale - sy,
    {
        let ghost done = rect_pixels(px as int, py as int, px + scale, py + sy);
        proof {
            assert(done.union(rect_pixels(px as int, py + sy, px as int, py + sy + 1)) =~= done);
        }
        let mut sx: i32 = 0;
        while sx < scale
            invariant
                0 <= sy < scale,
                0 <= sx <= scale,
                px + scale <= i32::MAX,
                py + scale <= i32::MAX,
                px + scale - 1 >= 0 && py + scale - 1 >= 0 ==> pixel_offset(canvas_w, px + scale - 1, py + scale - 1)
                    <= u32::MAX,
                done == rect_pixels(px as int, py as int, px + scale, py + sy),
                canvas@ == paint(start, canvas_w, done.union(rect_pixels(px as int, py + sy, px + sx, py + sy + 1)), color),
            decreases scale - sx,
        {
            let gx = px + sx;
            let gy = py + sy;
            proof {
                if gx >= 0 && gy >= 0 {
                    assert((gy as int) * (canvas_w as int) + gx <= (py + scale - 1) * (canvas_w as int) + (px + scale - 1))
                        by (nonlinear_arith)
                        requires
                            0 <= gy <= py + scale - 1,
                            gx <= px + scale - 1,
                    ;
                }
            }
            let ghost before = done.union(rect_pixels(px as int, py + sy, px + sx, py + sy + 1));
            put_pixel(canvas, canvas_w, gx, gy, color);
            proof {
                lemma_paint_union(start, canvas_w, before, set![(gx as int, gy as int)], color);
                assert(before.union(set![(gx as int, gy as int)]) =~= done.union(
                    rect_pixels(px as int, py + sy, px + sx + 1, py + sy + 1),
                ));
            }
            sx = sx + 1;
        }
        proof {
            assert(done.union(rect_pixels(px as int, py + sy, px + sx, py + sy + 1)) =~= rect_pixels(
                px as int,
                py as int,
                px + scale,
                py + sy + 1,
            ));
        }
        sy = sy + 1;
    }
}

/// Draws a character of the Basic Latin set from font8x8's 8x8 bitmaps,
/// each cell a `scale` x `scale` block, top-left corner at (x, y); other
/// characters draw nothing.
pub fn draw_glyph(canvas: &mut [u8], canvas_w: u32, x: i32, y: i32, ch: char, scale: usize, color: u32)
    requires
        7 * scale <= i32::MAX,
        x + 8 * scale <= i32::MAX,
        y + 8 * scale <= i32::MAX,
        x + 8 * scale - 1 >= 0 && y + 8 * scale - 1 >= 0 ==> pixel_offset(
            canvas_w,
            x + 8 * scale - 1,
            y + 8 * scale - 1,
        ) <= u32::MAX,
    ensures
        basic_font_glyph(ch) is Some <==> (ch as u32) < 128,
        final(canvas)@ == match basic_font_glyph(ch) {
            Some(bitmap) => paint(old(canvas)@, canvas_w, glyph_pixels(bitmap, x as int, y as int, scale as int), color),
            None => old(canvas)@,
        },
{
    let bitmap = match basic_glyph(ch) {
        Some(b) => b,
        None => {
            return;
        },
    };
    let ghost start = canvas@;
    let ghost bm = bitmap@;
    let s = scale as i32;
    proof {
        lemma_paint_empty(start, canvas_w, color);
        assert(glyph_pixels_upto(bm, x as int, y as int, s as int, 0) =~= Set::<(int, int)>::empty());
    }
    let mut row: usize = 0;
    while row < 8
        invariant
            0 <= row <= 8,
            bm == bitmap@,
            s == scale,
            7 * s <= i32::MAX,
            x + 8 * s <= i32::MAX,
            y + 8 * s <= i32::MAX,
            x + 8 * s - 1 >= 0 && y + 8 * s - 1 >= 0 ==> pixel_offset(canvas_w, x + 8 * s - 1, y + 8 * s - 1)
                <= u32::MAX,
            canvas@ == paint(start, canvas_w, glyph_pixels_upto(bm, x as int, y as int, s as int, row * 8), color),
        decreases 8 - row,
    {
        let bits = bitmap[row];
        let mut col: i32 = 0;
        while col < 8
            invariant
                0 <= row < 8,
                0 <= col <= 8,
                bm == bitmap@,
                bits == bm[row as int],
                s == scale,
                7 * s <= i32::MAX,
                x + 8 * s <= i32::MAX,
                y + 8 * s <= i32::MAX,
                x + 8 * s - 1 >= 0 && y + 8 * s - 1 >= 0 ==> pixel_offset(canvas_w, x + 8 * s - 1, y + 8 * s - 1)
                    <= u32::MAX,
                canvas@ == paint(start, canvas_w, glyph_pixels_upto(bm, x as int, y as int, s as int, row * 8 + col), color),
            decreases 8 - col,
        {
            let ghost n = row * 8 + col;
            let ghost done = glyph_pixels_upto(bm, x as int, y as int, s as int, n);
            let ghost next = glyph_pixels_upto(bm, x as int, y as int, s as int, n + 1);
            let shift = col as u32;
            if ((bits >> shift) & 1) == 0 {
                proof {
                    assert(!glyph_bit(bm, row as int, col as int));
                    assert(next =~= done) by {
                        assert forall|q: (int, int)| next.contains(q) implies done.contains(q) by {
                            let (r2, c2) = choose|r2: int, c2: int|
                                0 <= r2 < 8 && 0 <= c2 < 8 && r2 * 8 + c2 < n + 1 && glyph_bit(bm, r2, c2)
                                    && #[trigger] glyph_block(x as int, y as int, s as int, r2, c2).contains(q);
                            assert(r2 * 8 + c2 != n);
                        }
                    }
                }
                col = col + 1;
                continue;
            }
            proof {
                assert(col * s <= 7 * s) by (nonlinear_arith)
                    requires
                        0 <= col <= 7,
                        0 <= s,
                ;
                assert((row as int) * s <= 7 * s) by (nonlinear_arith)
                    requires
                        0 <= row <= 7,
                        0 <= s,
                ;
            }
            let px = x + col * s;
            let py = y + row as i32 * s;
            proof {
                if px + s - 1 >= 0 && py + s - 1 >= 0 {
                    assert((py + s - 1) * (canvas_w as int) + (px + s - 1) <= (y + 8 * s - 1) * (canvas_w as int) + (x + 8
                        * s - 1)) by (nonlinear_arith)
                        requires
                            0 <= py + s - 1 <= y + 8 * s - 1,
                            px + s - 1 <= x + 8 * s - 1,
                    ;
                }
            }
            fill_block(canvas, canvas_w, px, py, s, color);
            proof {
                assert(glyph_bit(bm, row as int, col as int)) by {
                    assert(((bits >> shift) & 1u8) != 0u8 ==> ((bits >> shift) & 1u8) == 1u8) by (bit_vector);
                }
                let block = glyph_block(x as int, y as int, s as int, row as int, col as int);
                assert(block == rect_pixels(px as int, py as int, px + s, py + s));
                lemma_paint_union(start, canvas_w, done, block, color);
                assert(next =~= done.union(block)) by {
                    assert forall|q: (int, int)| next.contains(q) implies done.union(block).contains(q) by {
                        let (r2, c2) = choose|r2: int, c2: int|
                            0 <= r2 < 8 && 0 <= c2 < 8 && r2 * 8 + c2 < n + 1 && glyph_bit(bm, r2, c2)
                                && #[trigger] glyph_block(x as int, y as int, s as int, r2, c2).contains(q);
                        if r2 * 8 + c2 == n {
                            assert(r2 == row && c2 == col);
                        }
                    }
                    assert forall|q: (int, int)| done.union(block).contains(q) implies next.contains(q) by {
                        if block.contains(q) {
                            assert(glyph_block(x as int, y as int, s as int, row as int, col as int).contains(q));
                        }
                    }
                }
            }
            col = col + 1;
        }
        row = row + 1;
    }
}

/// Which font draws a character.
#[derive(Debug, Clone, Copy, PartialEq, Eq, Structural)]
pub enum FontChoice {
    Primary,
    Fallback,
}

/// Picks the font for a character from each font's glyph index for it
/// (0: the font lacks the glyph): the primary font when it has the glyph,
/// else the fallback font when there is one that has it, else the primary.
pub fn pick_font_for_char(primary_index: u16, fallback_index: Option<u16>) -> (r: FontChoice)
    ensures
        r == if primary_index == 0 && fallback_index is Some && fallback_index->0 != 0 {
            FontChoice::Fallback
        } else {
            FontChoice::Primary
        },
{
    if primary_index != 0 {
        return FontChoice::Primary;
    }
    if let Some(fb) = fallback_index {
        if fb != 0 {
            return FontChoice::Fallback;
        }
    }
    FontChoice::Primary
}

/// The pixel scale of bitmap labels: 2 in boxes wider than 110 pixels, else 1.
pub open spec fn label_scale(large: bool) -> int {
    if large { 2 } else { 1 }
}

/// How many characters of a bitmap label fit in a box `w` pixels wide
/// (each takes a glyph and a one-cell gap), at least one.
pub open spec fn label_max_chars(w: int, scale: int) -> int {
    let c = (if w > 1 { w } else { 1 }) / (9 * scale);
    if c < 1 { 1 } else { c }
}

/// The characters of a bitmap label that are drawn.
pub open spec fn label_shown(text: Seq<char>, w: int, scale: int) -> Seq<char> {
    if text.len() <= label_max_chars(w, scale) {
        text
    } else {
        text.take(label_max_chars(w, scale))
    }
}

/// The width of `n` glyphs with one-cell gaps between them.
pub open spec fn label_text_w(n: int, scale: int) -> int {
    n * (9 * scale) - scale
}

/// The top-left corner of a bitmap label of `n` characters centred in the
/// box (x, y, w, h), flush left or top when it does not fit.
pub open spec fn label_origin(x: int, y: int, w: int, h: int, n: int, scale: int) -> (int, int) {
    let free_w = w - label_text_w(n, scale);
    let free_h = h - 8 * scale;
    (x + (if free_w > 0 { free_w } else { 0 }) / 2, y + (if free_h > 0 { free_h } else { 0 }) / 2)
}

/// The pixels of the first `k` characters of a bitmap label: character `i`
/// is drawn `9 * scale * i` pixels right of `origin`; characters outside the
/// Basic Latin set draw nothing.
pub open spec fn label_pixels_upto(shown: Seq<char>, origin: (int, int), scale: int, k: int) -> Set<(int, int)> {
    Set::new(
        |q: (int, int)|
            exists|i: int|
                0 <= i < k && #[trigger] basic_font_glyph(shown[i]) is Some && glyph_pixels(
                    basic_font_glyph(shown[i])->0,
                    origin.0 + i * (9 * scale),
                    origin.1,
                    scale,
                ).contains(q),
    )
}

/// The pixels of a bitmap label in the box (x, y, w, h).
pub open spec fn label_pixels(text: Seq<char>, x: int, y: int, w: int, h: int, large: bool) -> Set<(int, int)> {
    let scale = label_scale(large);
    let shown = label_shown(text, w, scale);
    label_pixels_upto(shown, label_origin(x, y, w, h, shown.len() as int, scale), scale, shown.len() as int)
}

/// The label fits the pixel arithmetic: its glyphs' coordinates fit in `i32`
/// and the byte offsets of its visible pixels in `u32`.
pub open spec fn label_fits(canvas_w: u32, text: Seq<char>, x: int, y: int, w: int, h: int, large: bool) -> bool {
    let scale = label_scale(large);
    let n = label_shown(text, w, scale).len() as int;
    let o = label_origin(x, y, w, h, n, scale);
    let right = o.0 + label_text_w(n, scale);
    let bottom = o.1 + 8 * scale;
    &&& w >= i32::MIN + 16
    &&& h >= i32::MIN + 16
    &&& right <= i32::MAX
    &&& bottom <= i32::MAX
    &&& right - 1 >= 0 && bottom - 1 >= 0 ==> pixel_offset(canvas_w, right - 1, bottom - 1) <= u32::MAX
}

/// Adding one character to a bitmap label adds its glyph's pixels.
proof fn lemma_label_step(shown: Seq<char>, origin: (int, int), scale: int, i: int)
    requires
        0 <= i < shown.len(),
    ensures
        label_pixels_upto(shown, origin, scale, i + 1) == match basic_font_glyph(shown[i]) {
            Some(bm) => label_pixels_upto(shown, origin, scale, i).union(
                glyph_pixels(bm, origin.0 + i * (9 * scale), origin.1, scale),
            ),
            None => label_pixels_upto(shown, origin, scale, i),
        },
{
    let before = label_pixels_upto(shown, origin, scale, i);
    let next = label_pixels_upto(shown, origin, scale, i + 1);
    match basic_font_glyph(shown[i]) {
        Some(bm) => {
            let g = glyph_pixels(bm, origin.0 + i * (9 * scale), origin.1, scale);
            assert forall|q: (int, int)| next.contains(q) implies before.union(g).contains(q) by {
                let j = choose|j: int|
                    0 <= j < i + 1 && #[trigger] basic_font_glyph(shown[j]) is Some && glyph_pixels(
                        basic_font_glyph(shown[j])->0,
                        origin.0 + j * (9 * scale),
                        origin.1,
                        scale,
                    ).contains(q);
                if j < i {
                    assert(before.contains(q));
                }
            }
            assert forall|q: (int, int)| before.union(g).contains(q) implies next.contains(q) by {
                if g.contains(q) {
                    assert(basic_font_glyph(shown[i]) is Some);
                } else {
                    let j = choose|j: int|
                        0 <= j < i && #[trigger] basic_font_glyph(shown[j]) is Some && glyph_pixels(
                            basic_font_glyph(shown[j])->0,
                            origin.0 + j * (9 * scale),
                            origin.1,
                            scale,
                        ).contains(q);
                    assert(0 <= j < i + 1);
                }
            }
            assert(next =~= before.union(g));
        },
        None => {
            assert forall|q: (int, int)| next.contains(q) implies before.contains(q) by {
                let j = choose|j: int|
                    0 <= j < i + 1 && #[trigger] basic_font_glyph(shown[j]) is Some && glyph_pixels(
                        basic_font_glyph(shown[j])->0,
                        origin.0 + j * (9 * scale),
                        origin.1,
                        scale,
                    ).contains(q);
                assert(j != i);
            }
            assert(next =~= before);
        },
    }
}

/// Draws a label with font8x8's bitmaps, centred in the box (x, y, w, h):
/// as many characters as fit, twice the size in boxes wider than 110 pixels
/// (`large`); an empty label draws nothing.
pub fn draw_bitmap_label(
    canvas: &mut [u8],
    canvas_w: u32,
    x: i32,
    y: i32,
    w: i32,
    h: i32,
    large: bool,
    text: &Vec<char>,
    color: u32,
)
    requires
        text@.len() == 0 || label_fits(canvas_w, text@, x as int, y as int, w as int, h as int, large),
    ensures
        final(canvas)@ == paint(old(canvas)@, canvas_w, label_pixels(text@, x as int, y as int, w as int, h as int, large), color),
{
    let ghost start = canvas@;
    if text.len() == 0 {
        proof {
            let pix = label_pixels(text@, x as int, y as int, w as int, h as int, large);
            assert(pix =~= Set::<(int, int)>::empty());
            lemma_paint_empty(start, canvas_w, color);
        }
        return;
    }
    let scale: i32 = if large { 2 } else { 1 };
    let glyph_w = 8 * scale;
    let glyph_h = 8 * scale;
    let spacing = scale;
    let wide = if w > 1 { w } else { 1 };
    let per = wide / (glyph_w + spacing);
    let max_chars: usize = if per < 1 { 1 } else { per as usize };
    let n: usize = if text.len() <= max_chars { text.len() } else { max_chars };
    let ghost shown = label_shown(text@, w as int, scale as int);
    proof {
        assert(per as int == (wide as int) / (9 * (scale as int)));
        assert(max_chars as int == label_max_chars(w as int, scale as int));
        assert(shown.len() == n);
        assert((n as int) * (9 * scale) <= wide || n == 1) by (nonlinear_arith)
            requires
                n <= max_chars,
                n >= 1,
                max_chars == 1 || max_chars == per,
                per as int == (wide as int) / (9 * (scale as int)),
                scale >= 1,
                wide >= 1,
        ;
        assert(n <= i32::MAX);
    }
    proof {
        assert(glyph_w + spacing == 9 * scale);
        assert((n as int) * (9 * scale) <= i32::MAX);
        assert((n as int) * (9 * scale) >= 9 * scale) by (nonlinear_arith)
            requires
                n >= 1,
                scale >= 1,
        ;
        if n > 1 {
            assert((n as int) * (9 * scale) >= 18) by (nonlinear_arith)
                requires
                    n >= 2,
                    scale >= 1,
            ;
            assert(wide == w);
        }
    }
    let text_w = n as i32 * (glyph_w + spacing) - spacing;
    assert(text_w == label_text_w(n as int, scale as int));
    let free_w = w - text_w;
    let start_x = x + (if free_w > 0 { free_w } else { 0 }) / 2;
    let free_h = h - glyph_h;
    let start_y = y + (if free_h > 0 { free_h } else { 0 }) / 2;
    let ghost origin = (start_x as int, start_y as int);
    assert(origin == label_origin(x as int, y as int, w as int, h as int, n as int, scale as int));
    proof {
        lemma_paint_empty(start, canvas_w, color);
        assert(label_pixels_upto(shown, origin, scale as int, 0) =~= Set::<(int, int)>::empty());
    }
    let mut i: usize = 0;
    while i < n
        invariant
            i <= n,
            n == shown.len(),
            n <= text@.len(),
            shown == text@.take(n as int),
            scale == 1 || scale == 2,
            glyph_w == 8 * scale,
            spacing == scale,
            n <= i32::MAX,
            1 <= wide,
            (n as int) * (9 * scale) <= wide || n == 1,
            start_x >= x,
            origin == (start_x as int, start_y as int),
            start_x + n * (9 * scale) - scale <= i32::MAX,
            start_y + 8 * scale <= i32::MAX,
            start_x + n * (9 * scale) - scale - 1 >= 0 && start_y + 8 * scale - 1 >= 0 ==> pixel_offset(
                canvas_w,
                start_x + n * (9 * scale) - scale - 1,
                start_y + 8 * scale - 1,
            ) <= u32::MAX,
            canvas@ == paint(start, canvas_w, label_pixels_upto(shown, origin, scale as int, i as int), color),
        decreases n - i,
    {
        proof {
            assert((i as int) * (9 * scale) <= (n as int) * (9 * scale) - 9 * scale) by (nonlinear_arith)
                requires
                    i <= n - 1,
                    scale >= 1,
            ;
            assert((n as int) * (9 * scale) - 9 * scale <= i32::MAX) by (nonlinear_arith)
                requires
                    (n as int) * (9 * scale) <= wide || n == 1,
                    wide <= i32::MAX,
                    scale >= 1,
            ;
        }
        let gx = start_x + i as i32 * (glyph_w + spacing);
        assert(gx as int == origin.0 + (i as int) * (9 * scale));
        let ch = text[i];
        assert(ch == shown[i as int]);
        proof {
            if gx + 8 * scale - 1 >= 0 && start_y + 8 * scale - 1 >= 0 {
                let rx = start_x + n * (9 * scale) - scale - 1;
                assert((start_y + 8 * scale - 1) * (canvas_w as int) + (gx + 8 * scale - 1) <= (start_y + 8 * scale - 1)
                    * (canvas_w as int) + rx);
            }
        }
        let ghost before = label_pixels_upto(shown, origin, scale as int, i as int);
        draw_glyph(canvas, canvas_w, gx, start_y, ch, scale as usize, color);
        proof {
            lemma_label_step(shown, origin, scale as int, i as int);
            if let Some(bm) = basic_font_glyph(ch) {
                lemma_paint_union(start, canvas_w, before, glyph_pixels(bm, gx as int, start_y as int, scale as int), color);
            }
        }
        i = i + 1;
    }
}

/// Whether the byte offset of pixel (x, y) fits in 32 bits, as the pixel
/// routines require.
pub fn offset_fits(canvas_w: u32, x: u32, y: u32) -> (r: bool)
    ensures
        r == (pixel_offset(canvas_w, x as int, y as int) <= u32::MAX),
{
    proof {
        assert((y as int) * (canvas_w as int) <= 0xffff_ffff * 0xffff_ffff) by (nonlinear_arith)
            requires
                y <= 0xffff_ffff,
                canvas_w <= 0xffff_ffff,
        ;
        assert(0 <= (y as int) * (canvas_w as int)) by (nonlinear_arith);
    }
    let p = (y as u64) * (canvas_w as u64) + (x as u64);
    p <= 0x3fff_ffff
}

/// Whether a bitmap label meets `draw_bitmap_label`'s requirements (an
/// empty label always does: it draws nothing).
pub fn bitmap_label_fits(canvas_w: u32, text: &Vec<char>, x: i32, y: i32, w: i32, h: i32, large: bool) -> (r: bool)
    ensures
        r == (text@.len() == 0 || label_fits(canvas_w, text@, x as int, y as int, w as int, h as int, large)),
{
    if text.len() == 0 {
        return true;
    }
    if (w as i64) < (i32::MIN as i64) + 16 || (h as i64) < (i32::MIN as i64) + 16 {
        return false;
    }
    let scale: i128 = if large { 2 } else { 1 };
    let wide: i128 = if w > 1 { w as i128 } else { 1 };
    let per = wide / (9 * scale);
    let max_chars: i128 = if per < 1 { 1 } else { per };
    let n: i128 = if (text.len() as i128) <= max_chars { text.len() as i128 } else { max_chars };
    let ghost sc = label_scale(large);
    proof {
        assert(scale == sc);
        assert(max_chars == label_max_chars(w as int, sc));
        assert(n == label_shown(text@, w as int, sc).len());
        assert(n * (9 * scale) <= 9 * scale * 0x7fff_ffff) by (nonlinear_arith)
            requires
                1 <= n <= max_chars,
                max_chars <= 0x7fff_ffff,
                1 <= scale <= 2,
        ;
    }
    let text_w = n * (9 * scale) - scale;
    let free_w = w as i128 - text_w;
    let free_h = h as i128 - 8 * scale;
    let ox = x as i128 + (if free_w > 0 { free_w } else { 0 }) / 2;
    let oy = y as i128 + (if free_h > 0 { free_h } else { 0 }) / 2;
    proof {
        assert(text_w == label_text_w(n as int, sc));
        assert((ox as int, oy as int) == label_origin(x as int, y as int, w as int, h as int, n as int, sc));
    }
    let right = ox + text_w;
    let bottom = oy + 8 * scale;
    if right > i32::MAX as i128 || bottom > i32::MAX as i128 {
        return false;
    }
    if right - 1 >= 0 && bottom - 1 >= 0 {
        offset_fits(canvas_w, (right - 1) as u32, (bottom - 1) as u32)
    } else {
        true
    }
}

} // verus!
