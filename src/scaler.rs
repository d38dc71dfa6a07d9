use vstd::prelude::*;

use crate::buffer_helper::buffer_fits;

verus! {

/// The pixel at column `x` of row `y` of an image whose rows are `row_len` apart.
pub open spec fn pixel(img: Seq<u32>, row_len: int, y: int, x: int) -> u32 {
    img[y * row_len + x]
}

/// `out` is the image of `width` by `height` pixels held in `src` with rows
/// `stride` apart, each pixel repeated `scale` times along both axes.
pub open spec fn upscaled(
    out: Seq<u32>,
    src: Seq<u32>,
    width: int,
    height: int,
    stride: int,
    scale: int,
) -> bool {
    &&& out.len() == (width * scale) * (height * scale)
    &&& forall|y: int, x: int|
        0 <= y < height * scale && 0 <= x < width * scale ==> #[trigger] pixel(
            out,
            width * scale,
            y,
            x,
        ) == pixel(src, stride, y / scale, x / scale)
}

proof fn lemma_row_index(yy: int, xx: int, y: int, row_len: int)
    requires
        0 <= yy < y,
        0 <= xx < row_len,
    ensures
        0 <= yy * row_len + xx < y * row_len,
{
    assert(0 <= yy * row_len + xx < y * row_len) by (nonlinear_arith)
        requires
            0 <= yy < y,
            0 <= xx < row_len,
    ;
}

pub(crate) proof fn lemma_source_index(y: int, x: int, scale: int, width: int, height: int, stride: int)
    requires
        scale >= 1,
        0 <= y < height * scale,
        0 <= x < width * scale,
        width <= stride,
    ensures
        0 <= y / scale < height,
        0 <= x / scale < width,
        0 <= (y / scale) * stride + x / scale < height * stride,
{
    assert(0 <= y / scale < height) by (nonlinear_arith)
        requires
            scale >= 1,
            0 <= y < height * scale,
    ;
    assert(0 <= x / scale < width) by (nonlinear_arith)
        requires
            scale >= 1,
            0 <= x < width * scale,
    ;
    lemma_row_index(y / scale, x / scale, height, stride);
}

/// Expands the image of `width` by `height` pixels held in `src` with rows
/// `stride` apart by the integer factor `scale` along both axes, nearest
/// neighbour.
pub fn upscale(src: &[u32], width: usize, height: usize, stride: usize, scale: usize) -> (r: Vec<
    u32,
>)
    requires
        scale >= 1,
        buffer_fits(src@.len() as int, width as int, height as int, stride as int),
        (width * scale) * (height * scale) <= usize::MAX,
    ensures
        upscaled(r@, src@, width as int, height as int, stride as int, scale as int),
{
    let src_len = src.len();
    let mut out: Vec<u32> = Vec::new();
    if width == 0 || height == 0 {
        proof {
            assert((width * scale) * (height * scale) == 0) by (nonlinear_arith)
                requires
                    width == 0 || height == 0,
            ;
        }
        return out;
    }
    proof {
        assert(width * scale <= (width * scale) * (height * scale)) by (nonlinear_arith)
            requires
                scale >= 1,
                height >= 1,
        ;
        assert(height * scale <= (width * scale) * (height * scale)) by (nonlinear_arith)
            requires
                scale >= 1,
                width >= 1,
        ;
    }
    let dw: usize = width * scale;
    let dh: usize = height * scale;
    let mut y: usize = 0;
    while y < dh
        invariant
            scale >= 1,
            dw == width * scale,
            dh == height * scale,
            width <= stride,
            stride * height <= src@.len(),
            src_len == src@.len(),
            dw * dh <= usize::MAX,
            y <= dh,
            out@.len() == y * dw,
            forall|yy: int, xx: int|
                0 <= yy < y && 0 <= xx < dw ==> #[trigger] pixel(out@, dw as int, yy, xx) == pixel(
                    src@,
                    stride as int,
                    yy / scale as int,
                    xx / scale as int,
                ),
        decreases dh - y,
    {
        proof {
            assert(y * dw + dw <= dh * dw) by (nonlinear_arith)
                requires
                    y < dh,
            ;
            assert(dh * dw == dw * dh) by (nonlinear_arith);
        }
        let mut x: usize = 0;
        while x < dw
            invariant
                scale >= 1,
                dw == width * scale,
                dh == height * scale,
                width <= stride,
                stride * height <= src@.len(),
                src_len == src@.len(),
                y < dh,
                y * dw + dw <= usize::MAX,
                x <= dw,
                out@.len() == y * dw + x,
                forall|yy: int, xx: int|
                    0 <= yy < y && 0 <= xx < dw ==> #[trigger] pixel(out@, dw as int, yy, xx)
                        == pixel(src@, stride as int, yy / scale as int, xx / scale as int),
                forall|xx: int|
                    0 <= xx < x ==> #[trigger] pixel(out@, dw as int, y as int, xx) == pixel(
                        src@,
                        stride as int,
                        y as int / scale as int,
                        xx / scale as int,
                    ),
            decreases dw - x,
        {
            proof {
                lemma_source_index(y as int, x as int, scale as int, width as int, height as int, stride as int);
                assert(height * stride == stride * height) by (nonlinear_arith);
                assert((y / scale) * stride + x / scale < src_len);
            }
            let v = src[(y / scale) * stride + x / scale];
            let ghost prior = out@;
            out.push(v);
            proof {
                assert forall|yy: int, xx: int|
                    0 <= yy < y && 0 <= xx < dw implies #[trigger] pixel(out@, dw as int, yy, xx)
                    == pixel(src@, stride as int, yy / scale as int, xx / scale as int) by {
                    lemma_row_index(yy, xx, y as int, dw as int);
                    assert(pixel(out@, dw as int, yy, xx) == pixel(prior, dw as int, yy, xx));
                }
                assert forall|xx: int| 0 <= xx < x + 1 implies #[trigger] pixel(
                    out@,
                    dw as int,
                    y as int,
                    xx,
                ) == pixel(src@, stride as int, y as int / scale as int, xx / scale as int) by {
                    if xx < x {
                        assert(pixel(out@, dw as int, y as int, xx) == pixel(
                            prior,
                            dw as int,
                            y as int,
                            xx,
                        ));
                    }
                }
            }
            x = x + 1;
        }
        proof {
            assert((y + 1) * dw == y * dw + dw) by (nonlinear_arith);
            assert forall|yy: int, xx: int|
                0 <= yy < y + 1 && 0 <= xx < dw implies #[trigger] pixel(out@, dw as int, yy, xx)
                == pixel(src@, stride as int, yy / scale as int, xx / scale as int) by {}
        }
        y = y + 1;
    }
    proof {
        assert(dh * dw == dw * dh) by (nonlinear_arith);
    }
    out
}

/// The colour bits `0x00RRGGBB` of a pixel word; the top byte is unused.
pub open spec fn rgb(v: u32) -> u32 {
    v & 0x00FF_FFFF
}

/// Pixel `(x, y)` of a client area on which the image `img`, of `iw` by
/// `ih` pixels, stands with its upper-left corner at `(ox, oy)`; `bg`
/// outside it. Only the colour bits of either are kept.
pub open spec fn placed_pixel(img: Seq<u32>, iw: int, ih: int, ox: int, oy: int, bg: u32, y: int, x: int) -> u32 {
    if ox <= x < ox + iw && oy <= y < oy + ih {
        rgb(pixel(img, iw, y - oy, x - ox))
    } else {
        rgb(bg)
    }
}

/// `out` is a client area of `cw` by `ch` pixels showing `img`, of `iw` by
/// `ih` pixels, at `(ox, oy)` over the background `bg`.
pub open spec fn composed(
    out: Seq<u32>,
    img: Seq<u32>,
    iw: int,
    ih: int,
    cw: int,
    ch: int,
    ox: int,
    oy: int,
    bg: u32,
) -> bool {
    &&& out.len() == cw * ch
    &&& forall|y: int, x: int|
        0 <= y < ch && 0 <= x < cw ==> #[trigger] pixel(out, cw, y, x) == placed_pixel(
            img,
            iw,
            ih,
            ox,
            oy,
            bg,
            y,
            x,
        )
}

/// Draws the image `img`, of `iw` by `ih` pixels, into a client area of `cw`
/// by `ch` pixels with its upper-left corner at `(ox, oy)`, and fills the
/// rest with `bg`, keeping only the colour bits of each pixel.
pub fn compose(
    img: &[u32],
    iw: usize,
    ih: usize,
    cw: usize,
    ch: usize,
    ox: i64,
    oy: i64,
    bg: u32,
) -> (r: Vec<u32>)
    requires
        img@.len() == iw * ih,
        cw * ch <= usize::MAX,
        cw <= i32::MAX,
        ch <= i32::MAX,
        iw <= i32::MAX,
        ih <= i32::MAX,
        i32::MIN <= ox <= i32::MAX,
        i32::MIN <= oy <= i32::MAX,
    ensures
        composed(r@, img@, iw as int, ih as int, cw as int, ch as int, ox as int, oy as int, bg),
{
    let img_len = img.len();
    let mut out: Vec<u32> = Vec::new();
    let mut y: usize = 0;
    while y < ch
        invariant
            img@.len() == iw * ih,
            img_len == img@.len(),
            cw * ch <= usize::MAX,
            cw <= i32::MAX,
            ch <= i32::MAX,
            iw <= i32::MAX,
            ih <= i32::MAX,
            i32::MIN <= ox <= i32::MAX,
            i32::MIN <= oy <= i32::MAX,
            y <= ch,
            out@.len() == y * cw,
            forall|yy: int, xx: int|
                0 <= yy < y && 0 <= xx < cw ==> #[trigger] pixel(out@, cw as int, yy, xx)
                    == placed_pixel(img@, iw as int, ih as int, ox as int, oy as int, bg, yy, xx),
        decreases ch - y,
    {
        proof {
            assert(y * cw + cw <= cw * ch) by (nonlinear_arith)
                requires
                    y < ch,
            ;
        }
        let sy: i64 = y as i64 - oy;
        let mut x: usize = 0;
        while x < cw
            invariant
                img@.len() == iw * ih,
                img_len == img@.len(),
                cw <= i32::MAX,
                iw <= i32::MAX,
                ih <= i32::MAX,
                i32::MIN <= ox <= i32::MAX,
                y < ch,
                sy == y - oy,
                y * cw + cw <= usize::MAX,
                x <= cw,
                out@.len() == y * cw + x,
                forall|yy: int, xx: int|
                    0 <= yy < y && 0 <= xx < cw ==> #[trigger] pixel(out@, cw as int, yy, xx)
                        == placed_pixel(img@, iw as int, ih as int, ox as int, oy as int, bg, yy, xx),
                forall|xx: int|
                    0 <= xx < x ==> #[trigger] pixel(out@, cw as int, y as int, xx) == placed_pixel(
                        img@,
                        iw as int,
                        ih as int,
                        ox as int,
                        oy as int,
                        bg,
                        y as int,
                        xx,
                    ),
            decreases cw - x,
        {
            let sx: i64 = x as i64 - ox;
            let v = if 0 <= sx && sx < iw as i64 && 0 <= sy && sy < ih as i64 {
                proof {
                    lemma_row_index(sy as int, sx as int, ih as int, iw as int);
                    assert(ih * iw == iw * ih) by (nonlinear_arith);
                }
                img[(sy as usize) * iw + sx as usize] & 0x00FF_FFFF
            } else {
                bg & 0x00FF_FFFF
            };
            let ghost prior = out@;
            out.push(v);
            proof {
                assert forall|yy: int, xx: int|
                    0 <= yy < y && 0 <= xx < cw implies #[trigger] pixel(out@, cw as int, yy, xx)
                    == placed_pixel(img@, iw as int, ih as int, ox as int, oy as int, bg, yy, xx) by {
                    lemma_row_index(yy, xx, y as int, cw as int);
                    assert(pixel(out@, cw as int, yy, xx) == pixel(prior, cw as int, yy, xx));
                }
                assert forall|xx: int| 0 <= xx < x + 1 implies #[trigger] pixel(
                    out@,
                    cw as int,
                    y as int,
                    xx,
                ) == placed_pixel(img@, iw as int, ih as int, ox as int, oy as int, bg, y as int, xx) by {
                    if xx < x {
                        assert(pixel(out@, cw as int, y as int, xx) == pixel(
                            prior,
                            cw as int,
                            y as int,
                            xx,
                        ));
                    }
                }
            }
            x = x + 1;
        }
        proof {
            assert((y + 1) * cw == y * cw + cw) by (nonlinear_arith);
        }
        y = y + 1;
    }
    proof {
        assert(ch * cw == cw * ch) by (nonlinear_arith);
    }
    out
}

} // verus!
