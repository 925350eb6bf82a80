//! Copying a coloured image into the pixel buffer of a texture. The buffer
//! holds three bytes for each pixel, red, green and blue, and its rows may be
//! longer than the image is wide.

use vstd::prelude::*;
use vstd::arithmetic::div_mod::{lemma_fundamental_div_mod, lemma_fundamental_div_mod_converse};

verus! {

/// One of the three channels of a colour: red, green, blue.
pub open spec fn channel(color: (u8, u8, u8), c: int) -> u8 {
    if c == 0 {
        color.0
    } else if c == 1 {
        color.1
    } else {
        color.2
    }
}

/// Whether byte `index` of a buffer with rows of `pitch` bytes belongs to a
/// pixel of the first `rows` rows and the first `w` columns, or to one of the
/// first `columns` pixels of the row after them.
pub open spec fn painted(index: int, pitch: int, w: int, rows: int, columns: int) -> bool {
    pitch > 0 && 0 <= index && ((index / pitch < rows && index % pitch < 3 * w) || (index / pitch
        == rows && index % pitch < 3 * columns))
}

/// Whether byte `index` of a buffer with rows of `pitch` bytes belongs to a
/// pixel of an image of `w` by `h`.
pub open spec fn covered(index: int, pitch: int, w: int, h: int) -> bool {
    painted(index, pitch, w, h, 0)
}

/// The byte that the image puts at `index`: the channel of the pixel that
/// the byte belongs to.
pub open spec fn texel(image: Seq<(u8, u8, u8)>, index: int, pitch: int, w: int) -> u8 {
    channel(image[w * (index / pitch) + (index % pitch) / 3], (index % pitch) % 3)
}

/// The buffer after the image was copied into it: the bytes of the image's
/// pixels hold their channels, and every other byte is as it was.
pub open spec fn textured(
    before: Seq<u8>,
    image: Seq<(u8, u8, u8)>,
    pitch: int,
    w: int,
    h: int,
) -> Seq<u8> {
    Seq::new(
        before.len(),
        |index: int|
            if covered(index, pitch, w, h) {
                texel(image, index, pitch, w)
            } else {
                before[index]
            },
    )
}

spec fn progress(
    before: Seq<u8>,
    image: Seq<(u8, u8, u8)>,
    pitch: int,
    w: int,
    rows: int,
    columns: int,
) -> Seq<u8> {
    Seq::new(
        before.len(),
        |index: int|
            if painted(index, pitch, w, rows, columns) {
                texel(image, index, pitch, w)
            } else {
                before[index]
            },
    )
}

proof fn lemma_row_done(before: Seq<u8>, image: Seq<(u8, u8, u8)>, pitch: int, w: int, rows: int)
    ensures
        progress(before, image, pitch, w, rows, w) == progress(
            before,
            image,
            pitch,
            w,
            rows + 1,
            0,
        ),
{
    assert(progress(before, image, pitch, w, rows, w) =~= progress(
        before,
        image,
        pitch,
        w,
        rows + 1,
        0,
    ));
}

proof fn lemma_pixel_done(
    before: Seq<u8>,
    image: Seq<(u8, u8, u8)>,
    pitch: int,
    w: int,
    y: int,
    x: int,
)
    requires
        0 <= y,
        0 <= x < w,
        3 * w <= pitch,
        pitch * y + 3 * x + 3 <= before.len(),
        0 <= w * y + x < image.len(),
    ensures
        ({
            let base = pitch * y + 3 * x;
            let color = image[w * y + x];
            progress(before, image, pitch, w, y, x).update(base, color.0).update(
                base + 1,
                color.1,
            ).update(base + 2, color.2) == progress(before, image, pitch, w, y, x + 1)
        }),
{
    let base = pitch * y + 3 * x;
    let color = image[w * y + x];
    let start = progress(before, image, pitch, w, y, x);
    let written = start.update(base, color.0).update(base + 1, color.1).update(base + 2, color.2);
    let target = progress(before, image, pitch, w, y, x + 1);
    assert(pitch * y >= 0) by (nonlinear_arith)
        requires
            pitch >= 0,
            y >= 0,
    ;
    assert forall|j: int| 0 <= j < before.len() implies written[j] == target[j] by {
        lemma_fundamental_div_mod(j, pitch);
        if base <= j < base + 3 {
            let c = j - base;
            assert(y * pitch == pitch * y) by (nonlinear_arith);
            lemma_fundamental_div_mod_converse(j, pitch, y, 3 * x + c);
        }
    }
}

/// Copies `image`, `w` pixels wide and `h` pixels high, into `buf`, whose
/// rows are `pitch` bytes long. Bytes between the end of a pixel row and the
/// end of its buffer row are left alone, as is everything after the last
/// pixel row.
pub fn update_texture(
    buf: &mut Vec<u8>,
    pitch: usize,
    w: usize,
    h: usize,
    image: &Vec<(u8, u8, u8)>,
)
    requires
        3 * w <= pitch,
        w * h <= image@.len(),
        h > 0 ==> pitch * (h - 1) + 3 * w <= old(buf)@.len(),
    ensures
        final(buf)@ == textured(old(buf)@, image@, pitch as int, w as int, h as int),
{
    let ghost before = buf@;
    let len = buf.len();
    let pixels = image.len();
    let mut y: usize = 0;
    while y < h
        invariant
            y <= h,
            before.len() == len,
            image@.len() == pixels,
            3 * w <= pitch,
            w * h <= image@.len(),
            h > 0 ==> pitch * (h - 1) + 3 * w <= before.len(),
            buf@ == progress(before, image@, pitch as int, w as int, y as int, 0),
        decreases h - y,
    {
        let mut x: usize = 0;
        while x < w
            invariant
                y < h,
                x <= w,
                before.len() == len,
                image@.len() == pixels,
                3 * w <= pitch,
                w * h <= image@.len(),
                pitch * (h - 1) + 3 * w <= before.len(),
                buf@ == progress(before, image@, pitch as int, w as int, y as int, x as int),
            decreases w - x,
        {
            proof {
                assert(pitch * y <= pitch * (h - 1)) by (nonlinear_arith)
                    requires
                        y <= h - 1,
                        pitch >= 0,
                ;
                assert(0 <= pitch * y) by (nonlinear_arith)
                    requires
                        0 <= y,
                        pitch >= 0,
                ;
                assert(w * y + w <= w * h) by (nonlinear_arith)
                    requires
                        y + 1 <= h,
                        w >= 0,
                ;
                assert(0 <= w * y) by (nonlinear_arith)
                    requires
                        0 <= y,
                        w >= 0,
                ;
                lemma_pixel_done(before, image@, pitch as int, w as int, y as int, x as int);
            }
            let pixel_index = pitch * y + x * 3;
            let mandelbrot_index = w * y + x;
            let color = image[mandelbrot_index];
            buf.set(pixel_index, color.0);
            buf.set(pixel_index + 1, color.1);
            buf.set(pixel_index + 2, color.2);
            x += 1;
        }
        proof {
            lemma_row_done(before, image@, pitch as int, w as int, y as int);
        }
        y += 1;
    }
}

} // verus!
