//! The tray icon's pixel buffer: a 16x16 battery glyph in ARGB bytes.
//!
//! The buffer layout and the drawing rules are pure pixel arithmetic and are
//! specified to the byte: an outlined battery body, an outlined terminal
//! nub, and a fill bar whose width and colour follow the charge level.

use vstd::prelude::*;

verus! {

/// The byte offset of pixel `(x, y)` in a `width`-wide ARGB buffer.
pub open spec fn pixel_index(width: int, x: int, y: int) -> int {
    (y * width + x) * 4
}

/// The `c`-th byte of an ARGB colour.
pub open spec fn colour_byte(colour: (u8, u8, u8, u8), c: int) -> u8 {
    if c == 0 {
        colour.0
    } else if c == 1 {
        colour.1
    } else if c == 2 {
        colour.2
    } else {
        colour.3
    }
}

/// The `c`-th byte of pixel `(px, py)` in the buffer `s`.
pub open spec fn pixel_byte(s: Seq<u8>, width: int, px: int, py: int, c: int) -> u8 {
    s[pixel_index(width, px, py) + c]
}

/// Distinct in-bounds pixels occupy distinct buffer positions.
proof fn lemma_pixel_index_injective(width: int, x1: int, y1: int, x2: int, y2: int)
    requires
        0 <= x1 < width,
        0 <= x2 < width,
        0 <= y1,
        0 <= y2,
        (x1, y1) != (x2, y2),
    ensures
        y1 * width + x1 != y2 * width + x2,
{
    assert(y1 * width + x1 != y2 * width + x2) by (nonlinear_arith)
        requires
            0 <= x1 < width,
            0 <= x2 < width,
            0 <= y1,
            0 <= y2,
            (x1, y1) != (x2, y2),
    ;
}

/// The buffer after writing `colour` at `(x, y)`: unchanged when the pixel
/// lies outside the image.
pub open spec fn spec_set_pixel(
    s: Seq<u8>,
    width: int,
    height: int,
    x: int,
    y: int,
    colour: (u8, u8, u8, u8),
) -> Seq<u8> {
    if 0 <= x < width && 0 <= y < height {
        let idx = pixel_index(width, x, y);
        s.update(idx, colour.0).update(idx + 1, colour.1).update(idx + 2, colour.2).update(
            idx + 3,
            colour.3,
        )
    } else {
        s
    }
}

/// What one write does to every in-bounds pixel: the written pixel takes the
/// colour, every other pixel keeps its bytes.
proof fn lemma_spec_set_pixel(
    s: Seq<u8>,
    width: int,
    height: int,
    x: int,
    y: int,
    colour: (u8, u8, u8, u8),
)
    requires
        s.len() == width * height * 4,
    ensures
        spec_set_pixel(s, width, height, x, y, colour).len() == s.len(),
        forall|px: int, py: int, c: int|
            0 <= px < width && 0 <= py < height && 0 <= c < 4 ==> #[trigger] pixel_byte(
                spec_set_pixel(s, width, height, x, y, colour),
                width,
                px,
                py,
                c,
            ) == if px == x && py == y {
                colour_byte(colour, c)
            } else {
                pixel_byte(s, width, px, py, c)
            },
{
    assert(spec_set_pixel(s, width, height, x, y, colour).len() == s.len()) by {
        if 0 <= x < width && 0 <= y < height {
            let idx = pixel_index(width, x, y);
            assert(0 <= idx && idx + 3 < s.len()) by (nonlinear_arith)
                requires
                    0 <= x < width,
                    0 <= y < height,
                    s.len() == width * height * 4,
                    idx == (y * width + x) * 4,
            ;
        }
    }
    assert forall|px: int, py: int, c: int|
        0 <= px < width && 0 <= py < height && 0 <= c < 4 implies #[trigger] pixel_byte(
        spec_set_pixel(s, width, height, x, y, colour),
        width,
        px,
        py,
        c,
    ) == if px == x && py == y {
        colour_byte(colour, c)
    } else {
        pixel_byte(s, width, px, py, c)
    } by {
        let p = pixel_index(width, px, py);
        assert(0 <= p && p + 3 < s.len()) by (nonlinear_arith)
            requires
                0 <= px < width,
                0 <= py < height,
                s.len() == width * height * 4,
                p == (py * width + px) * 4,
        ;
        if 0 <= x < width && 0 <= y < height {
            let idx = pixel_index(width, x, y);
            assert(0 <= idx && idx + 3 < s.len()) by (nonlinear_arith)
                requires
                    0 <= x < width,
                    0 <= y < height,
                    s.len() == width * height * 4,
                    idx == (y * width + x) * 4,
            ;
            if px == x && py == y {
            } else {
                lemma_pixel_index_injective(width, px, py, x, y);
                let a = py * width + px;
                let b = y * width + x;
                if a < b {
                    assert(p + c < idx) by (nonlinear_arith)
                        requires
                            a < b,
                            p == a * 4,
                            idx == b * 4,
                            0 <= c < 4,
                    ;
                } else {
                    assert(idx + 3 < p) by (nonlinear_arith)
                        requires
                            b < a,
                            p == a * 4,
                            idx == b * 4,
                    ;
                }
            }
        }
    }
}

/// Writes one pixel, ignoring coordinates outside the image.
pub fn set_pixel(
    data: &mut Vec<u8>,
    width: u32,
    height: u32,
    x: u32,
    y: u32,
    colour: (u8, u8, u8, u8),
)
    requires
        old(data)@.len() == width * height * 4,
    ensures
        final(data)@ == spec_set_pixel(
            old(data)@,
            width as int,
            height as int,
            x as int,
            y as int,
            colour,
        ),
        final(data)@.len() == old(data)@.len(),
{
    if x >= width || y >= height {
        return ;
    }
    let n = data.len();
    proof {
        assert((y * width + x) * 4 + 3 < width * height * 4) by (nonlinear_arith)
            requires
                x < width,
                y < height,
        ;
        assert((y * width + x) * 4 + 3 < n);
    }
    let idx: usize = (y as usize * width as usize + x as usize) * 4;
    data.set(idx, colour.0);
    data.set(idx + 1, colour.1);
    data.set(idx + 2, colour.2);
    data.set(idx + 3, colour.3);
}

/// Whether `(px, py)` lies on the outline of the rectangle spanned by the
/// two corner points, whichever way round they are given.
pub open spec fn on_outline(x0: int, y0: int, x1: int, y1: int, px: int, py: int) -> bool {
    let min_x = if x0 <= x1 {
        x0
    } else {
        x1
    };
    let max_x = if x0 <= x1 {
        x1
    } else {
        x0
    };
    let min_y = if y0 <= y1 {
        y0
    } else {
        y1
    };
    let max_y = if y0 <= y1 {
        y1
    } else {
        y0
    };
    ||| (min_x <= px <= max_x && (py == min_y || py == max_y))
    ||| (min_y <= py <= max_y && (px == min_x || px == max_x))
}

/// After writing `(x, min_y)` and `(x, max_y)`, the horizontal-edge
/// coverage extends from `min_x..x` to `min_x..=x`.
proof fn lemma_rect_row_step(
    before: Seq<u8>,
    after: Seq<u8>,
    orig: Seq<u8>,
    width: int,
    height: int,
    x: int,
    min_x: int,
    min_y: int,
    max_y: int,
    colour: (u8, u8, u8, u8),
)
    requires
        before.len() == width * height * 4,
        after == spec_set_pixel(
            spec_set_pixel(before, width, height, x, min_y, colour),
            width,
            height,
            x,
            max_y,
            colour,
        ),
        min_x <= x,
        forall|px: int, py: int, c: int|
            0 <= px < width && 0 <= py < height && 0 <= c < 4 ==> #[trigger] pixel_byte(
                before,
                width,
                px,
                py,
                c,
            ) == if min_x <= px < x && (py == min_y || py == max_y) {
                colour_byte(colour, c)
            } else {
                pixel_byte(orig, width, px, py, c)
            },
    ensures
        after.len() == before.len(),
        forall|px: int, py: int, c: int|
            0 <= px < width && 0 <= py < height && 0 <= c < 4 ==> #[trigger] pixel_byte(
                after,
                width,
                px,
                py,
                c,
            ) == if min_x <= px < x + 1 && (py == min_y || py == max_y) {
                colour_byte(colour, c)
            } else {
                pixel_byte(orig, width, px, py, c)
            },
{
    let s1 = spec_set_pixel(before, width, height, x, min_y, colour);
    lemma_spec_set_pixel(before, width, height, x, min_y, colour);
    lemma_spec_set_pixel(s1, width, height, x, max_y, colour);
    assert forall|px: int, py: int, c: int|
        0 <= px < width && 0 <= py < height && 0 <= c < 4 implies #[trigger] pixel_byte(
        after,
        width,
        px,
        py,
        c,
    ) == if min_x <= px < x + 1 && (py == min_y || py == max_y) {
        colour_byte(colour, c)
    } else {
        pixel_byte(orig, width, px, py, c)
    } by {
        assert(pixel_byte(after, width, px, py, c) == if px == x && py == max_y {
            colour_byte(colour, c)
        } else {
            pixel_byte(s1, width, px, py, c)
        });
        assert(pixel_byte(s1, width, px, py, c) == if px == x && py == min_y {
            colour_byte(colour, c)
        } else {
            pixel_byte(before, width, px, py, c)
        });
    }
}

/// After writing `(min_x, y)` and `(max_x, y)`, the vertical-edge coverage
/// extends from `min_y..y` to `min_y..=y`.
proof fn lemma_rect_col_step(
    before: Seq<u8>,
    after: Seq<u8>,
    mid: Seq<u8>,
    width: int,
    height: int,
    y: int,
    min_y: int,
    min_x: int,
    max_x: int,
    colour: (u8, u8, u8, u8),
)
    requires
        before.len() == width * height * 4,
        after == spec_set_pixel(
            spec_set_pixel(before, width, height, min_x, y, colour),
            width,
            height,
            max_x,
            y,
            colour,
        ),
        min_y <= y,
        forall|px: int, py: int, c: int|
            0 <= px < width && 0 <= py < height && 0 <= c < 4 ==> #[trigger] pixel_byte(
                before,
                width,
                px,
                py,
                c,
            ) == if min_y <= py < y && (px == min_x || px == max_x) {
                colour_byte(colour, c)
            } else {
                pixel_byte(mid, width, px, py, c)
            },
    ensures
        after.len() == before.len(),
        forall|px: int, py: int, c: int|
            0 <= px < width && 0 <= py < height && 0 <= c < 4 ==> #[trigger] pixel_byte(
                after,
                width,
                px,
                py,
                c,
            ) == if min_y <= py < y + 1 && (px == min_x || px == max_x) {
                colour_byte(colour, c)
            } else {
                pixel_byte(mid, width, px, py, c)
            },
{
    let s1 = spec_set_pixel(before, width, height, min_x, y, colour);
    lemma_spec_set_pixel(before, width, height, min_x, y, colour);
    lemma_spec_set_pixel(s1, width, height, max_x, y, colour);
    assert forall|px: int, py: int, c: int|
        0 <= px < width && 0 <= py < height && 0 <= c < 4 implies #[trigger] pixel_byte(
        after,
        width,
        px,
        py,
        c,
    ) == if min_y <= py < y + 1 && (px == min_x || px == max_x) {
        colour_byte(colour, c)
    } else {
        pixel_byte(mid, width, px, py, c)
    } by {
        assert(pixel_byte(after, width, px, py, c) == if px == max_x && py == y {
            colour_byte(colour, c)
        } else {
            pixel_byte(s1, width, px, py, c)
        });
        assert(pixel_byte(s1, width, px, py, c) == if px == min_x && py == y {
            colour_byte(colour, c)
        } else {
            pixel_byte(before, width, px, py, c)
        });
    }
}

/// Draws the outline of a rectangle: every in-bounds pixel on the outline
/// takes `colour`, every other pixel keeps its bytes.
pub fn draw_outlined_rect(
    data: &mut Vec<u8>,
    width: u32,
    height: u32,
    x0: u32,
    y0: u32,
    x1: u32,
    y1: u32,
    colour: (u8, u8, u8, u8),
)
    requires
        old(data)@.len() == width * height * 4,
    ensures
        final(data)@.len() == old(data)@.len(),
        forall|px: int, py: int, c: int|
            0 <= px < width && 0 <= py < height && 0 <= c < 4 ==> #[trigger] pixel_byte(
                final(data)@,
                width as int,
                px,
                py,
                c,
            ) == if on_outline(x0 as int, y0 as int, x1 as int, y1 as int, px, py) {
                colour_byte(colour, c)
            } else {
                pixel_byte(old(data)@, width as int, px, py, c)
            },
{
    let (min_x, max_x) = if x0 <= x1 {
        (x0, x1)
    } else {
        (x1, x0)
    };
    let (min_y, max_y) = if y0 <= y1 {
        (y0, y1)
    } else {
        (y1, y0)
    };
    let ghost orig = data@;
    let ghost gx0 = x0 as int;
    let ghost gy0 = y0 as int;
    let ghost gx1 = x1 as int;
    let ghost gy1 = y1 as int;
    let mut x = min_x;
    loop
        invariant_except_break
            min_x <= x <= max_x,
            data@.len() == width * height * 4,
            forall|px: int, py: int, c: int|
                0 <= px < width && 0 <= py < height && 0 <= c < 4 ==> #[trigger] pixel_byte(
                    data@,
                    width as int,
                    px,
                    py,
                    c,
                ) == if min_x <= px < x && (py == min_y || py == max_y) {
                    colour_byte(colour, c)
                } else {
                    pixel_byte(orig, width as int, px, py, c)
                },
        ensures
            data@.len() == width * height * 4,
            forall|px: int, py: int, c: int|
                0 <= px < width && 0 <= py < height && 0 <= c < 4 ==> #[trigger] pixel_byte(
                    data@,
                    width as int,
                    px,
                    py,
                    c,
                ) == if min_x <= px <= max_x && (py == min_y || py == max_y) {
                    colour_byte(colour, c)
                } else {
                    pixel_byte(orig, width as int, px, py, c)
                },
        decreases max_x - x,
    {
        let ghost before = data@;
        set_pixel(data, width, height, x, min_y, colour);
        set_pixel(data, width, height, x, max_y, colour);
        proof {
            lemma_rect_row_step(before, data@, orig, width as int, height as int, x as int,
                min_x as int, min_y as int, max_y as int, colour);
        }
        if x == max_x {
            break ;
        }
        x = x + 1;
    }
    let ghost mid = data@;
    let mut y = min_y;
    loop
        invariant_except_break
            min_y <= y <= max_y,
            data@.len() == width * height * 4,
            forall|px: int, py: int, c: int|
                0 <= px < width && 0 <= py < height && 0 <= c < 4 ==> #[trigger] pixel_byte(
                    data@,
                    width as int,
                    px,
                    py,
                    c,
                ) == if min_y <= py < y && (px == min_x || px == max_x) {
                    colour_byte(colour, c)
                } else {
                    pixel_byte(mid, width as int, px, py, c)
                },
        ensures
            data@.len() == width * height * 4,
            forall|px: int, py: int, c: int|
                0 <= px < width && 0 <= py < height && 0 <= c < 4 ==> #[trigger] pixel_byte(
                    data@,
                    width as int,
                    px,
                    py,
                    c,
                ) == if min_y <= py <= max_y && (px == min_x || px == max_x) {
                    colour_byte(colour, c)
                } else {
                    pixel_byte(mid, width as int, px, py, c)
                },
        decreases max_y - y,
    {
        let ghost before = data@;
        set_pixel(data, width, height, min_x, y, colour);
        set_pixel(data, width, height, max_x, y, colour);
        proof {
            lemma_rect_col_step(before, data@, mid, width as int, height as int, y as int,
                min_y as int, min_x as int, max_x as int, colour);
        }
        if y == max_y {
            break ;
        }
        y = y + 1;
    }
    proof {
        assert forall|px: int, py: int, c: int|
            0 <= px < width && 0 <= py < height && 0 <= c < 4 implies #[trigger] pixel_byte(
            data@,
            width as int,
            px,
            py,
            c,
        ) == if on_outline(gx0, gy0, gx1, gy1, px, py) {
            colour_byte(colour, c)
        } else {
            pixel_byte(orig, width as int, px, py, c)
        } by {
            assert(pixel_byte(data@, width as int, px, py, c) == if min_y <= py <= max_y && (px
                == min_x || px == max_x) {
                colour_byte(colour, c)
            } else {
                pixel_byte(mid, width as int, px, py, c)
            });
            assert(pixel_byte(mid, width as int, px, py, c) == if min_x <= px <= max_x && (py
                == min_y || py == max_y) {
                colour_byte(colour, c)
            } else {
                pixel_byte(orig, width as int, px, py, c)
            });
        }
    }
}

/// A rendered icon: dimensions and the ARGB bytes, row-major.
pub struct IconPixmap {
    pub width: u32,
    pub height: u32,
    pub data: Vec<u8>,
}

/// The colour of the battery fill bar for a charge level.
pub open spec fn icon_fill_colour(value: u8) -> (u8, u8, u8, u8) {
    if value <= 25 {
        (255u8, 220u8, 60u8, 60u8)
    } else if value <= 50 {
        (255u8, 255u8, 224u8, 0u8)
    } else {
        (255u8, 0u8, 255u8, 0u8)
    }
}

/// The colour of the battery outline.
pub open spec fn icon_outline_colour() -> (u8, u8, u8, u8) {
    (255u8, 220u8, 220u8, 220u8)
}

/// How many of the ten inner columns are filled for a charge level.
pub open spec fn icon_filled_cols(value: u8) -> int {
    (if value > 100 {
        100int
    } else {
        value as int
    }) * 10 / 100
}

/// Whether `(px, py)` lies in the filled part of the battery bar.
pub open spec fn in_fill_region(value: u8, px: int, py: int) -> bool {
    2 <= px <= 1 + icon_filled_cols(value) && 5 <= py <= 11
}

/// The colour of each pixel of the battery glyph: the fill bar where it is
/// filled, the outline of the body and of the terminal nub, transparent
/// black elsewhere.  Fill and outlines are disjoint by construction.
pub open spec fn icon_pixel(value: u8, px: int, py: int) -> (u8, u8, u8, u8) {
    if in_fill_region(value, px, py) {
        icon_fill_colour(value)
    } else if on_outline(1, 4, 12, 12, px, py) || on_outline(13, 7, 14, 9, px, py) {
        icon_outline_colour()
    } else {
        (0u8, 0u8, 0u8, 0u8)
    }
}

/// Renders the 16x16 battery glyph for a charge level, every byte as
/// `icon_pixel` prescribes.
pub fn render_digit_icon(value: u8) -> (r: IconPixmap)
    ensures
        r.width == 16,
        r.height == 16,
        r.data@.len() == 16 * 16 * 4,
        forall|px: int, py: int, c: int|
            0 <= px < 16 && 0 <= py < 16 && 0 <= c < 4 ==> #[trigger] pixel_byte(
                r.data@,
                16,
                px,
                py,
                c,
            ) == colour_byte(icon_pixel(value, px, py), c),
{
    let width: u32 = 16;
    let height: u32 = 16;
    let mut data: Vec<u8> = Vec::new();
    let mut i: usize = 0;
    while i < 1024
        invariant
            i <= 1024,
            data@.len() == i,
            forall|j: int| 0 <= j < i ==> data@[j] == 0u8,
        decreases 1024 - i,
    {
        data.push(0);
        i = i + 1;
    }
    let ghost zero = data@;
    let outline = (255u8, 220u8, 220u8, 220u8);
    let fill = if value <= 25 {
        (255u8, 220u8, 60u8, 60u8)
    } else if value <= 50 {
        (255u8, 255u8, 224u8, 0u8)
    } else {
        (255u8, 0u8, 255u8, 0u8)
    };
    draw_outlined_rect(&mut data, width, height, 1, 4, 12, 12, outline);
    let ghost body = data@;
    draw_outlined_rect(&mut data, width, height, 13, 7, 14, 9, outline);
    let ghost nub = data@;
    proof {
        assert forall|px: int, py: int, c: int|
            0 <= px < 16 && 0 <= py < 16 && 0 <= c < 4 implies #[trigger] pixel_byte(
            nub,
            16,
            px,
            py,
            c,
        ) == if on_outline(1, 4, 12, 12, px, py) || on_outline(13, 7, 14, 9, px, py) {
            colour_byte(outline, c)
        } else {
            0u8
        } by {
            assert(pixel_byte(nub, 16, px, py, c) == if on_outline(13, 7, 14, 9, px, py) {
                colour_byte(outline, c)
            } else {
                pixel_byte(body, 16, px, py, c)
            });
            assert(pixel_byte(body, 16, px, py, c) == if on_outline(1, 4, 12, 12, px, py) {
                colour_byte(outline, c)
            } else {
                pixel_byte(zero, 16, px, py, c)
            });
            assert(0 <= pixel_index(16, px, py) + c < 1024) by (nonlinear_arith)
                requires
                    0 <= px < 16,
                    0 <= py < 16,
                    0 <= c < 4,
            ;
            assert(pixel_byte(zero, 16, px, py, c) == 0u8);
        }
    }
    // Battery fill (inner area).
    let inner_width: u32 = 10;
    let capped: u32 = if value > 100 {
        100
    } else {
        value as u32
    };
    let filled: u32 = (capped * inner_width) / 100;
    proof {
        assert(filled == icon_filled_cols(value));
    }
    if filled > 0 {
        let mut x: u32 = 2;
        loop
            invariant_except_break
                width == 16,
                height == 16,
                2 <= x <= 1 + filled,
                filled == icon_filled_cols(value),
                1 <= filled <= 10,
                data@.len() == 1024,
                forall|px: int, py: int, c: int|
                    0 <= px < 16 && 0 <= py < 16 && 0 <= c < 4 ==> #[trigger] pixel_byte(
                        data@,
                        16,
                        px,
                        py,
                        c,
                    ) == if 2 <= px < x && 5 <= py <= 11 {
                        colour_byte(fill, c)
                    } else {
                        pixel_byte(nub, 16, px, py, c)
                    },
            ensures
                data@.len() == 1024,
                forall|px: int, py: int, c: int|
                    0 <= px < 16 && 0 <= py < 16 && 0 <= c < 4 ==> #[trigger] pixel_byte(
                        data@,
                        16,
                        px,
                        py,
                        c,
                    ) == if 2 <= px <= 1 + filled && 5 <= py <= 11 {
                        colour_byte(fill, c)
                    } else {
                        pixel_byte(nub, 16, px, py, c)
                    },
            decreases 1 + filled - x,
        {
            let ghost col_start = data@;
            let mut y: u32 = 5;
            loop
                invariant_except_break
                    width == 16,
                    height == 16,
                    5 <= y <= 11,
                    2 <= x <= 1 + filled <= 11,
                    data@.len() == 1024,
                    forall|px: int, py: int, c: int|
                        0 <= px < 16 && 0 <= py < 16 && 0 <= c < 4 ==> #[trigger] pixel_byte(
                            data@,
                            16,
                            px,
                            py,
                            c,
                        ) == if px == x && 5 <= py < y {
                            colour_byte(fill, c)
                        } else {
                            pixel_byte(col_start, 16, px, py, c)
                        },
                ensures
                    data@.len() == 1024,
                    forall|px: int, py: int, c: int|
                        0 <= px < 16 && 0 <= py < 16 && 0 <= c < 4 ==> #[trigger] pixel_byte(
                            data@,
                            16,
                            px,
                            py,
                            c,
                        ) == if px == x && 5 <= py <= 11 {
                            colour_byte(fill, c)
                        } else {
                            pixel_byte(col_start, 16, px, py, c)
                        },
                decreases 11 - y,
            {
                let ghost before = data@;
                set_pixel(&mut data, width, height, x, y, fill);
                proof {
                    lemma_spec_set_pixel(before, 16, 16, x as int, y as int, fill);
                    assert forall|px: int, py: int, c: int|
                        0 <= px < 16 && 0 <= py < 16 && 0 <= c < 4 implies #[trigger] pixel_byte(
                        data@,
                        16,
                        px,
                        py,
                        c,
                    ) == if px == x && 5 <= py < y + 1 {
                        colour_byte(fill, c)
                    } else {
                        pixel_byte(col_start, 16, px, py, c)
                    } by {
                        assert(pixel_byte(data@, 16, px, py, c) == if px == x && py == y {
                            colour_byte(fill, c)
                        } else {
                            pixel_byte(before, 16, px, py, c)
                        });
                    }
                }
                if y == 11 {
                    break ;
                }
                y = y + 1;
            }
            proof {
                assert forall|px: int, py: int, c: int|
                    0 <= px < 16 && 0 <= py < 16 && 0 <= c < 4 implies #[trigger] pixel_byte(
                    data@,
                    16,
                    px,
                    py,
                    c,
                ) == if 2 <= px < x + 1 && 5 <= py <= 11 {
                    colour_byte(fill, c)
                } else {
                    pixel_byte(nub, 16, px, py, c)
                } by {
                    assert(pixel_byte(data@, 16, px, py, c) == if px == x && 5 <= py <= 11 {
                        colour_byte(fill, c)
                    } else {
                        pixel_byte(col_start, 16, px, py, c)
                    });
                    assert(pixel_byte(col_start, 16, px, py, c) == if 2 <= px < x && 5 <= py
                        <= 11 {
                        colour_byte(fill, c)
                    } else {
                        pixel_byte(nub, 16, px, py, c)
                    });
                }
            }
            if x == 1 + filled {
                break ;
            }
            x = x + 1;
        }
    }
    proof {
        assert forall|px: int, py: int, c: int|
            0 <= px < 16 && 0 <= py < 16 && 0 <= c < 4 implies #[trigger] pixel_byte(
            data@,
            16,
            px,
            py,
            c,
        ) == colour_byte(icon_pixel(value, px, py), c) by {
            if filled > 0 {
                assert(pixel_byte(data@, 16, px, py, c) == if 2 <= px <= 1 + filled && 5 <= py
                    <= 11 {
                    colour_byte(fill, c)
                } else {
                    pixel_byte(nub, 16, px, py, c)
                });
            }
            assert(pixel_byte(nub, 16, px, py, c) == if on_outline(1, 4, 12, 12, px, py)
                || on_outline(13, 7, 14, 9, px, py) {
                colour_byte(outline, c)
            } else {
                0u8
            });
        }
    }
    IconPixmap { width, height, data }
}

} // verus!
