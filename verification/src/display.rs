use vstd::prelude::*;

verus! {

/// Whether bit `i` (0 = least significant) of byte `b` is set.
pub open spec fn byte_bit(b: u8, i: u8) -> bool {
    (b >> i) & 1 == 1
}

/// The pixel at column `x`, row `y` of the packed framebuffer: 8 pixels per
/// byte in row-major order, the most significant bit of a byte being its
/// leftmost pixel. Coordinates off the 64x32 grid read as false.
pub open spec fn spec_pixel(fb: Seq<u8>, x: int, y: int) -> bool {
    0 <= x < 64 && 0 <= y < 32 && byte_bit(fb[y * 8 + x / 8], (7 - x % 8) as u8)
}

/// Whether a sprite anchored at `(x, y)` covers `(px, py)` with a set bit:
/// `(px, py)` must fall on the sprite's 8-wide, `len`-tall box, and bit
/// `px - x` (counted from the most significant) of row `py - y` must be set.
pub open spec fn spec_sprite_bit(sprite: Seq<u8>, x: int, y: int, px: int, py: int) -> bool {
    y <= py < y + sprite.len() && x <= px < x + 8 && byte_bit(
        sprite[py - y],
        (7 - (px - x)) as u8,
    )
}

/// The region of the sprite box already blitted after `row` full rows plus
/// `col` bits of the next row.
spec fn spec_blit_done(x: int, y: int, row: int, col: int, px: int, py: int) -> bool {
    py - y < row || (py - y == row && px - x < col)
}

/// The all-clear framebuffer.
pub open spec fn spec_blank_framebuffer() -> Seq<u8> {
    Seq::new(256, |i: int| 0u8)
}

/// Setting or clearing bit `i` of a byte changes exactly that bit.
proof fn lemma_byte_bit_update(b: u8, i: u8)
    requires
        i < 8,
    ensures
        forall|j: u8|
            j < 8 ==> #[trigger] byte_bit(b | (1u8 << i), j) == if j == i {
                true
            } else {
                byte_bit(b, j)
            },
        forall|j: u8|
            j < 8 ==> #[trigger] byte_bit(b & !(1u8 << i), j) == if j == i {
                false
            } else {
                byte_bit(b, j)
            },
{
    assert forall|j: u8| j < 8 implies #[trigger] byte_bit(b | (1u8 << i), j) == if j == i {
        true
    } else {
        byte_bit(b, j)
    } by {
        assert((((b | (1u8 << i)) >> j) & 1 == 1) == if j == i {
            true
        } else {
            (b >> j) & 1 == 1
        } || !(i < 8 && j < 8)) by (bit_vector);
    }
    assert forall|j: u8| j < 8 implies #[trigger] byte_bit(b & !(1u8 << i), j) == if j == i {
        false
    } else {
        byte_bit(b, j)
    } by {
        assert((((b & !(1u8 << i)) >> j) & 1 == 1) == if j == i {
            false
        } else {
            (b >> j) & 1 == 1
        } || !(i < 8 && j < 8)) by (bit_vector);
    }
}

/// No bit of the zero byte is set.
proof fn lemma_zero_byte()
    ensures
        forall|j: u8| !byte_bit(0u8, j),
{
    assert forall|j: u8| !byte_bit(0u8, j) by {
        assert((0u8 >> j) & 1 == 0) by (bit_vector);
    }
}

/// The 64x32 monochrome display: one bit per pixel, packed row-major into
/// 256 bytes. Sprites are blitted with XOR and report collisions.
pub struct Display {
    framebuffer: Vec<u8>,
    height: u8,
    width: u8,
}

impl View for Display {
    type V = Seq<u8>;

    closed spec fn view(&self) -> Seq<u8> {
        self.framebuffer@
    }
}

impl Display {
    /// The framebuffer always holds exactly 256 bytes for a 64x32 grid.
    pub closed spec fn wf(&self) -> bool {
        self.framebuffer@.len() == 256 && self.height == 32 && self.width == 64
    }

    /// A display with every pixel clear.
    pub fn new() -> (r: Self)
        ensures
            r.wf(),
            r@ == spec_blank_framebuffer(),
            forall|px: int, py: int| !spec_pixel(r@, px, py),
    {
        let height: u8 = 32;
        let width: u8 = 64;
        let r = Self { framebuffer: Self::alloc_framebuffer(height, width), height, width };
        proof {
            assert(r@ =~= spec_blank_framebuffer());
            lemma_zero_byte();
        }
        r
    }

    /// The height of the grid in pixels.
    pub fn height(&self) -> (r: u8)
        requires
            self.wf(),
        ensures
            r == 32,
    {
        self.height
    }

    /// The width of the grid in pixels.
    pub fn width(&self) -> (r: u8)
        requires
            self.wf(),
        ensures
            r == 64,
    {
        self.width
    }

    /// A read-only view of the packed framebuffer bytes.
    pub fn framebuffer(&self) -> (r: &Vec<u8>)
        ensures
            r@ == self@,
    {
        &self.framebuffer
    }

    /// Blanks the whole framebuffer.
    pub fn clear(&mut self)
        requires
            old(self).wf(),
        ensures
            final(self).wf(),
            final(self)@ == spec_blank_framebuffer(),
            forall|px: int, py: int| !spec_pixel(final(self)@, px, py),
    {
        self.framebuffer = Self::alloc_framebuffer(self.height, self.width);
        proof {
            assert(self@ =~= spec_blank_framebuffer());
            lemma_zero_byte();
        }
    }

    /// The pixel at `(x, y)`; false for coordinates off the grid.
    pub fn get_pixel(&self, x: u8, y: u8) -> (r: bool)
        requires
            self.wf(),
        ensures
            r == spec_pixel(self@, x as int, y as int),
    {
        if x >= self.width || y >= self.height {
            return false;
        }
        let (byte_idx, bit_idx) = self.pixel_to_bit_offset(x, y);
        let v = (self.framebuffer[byte_idx] >> (bit_idx as u8)) & 1 == 1;
        v
    }

    /// Writes `value` into the pixel at `(x, y)`, leaving every other pixel
    /// as it was; coordinates off the grid are ignored.
    pub fn set_pixel(&mut self, x: u8, y: u8, value: bool)
        requires
            old(self).wf(),
        ensures
            final(self).wf(),
            forall|px: int, py: int|
                0 <= px < 64 && 0 <= py < 32 ==> #[trigger] spec_pixel(final(self)@, px, py) == if px
                    == x && py == y {
                    value
                } else {
                    spec_pixel(old(self)@, px, py)
                },
            x >= 64 || y >= 32 ==> final(self)@ == old(self)@,
    {
        if x >= self.width || y >= self.height {
            return ;
        }
        let (byte_idx, bit_idx) = self.pixel_to_bit_offset(x, y);
        let b = self.framebuffer[byte_idx];
        let nb = if value {
            b | (1u8 << (bit_idx as u8))
        } else {
            b & !(1u8 << (bit_idx as u8))
        };
        self.framebuffer.set(byte_idx, nb);
        proof {
            lemma_byte_bit_update(b, (7 - x % 8) as u8);
            assert forall|px: int, py: int|
                0 <= px < 64 && 0 <= py < 32 implies #[trigger] spec_pixel(self@, px, py) == if px
                == x && py == y {
                value
            } else {
                spec_pixel(old(self)@, px, py)
            } by {
                let bidx = y as int * 8 + x as int / 8;
                let pidx = py * 8 + px / 8;
                if pidx == bidx {
                    assert(py == y && px / 8 == x as int / 8);
                    if px != x {
                        assert(px % 8 != x as int % 8);
                    }
                }
            }
        }
    }

    /// Inverts the pixel at `(x, y)`; coordinates off the grid are ignored.
    pub fn toggle_pixel(&mut self, x: u8, y: u8)
        requires
            old(self).wf(),
        ensures
            final(self).wf(),
            forall|px: int, py: int|
                0 <= px < 64 && 0 <= py < 32 ==> #[trigger] spec_pixel(final(self)@, px, py) == if px
                    == x && py == y {
                    !spec_pixel(old(self)@, px, py)
                } else {
                    spec_pixel(old(self)@, px, py)
                },
            x >= 64 || y >= 32 ==> final(self)@ == old(self)@,
    {
        if x < self.width && y < self.height {
            let pixel = self.get_pixel(x, y);
            self.set_pixel(x, y, !pixel);
        }
    }

    /// XOR-blits `sprite` with its top-left corner at `(x, y)`: every set
    /// sprite bit inverts the pixel under it, and the draw reports a
    /// collision exactly when some set sprite bit lands on a pixel that was
    /// already lit. Pixels off the grid are clipped, not wrapped.
    pub fn draw_sprite(&mut self, x: u8, y: u8, sprite: &[u8]) -> (collision: bool)
        requires
            old(self).wf(),
        ensures
            final(self).wf(),
            forall|px: int, py: int|
                0 <= px < 64 && 0 <= py < 32 ==> #[trigger] spec_pixel(final(self)@, px, py) == (
                spec_pixel(old(self)@, px, py) != spec_sprite_bit(
                    sprite@,
                    x as int,
                    y as int,
                    px,
                    py,
                )),
            collision == exists|px: int, py: int|
                spec_pixel(old(self)@, px, py) && spec_sprite_bit(
                    sprite@,
                    x as int,
                    y as int,
                    px,
                    py,
                ),
    {
        let ghost fb0 = self@;
        let ghost xi = x as int;
        let ghost yi = y as int;
        let mut collision = false;
        let rows: usize = if sprite.len() < 32 {
            sprite.len()
        } else {
            32
        };
        let mut row: usize = 0;
        while row < rows
            invariant
                self.wf(),
                xi == x as int,
                yi == y as int,
                row <= rows,
                rows <= sprite@.len(),
                rows <= 32,
                rows == if sprite@.len() < 32 {
                    sprite@.len() as int
                } else {
                    32
                },
                forall|px: int, py: int|
                    0 <= px < 64 && 0 <= py < 32 ==> #[trigger] spec_pixel(self@, px, py) == (
                    spec_pixel(fb0, px, py) != (spec_sprite_bit(sprite@, xi, yi, px, py)
                        && spec_blit_done(xi, yi, row as int, 0, px, py))),
                collision == exists|px: int, py: int|
                    spec_pixel(fb0, px, py) && spec_sprite_bit(sprite@, xi, yi, px, py)
                        && spec_blit_done(xi, yi, row as int, 0, px, py),
            decreases rows - row,
        {
            let sprite_byte = sprite[row];
            let mut bit: u8 = 0;
            while bit < 8
                invariant
                    self.wf(),
                    xi == x as int,
                    yi == y as int,
                    bit <= 8,
                    row < rows,
                    rows <= sprite@.len(),
                    rows <= 32,
                    sprite_byte == sprite@[row as int],
                    forall|px: int, py: int|
                        0 <= px < 64 && 0 <= py < 32 ==> #[trigger] spec_pixel(self@, px, py) == (
                        spec_pixel(fb0, px, py) != (spec_sprite_bit(sprite@, xi, yi, px, py)
                            && spec_blit_done(xi, yi, row as int, bit as int, px, py))),
                    collision == exists|px: int, py: int|
                        spec_pixel(fb0, px, py) && spec_sprite_bit(sprite@, xi, yi, px, py)
                            && spec_blit_done(xi, yi, row as int, bit as int, px, py),
                decreases 8 - bit,
            {
                let ghost fb_pre = self@;
                let ghost col_pre = collision;
                let x_pos: u16 = x as u16 + bit as u16;
                let y_pos: u16 = y as u16 + row as u16;
                let ghost pxs = xi + bit as int;
                let ghost pys = yi + row as int;
                let sprite_bit_set = (sprite_byte >> ((7 - bit) as u8)) & 1 == 1;
                proof {
                    assert(x_pos as int == pxs && y_pos as int == pys);
                    assert(sprite_bit_set == byte_bit(sprite@[row as int], (7 - (pxs - xi)) as u8));
                    assert(sprite_bit_set == spec_sprite_bit(sprite@, xi, yi, pxs, pys));
                    assert(!spec_blit_done(xi, yi, row as int, bit as int, pxs, pys));
                }
                let mut entered = false;
                if sprite_bit_set && x_pos < 64 && y_pos < 32 {
                    entered = true;
                    let px8 = x_pos as u8;
                    let py8 = y_pos as u8;
                    proof {
                        assert(px8 as int == pxs && py8 as int == pys);
                    }
                    if self.get_pixel(px8, py8) {
                        proof {
                            assert(spec_pixel(fb_pre, pxs, pys));
                            assert(spec_pixel(fb0, pxs, pys));
                        }
                        collision = true;
                    }
                    self.toggle_pixel(px8, py8);
                }
                proof {
                    let done_new = spec_blit_done(xi, yi, row as int, bit as int + 1, pxs, pys);
                    assert(done_new);
                    assert forall|px: int, py: int|
                        0 <= px < 64 && 0 <= py < 32 implies #[trigger] spec_pixel(self@, px, py)
                        == (spec_pixel(fb0, px, py) != (spec_sprite_bit(sprite@, xi, yi, px, py)
                        && spec_blit_done(xi, yi, row as int, bit as int + 1, px, py))) by {
                        if px == pxs && py == pys {
                            if entered {
                                assert(spec_pixel(self@, px, py) == !spec_pixel(fb_pre, px, py));
                                assert(spec_pixel(fb_pre, px, py) == spec_pixel(fb0, px, py));
                            } else {
                                assert(self@ == fb_pre);
                                assert(!spec_sprite_bit(sprite@, xi, yi, px, py));
                            }
                        } else {
                            assert(spec_blit_done(xi, yi, row as int, bit as int + 1, px, py)
                                == spec_blit_done(xi, yi, row as int, bit as int, px, py));
                            if entered {
                                assert(spec_pixel(self@, px, py) == spec_pixel(fb_pre, px, py));
                            } else {
                                assert(self@ == fb_pre);
                            }
                        }
                    }
                    if collision {
                        if col_pre {
                            let (wx, wy) = choose|wx: int, wy: int|
                                spec_pixel(fb0, wx, wy) && spec_sprite_bit(sprite@, xi, yi, wx, wy)
                                    && spec_blit_done(xi, yi, row as int, bit as int, wx, wy);
                            assert(spec_blit_done(xi, yi, row as int, bit as int + 1, wx, wy));
                            assert(spec_pixel(fb0, wx, wy) && spec_sprite_bit(
                                sprite@,
                                xi,
                                yi,
                                wx,
                                wy,
                            ) && spec_blit_done(xi, yi, row as int, bit as int + 1, wx, wy));
                        } else {
                            assert(spec_pixel(fb0, pxs, pys) && spec_sprite_bit(
                                sprite@,
                                xi,
                                yi,
                                pxs,
                                pys,
                            ) && spec_blit_done(xi, yi, row as int, bit as int + 1, pxs, pys));
                        }
                        assert(exists|px: int, py: int|
                            spec_pixel(fb0, px, py) && spec_sprite_bit(sprite@, xi, yi, px, py)
                                && spec_blit_done(xi, yi, row as int, bit as int + 1, px, py));
                    } else {
                        assert forall|px: int, py: int|
                            !(spec_pixel(fb0, px, py) && spec_sprite_bit(sprite@, xi, yi, px, py)
                                && spec_blit_done(xi, yi, row as int, bit as int + 1, px, py)) by {
                            if spec_pixel(fb0, px, py) && spec_sprite_bit(sprite@, xi, yi, px, py)
                                && spec_blit_done(xi, yi, row as int, bit as int + 1, px, py) {
                                if px == pxs && py == pys {
                                    assert(spec_pixel(fb0, pxs, pys) && spec_sprite_bit(
                                        sprite@,
                                        xi,
                                        yi,
                                        pxs,
                                        pys,
                                    ));
                                    assert(entered);
                                    assert(false);
                                } else {
                                    assert(spec_blit_done(xi, yi, row as int, bit as int, px, py));
                                    assert(false);
                                }
                            }
                        }
                    }
                }
                bit = bit + 1;
            }
            proof {
                assert forall|px: int, py: int|
                    (spec_sprite_bit(sprite@, xi, yi, px, py) && spec_blit_done(
                        xi,
                        yi,
                        row as int,
                        8,
                        px,
                        py,
                    )) == (spec_sprite_bit(sprite@, xi, yi, px, py) && spec_blit_done(
                        xi,
                        yi,
                        row as int + 1,
                        0,
                        px,
                        py,
                    )) by {}
            }
            row = row + 1;
        }
        proof {
            assert forall|px: int, py: int|
                0 <= px < 64 && 0 <= py < 32 implies (spec_sprite_bit(sprite@, xi, yi, px, py)
                && spec_blit_done(xi, yi, rows as int, 0, px, py)) == spec_sprite_bit(
                sprite@,
                xi,
                yi,
                px,
                py,
            ) by {
                if spec_sprite_bit(sprite@, xi, yi, px, py) {
                    assert(py - yi < sprite@.len());
                    assert(py < 32 && yi >= 0);
                }
            }
            if collision {
                let (px, py) = choose|px: int, py: int|
                    spec_pixel(fb0, px, py) && spec_sprite_bit(sprite@, xi, yi, px, py)
                        && spec_blit_done(xi, yi, rows as int, 0, px, py);
                assert(spec_pixel(fb0, px, py) && spec_sprite_bit(sprite@, xi, yi, px, py));
            } else {
                assert forall|px: int, py: int|
                    !(spec_pixel(fb0, px, py) && spec_sprite_bit(sprite@, xi, yi, px, py)) by {
                    if spec_pixel(fb0, px, py) && spec_sprite_bit(sprite@, xi, yi, px, py) {
                        assert(spec_blit_done(xi, yi, rows as int, 0, px, py));
                    }
                }
            }
        }
        collision
    }

    /// The packed position of pixel `(x, y)`: the byte index in the
    /// framebuffer and the bit index inside that byte (0 = rightmost).
    pub fn pixel_to_bit_offset(&self, x: u8, y: u8) -> (r: (usize, usize))
        requires
            self.wf(),
        ensures
            r.0 == y as int * 8 + x as int / 8,
            r.1 == 7 - x as int % 8,
    {
        let offset = y as u16 * (self.width as u16 / 8);
        let byte_index = x as u16 / 8 + offset;
        let bit_index = 7 - x % 8;
        (byte_index as usize, bit_index as usize)
    }

    /// A zeroed framebuffer for the 64x32 grid.
    fn alloc_framebuffer(height: u8, width: u8) -> (r: Vec<u8>)
        requires
            height == 32,
            width == 64,
        ensures
            r@.len() == 256,
            forall|i: int| 0 <= i < r@.len() ==> r@[i] == 0u8,
    {
        let mut framebuffer: Vec<u8> = Vec::new();
        let buffer_size = height as u16 * width as u16 / 8;
        let mut i: u16 = 0;
        while i < buffer_size
            invariant
                i <= buffer_size,
                framebuffer@.len() == i as int,
                forall|j: int| 0 <= j < i ==> framebuffer@[j] == 0u8,
            decreases buffer_size - i,
        {
            framebuffer.push(0);
            i = i + 1;
        }
        framebuffer
    }
}


/// A well-formed display holds exactly 256 framebuffer bytes: 64 x 32
/// pixels at one bit each.
pub proof fn lemma_wf_framebuffer_len(d: &Display)
    requires
        d.wf(),
    ensures
        d@.len() == 256,
{
}

/// Two bytes that agree on all eight bits are equal.
proof fn lemma_byte_from_bits(b1: u8, b2: u8)
    by (bit_vector)
    requires
        byte_bit(b1, 0) == byte_bit(b2, 0),
        byte_bit(b1, 1) == byte_bit(b2, 1),
        byte_bit(b1, 2) == byte_bit(b2, 2),
        byte_bit(b1, 3) == byte_bit(b2, 3),
        byte_bit(b1, 4) == byte_bit(b2, 4),
        byte_bit(b1, 5) == byte_bit(b2, 5),
        byte_bit(b1, 6) == byte_bit(b2, 6),
        byte_bit(b1, 7) == byte_bit(b2, 7),
    ensures
        b1 == b2,
{
}

/// Two framebuffers that agree pixel for pixel are equal byte for byte.
pub proof fn lemma_framebuffer_from_pixels(fb1: Seq<u8>, fb2: Seq<u8>)
    requires
        fb1.len() == 256,
        fb2.len() == 256,
        forall|px: int, py: int|
            0 <= px < 64 && 0 <= py < 32 ==> #[trigger] spec_pixel(fb1, px, py) == spec_pixel(
                fb2,
                px,
                py,
            ),
    ensures
        fb1 == fb2,
{
    assert forall|i: int| 0 <= i < 256 implies fb1[i] == fb2[i] by {
        let py = i / 8;
        let bx = i % 8;
        assert forall|j: u8| j < 8 implies byte_bit(fb1[i], j) == byte_bit(fb2[i], j) by {
            let px = 8 * bx + 7 - j;
            assert(0 <= px < 64 && 0 <= py < 32);
            assert(py * 8 + px / 8 == i);
            assert((7 - px % 8) as u8 == j);
            assert(spec_pixel(fb1, px, py) == spec_pixel(fb2, px, py));
        }
        lemma_byte_from_bits(fb1[i], fb2[i]);
    }
    assert(fb1 =~= fb2);
}

/// XOR-blitting is an involution: drawing the same sprite twice at the same
/// anchor restores the framebuffer byte for byte; and started from an
/// all-clear framebuffer, the second draw reports a collision exactly when
/// the sprite has any set bit that lands on the grid. The three framebuffers
/// and the collision flag are related as `draw_sprite`'s contract states.
pub proof fn lemma_draw_twice(
    fb0: Seq<u8>,
    fb1: Seq<u8>,
    fb2: Seq<u8>,
    x: int,
    y: int,
    sprite: Seq<u8>,
    c2: bool,
)
    requires
        fb0.len() == 256,
        fb1.len() == 256,
        fb2.len() == 256,
        forall|px: int, py: int|
            0 <= px < 64 && 0 <= py < 32 ==> #[trigger] spec_pixel(fb1, px, py) == (spec_pixel(
                fb0,
                px,
                py,
            ) != spec_sprite_bit(sprite, x, y, px, py)),
        forall|px: int, py: int|
            0 <= px < 64 && 0 <= py < 32 ==> #[trigger] spec_pixel(fb2, px, py) == (spec_pixel(
                fb1,
                px,
                py,
            ) != spec_sprite_bit(sprite, x, y, px, py)),
        c2 == exists|px: int, py: int|
            spec_pixel(fb1, px, py) && spec_sprite_bit(sprite, x, y, px, py),
    ensures
        fb2 == fb0,
        (forall|px: int, py: int| !spec_pixel(fb0, px, py)) ==> c2 == exists|px: int, py: int|
            0 <= px < 64 && 0 <= py < 32 && spec_sprite_bit(sprite, x, y, px, py),
{
    assert forall|px: int, py: int|
        0 <= px < 64 && 0 <= py < 32 implies #[trigger] spec_pixel(fb2, px, py) == spec_pixel(
        fb0,
        px,
        py,
    ) by {}
    lemma_framebuffer_from_pixels(fb2, fb0);
    if forall|px: int, py: int| !spec_pixel(fb0, px, py) {
        if c2 {
            let (px, py) = choose|px: int, py: int|
                spec_pixel(fb1, px, py) && spec_sprite_bit(sprite, x, y, px, py);
            assert(0 <= px < 64 && 0 <= py < 32 && spec_sprite_bit(sprite, x, y, px, py));
        }
        if exists|px: int, py: int|
            0 <= px < 64 && 0 <= py < 32 && spec_sprite_bit(sprite, x, y, px, py) {
            let (px, py) = choose|px: int, py: int|
                0 <= px < 64 && 0 <= py < 32 && spec_sprite_bit(sprite, x, y, px, py);
            assert(!spec_pixel(fb0, px, py));
            assert(spec_pixel(fb1, px, py) && spec_sprite_bit(sprite, x, y, px, py));
            assert(c2);
        }
    }
}

} // verus!

