//! The monochrome framebuffer with XOR sprite drawing.
//!
//! A sprite is a sequence of bytes, each bit one horizontal pixel, most
//! significant bit first. Drawing XORs the sprite into the grid: a set
//! sprite bit toggles its target pixel, and a toggle from set to unset is a
//! collision. Columns wrap around the right edge; rows past the bottom edge
//! are clipped.

use vstd::prelude::*;

verus! {

/// A pixel coordinate outside the grid.
#[derive(Debug, Clone, Copy, PartialEq, Eq, Structural)]
pub struct DisplayErr;

/// The mask selecting bit `b` of a sprite byte, most significant bit first.
pub open spec fn bit_mask(b: int) -> u8 {
    if b == 0 {
        0x80u8
    } else if b == 1 {
        0x40u8
    } else if b == 2 {
        0x20u8
    } else if b == 3 {
        0x10u8
    } else if b == 4 {
        0x08u8
    } else if b == 5 {
        0x04u8
    } else if b == 6 {
        0x02u8
    } else {
        0x01u8
    }
}

/// Whether bit `b` of sprite byte `byte` is set, most significant bit first.
pub open spec fn sprite_bit(byte: u8, b: int) -> bool {
    byte & bit_mask(b) != 0
}

/// The grid column that sprite column `b` lands on when the sprite starts
/// at column `x0` on a grid `w` wide: `(x0 + b) % w`, written without `%`
/// for `x0` within the grid and `b` below `w`.
pub open spec fn wrap_col(x0: int, b: int, w: int) -> int {
    if x0 + b < w {
        x0 + b
    } else {
        x0 + b - w
    }
}

/// The sprite column that lands on grid column `x` when the sprite starts
/// at column `x0` on a grid `w` wide: the inverse of [`wrap_col`].
pub open spec fn col_of(x0: int, x: int, w: int) -> int {
    if x >= x0 {
        x - x0
    } else {
        x - x0 + w
    }
}

/// The two column maps invert each other when the grid is at least as wide
/// as the eight columns of one sprite byte.
pub proof fn lemma_cols_inverse(x0: int, w: int)
    requires
        0 <= x0 < w,
        8 <= w,
    ensures
        forall|b: int| 0 <= b < 8 ==> 0 <= #[trigger] wrap_col(x0, b, w) < w,
        forall|b: int| 0 <= b < 8 ==> col_of(x0, #[trigger] wrap_col(x0, b, w), w) == b,
        forall|x: int| 0 <= x < w ==> 0 <= #[trigger] col_of(x0, x, w) < w,
        forall|x: int| 0 <= x < w ==> wrap_col(x0, #[trigger] col_of(x0, x, w), w) == x,
{
}

/// Whether a draw of `byte` starting at column `x0` toggles the pixel in
/// grid column `x`: the column is one of the byte's eight wrapped columns
/// and the corresponding bit is set.
pub open spec fn row_hit(byte: u8, x0: int, x: int, w: int) -> bool {
    0 <= col_of(x0, x, w) < 8 && sprite_bit(byte, col_of(x0, x, w))
}

/// One grid row after a draw of `byte` starting at column `x0`: every pixel
/// in a set-bit column is flipped, every other pixel keeps its value.
pub open spec fn row_after(orig: Seq<bool>, byte: u8, x0: int, w: int) -> Seq<bool> {
    Seq::new(orig.len(), |x: int| orig[x] != row_hit(byte, x0, x, w))
}

/// Whether a draw of `byte` starting at column `x0` toggles some pixel of
/// `orig` that was already set.
pub open spec fn row_collide(orig: Seq<bool>, byte: u8, x0: int, w: int) -> bool {
    exists|b: int| 0 <= b < 8 && sprite_bit(byte, b) && orig[wrap_col(x0, b, w)]
}

/// Whether the draw of `sprite` starting at wrapped coordinates `(x0, y0)`
/// toggles the pixel at `(x, y)`: the pixel lies in a sprite row that is
/// not clipped at the bottom edge, in one of the eight wrapped sprite
/// columns, and the corresponding sprite bit is set.
pub open spec fn mask_hit(
    sprite: Seq<u8>,
    w: int,
    h: int,
    x0: int,
    y0: int,
    x: int,
    y: int,
) -> bool {
    0 <= y - y0 < sprite.len() && y < h && row_hit(sprite[y - y0], x0, x, w)
}

/// The grid after drawing `sprite` at `(x0, y0)`: each row reached by an
/// unclipped sprite row is redrawn by [`row_after`], all other rows keep
/// their pixels.
pub open spec fn spec_draw(
    s: Seq<Seq<bool>>,
    sprite: Seq<u8>,
    w: int,
    h: int,
    x0: int,
    y0: int,
) -> Seq<Seq<bool>> {
    Seq::new(
        s.len(),
        |y: int| if 0 <= y - y0 < sprite.len() {
            row_after(s[y], sprite[y - y0], x0, w)
        } else {
            s[y]
        },
    )
}

/// Whether drawing `sprite` at `(x0, y0)` on grid `s` toggles some pixel
/// that was already set: the collision outcome of the draw.
pub open spec fn spec_collision(
    s: Seq<Seq<bool>>,
    sprite: Seq<u8>,
    w: int,
    h: int,
    x0: int,
    y0: int,
) -> bool {
    exists|r: int| 0 <= r < sprite.len() && y0 + r < h && #[trigger] row_collide(
        s[y0 + r],
        sprite[r],
        x0,
        w,
    )
}

/// The draw, pixel by pixel: the drawn grid flips exactly the pixels that
/// [`mask_hit`] selects, and a collision is reported exactly when some
/// selected pixel was already set.
pub proof fn lemma_draw_pointwise(
    s: Seq<Seq<bool>>,
    sprite: Seq<u8>,
    w: int,
    h: int,
    x0: int,
    y0: int,
)
    requires
        8 <= w,
        1 <= h,
        0 <= x0 < w,
        0 <= y0 < h,
        s.len() == h,
        forall|y: int| 0 <= y < h ==> #[trigger] s[y].len() == w,
    ensures
        forall|x: int, y: int|
            0 <= x < w && 0 <= y < h ==> #[trigger] spec_draw(s, sprite, w, h, x0, y0)[y][x] == (
            s[y][x] != mask_hit(sprite, w, h, x0, y0, x, y)),
        spec_collision(s, sprite, w, h, x0, y0) == exists|x: int, y: int|
            0 <= x < w && 0 <= y < h && s[y][x] && #[trigger] mask_hit(
                sprite,
                w,
                h,
                x0,
                y0,
                x,
                y,
            ),
{
    lemma_cols_inverse(x0, w);
    assert forall|x: int, y: int| 0 <= x < w && 0 <= y < h implies #[trigger] spec_draw(
        s,
        sprite,
        w,
        h,
        x0,
        y0,
    )[y][x] == (s[y][x] != mask_hit(sprite, w, h, x0, y0, x, y)) by {
        if 0 <= y - y0 < sprite.len() {
            assert(spec_draw(s, sprite, w, h, x0, y0)[y] == row_after(s[y], sprite[y - y0], x0, w));
        }
    }
    if spec_collision(s, sprite, w, h, x0, y0) {
        let r = choose|r: int|
            0 <= r < sprite.len() && y0 + r < h && #[trigger] row_collide(
                s[y0 + r],
                sprite[r],
                x0,
                w,
            );
        let b = choose|b: int| 0 <= b < 8 && sprite_bit(sprite[r], b) && s[y0 + r][wrap_col(
            x0,
            b,
            w,
        )];
        let x = wrap_col(x0, b, w);
        let y = y0 + r;
        assert(0 <= x < w && 0 <= y < h && s[y][x] && mask_hit(sprite, w, h, x0, y0, x, y));
    }
    if exists|x: int, y: int|
        0 <= x < w && 0 <= y < h && s[y][x] && #[trigger] mask_hit(sprite, w, h, x0, y0, x, y) {
        let (x, y) = choose|x: int, y: int|
            0 <= x < w && 0 <= y < h && s[y][x] && #[trigger] mask_hit(sprite, w, h, x0, y0, x, y);
        let r = y - y0;
        let b = col_of(x0, x, w);
        assert(wrap_col(x0, b, w) == x);
        assert(row_collide(s[y0 + r], sprite[r], x0, w));
    }
}

/// Drawing the same sprite twice at the same coordinates on a cleared
/// screen: the first draw reports no collision, the second draw reports
/// one, and the double XOR leaves every pixel cleared again. The sprite
/// must have at least one set bit in a row that is not clipped at the
/// bottom edge.
pub proof fn lemma_draw_twice_clears(
    s: Seq<Seq<bool>>,
    sprite: Seq<u8>,
    w: int,
    h: int,
    x0: int,
    y0: int,
)
    requires
        8 <= w,
        1 <= h,
        0 <= x0 < w,
        0 <= y0 < h,
        s.len() == h,
        forall|y: int| 0 <= y < h ==> #[trigger] s[y].len() == w,
        forall|x: int, y: int| 0 <= x < w && 0 <= y < h ==> !(#[trigger] s[y][x]),
        exists|r: int, b: int|
            0 <= r < sprite.len() && y0 + r < h && 0 <= b < 8 && #[trigger] sprite_bit(
                sprite[r],
                b,
            ),
    ensures
        !spec_collision(s, sprite, w, h, x0, y0),
        spec_collision(spec_draw(s, sprite, w, h, x0, y0), sprite, w, h, x0, y0),
        forall|x: int, y: int|
            0 <= x < w && 0 <= y < h ==> !(#[trigger] spec_draw(
                spec_draw(s, sprite, w, h, x0, y0),
                sprite,
                w,
                h,
                x0,
                y0,
            )[y][x]),
{
    lemma_cols_inverse(x0, w);
    lemma_draw_pointwise(s, sprite, w, h, x0, y0);
    if spec_collision(s, sprite, w, h, x0, y0) {
        let (x, y) = choose|x: int, y: int|
            0 <= x < w && 0 <= y < h && s[y][x] && #[trigger] mask_hit(sprite, w, h, x0, y0, x, y);
        assert(false);
    }
    let s1 = spec_draw(s, sprite, w, h, x0, y0);
    assert(s1.len() == h);
    assert forall|y: int| 0 <= y < h implies #[trigger] s1[y].len() == w by {
        if 0 <= y - y0 < sprite.len() {
            assert(s1[y] == row_after(s[y], sprite[y - y0], x0, w));
        }
    }
    lemma_draw_pointwise(s1, sprite, w, h, x0, y0);
    let (r, b) = choose|r: int, b: int|
        0 <= r < sprite.len() && y0 + r < h && 0 <= b < 8 && #[trigger] sprite_bit(sprite[r], b);
    let x1 = wrap_col(x0, b, w);
    let y1 = y0 + r;
    assert(col_of(x0, x1, w) == b);
    assert(mask_hit(sprite, w, h, x0, y0, x1, y1));
    assert(s1[y1][x1] == (s[y1][x1] != mask_hit(sprite, w, h, x0, y0, x1, y1)));
    assert(s1[y1][x1] && mask_hit(sprite, w, h, x0, y0, x1, y1));
    assert(spec_collision(s1, sprite, w, h, x0, y0));
    assert forall|x: int, y: int| 0 <= x < w && 0 <= y < h implies !(#[trigger] spec_draw(
        s1,
        sprite,
        w,
        h,
        x0,
        y0,
    )[y][x]) by {
        assert(spec_draw(s1, sprite, w, h, x0, y0)[y][x] == (s1[y][x] != mask_hit(
            sprite,
            w,
            h,
            x0,
            y0,
            x,
            y,
        )));
        assert(s1[y][x] == (s[y][x] != mask_hit(sprite, w, h, x0, y0, x, y)));
    }
}

/// Column wraparound at the right edge: a draw starting at column
/// `w - 1` puts sprite column 0 on the right edge and wraps sprite
/// columns 1 through 7 around to grid columns 0 through 6.
pub proof fn lemma_draw_wraps_at_right_edge(
    sprite: Seq<u8>,
    w: int,
    h: int,
    y0: int,
    y: int,
    b: int,
)
    requires
        8 <= w,
        0 <= y0 < h,
        0 <= y - y0 < sprite.len(),
        y < h,
        1 <= b < 8,
    ensures
        mask_hit(sprite, w, h, w - 1, y0, b - 1, y) == sprite_bit(sprite[y - y0], b),
        mask_hit(sprite, w, h, w - 1, y0, w - 1, y) == sprite_bit(sprite[y - y0], 0),
{
}

/// A 2D grid of boolean pixels, its width and height fixed at construction.
#[derive(Debug, Clone)]
pub struct MachDisplay {
    width: usize,
    height: usize,
    grid: Vec<Vec<bool>>,
}

impl View for MachDisplay {
    type V = Seq<Seq<bool>>;

    closed spec fn view(&self) -> Seq<Seq<bool>> {
        Seq::new(self.grid@.len(), |y: int| self.grid@[y]@)
    }
}

/// A fully zeroed pixel grid, row by row.
fn make_grid(width: usize, height: usize) -> (g: Vec<Vec<bool>>)
    ensures
        g@.len() == height,
        forall|y: int| 0 <= y < height ==> #[trigger] g@[y]@.len() == width,
        forall|y: int, x: int| 0 <= y < height && 0 <= x < width ==> !(#[trigger] g@[y]@[x]),
{
    let mut grid: Vec<Vec<bool>> = Vec::new();
    let mut y: usize = 0;
    while y < height
        invariant
            grid@.len() == y,
            y <= height,
            forall|j: int| 0 <= j < y ==> #[trigger] grid@[j]@.len() == width,
            forall|j: int, x: int| 0 <= j < y && 0 <= x < width ==> !(#[trigger] grid@[j]@[x]),
        decreases height - y,
    {
        let mut row: Vec<bool> = Vec::new();
        let mut x: usize = 0;
        while x < width
            invariant
                row@.len() == x,
                x <= width,
                forall|i: int| 0 <= i < x ==> !(#[trigger] row@[i]),
            decreases width - x,
        {
            row.push(false);
            x = x + 1;
        }
        grid.push(row);
        y = y + 1;
    }
    grid
}

/// Selects bit `b` of `byte`, most significant bit first.
fn bit_at(byte: u8, b: usize) -> (r: bool)
    requires
        b < 8,
    ensures
        r == sprite_bit(byte, b as int),
{
    let m: u8 = match b {
        0 => 0x80,
        1 => 0x40,
        2 => 0x20,
        3 => 0x10,
        4 => 0x08,
        5 => 0x04,
        6 => 0x02,
        _ => 0x01,
    };
    byte & m != 0
}

/// XOR-draws one sprite byte into one grid row, starting at column `x0`
/// with wraparound, and reports whether a set pixel was toggled off.
#[verifier::loop_isolation(false)]
fn draw_byte(row: &mut Vec<bool>, byte: u8, x0: usize, w: usize) -> (hit: bool)
    requires
        old(row)@.len() == w,
        x0 < w,
        8 <= w,
        w <= 0xFFFF,
    ensures
        final(row)@ == row_after(old(row)@, byte, x0 as int, w as int),
        hit == row_collide(old(row)@, byte, x0 as int, w as int),
{
    proof {
        lemma_cols_inverse(x0 as int, w as int);
    }
    let mut hit = false;
    let mut b: usize = 0;
    while b < 8
        invariant
            row@.len() == w,
            b <= 8,
            forall|x: int|
                0 <= x < w ==> #[trigger] row@[x] == (old(row)@[x] != (0 <= col_of(
                    x0 as int,
                    x,
                    w as int,
                ) < b && sprite_bit(byte, col_of(x0 as int, x, w as int)))),
            hit == exists|bb: int|
                0 <= bb < b && sprite_bit(byte, bb) && old(row)@[wrap_col(x0 as int, bb, w as int)],
        decreases 8 - b,
    {
        if bit_at(byte, b) {
            let px = if x0 + b < w {
                x0 + b
            } else {
                x0 + b - w
            };
            proof {
                assert(px == wrap_col(x0 as int, b as int, w as int));
                assert(col_of(x0 as int, px as int, w as int) == b);
            }
            let cur = row[px];
            proof {
                assert(cur == old(row)@[px as int]);
            }
            row.set(px, !cur);
            if cur {
                hit = true;
            }
            proof {
                assert forall|x: int| 0 <= x < w implies #[trigger] row@[x] == (old(row)@[x] != (0
                    <= col_of(x0 as int, x, w as int) < b + 1 && sprite_bit(
                    byte,
                    col_of(x0 as int, x, w as int),
                ))) by {
                    if x != px {
                        assert(col_of(x0 as int, x, w as int) != b);
                    }
                }
                if cur {
                    assert(sprite_bit(byte, b as int) && old(row)@[wrap_col(
                        x0 as int,
                        b as int,
                        w as int,
                    )]);
                } else {
                    assert forall|bb: int|
                        0 <= bb < b + 1 && sprite_bit(byte, bb) && old(row)@[wrap_col(
                            x0 as int,
                            bb,
                            w as int,
                        )] implies 0 <= bb < b && sprite_bit(byte, bb) && old(row)@[wrap_col(
                        x0 as int,
                        bb,
                        w as int,
                    )] by {
                        if bb == b {
                            assert(false);
                        }
                    }
                }
            }
        } else {
            proof {
                assert forall|x: int| 0 <= x < w implies #[trigger] row@[x] == (old(row)@[x] != (0
                    <= col_of(x0 as int, x, w as int) < b + 1 && sprite_bit(
                    byte,
                    col_of(x0 as int, x, w as int),
                ))) by {}
                assert forall|bb: int|
                    0 <= bb < b + 1 && sprite_bit(byte, bb) && old(row)@[wrap_col(
                        x0 as int,
                        bb,
                        w as int,
                    )] implies 0 <= bb < b && sprite_bit(byte, bb) && old(row)@[wrap_col(
                    x0 as int,
                    bb,
                    w as int,
                )] by {}
            }
        }
        b = b + 1;
    }
    proof {
        assert(row@ =~= row_after(old(row)@, byte, x0 as int, w as int));
    }
    hit
}

/// XOR-draws a whole sprite into the grid at wrapped coordinates
/// `(x0, y0)`, row by row, stopping at the bottom edge.
#[verifier::loop_isolation(false)]
fn draw_grid(
    grid: &mut Vec<Vec<bool>>,
    sprite_data: &[u8],
    w: usize,
    h: usize,
    x0: usize,
    y0: usize,
) -> (collided: bool)
    requires
        8 <= w,
        w <= 0xFFFF,
        1 <= h,
        x0 < w,
        y0 < h,
        old(grid)@.len() == h,
        forall|yy: int| 0 <= yy < h ==> #[trigger] old(grid)@[yy]@.len() == w,
    ensures
        final(grid)@.len() == h,
        forall|yy: int| 0 <= yy < h ==> #[trigger] final(grid)@[yy]@.len() == w,
        forall|yy: int|
            0 <= yy < h ==> #[trigger] final(grid)@[yy]@ == (if 0 <= yy - y0
                < sprite_data@.len() {
                row_after(old(grid)@[yy]@, sprite_data@[yy - y0], x0 as int, w as int)
            } else {
                old(grid)@[yy]@
            }),
        collided == exists|rr: int|
            0 <= rr < sprite_data@.len() && y0 + rr < h && #[trigger] row_collide(
                old(grid)@[y0 + rr]@,
                sprite_data@[rr],
                x0 as int,
                w as int,
            ),
{
    let mut collided = false;
    let mut r: usize = 0;
    while r < sprite_data.len() && r < h - y0
        invariant
            r <= sprite_data@.len(),
            r <= h - y0,
            grid@.len() == h,
            forall|yy: int| 0 <= yy < h ==> #[trigger] grid@[yy]@.len() == w,
            forall|yy: int|
                0 <= yy < h ==> #[trigger] grid@[yy]@ == (if 0 <= yy - y0 < r && yy - y0
                    < sprite_data@.len() {
                    row_after(old(grid)@[yy]@, sprite_data@[yy - y0], x0 as int, w as int)
                } else {
                    old(grid)@[yy]@
                }),
            collided == exists|rr: int|
                0 <= rr < r && rr < sprite_data@.len() && #[trigger] row_collide(
                    old(grid)@[y0 + rr]@,
                    sprite_data@[rr],
                    x0 as int,
                    w as int,
                ),
        decreases sprite_data@.len() - r,
    {
        let row_byte = sprite_data[r];
        let py = y0 + r;
        proof {
            assert(grid@[py as int]@ == old(grid)@[py as int]@);
        }
        let ghost pre = grid@;
        let hit = draw_byte(&mut grid[py], row_byte, x0, w);
        if hit {
            collided = true;
        }
        proof {
            assert forall|yy: int| 0 <= yy < h implies #[trigger] grid@[yy]@ == (if 0 <= yy - y0 < r
                + 1 && yy - y0 < sprite_data@.len() {
                row_after(old(grid)@[yy]@, sprite_data@[yy - y0], x0 as int, w as int)
            } else {
                old(grid)@[yy]@
            }) by {
                if yy != py {
                    assert(grid@[yy] == pre[yy]);
                }
            }
            if hit {
                assert(row_collide(
                    old(grid)@[y0 + r as int]@,
                    sprite_data@[r as int],
                    x0 as int,
                    w as int,
                ));
            } else {
                assert forall|rr: int|
                    0 <= rr < r + 1 && rr < sprite_data@.len() && #[trigger] row_collide(
                        old(grid)@[y0 + rr]@,
                        sprite_data@[rr],
                        x0 as int,
                        w as int,
                    ) implies 0 <= rr < r by {
                    if rr == r {
                        assert(false);
                    }
                }
            }
        }
        r = r + 1;
    }
    proof {
        assert forall|yy: int| 0 <= yy < h implies #[trigger] grid@[yy]@ == (if 0 <= yy - y0
            < sprite_data@.len() {
            row_after(old(grid)@[yy]@, sprite_data@[yy - y0], x0 as int, w as int)
        } else {
            old(grid)@[yy]@
        }) by {
            if 0 <= yy - y0 < sprite_data@.len() {
                assert(yy - y0 < h - y0);
            }
        }
        assert forall|rr: int|
            0 <= rr < sprite_data@.len() && y0 + rr < h && #[trigger] row_collide(
                old(grid)@[y0 + rr]@,
                sprite_data@[rr],
                x0 as int,
                w as int,
            ) implies 0 <= rr < r by {
            assert(rr < h - y0);
        }
        assert forall|rr: int|
            0 <= rr < r && rr < sprite_data@.len() && #[trigger] row_collide(
                old(grid)@[y0 + rr]@,
                sprite_data@[rr],
                x0 as int,
                w as int,
            ) implies y0 + rr < h by {}
        assert(collided == exists|rr: int|
            0 <= rr < sprite_data@.len() && y0 + rr < h && #[trigger] row_collide(
                old(grid)@[y0 + rr]@,
                sprite_data@[rr],
                x0 as int,
                w as int,
            ));
    }
    collided
}

impl MachDisplay {
    /// The grid width in pixels.
    pub closed spec fn spec_width(&self) -> int {
        self.width as int
    }

    /// The grid height in pixels.
    pub closed spec fn spec_height(&self) -> int {
        self.height as int
    }

    /// A well-formed display holds `height` rows of `width` pixels each;
    /// the width covers at least the eight columns of one sprite byte, and
    /// both dimensions fit in sixteen bits.
    pub open spec fn wf(&self) -> bool {
        &&& 8 <= self.spec_width() <= 0xFFFF
        &&& 1 <= self.spec_height() <= 0xFFFF
        &&& self@.len() == self.spec_height()
        &&& forall|y: int|
            0 <= y < self.spec_height() ==> #[trigger] self@[y].len() == self.spec_width()
    }

    /// A fresh, cleared grid of `width` by `height` pixels. The width must
    /// cover the eight columns of one sprite byte, and both dimensions must
    /// fit in sixteen bits.
    pub fn new(width: usize, height: usize) -> (d: MachDisplay)
        requires
            8 <= width <= 0xFFFF,
            1 <= height <= 0xFFFF,
        ensures
            d.wf(),
            d.spec_width() == width,
            d.spec_height() == height,
            d@.len() == height,
            forall|y: int| 0 <= y < height ==> #[trigger] d@[y].len() == width,
            forall|y: int, x: int| 0 <= y < height && 0 <= x < width ==> !(#[trigger] d@[y][x]),
    {
        let grid = make_grid(width, height);
        MachDisplay { width, height, grid }
    }

    /// The grid width in pixels.
    pub fn get_width(&self) -> (w: usize)
        ensures
            w == self.spec_width(),
    {
        self.width
    }

    /// The grid height in pixels.
    pub fn get_height(&self) -> (h: usize)
        ensures
            h == self.spec_height(),
    {
        self.height
    }

    /// Reads the pixel at `(x, y)`; an error if the coordinate lies outside
    /// the grid.
    pub fn get_pixel(&self, x: usize, y: usize) -> (r: Result<bool, DisplayErr>)
        requires
            self.wf(),
        ensures
            x < self.spec_width() && y < self.spec_height() ==> r == Result::<
                bool,
                DisplayErr,
            >::Ok(self@[y as int][x as int]),
            !(x < self.spec_width() && y < self.spec_height()) ==> r == Result::<
                bool,
                DisplayErr,
            >::Err(DisplayErr),
    {
        if x >= self.width || y >= self.height {
            return Err(DisplayErr);
        }
        proof {
            assert(self@[y as int].len() == self.spec_width());
            assert(self@[y as int] == self.grid@[y as int]@);
        }
        Ok(self.grid[y][x])
    }

    /// Writes the pixel at `(x, y)`; an error, and no change, if the
    /// coordinate lies outside the grid.
    pub fn set_pixel(&mut self, x: usize, y: usize, val: bool) -> (r: Result<(), DisplayErr>)
        requires
            old(self).wf(),
        ensures
            final(self).wf(),
            final(self).spec_width() == old(self).spec_width(),
            final(self).spec_height() == old(self).spec_height(),
            x < old(self).spec_width() && y < old(self).spec_height() ==> (r matches Ok(_)
                && final(self)@ == old(self)@.update(
                y as int,
                old(self)@[y as int].update(x as int, val),
            )),
            !(x < old(self).spec_width() && y < old(self).spec_height()) ==> r == Result::<
                (),
                DisplayErr,
            >::Err(DisplayErr) && final(self)@ == old(self)@,
    {
        if x >= self.width || y >= self.height {
            return Err(DisplayErr);
        }
        proof {
            assert(old(self)@[y as int].len() == old(self).spec_width());
            assert(old(self)@[y as int] == old(self).grid@[y as int]@);
        }
        self.grid[y].set(x, val);
        proof {
            assert(self@ =~~= old(self)@.update(
                y as int,
                old(self)@[y as int].update(x as int, val),
            ));
        }
        Ok(())
    }

    /// Unsets every pixel.
    pub fn clear_screen(&mut self)
        requires
            old(self).wf(),
        ensures
            final(self).wf(),
            final(self).spec_width() == old(self).spec_width(),
            final(self).spec_height() == old(self).spec_height(),
            final(self)@.len() == old(self)@.len(),
            forall|y: int|
                0 <= y < old(self).spec_height() ==> #[trigger] final(self)@[y].len() == old(
                    self,
                ).spec_width(),
            forall|y: int, x: int|
                0 <= y < old(self).spec_height() && 0 <= x < old(self).spec_width() ==> !(
                #[trigger] final(self)@[y][x]),
    {
        let grid = make_grid(self.width, self.height);
        self.grid = grid;
    }

    /// Draws `sprite_data` with its top-left corner at `(x, y)`, both
    /// coordinates wrapped into the grid, and reports whether any pixel
    /// toggled from set to unset.
    pub fn draw(&mut self, sprite_data: &[u8], x: u8, y: u8) -> (collided: bool)
        requires
            old(self).wf(),
        ensures
            final(self).wf(),
            final(self).spec_width() == old(self).spec_width(),
            final(self).spec_height() == old(self).spec_height(),
            final(self)@ == spec_draw(
                old(self)@,
                sprite_data@,
                old(self).spec_width(),
                old(self).spec_height(),
                (x as int) % old(self).spec_width(),
                (y as int) % old(self).spec_height(),
            ),
            collided == spec_collision(
                old(self)@,
                sprite_data@,
                old(self).spec_width(),
                old(self).spec_height(),
                (x as int) % old(self).spec_width(),
                (y as int) % old(self).spec_height(),
            ),
    {
        let w = self.width;
        let h = self.height;
        let x0 = (x as usize) % w;
        let y0 = (y as usize) % h;
        proof {
            assert(old(self).grid@.len() == h);
            assert forall|yy: int| 0 <= yy < h implies #[trigger] old(self).grid@[yy]@.len()
                == w by {
                assert(old(self)@[yy].len() == w);
                assert(old(self)@[yy] == old(self).grid@[yy]@);
            }
        }
        let collided = draw_grid(&mut self.grid, sprite_data, w, h, x0, y0);
        proof {
            assert(self@ =~~= spec_draw(
                old(self)@,
                sprite_data@,
                w as int,
                h as int,
                x0 as int,
                y0 as int,
            ));
            assert forall|rr: int|
                #![trigger row_collide(old(self)@[y0 + rr], sprite_data@[rr], x0 as int, w as int)]
                #![trigger row_collide(old(self).grid@[y0 + rr]@, sprite_data@[rr], x0 as int, w as int)]
                0 <= rr < sprite_data@.len() && y0 + rr < h implies row_collide(
                old(self)@[y0 + rr],
                sprite_data@[rr],
                x0 as int,
                w as int,
            ) == row_collide(
                old(self).grid@[y0 + rr]@,
                sprite_data@[rr],
                x0 as int,
                w as int,
            ) by {
                assert(old(self)@[y0 + rr] == old(self).grid@[y0 + rr]@);
            }
            assert(collided == spec_collision(
                old(self)@,
                sprite_data@,
                w as int,
                h as int,
                x0 as int,
                y0 as int,
            ));
        }
        collided
    }
}

} // verus!
