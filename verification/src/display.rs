//! The display: a monochrome grid of pixels that sprites are drawn onto by
//! exclusive or.
use vstd::prelude::*;

verus! {

/// The number of pixel columns.
pub const WIDTH: usize = 64;

/// The number of pixel rows.
pub const HEIGHT: usize = 32;

/// The pixel grid. `pixels[y][x]` is the pixel in row `y`, column `x`.
pub struct Display {
    pub(crate) pixels: [[bool; 64]; 32],
}

/// Whether bit `column` of `byte` is set, counting from the most significant
/// bit: the leftmost pixel of a sprite row is bit 0.
pub open spec fn bit_at(byte: u8, column: u8) -> bool {
    byte & (0x80u8 >> column) != 0
}

/// Whether the sprite `rows` has a set bit in its row `r`, column `c`.
/// Outside the sprite's eight columns and `rows.len()` rows there is none.
pub open spec fn sprite_bit(rows: Seq<u8>, r: int, c: int) -> bool {
    0 <= r < rows.len() && 0 <= c < 8 && bit_at(rows[r], c as u8)
}

/// Whether the sprite `rows`, drawn at `(x, y)`, has a set bit on the pixel
/// `(px, py)`. The starting coordinate wraps round the grid; the sprite itself
/// does not.
pub open spec fn touches(x: int, y: int, rows: Seq<u8>, px: int, py: int) -> bool {
    sprite_bit(rows, py - y % (HEIGHT as int), px - x % (WIDTH as int))
}

/// Whether `(px, py)` is a pixel of the grid.
pub open spec fn on_grid(px: int, py: int) -> bool {
    0 <= px < WIDTH && 0 <= py < HEIGHT
}

/// Whether `pixels` has the shape of the grid: `HEIGHT` rows of `WIDTH` pixels.
pub open spec fn grid_shaped(pixels: Seq<Seq<bool>>) -> bool {
    &&& pixels.len() == HEIGHT
    &&& forall|py: int| 0 <= py < HEIGHT ==> (#[trigger] pixels[py]).len() == WIDTH
}

/// The grid with every pixel off.
pub open spec fn blank() -> Seq<Seq<bool>> {
    Seq::new(HEIGHT as nat, |py: int| Seq::new(WIDTH as nat, |px: int| false))
}

/// The grid after the sprite `rows` is drawn at `(x, y)`: each pixel under a
/// set bit of the sprite is inverted, every other pixel is kept. Bits that
/// would fall beyond the right or the bottom edge touch no pixel.
pub open spec fn drawn(pixels: Seq<Seq<bool>>, x: int, y: int, rows: Seq<u8>) -> Seq<Seq<bool>> {
    Seq::new(
        HEIGHT as nat,
        |py: int| Seq::new(WIDTH as nat, |px: int| pixels[py][px] != touches(x, y, rows, px, py)),
    )
}

/// Whether `(px, py)` is a lit pixel that the sprite `rows`, drawn at
/// `(x, y)`, turns off.
pub open spec fn erases(pixels: Seq<Seq<bool>>, x: int, y: int, rows: Seq<u8>, px: int, py: int)
    -> bool {
    on_grid(px, py) && pixels[py][px] && touches(x, y, rows, px, py)
}

/// Whether drawing the sprite `rows` at `(x, y)` turns some lit pixel off.
pub open spec fn collides(pixels: Seq<Seq<bool>>, x: int, y: int, rows: Seq<u8>) -> bool {
    exists|px: int, py: int| #[trigger] erases(pixels, x, y, rows, px, py)
}

/// Whether the sprite `rows`, drawn at `(x, y)`, has a set bit on the pixel
/// `(px, py)` of the grid.
pub open spec fn shows_at(x: int, y: int, rows: Seq<u8>, px: int, py: int) -> bool {
    on_grid(px, py) && touches(x, y, rows, px, py)
}

/// Whether the sprite cell in row `r`, column `c` comes before the cell in
/// row `row`, column `column`, going row by row from the top left.
spec fn before_cell(r: int, c: int, row: int, column: int) -> bool {
    r < row || (r == row && c < column)
}

/// Whether bit `column` of `byte` is set, counting from the most significant.
pub fn bit_is_set(byte: u8, column: u8) -> (set: bool)
    requires
        column < 8,
    ensures
        set == bit_at(byte, column),
{
    byte & (0x80u8 >> column) != 0
}

impl Display {
    /// The pixels by row, then by column: `self@[y][x]`.
    pub open(crate) spec fn view(&self) -> Seq<Seq<bool>> {
        Seq::new(HEIGHT as nat, |py: int| self.pixels[py]@)
    }

    /// A display always has the shape of the grid.
    pub proof fn lemma_shape(&self)
        ensures
            grid_shaped(self@),
    {
    }

    /// A display with every pixel off.
    pub fn new() -> (display: Display)
        ensures
            display@ == blank(),
    {
        let display = Display { pixels: [[false; 64]; 32] };
        assert(display@ =~~= blank());
        display
    }

    /// Turns every pixel off.
    pub fn clear(&mut self)
        ensures
            final(self)@ == blank(),
            forall|px: int, py: int| on_grid(px, py) ==> !(#[trigger] final(self)@[py][px]),
    {
        self.pixels = [[false; 64]; 32];
        assert(self@ =~~= blank());
    }

    /// The pixel in column `x`, row `y`: `true` if it is on. `None` if the
    /// grid has no such pixel.
    pub fn pixel(&self, x: usize, y: usize) -> (p: Option<bool>)
        ensures
            on_grid(x as int, y as int) ==> p == Some(self@[y as int][x as int]),
            !on_grid(x as int, y as int) ==> p is None,
    {
        if x < WIDTH && y < HEIGHT {
            Some(self.pixels[y][x])
        } else {
            None
        }
    }

    /// Draws the sprite `rows` with its top left corner at column
    /// `x % WIDTH`, row `y % HEIGHT`. Each byte of `rows` is one row of
    /// eight pixels, the most significant bit leftmost. A set bit inverts the
    /// pixel under it; what reaches past the right or the bottom edge is not
    /// drawn. Returns whether a pixel that was on has been turned off.
    pub fn blit(&mut self, x: usize, y: usize, rows: &[u8]) -> (collision: bool)
        ensures
            final(self)@ == drawn(old(self)@, x as int, y as int, rows@),
            collision == collides(old(self)@, x as int, y as int, rows@),
    {
        let ghost before = self@;
        let ghost xi = x as int;
        let ghost yi = y as int;
        let x0: usize = x % WIDTH;
        let y0: usize = y % HEIGHT;
        let mut collision = false;
        let mut r: usize = 0;
        while r < rows.len() && y0 + r < HEIGHT
            invariant
                before == old(self)@,
                xi == x as int,
                yi == y as int,
                x0 == x % WIDTH,
                y0 == y % HEIGHT,
                r <= rows.len(),
                y0 + r <= HEIGHT,
                forall|px: int, py: int|
                    on_grid(px, py) ==> #[trigger] self@[py][px] == (before[py][px] != (touches(
                        xi,
                        yi,
                        rows@,
                        px,
                        py,
                    ) && before_cell(py - y0, px - x0, r as int, 0))),
                collision <==> exists|px: int, py: int|
                    #[trigger] erases(before, xi, yi, rows@, px, py) && before_cell(
                        py - y0,
                        px - x0,
                        r as int,
                        0,
                    ),
            decreases rows.len() - r,
        {
            let byte: u8 = rows[r];
            let mut c: usize = 0;
            while c < 8 && x0 + c < WIDTH
                invariant
                    before == old(self)@,
                    xi == x as int,
                    yi == y as int,
                    x0 == x % WIDTH,
                    y0 == y % HEIGHT,
                    r < rows.len(),
                    y0 + r < HEIGHT,
                    byte == rows@[r as int],
                    c <= 8,
                    x0 + c <= WIDTH,
                    forall|px: int, py: int|
                        on_grid(px, py) ==> #[trigger] self@[py][px] == (before[py][px] != (
                        touches(xi, yi, rows@, px, py) && before_cell(
                            py - y0,
                            px - x0,
                            r as int,
                            c as int,
                        ))),
                    collision <==> exists|px: int, py: int|
                        #[trigger] erases(before, xi, yi, rows@, px, py) && before_cell(
                            py - y0,
                            px - x0,
                            r as int,
                            c as int,
                        ),
                decreases 8 - c,
            {
                let ghost seen = collision;
                let ghost shown = self@;
                if bit_is_set(byte, c as u8) {
                    let lit: bool = self.pixels[y0 + r][x0 + c];
                    if lit {
                        collision = true;
                    }
                    self.pixels[y0 + r][x0 + c] = !lit;
                }
                proof {
                    let px0 = x0 + c;
                    let py0 = y0 + r;
                    assert(touches(xi, yi, rows@, px0, py0) == bit_at(byte, c as u8));
                    assert(shown[py0][px0] == before[py0][px0]);
                    assert forall|px: int, py: int| on_grid(px, py) implies #[trigger] self@[py][px]
                        == (before[py][px] != (touches(xi, yi, rows@, px, py) && before_cell(
                        py - y0,
                        px - x0,
                        r as int,
                        c + 1,
                    ))) by {
                        assert(shown[py][px] == (before[py][px] != (touches(xi, yi, rows@, px, py)
                            && before_cell(py - y0, px - x0, r as int, c as int))));
                        if py == py0 && px == px0 {
                        } else {
                            assert(self@[py][px] == shown[py][px]);
                        }
                    }
                    if collision {
                        if seen {
                            let (wx, wy) = choose|px: int, py: int|
                                #[trigger] erases(before, xi, yi, rows@, px, py) && before_cell(
                                    py - y0,
                                    px - x0,
                                    r as int,
                                    c as int,
                                );
                            assert(erases(before, xi, yi, rows@, wx, wy) && before_cell(
                                wy - y0,
                                wx - x0,
                                r as int,
                                c + 1,
                            ));
                        } else {
                            assert(erases(before, xi, yi, rows@, px0, py0) && before_cell(
                                py0 - y0,
                                px0 - x0,
                                r as int,
                                c + 1,
                            ));
                        }
                    } else {
                        assert forall|px: int, py: int|
                            !(#[trigger] erases(before, xi, yi, rows@, px, py) && before_cell(
                                py - y0,
                                px - x0,
                                r as int,
                                c + 1,
                            )) by {
                            if erases(before, xi, yi, rows@, px, py) && before_cell(
                                py - y0,
                                px - x0,
                                r as int,
                                c + 1,
                            ) {
                                if py == py0 && px == px0 {
                                } else {
                                    assert(before_cell(py - y0, px - x0, r as int, c as int));
                                }
                            }
                        }
                    }
                }
                c = c + 1;
            }
            proof {
                assert forall|px: int, py: int| on_grid(px, py) implies (touches(
                    xi,
                    yi,
                    rows@,
                    px,
                    py,
                ) && before_cell(py - y0, px - x0, r as int, c as int)) == (touches(
                    xi,
                    yi,
                    rows@,
                    px,
                    py,
                ) && before_cell(py - y0, px - x0, r + 1, 0)) by {}
                if collision {
                    let (wx, wy) = choose|px: int, py: int|
                        #[trigger] erases(before, xi, yi, rows@, px, py) && before_cell(
                            py - y0,
                            px - x0,
                            r as int,
                            c as int,
                        );
                    assert(erases(before, xi, yi, rows@, wx, wy) && before_cell(
                        wy - y0,
                        wx - x0,
                        r + 1,
                        0,
                    ));
                } else {
                    assert forall|px: int, py: int|
                        !(#[trigger] erases(before, xi, yi, rows@, px, py) && before_cell(
                            py - y0,
                            px - x0,
                            r + 1,
                            0,
                        )) by {
                        if erases(before, xi, yi, rows@, px, py) && before_cell(
                            py - y0,
                            px - x0,
                            r + 1,
                            0,
                        ) {
                            assert(before_cell(py - y0, px - x0, r as int, c as int));
                        }
                    }
                }
            }
            r = r + 1;
        }
        proof {
            assert forall|px: int, py: int| on_grid(px, py) implies #[trigger] self@[py][px]
                == drawn(before, xi, yi, rows@)[py][px] by {
                assert(touches(xi, yi, rows@, px, py) ==> before_cell(py - y0, px - x0, r as int, 0));
            }
            assert(self@ =~~= drawn(before, xi, yi, rows@));
            if collision {
                let (wx, wy) = choose|px: int, py: int|
                    #[trigger] erases(before, xi, yi, rows@, px, py) && before_cell(
                        py - y0,
                        px - x0,
                        r as int,
                        0,
                    );
                assert(erases(before, xi, yi, rows@, wx, wy));
            } else {
                assert forall|px: int, py: int| !#[trigger] erases(
                    before,
                    xi,
                    yi,
                    rows@,
                    px,
                    py,
                ) by {
                    if erases(before, xi, yi, rows@, px, py) {
                        assert(before_cell(py - y0, px - x0, r as int, 0));
                    }
                }
            }
        }
        collision
    }
}

/// Drawing a sprite a second time at the same place undoes the first draw:
/// the grid is again what it was.
pub proof fn lemma_draw_twice_restores(pixels: Seq<Seq<bool>>, x: int, y: int, rows: Seq<u8>)
    requires
        grid_shaped(pixels),
    ensures
        drawn(drawn(pixels, x, y, rows), x, y, rows) == pixels,
{
    let once = drawn(pixels, x, y, rows);
    let twice = drawn(once, x, y, rows);
    assert forall|py: int| 0 <= py < HEIGHT implies #[trigger] twice[py] == pixels[py] by {
        assert forall|px: int| 0 <= px < WIDTH implies #[trigger] twice[py][px] == pixels[py][px] by {
            assert(once[py][px] == (pixels[py][px] != touches(x, y, rows, px, py)));
        }
        assert(twice[py] =~= pixels[py]);
    }
    assert(twice =~= pixels);
}

/// The second of two equal draws reports a collision exactly when the sprite
/// shows on some pixel that was off before the first: the first draw lit it,
/// the second turns it off.
pub proof fn lemma_second_draw_collides(pixels: Seq<Seq<bool>>, x: int, y: int, rows: Seq<u8>)
    requires
        grid_shaped(pixels),
    ensures
        collides(drawn(pixels, x, y, rows), x, y, rows) <==> exists|px: int, py: int|
            #[trigger] shows_at(x, y, rows, px, py) && !pixels[py][px],
{
    let once = drawn(pixels, x, y, rows);
    if collides(once, x, y, rows) {
        let (wx, wy) = choose|px: int, py: int| #[trigger] erases(once, x, y, rows, px, py);
        assert(once[wy][wx] == (pixels[wy][wx] != touches(x, y, rows, wx, wy)));
        assert(shows_at(x, y, rows, wx, wy) && !pixels[wy][wx]);
    }
    if exists|px: int, py: int| #[trigger] shows_at(x, y, rows, px, py) && !pixels[py][px] {
        let (wx, wy) = choose|px: int, py: int|
            #[trigger] shows_at(x, y, rows, px, py) && !pixels[py][px];
        assert(once[wy][wx] == (pixels[wy][wx] != touches(x, y, rows, wx, wy)));
        assert(erases(once, x, y, rows, wx, wy));
    }
}

/// On a blank grid, a sprite that shows on at least one pixel cancels itself
/// when drawn twice at the same place: the first draw erases nothing, the
/// second reports a collision and leaves every pixel off.
pub proof fn lemma_draw_twice_on_blank(x: int, y: int, rows: Seq<u8>)
    requires
        exists|px: int, py: int| #[trigger] shows_at(x, y, rows, px, py),
    ensures
        !collides(blank(), x, y, rows),
        collides(drawn(blank(), x, y, rows), x, y, rows),
        drawn(drawn(blank(), x, y, rows), x, y, rows) == blank(),
{
    lemma_draw_twice_restores(blank(), x, y, rows);
    lemma_second_draw_collides(blank(), x, y, rows);
    let (wx, wy) = choose|px: int, py: int| #[trigger] shows_at(x, y, rows, px, py);
    assert(shows_at(x, y, rows, wx, wy) && !blank()[wy][wx]);
    assert forall|px: int, py: int| !#[trigger] erases(blank(), x, y, rows, px, py) by {
        if on_grid(px, py) {
            assert(!blank()[py][px]);
        }
    }
}

} // verus!
