use vstd::prelude::*;

verus! {

/// Width of the display, in pixels.
pub const WIDTH: usize = 64;

/// Height of the display, in pixels.
pub const HEIGHT: usize = 32;

/// The 64x32 monochrome pixel grid that sprites are drawn on.
///
/// Its view is the grid as 32 rows of 64 pixels each, `true` for a lit pixel.
pub struct Framebuffer {
    rows: [[bool; WIDTH]; HEIGHT],
}

/// A well-formed grid: `HEIGHT` rows of `WIDTH` pixels.
pub open spec fn is_grid(g: Seq<Seq<bool>>) -> bool {
    &&& g.len() == HEIGHT
    &&& forall|r: int| 0 <= r < HEIGHT ==> #[trigger] g[r].len() == WIDTH
}

/// The grid with every pixel off.
pub open spec fn blank_grid() -> Seq<Seq<bool>> {
    Seq::new(HEIGHT as nat, |r: int| Seq::new(WIDTH as nat, |c: int| false))
}

/// Whether the sprite `sprite` (one byte per row, most significant bit at the
/// left) has its bit set at column `dx`, row `dy` of its own 8-pixel-wide box.
pub open spec fn sprite_bit(sprite: Seq<u8>, dx: int, dy: int) -> bool {
    &&& 0 <= dy < sprite.len()
    &&& 0 <= dx < 8
    &&& sprite[dy] & (0x80u8 >> (dx as u8)) != 0
}

/// Whether drawing `sprite` with its top-left corner at (`x`, `y`) flips the
/// pixel at column `c`, row `r`.
pub open spec fn flips(sprite: Seq<u8>, x: int, y: int, c: int, r: int) -> bool {
    sprite_bit(sprite, c - x, r - y)
}

/// The grid after drawing `sprite` at (`x`, `y`): every pixel the sprite
/// covers is XORed with the sprite's bit; parts of the sprite that fall
/// beyond the right or bottom edge are not drawn.
pub open spec fn xor_sprite(g: Seq<Seq<bool>>, sprite: Seq<u8>, x: int, y: int) -> Seq<Seq<bool>> {
    Seq::new(
        HEIGHT as nat,
        |r: int| Seq::new(WIDTH as nat, |c: int| g[r][c] != flips(sprite, x, y, c, r)),
    )
}

/// Whether drawing `sprite` at (`x`, `y`) turns off a pixel that was lit.
pub open spec fn collides(g: Seq<Seq<bool>>, sprite: Seq<u8>, x: int, y: int) -> bool {
    exists|r: int, c: int|
        0 <= r < HEIGHT && 0 <= c < WIDTH && g[r][c] && #[trigger] flips(sprite, x, y, c, r)
}

/// Whether drawing `sprite` at (`x`, `y`) lights a pixel that was off.
pub open spec fn lights(g: Seq<Seq<bool>>, sprite: Seq<u8>, x: int, y: int) -> bool {
    exists|r: int, c: int|
        0 <= r < HEIGHT && 0 <= c < WIDTH && !g[r][c] && #[trigger] flips(sprite, x, y, c, r)
}

/// Drawing a sprite twice at the same place restores every pixel, and the
/// second draw reports a collision exactly when the first one lit a pixel.
pub proof fn lemma_draw_twice(g: Seq<Seq<bool>>, sprite: Seq<u8>, x: int, y: int)
    requires
        is_grid(g),
    ensures
        xor_sprite(xor_sprite(g, sprite, x, y), sprite, x, y) == g,
        collides(xor_sprite(g, sprite, x, y), sprite, x, y) == lights(g, sprite, x, y),
{
    let once = xor_sprite(g, sprite, x, y);
    assert(xor_sprite(once, sprite, x, y) =~~= g);
    if collides(once, sprite, x, y) {
        let (r, c) = choose|r: int, c: int|
            0 <= r < HEIGHT && 0 <= c < WIDTH && once[r][c] && #[trigger] flips(sprite, x, y, c, r);
        assert(!g[r][c]);
    }
    if lights(g, sprite, x, y) {
        let (r, c) = choose|r: int, c: int|
            0 <= r < HEIGHT && 0 <= c < WIDTH && !g[r][c] && #[trigger] flips(sprite, x, y, c, r);
        assert(once[r][c]);
    }
}

/// The part of the draw done once rows above `dy` and the first `dx` columns
/// of row `dy` of the sprite have been drawn.
spec fn drawn_before(y: int, x: int, dy: int, dx: int, r: int, c: int) -> bool {
    r - y < dy || (r - y == dy && c - x < dx)
}

spec fn partial_xor(
    g: Seq<Seq<bool>>,
    sprite: Seq<u8>,
    x: int,
    y: int,
    dy: int,
    dx: int,
) -> Seq<Seq<bool>> {
    Seq::new(
        HEIGHT as nat,
        |r: int|
            Seq::new(
                WIDTH as nat,
                |c: int| g[r][c] != (flips(sprite, x, y, c, r) && drawn_before(y, x, dy, dx, r, c)),
            ),
    )
}

spec fn partial_collides(
    g: Seq<Seq<bool>>,
    sprite: Seq<u8>,
    x: int,
    y: int,
    dy: int,
    dx: int,
) -> bool {
    exists|r: int, c: int|
        0 <= r < HEIGHT && 0 <= c < WIDTH && g[r][c] && #[trigger] flips(sprite, x, y, c, r)
            && drawn_before(y, x, dy, dx, r, c)
}

impl View for Framebuffer {
    type V = Seq<Seq<bool>>;

    closed spec fn view(&self) -> Seq<Seq<bool>> {
        Seq::new(HEIGHT as nat, |r: int| self.rows@[r]@)
    }
}

impl Framebuffer {
    /// The grid is always 32 rows of 64 pixels.
    pub proof fn lemma_is_grid(&self)
        ensures
            is_grid(self@),
    {
    }

    /// A display with every pixel off.
    pub fn new() -> (r: Framebuffer)
        ensures
            r@ == blank_grid(),
    {
        let r = Framebuffer { rows: [[false; WIDTH]; HEIGHT] };
        assert(r@ =~~= blank_grid());
        r
    }

    /// Whether the pixel at column `x`, row `y` is lit.
    pub fn get_pixel(&self, x: usize, y: usize) -> (r: bool)
        requires
            x < WIDTH,
            y < HEIGHT,
        ensures
            r == self@[y as int][x as int],
    {
        self.rows[y][x]
    }

    /// Lights (`on`) or clears the pixel at column `x`, row `y`.
    pub fn set_pixel(&mut self, x: usize, y: usize, on: bool)
        requires
            x < WIDTH,
            y < HEIGHT,
        ensures
            final(self)@ == old(self)@.update(y as int, old(self)@[y as int].update(x as int, on)),
    {
        let mut row = self.rows[y];
        row[x] = on;
        self.rows[y] = row;
        assert(self@ =~~= old(self)@.update(y as int, old(self)@[y as int].update(x as int, on)));
    }

    /// Turns every pixel off.
    pub fn clear(&mut self)
        ensures
            final(self)@ == blank_grid(),
    {
        self.rows = [[false; WIDTH]; HEIGHT];
        assert(self@ =~~= blank_grid());
    }

    /// XOR-draws `sprite`, one byte per row with the most significant bit at
    /// the left, with its top-left corner at column `x`, row `y`. Whatever
    /// falls beyond the right or bottom edge is left out. Returns whether a
    /// lit pixel was turned off.
    pub fn draw(&mut self, x: u8, y: u8, sprite: &[u8]) -> (collided: bool)
        ensures
            final(self)@ == xor_sprite(old(self)@, sprite@, x as int, y as int),
            collided == collides(old(self)@, sprite@, x as int, y as int),
    {
        let ghost g = self@;
        let ghost s = sprite@;
        let mut collided = false;
        let mut dy: usize = 0;
        assert(self@ =~~= partial_xor(g, s, x as int, y as int, 0, 0));
        while dy < sprite.len()
            invariant
                dy <= sprite.len(),
                sprite@ == s,
                self@ == partial_xor(g, s, x as int, y as int, dy as int, 0),
                collided == partial_collides(g, s, x as int, y as int, dy as int, 0),
            ensures
                dy == sprite.len() || y + dy >= HEIGHT,
            decreases sprite.len() - dy,
        {
            if dy >= HEIGHT || y as usize >= HEIGHT - dy {
                break;
            }
            let r: usize = y as usize + dy;
            let bits = sprite[dy];
            let mut dx: usize = 0;
            while dx < 8
                invariant
                    dy < sprite.len(),
                    r == y + dy,
                    r < HEIGHT,
                    bits == s[dy as int],
                    sprite@ == s,
                    dx <= 8,
                    self@ == partial_xor(g, s, x as int, y as int, dy as int, dx as int),
                    collided == partial_collides(g, s, x as int, y as int, dy as int, dx as int),
                ensures
                    dx == 8 || x + dx >= WIDTH,
                decreases 8 - dx,
            {
                if x as usize + dx >= WIDTH {
                    break;
                }
                let c: usize = x as usize + dx;
                let mask: u8 = 0x80u8 >> (dx as u8);
                if bits & mask != 0 {
                    let lit = self.get_pixel(c, r);
                    if lit {
                        collided = true;
                    }
                    self.set_pixel(c, r, !lit);
                }
                proof {
                    assert(flips(s, x as int, y as int, c as int, r as int) == (bits & mask != 0));
                    assert(self@ =~~= partial_xor(g, s, x as int, y as int, dy as int, dx + 1));
                    if collided {
                        assert(partial_collides(g, s, x as int, y as int, dy as int, dx as int)
                            || flips(s, x as int, y as int, c as int, r as int));
                    }
                }
                dx = dx + 1;
            }
            proof {
                assert(self@ =~~= partial_xor(g, s, x as int, y as int, dy + 1, 0));
            }
            dy = dy + 1;
        }
        assert(self@ =~~= xor_sprite(g, s, x as int, y as int));
        collided
    }
}

} // verus!
