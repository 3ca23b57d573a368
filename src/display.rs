use vstd::prelude::*;

verus! {

pub const WIDTH: usize = 64;

pub const HEIGHT: usize = 32;

/// The built-in glyphs for the hexadecimal digits 0 to F, five rows each,
/// every row in the high nibble of its byte.
pub const SPRITES: [u8; 80] = [
    0xF0, 0x90, 0x90, 0x90, 0xF0, // 0
    0x20, 0x60, 0x20, 0x20, 0x70, // 1
    0xF0, 0x10, 0xF0, 0x80, 0xF0, // 2
    0xF0, 0x10, 0xF0, 0x10, 0xF0, // 3
    0x90, 0x90, 0xF0, 0x10, 0x10, // 4
    0xF0, 0x80, 0xF0, 0x10, 0xF0, // 5
    0xF0, 0x80, 0xF0, 0x90, 0xF0, // 6
    0xF0, 0x10, 0x20, 0x40, 0x40, // 7
    0xF0, 0x90, 0xF0, 0x90, 0xF0, // 8
    0xF0, 0x90, 0xF0, 0x10, 0xF0, // 9
    0xF0, 0x90, 0xF0, 0x90, 0x90, // a
    0xE0, 0x90, 0xE0, 0x90, 0xE0, // b
    0xF0, 0x80, 0x80, 0x80, 0xF0, // c
    0xE0, 0x90, 0x90, 0x90, 0xE0, // d
    0xF0, 0x80, 0xF0, 0x80, 0xF0, // e
    0xF0, 0x80, 0xF0, 0x80, 0x80, // f
];

/// The pixel grid, indexed by row, then column.
pub type Screen = [[bool; WIDTH]; HEIGHT];

/// A grid of `HEIGHT` rows of `WIDTH` pixels each.
pub open spec fn is_grid(g: Seq<Seq<bool>>) -> bool {
    &&& g.len() == HEIGHT
    &&& forall|r: int| 0 <= r < HEIGHT ==> (#[trigger] g[r]).len() == WIDTH
}

/// The grid that a screen array holds.
pub open spec fn screen_view(s: Screen) -> Seq<Seq<bool>> {
    Seq::new(HEIGHT as nat, |r: int| s[r]@)
}

/// The grid with every pixel cleared.
pub open spec fn blank_grid() -> Seq<Seq<bool>> {
    Seq::new(HEIGHT as nat, |r: int| Seq::new(WIDTH as nat, |c: int| false))
}

/// Whether bit `bit` (0 is the most significant) of a sprite row is set.
pub open spec fn row_bit(row: u8, bit: int) -> bool {
    (row >> ((7 - bit) as u8)) & 1u8 == 1u8
}

/// Whether the sprite, drawn with its top left corner at (x, y), has a set
/// bit over the cell in column `c` of row `r`.
pub open spec fn sprite_covers(sprite: Seq<u8>, x: int, y: int, c: int, r: int) -> bool {
    &&& 0 <= r - y < sprite.len()
    &&& 0 <= c - x < 8
    &&& row_bit(sprite[r - y], c - x)
}

/// The grid after drawing the sprite at (x, y): each covered cell is
/// flipped, all others keep their value. Bits that fall outside the grid
/// are dropped.
pub open spec fn blit(g: Seq<Seq<bool>>, sprite: Seq<u8>, x: int, y: int) -> Seq<Seq<bool>> {
    Seq::new(
        g.len(),
        |r: int| Seq::new(g[r].len(), |c: int| g[r][c] != sprite_covers(sprite, x, y, c, r)),
    )
}

/// Whether drawing the sprite at (x, y) clears a pixel that was set.
pub open spec fn collides(g: Seq<Seq<bool>>, sprite: Seq<u8>, x: int, y: int) -> bool {
    exists|r: int, c: int|
        0 <= r < HEIGHT && 0 <= c < WIDTH && #[trigger] g[r][c] && #[trigger] sprite_covers(
            sprite,
            x,
            y,
            c,
            r,
        )
}

pub struct Display {
    screen: Screen,
}

impl View for Display {
    type V = Seq<Seq<bool>>;

    closed spec fn view(&self) -> Seq<Seq<bool>> {
        screen_view(self.screen)
    }
}

impl Display {
    /// The view of every display is a full grid of `HEIGHT` rows of `WIDTH`
    /// pixels.
    pub proof fn lemma_view_is_grid(&self)
        ensures
            is_grid(self@),
    {
    }

    /// A display with every pixel cleared.
    pub fn new() -> (d: Display)
        ensures
            d@ == blank_grid(),
    {
        let d = Display { screen: [[false; WIDTH]; HEIGHT] };
        assert(d@ =~~= blank_grid());
        d
    }

    /// The pixels, for rendering.
    pub fn get_screen(&mut self) -> (s: &Screen)
        ensures
            screen_view(*s) == old(self)@,
            final(self)@ == old(self)@,
    {
        &self.screen
    }

    /// Draws the sprite, one byte per row and most significant bit first,
    /// with its top left corner at (x, y), flipping each covered pixel.
    /// Returns whether some pixel went from set to cleared.
    pub fn draw_sprite(&mut self, sprite: &[u8], x: usize, y: usize) -> (flipped: bool)
        ensures
            final(self)@ == blit(old(self)@, sprite@, x as int, y as int),
            flipped == collides(old(self)@, sprite@, x as int, y as int),
    {
        let ghost g0 = self@;
        let mut flipped = false;
        let mut i: usize = 0;
        while i < sprite.len()
            invariant
                0 <= i <= sprite.len(),
                g0 == old(self)@,
                forall|r: int, c: int|
                    #![trigger self.screen[r][c]]
                    0 <= r < HEIGHT && 0 <= c < WIDTH ==> self.screen[r][c] == (g0[r][c] != (
                    r - y < i && sprite_covers(sprite@, x as int, y as int, c, r))),
                flipped <==> exists|r: int, c: int|
                    0 <= r < HEIGHT && 0 <= c < WIDTH && r - y < i && #[trigger] g0[r][c]
                        && #[trigger] sprite_covers(sprite@, x as int, y as int, c, r),
            decreases sprite.len() - i,
        {
            let row = sprite[i];
            let mut j: usize = 0;
            while j < 8
                invariant
                    0 <= i < sprite.len(),
                    0 <= j <= 8,
                    row == sprite@[i as int],
                    g0 == old(self)@,
                    forall|r: int, c: int|
                        #![trigger self.screen[r][c]]
                        0 <= r < HEIGHT && 0 <= c < WIDTH ==> self.screen[r][c] == (g0[r][c] != ((
                        r - y < i || (r - y == i && c - x < j)) && sprite_covers(
                            sprite@,
                            x as int,
                            y as int,
                            c,
                            r,
                        ))),
                    flipped <==> exists|r: int, c: int|
                        0 <= r < HEIGHT && 0 <= c < WIDTH && (r - y < i || (r - y == i && c - x
                            < j)) && #[trigger] g0[r][c] && #[trigger] sprite_covers(
                            sprite@,
                            x as int,
                            y as int,
                            c,
                            r,
                        ),
                decreases 8 - j,
            {
                if y < HEIGHT && i < HEIGHT && x < WIDTH && !self.coords_out_of_bounds(x + j, y + i) {
                    let ry = y + i;
                    let cx = x + j;
                    let bit = (row >> ((7 - j) as u8)) & 1 == 1;
                    let current = self.screen[ry][cx];
                    assert(current == g0[ry as int][cx as int]);
                    assert(bit == sprite_covers(sprite@, x as int, y as int, cx as int, ry as int));
                    let mut line = self.screen[ry];
                    line[cx] = current != bit;
                    self.screen[ry] = line;
                    flipped = flipped || (current && bit);
                }
                j += 1;
            }
            i += 1;
        }
        assert(self@ =~~= blit(g0, sprite@, x as int, y as int));
        flipped
    }

    /// Clears every pixel.
    pub fn clear(&mut self)
        ensures
            final(self)@ == blank_grid(),
    {
        self.screen = [[false; WIDTH]; HEIGHT];
        assert(self@ =~~= blank_grid());
    }

    fn coords_out_of_bounds(&self, x: usize, y: usize) -> (r: bool)
        ensures
            r == (y >= HEIGHT || x >= WIDTH),
    {
        y >= HEIGHT || x >= WIDTH
    }
}

} // verus!
