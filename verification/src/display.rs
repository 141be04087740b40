//! The 64 by 32 monochrome framebuffer and the drawing of sprites on it.
//!
//! A sprite is a sequence of bytes, one per row, the most significant bit of
//! a byte being the leftmost pixel. Drawing combines the sprite with the
//! picture by exclusive or; pixels that leave the screen on the right or at
//! the bottom come back on the other side.

use vstd::prelude::*;

verus! {

/// Pixels in a row.
pub const DISPLAY_WIDTH: usize = 64;

/// Rows on the screen.
pub const DISPLAY_HEIGHT: usize = 32;

/// Pixels on the screen.
pub const DISPLAY_PIXELS: usize = 2048;

/// Pixels in a sprite row.
pub const SPRITE_WIDTH: usize = 8;

/// Place of the pixel in column `x` of row `y` in the row-major picture.
pub open spec fn pixel_index(x: int, y: int) -> int {
    y * 64 + x
}

/// Whether the pixel `column` places from the left of a sprite row is set.
pub open spec fn sprite_bit(row: u8, column: u8) -> bool {
    column < 8 && row & (0x80u8 >> column) != 0
}

/// Whether a sprite whose top left corner is at (`ox`, `oy`) has a set pixel
/// at (`px`, `py`). Distances are taken to the right and downwards, around
/// the edges of the screen. A sprite has at most `DISPLAY_HEIGHT` rows, so no
/// two of its pixels fall on the same place.
pub open spec fn sprite_covers(sprite: Seq<u8>, ox: int, oy: int, px: int, py: int) -> bool {
    let dx = (px - ox) % 64;
    let dy = (py - oy) % 32;
    dx < 8 && dy < sprite.len() && sprite_bit(sprite[dy], dx as u8)
}

/// [`sprite_covers`] for the pixel at place `k` of the row-major picture.
pub open spec fn covers_pixel(sprite: Seq<u8>, ox: int, oy: int, k: int) -> bool {
    sprite_covers(sprite, ox, oy, k % 64, k / 64)
}

/// The picture after a sprite is drawn at (`ox`, `oy`): every pixel that the
/// sprite covers is flipped, every other pixel is kept.
pub open spec fn draw_sprite(display: Seq<bool>, sprite: Seq<u8>, ox: int, oy: int) -> Seq<bool> {
    Seq::new(DISPLAY_PIXELS as nat, |k: int| display[k] != covers_pixel(sprite, ox, oy, k))
}

/// Whether drawing the sprite at (`ox`, `oy`) turns off a pixel that was on.
pub open spec fn sprite_collides(display: Seq<bool>, sprite: Seq<u8>, ox: int, oy: int) -> bool {
    exists|k: int|
        0 <= k < DISPLAY_PIXELS && display[k] && #[trigger] covers_pixel(sprite, ox, oy, k)
}

/// The pixel `column` places from the left in row `row` of a sprite drawn at
/// (`ox`, `oy`) lands `column` places right of `ox` and `row` places below
/// `oy`, counted around the edges of the screen.
pub proof fn lemma_sprite_pixel_wraps(sprite: Seq<u8>, ox: int, oy: int, row: int, column: int)
    requires
        0 <= row < sprite.len() <= DISPLAY_HEIGHT,
        0 <= column < SPRITE_WIDTH,
    ensures
        sprite_covers(sprite, ox, oy, (ox + column) % 64, (oy + row) % 32) == sprite_bit(
            sprite[row],
            column as u8,
        ),
{
    let px = (ox + column) % 64;
    let py = (oy + row) % 32;
    assert((px - ox) % 64 == column);
    assert((py - oy) % 32 == row);
}

/// Drawing a sprite twice at the same place gives back the picture.
pub proof fn lemma_draw_twice_restores(display: Seq<bool>, sprite: Seq<u8>, ox: int, oy: int)
    requires
        display.len() == DISPLAY_PIXELS,
    ensures
        draw_sprite(draw_sprite(display, sprite, ox, oy), sprite, ox, oy) == display,
{
    assert(draw_sprite(draw_sprite(display, sprite, ox, oy), sprite, ox, oy) =~= display);
}

/// Drawing a sprite again where it has just turned a pixel on is a
/// collision.
pub proof fn lemma_redraw_collides(
    display: Seq<bool>,
    sprite: Seq<u8>,
    ox: int,
    oy: int,
    k: int,
)
    requires
        display.len() == DISPLAY_PIXELS,
        0 <= k < DISPLAY_PIXELS,
        !display[k],
        covers_pixel(sprite, ox, oy, k),
    ensures
        sprite_collides(draw_sprite(display, sprite, ox, oy), sprite, ox, oy),
{
    assert(draw_sprite(display, sprite, ox, oy)[k]);
}

/// The part of [`covers_pixel`] that the rows above `row` and the pixels
/// left of `column` in row `row` contribute.
spec fn covers_before(sprite: Seq<u8>, ox: int, oy: int, row: int, column: int, k: int) -> bool {
    let dx = (k % 64 - ox) % 64;
    let dy = (k / 64 - oy) % 32;
    covers_pixel(sprite, ox, oy, k) && (dy < row || (dy == row && dx < column))
}

/// The picture when the rows above `row` and the pixels left of `column` in
/// row `row` have been drawn.
spec fn drawn_before(
    display: Seq<bool>,
    sprite: Seq<u8>,
    ox: int,
    oy: int,
    row: int,
    column: int,
) -> Seq<bool> {
    Seq::new(
        DISPLAY_PIXELS as nat,
        |k: int| display[k] != covers_before(sprite, ox, oy, row, column, k),
    )
}

/// Whether a pixel went off when the rows above `row` and the pixels left of
/// `column` in row `row` were drawn.
spec fn collides_before(
    display: Seq<bool>,
    sprite: Seq<u8>,
    ox: int,
    oy: int,
    row: int,
    column: int,
) -> bool {
    exists|k: int|
        0 <= k < DISPLAY_PIXELS && display[k] && #[trigger] covers_before(
            sprite,
            ox,
            oy,
            row,
            column,
            k,
        )
}

/// The pixel that column `column` of sprite row `row` falls on.
spec fn target(ox: int, oy: int, row: int, column: int) -> int {
    pixel_index((ox + column) % 64, (oy + row) % 32)
}

/// A pixel lies at the sprite position (`row`, `column`) exactly when it is
/// the target of that position.
proof fn lemma_target_is_unique(ox: int, oy: int, row: int, column: int, k: int)
    requires
        0 <= row < 32,
        0 <= column < 64,
        0 <= k < DISPLAY_PIXELS,
    ensures
        ((k % 64 - ox) % 64 == column && (k / 64 - oy) % 32 == row) <==> k == target(
            ox,
            oy,
            row,
            column,
        ),
        0 <= target(ox, oy, row, column) < DISPLAY_PIXELS,
{
    let px = (ox + column) % 64;
    let py = (oy + row) % 32;
    assert((px - ox) % 64 == column);
    assert((py - oy) % 32 == row);
    assert((py * 64 + px) % 64 == px && (py * 64 + px) / 64 == py);
    if (k % 64 - ox) % 64 == column && (k / 64 - oy) % 32 == row {
        assert(k % 64 == px);
        assert(k / 64 == py);
    }
}

/// Before the first pixel is drawn the picture is the old one.
proof fn lemma_nothing_drawn(display: Seq<bool>, sprite: Seq<u8>, ox: int, oy: int)
    requires
        display.len() == DISPLAY_PIXELS,
    ensures
        drawn_before(display, sprite, ox, oy, 0, 0) == display,
        !collides_before(display, sprite, ox, oy, 0, 0),
{
    assert(drawn_before(display, sprite, ox, oy, 0, 0) =~= display);
}

/// Drawing the pixel at (`row`, `column`) flips its target if the sprite
/// has the pixel set, and collides if the target was on before any drawing.
proof fn lemma_pixel_drawn(
    display: Seq<bool>,
    sprite: Seq<u8>,
    ox: int,
    oy: int,
    row: int,
    column: int,
)
    requires
        display.len() == DISPLAY_PIXELS,
        0 <= row < sprite.len() <= DISPLAY_HEIGHT,
        0 <= column < SPRITE_WIDTH,
    ensures
        ({
            let here = target(ox, oy, row, column);
            let before = drawn_before(display, sprite, ox, oy, row, column);
            let after = drawn_before(display, sprite, ox, oy, row, column + 1);
            let set = sprite_bit(sprite[row], column as u8);
            &&& 0 <= here < DISPLAY_PIXELS
            &&& before.len() == DISPLAY_PIXELS
            &&& before[here] == display[here]
            &&& after == if set {
                before.update(here, !before[here])
            } else {
                before
            }
            &&& collides_before(display, sprite, ox, oy, row, column + 1) == (collides_before(
                display,
                sprite,
                ox,
                oy,
                row,
                column,
            ) || (set && display[here]))
        }),
{
    let here = target(ox, oy, row, column);
    let before = drawn_before(display, sprite, ox, oy, row, column);
    let after = drawn_before(display, sprite, ox, oy, row, column + 1);
    let set = sprite_bit(sprite[row], column as u8);
    lemma_target_is_unique(ox, oy, row, column, here);
    assert forall|k: int| 0 <= k < DISPLAY_PIXELS implies covers_before(
        sprite,
        ox,
        oy,
        row,
        column + 1,
        k,
    ) == (covers_before(sprite, ox, oy, row, column, k) || (set && k == here)) by {
        lemma_target_is_unique(ox, oy, row, column, k);
    }
    assert(after =~= if set {
        before.update(here, !before[here])
    } else {
        before
    });
    if collides_before(display, sprite, ox, oy, row, column) {
        let k = choose|k: int|
            0 <= k < DISPLAY_PIXELS && display[k] && #[trigger] covers_before(
                sprite,
                ox,
                oy,
                row,
                column,
                k,
            );
        assert(covers_before(sprite, ox, oy, row, column + 1, k));
    }
    if set && display[here] {
        assert(covers_before(sprite, ox, oy, row, column + 1, here));
    }
    if collides_before(display, sprite, ox, oy, row, column + 1) {
        let k = choose|k: int|
            0 <= k < DISPLAY_PIXELS && display[k] && #[trigger] covers_before(
                sprite,
                ox,
                oy,
                row,
                column + 1,
                k,
            );
        if !(set && k == here) {
            assert(covers_before(sprite, ox, oy, row, column, k));
        }
    }
}

/// A row that is drawn to its last pixel is the next row not yet begun.
proof fn lemma_row_drawn(display: Seq<bool>, sprite: Seq<u8>, ox: int, oy: int, row: int)
    ensures
        drawn_before(display, sprite, ox, oy, row, 8) == drawn_before(
            display,
            sprite,
            ox,
            oy,
            row + 1,
            0,
        ),
        collides_before(display, sprite, ox, oy, row, 8) == collides_before(
            display,
            sprite,
            ox,
            oy,
            row + 1,
            0,
        ),
{
    assert forall|k: int|
        covers_before(sprite, ox, oy, row, 8, k) == covers_before(
            sprite,
            ox,
            oy,
            row + 1,
            0,
            k,
        ) by {}
    assert(drawn_before(display, sprite, ox, oy, row, 8) =~= drawn_before(
        display,
        sprite,
        ox,
        oy,
        row + 1,
        0,
    ));
    if collides_before(display, sprite, ox, oy, row, 8) {
        let k = choose|k: int|
            0 <= k < DISPLAY_PIXELS && display[k] && #[trigger] covers_before(
                sprite,
                ox,
                oy,
                row,
                8,
                k,
            );
        assert(covers_before(sprite, ox, oy, row + 1, 0, k));
    }
    if collides_before(display, sprite, ox, oy, row + 1, 0) {
        let k = choose|k: int|
            0 <= k < DISPLAY_PIXELS && display[k] && #[trigger] covers_before(
                sprite,
                ox,
                oy,
                row + 1,
                0,
                k,
            );
        assert(covers_before(sprite, ox, oy, row, 8, k));
    }
}

/// When every row is drawn the sprite is drawn.
proof fn lemma_all_drawn(display: Seq<bool>, sprite: Seq<u8>, ox: int, oy: int)
    ensures
        drawn_before(display, sprite, ox, oy, sprite.len() as int, 0) == draw_sprite(
            display,
            sprite,
            ox,
            oy,
        ),
        collides_before(display, sprite, ox, oy, sprite.len() as int, 0) == sprite_collides(
            display,
            sprite,
            ox,
            oy,
        ),
{
    let rows = sprite.len() as int;
    assert(drawn_before(display, sprite, ox, oy, rows, 0) =~= draw_sprite(
        display,
        sprite,
        ox,
        oy,
    ));
    if collides_before(display, sprite, ox, oy, rows, 0) {
        let k = choose|k: int|
            0 <= k < DISPLAY_PIXELS && display[k] && #[trigger] covers_before(
                sprite,
                ox,
                oy,
                rows,
                0,
                k,
            );
        assert(covers_pixel(sprite, ox, oy, k));
    }
    if sprite_collides(display, sprite, ox, oy) {
        let k = choose|k: int|
            0 <= k < DISPLAY_PIXELS && display[k] && #[trigger] covers_pixel(sprite, ox, oy, k);
        assert(covers_before(sprite, ox, oy, rows, 0, k));
    }
}

/// The screen.
pub struct Framebuffer {
    pixels: [bool; 2048],
}

impl View for Framebuffer {
    type V = Seq<bool>;

    closed spec fn view(&self) -> Seq<bool> {
        self.pixels@
    }
}

impl Framebuffer {
    /// The picture is always `DISPLAY_PIXELS` pixels.
    pub proof fn lemma_size(self)
        ensures
            self@.len() == DISPLAY_PIXELS,
    {
    }

    /// A screen with every pixel off.
    pub fn new() -> (f: Self)
        ensures
            f@ == Seq::new(DISPLAY_PIXELS as nat, |k: int| false),
    {
        Self { pixels: [false; 2048] }
    }

    /// Turns every pixel off.
    pub fn clear(&mut self)
        ensures
            final(self)@ == Seq::new(DISPLAY_PIXELS as nat, |k: int| false),
    {
        self.pixels = [false; 2048];
    }

    /// The state of the pixel in column `x` of row `y`.
    pub fn pixel(&self, x: usize, y: usize) -> (on: bool)
        requires
            x < DISPLAY_WIDTH,
            y < DISPLAY_HEIGHT,
        ensures
            on == self@[pixel_index(x as int, y as int)],
    {
        self.pixels[y * 64 + x]
    }

    /// Draws a sprite with its top left corner at (`ox mod 64`, `oy mod 32`)
    /// and reports whether a pixel went from on to off.
    pub fn draw(&mut self, sprite: &[u8], ox: u8, oy: u8) -> (collision: bool)
        requires
            sprite@.len() <= DISPLAY_HEIGHT,
        ensures
            final(self)@ == draw_sprite(old(self)@, sprite@, ox as int, oy as int),
            collision == sprite_collides(old(self)@, sprite@, ox as int, oy as int),
    {
        let mut collision = false;
        let mut row: usize = 0;
        proof {
            lemma_nothing_drawn(self@, sprite@, ox as int, oy as int);
        }
        while row < sprite.len()
            invariant
                row <= sprite@.len() <= DISPLAY_HEIGHT,
                old(self)@.len() == DISPLAY_PIXELS,
                self@ == drawn_before(old(self)@, sprite@, ox as int, oy as int, row as int, 0),
                collision == collides_before(
                    old(self)@,
                    sprite@,
                    ox as int,
                    oy as int,
                    row as int,
                    0,
                ),
            decreases sprite@.len() - row,
        {
            let bits = sprite[row];
            let py: usize = (oy as usize + row) % 32;
            let mut column: u8 = 0;
            while column < 8
                invariant
                    row < sprite@.len() <= DISPLAY_HEIGHT,
                    column <= 8,
                    bits == sprite@[row as int],
                    py == (oy + row) % 32,
                    old(self)@.len() == DISPLAY_PIXELS,
                    self@ == drawn_before(
                        old(self)@,
                        sprite@,
                        ox as int,
                        oy as int,
                        row as int,
                        column as int,
                    ),
                    collision == collides_before(
                        old(self)@,
                        sprite@,
                        ox as int,
                        oy as int,
                        row as int,
                        column as int,
                    ),
                decreases 8 - column,
            {
                let px: usize = (ox as usize + column as usize) % 64;
                let here: usize = py * 64 + px;
                proof {
                    lemma_pixel_drawn(
                        old(self)@,
                        sprite@,
                        ox as int,
                        oy as int,
                        row as int,
                        column as int,
                    );
                }
                if bits & (0x80u8 >> column) != 0 {
                    if self.pixels[here] {
                        collision = true;
                    }
                    self.pixels[here] = !self.pixels[here];
                }
                column += 1;
            }
            proof {
                lemma_row_drawn(old(self)@, sprite@, ox as int, oy as int, row as int);
            }
            row += 1;
        }
        proof {
            lemma_all_drawn(old(self)@, sprite@, ox as int, oy as int);
        }
        collision
    }
}

} // verus!
