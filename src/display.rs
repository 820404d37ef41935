//! The 64 x 32 monochrome display: 32 rows of 64 pixels, each row a `u64`
//! whose most significant bit is the leftmost pixel.
use vstd::prelude::*;

verus! {

/// Rows in the display.
pub const ROWS: usize = 32;

/// Pixels in a row.
pub const COLUMNS: u8 = 64;

/// Rows that one sprite may have at most.
pub const MAX_SPRITE_ROWS: usize = 15;

/// The 64-pixel row that a sprite row `byte` covers when its leftmost pixel
/// stands at column `x`: the byte's eight pixels, continuing at column 0
/// past column 63.
pub open spec fn row_mask(byte: u8, x: u8) -> u64 {
    let s: u64 = (byte as u64) << 56u64;
    let k: u64 = (x % COLUMNS) as u64;
    if k == 0 {
        s
    } else {
        (s >> k) | (s << (64 - k) as u64)
    }
}

/// Which row of a sprite drawn from row `y` falls on display row `r`: the
/// sprite continues at row 0 past row 31.
pub open spec fn row_offset(y: u8, r: int) -> int {
    (r - (y % 32) as int) % 32
}

/// The display rows after XOR-ing `sprite` onto `rows` at column `x`, row `y`.
pub open spec fn drawn(rows: Seq<u64>, x: u8, y: u8, sprite: Seq<u8>) -> Seq<u64> {
    Seq::new(
        rows.len(),
        |r: int|
            if row_offset(y, r) < sprite.len() {
                rows[r] ^ row_mask(sprite[row_offset(y, r)], x)
            } else {
                rows[r]
            },
    )
}

/// Whether drawing `sprite` onto `rows` at column `x`, row `y` turns off a
/// pixel that was on: that is, whether some sprite row shares a set pixel
/// with the display row it lands on. (Equivalently, the row's count of set
/// pixels after the XOR falls short of its count before plus the sprite
/// row's count.)
pub open spec fn collides(rows: Seq<u64>, x: u8, y: u8, sprite: Seq<u8>) -> bool {
    exists|i: int|
        0 <= i < sprite.len() && #[trigger] (rows[((y as int) + i) % 32] & row_mask(sprite[i], x))
            != 0
}

/// The display row that sprite row `byte` covers at column `x`.
pub fn sprite_mask(byte: u8, x: u8) -> (r: u64)
    ensures
        r == row_mask(byte, x),
{
    let s: u64 = (byte as u64) << 56u64;
    let k: u64 = (x % COLUMNS) as u64;
    if k == 0 {
        s
    } else {
        (s >> k) | (s << (64 - k))
    }
}

/// Turns every pixel off.
pub fn clear(display: &mut [u64; 32])
    ensures
        final(display)@ == Seq::new(32, |r: int| 0u64),
{
    let mut r: usize = 0;
    while r < ROWS
        invariant
            r <= ROWS,
            forall|j: int| 0 <= j < r ==> display@[j] == 0u64,
        decreases ROWS - r,
    {
        display[r] = 0;
        r = r + 1;
    }
    assert(display@ =~= Seq::new(32, |r: int| 0u64));
}

/// XORs `sprite` onto the display with its top-left pixel at column `x`, row
/// `y`, wrapping at the right and bottom edges. Returns whether a pixel that
/// was on was turned off.
pub fn draw_sprite(display: &mut [u64; 32], x: u8, y: u8, sprite: &[u8]) -> (collision: bool)
    requires
        sprite@.len() <= MAX_SPRITE_ROWS,
    ensures
        final(display)@ == drawn(old(display)@, x, y, sprite@),
        collision == collides(old(display)@, x, y, sprite@),
{
    let ghost before = display@;
    let top: usize = (y % 32) as usize;
    let mut collision = false;
    let mut i: usize = 0;
    while i < sprite.len()
        invariant
            i <= sprite@.len() <= MAX_SPRITE_ROWS,
            top == (y % 32) as usize,
            display@.len() == 32,
            before.len() == 32,
            forall|r: int|
                #![trigger display@[r]]
                0 <= r < 32 ==> display@[r] == if row_offset(y, r) < i {
                    before[r] ^ row_mask(sprite@[row_offset(y, r)], x)
                } else {
                    before[r]
                },
            collision == exists|j: int|
                0 <= j < i && #[trigger] (before[((y as int) + j) % 32] & row_mask(sprite@[j], x))
                    != 0,
        decreases sprite@.len() - i,
    {
        let r: usize = (top + i) % ROWS;
        assert(r as int == ((y as int) + i) % 32);
        assert(row_offset(y, r as int) == i);
        let mask = sprite_mask(sprite[i], x);
        let row = display[r];
        assert(row == before[((y as int) + i) % 32]);
        if row & mask != 0 {
            collision = true;
        }
        assert(collision == exists|j: int|
            0 <= j < i + 1 && #[trigger] (before[((y as int) + j) % 32] & row_mask(sprite@[j], x))
                != 0) by {
            if row & mask != 0 {
                assert(before[((y as int) + i) % 32] & row_mask(sprite@[i as int], x) != 0);
            }
        }
        display[r] = row ^ mask;
        assert forall|q: int| 0 <= q < 32 && q != r implies row_offset(y, q) != i by {}
        i = i + 1;
    }
    assert(display@ =~= drawn(before, x, y, sprite@));
    collision
}

} // verus!
