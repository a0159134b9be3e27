use vstd::prelude::*;

verus! {

/// Monochrome 64x32 framebuffer, stored row-major: pixel (x, y) is `buffer[y * 64 + x]`.
pub struct Display {
    pub buffer: [bool; 2048],
}

/// The pixel at column `px`, row `py` of a row-major 64-wide buffer.
pub open spec fn pixel_at(buf: Seq<bool>, px: int, py: int) -> bool {
    buf[py * 64 + px]
}

/// Bit `col` of a sprite row, counting from the most significant bit (column 0) to the
/// least significant one (column 7).
pub open spec fn sprite_bit(row_bits: u8, col: u8) -> bool {
    (row_bits >> ((7 - col) as u8)) & 1u8 == 1u8
}

/// The sprite row that lands on screen row `py` when drawing at `y` (wrapping vertically).
pub open spec fn sprite_row_of(y: u8, py: int) -> int {
    (py - y as int) % 32
}

/// The sprite column that lands on screen column `px` when drawing at `x` (wrapping
/// horizontally).
pub open spec fn sprite_col_of(x: u8, px: int) -> int {
    (px - x as int) % 64
}

/// Whether drawing the first `h` rows of `sprite` at `(x, y)` flips the pixel at buffer
/// position `p`.
pub open spec fn sprite_covers(sprite: Seq<u8>, x: u8, y: u8, h: int, p: int) -> bool {
    let row = sprite_row_of(y, p / 64);
    let col = sprite_col_of(x, p % 64);
    row < h && col < 8 && sprite_bit(sprite[row], col as u8)
}

/// The buffer after XOR-compositing the first `h` rows of `sprite` at `(x, y)`.
pub open spec fn drawn(buf: Seq<bool>, sprite: Seq<u8>, x: u8, y: u8, h: int) -> Seq<bool> {
    Seq::new(2048, |p: int| buf[p] != sprite_covers(sprite, x, y, h, p))
}

/// Whether the set bit at sprite `(row, col)` lands on a lit pixel of `buf`.
pub open spec fn hits_lit(buf: Seq<bool>, sprite: Seq<u8>, x: u8, y: u8, row: int, col: int) -> bool {
    &&& sprite_bit(sprite[row], col as u8)
    &&& pixel_at(buf, (x as int + col) % 64, (y as int + row) % 32)
}

/// Whether drawing the first `h` rows of `sprite` at `(x, y)` turns some lit pixel off.
pub open spec fn collides(buf: Seq<bool>, sprite: Seq<u8>, x: u8, y: u8, h: int) -> bool {
    exists|row: int, col: int| 0 <= row < h && 0 <= col < 8 && hits_lit(buf, sprite, x, y, row, col)
}

/// The number of sprite rows drawn for a requested height: at most fifteen.
pub open spec fn sprite_height(n: usize) -> int {
    if n < 15 { n as int } else { 15 }
}

/// Drawing the same sprite at the same place twice leaves the framebuffer as it was.
pub proof fn draw_twice_restores(buf: Seq<bool>, sprite: Seq<u8>, x: u8, y: u8, h: int)
    requires
        buf.len() == 2048,
    ensures
        drawn(drawn(buf, sprite, x, y, h), sprite, x, y, h) == buf,
{
    assert(drawn(drawn(buf, sprite, x, y, h), sprite, x, y, h) =~= buf);
}

/// Pixels flipped once sprite bits are processed in row-major order up to (not including)
/// the pair numbered `done` (pair `(row, col)` has number `row * 8 + col`).
spec fn covered_so_far(sprite: Seq<u8>, x: u8, y: u8, done: int, p: int) -> bool {
    let row = sprite_row_of(y, p / 64);
    let col = sprite_col_of(x, p % 64);
    col < 8 && row * 8 + col < done && sprite_bit(sprite[row], col as u8)
}

spec fn hit_so_far(buf: Seq<bool>, sprite: Seq<u8>, x: u8, y: u8, done: int) -> bool {
    exists|row: int, col: int|
        0 <= row && 0 <= col < 8 && row * 8 + col < done && hits_lit(buf, sprite, x, y, row, col)
}

/// Buffer position `yp * 64 + xp` lies on screen column `xp` and row `yp`, and on no
/// other position of the screen.
proof fn lemma_position(xp: int, yp: int)
    requires
        0 <= xp < 64,
        0 <= yp < 32,
    ensures
        (yp * 64 + xp) % 64 == xp,
        (yp * 64 + xp) / 64 == yp,
        forall|p: int| 0 <= p < 2048 && p != yp * 64 + xp ==> #[trigger] (p % 64) != xp || p / 64 != yp,
{
    vstd::arithmetic::div_mod::lemma_fundamental_div_mod_converse(yp * 64 + xp, 64, yp, xp);
    assert forall|p: int| 0 <= p < 2048 && p != yp * 64 + xp implies #[trigger] (p % 64) != xp || p / 64 != yp by {
        vstd::arithmetic::div_mod::lemma_fundamental_div_mod(p, 64);
    }
}

proof fn lemma_wrap(base: int, off: int, m: int)
    requires
        0 <= base,
        0 <= off < m,
        m == 32 || m == 64,
    ensures
        (((base + off) % m) - base) % m == off,
{
    vstd::arithmetic::div_mod::lemma_fundamental_div_mod(base + off, m);
    let q = (base + off) / m;
    vstd::arithmetic::div_mod::lemma_mod_multiples_vanish(-q, off, m);
    assert((base + off) % m - base == off - q * m);
    assert(off - q * m == m * (-q) + off) by (nonlinear_arith);
    vstd::arithmetic::div_mod::lemma_small_mod(off as nat, m as nat);
}

impl Display {
    pub fn new() -> (r: Self)
        ensures
            forall|p: int| 0 <= p < 2048 ==> !r.buffer@[p],
    {
        Self { buffer: [false; 2048] }
    }

    /// XOR-draws the first `min(n, 15)` rows of `bytes` (with `sprite == (bytes, n)`) at
    /// `(x, y)`, wrapping around both screen edges. Returns whether a lit pixel went dark.
    pub fn draw(&mut self, x: u8, y: u8, sprite: (&[u8], usize)) -> (collision: bool)
        requires
            sprite_height(sprite.1) <= sprite.0@.len(),
        ensures
            final(self).buffer@ == drawn(old(self).buffer@, sprite.0@, x, y, sprite_height(sprite.1)),
            collision == collides(old(self).buffer@, sprite.0@, x, y, sprite_height(sprite.1)),
    {
        let height: usize = if sprite.1 < 15 { sprite.1 } else { 15 };
        let bytes = sprite.0;
        let ghost start = self.buffer@;
        let mut collision = false;
        let mut row: usize = 0;
        while row < height
            invariant
                height == sprite_height(sprite.1),
                height <= bytes@.len(),
                bytes@ == sprite.0@,
                row <= height,
                start.len() == 2048,
                self.buffer@ =~= Seq::new(2048, |p: int| start[p] != covered_so_far(bytes@, x, y, row * 8, p)),
                collision == hit_so_far(start, bytes@, x, y, row * 8),
            decreases height - row,
        {
            let y_pos = (y as usize + row) % 32;
            let row_bits = bytes[row];
            let mut col: u8 = 0;
            while col < 8
                invariant
                    row < height,
                    height <= 15,
                    height <= bytes@.len(),
                    row_bits == bytes@[row as int],
                    y_pos == (y as int + row) % 32,
                    col <= 8,
                    start.len() == 2048,
                    self.buffer@ =~= Seq::new(
                        2048,
                        |p: int| start[p] != covered_so_far(bytes@, x, y, row * 8 + col, p),
                    ),
                    collision == hit_so_far(start, bytes@, x, y, row * 8 + col),
                decreases 8 - col,
            {
                let x_pos = (x as usize + col as usize) % 64;
                let bit = (row_bits >> (7 - col)) & 1 == 1;
                let pos = y_pos * 64 + x_pos;
                let ghost done = row * 8 + col;
                proof {
                    lemma_position(x_pos as int, y_pos as int);
                    lemma_wrap(y as int, row as int, 32);
                    lemma_wrap(x as int, col as int, 64);
                    assert(sprite_row_of(y, pos as int / 64) == row);
                    assert(sprite_col_of(x, pos as int % 64) == col);
                    assert(self.buffer@[pos as int] == start[pos as int]);
                }
                let lit = self.buffer[pos];
                if bit && lit {
                    collision = true;
                }
                self.buffer[pos] = lit != bit;
                proof {
                    assert(bit == sprite_bit(bytes@[row as int], col));
                    if bit && lit {
                        assert(hits_lit(start, bytes@, x, y, row as int, col as int));
                    }
                    if hit_so_far(start, bytes@, x, y, done + 1) && !(bit && lit) {
                        let (r0, c0) = choose|r0: int, c0: int|
                            0 <= r0 && 0 <= c0 < 8 && r0 * 8 + c0 < done + 1
                                && hits_lit(start, bytes@, x, y, r0, c0);
                        assert(r0 * 8 + c0 != done);
                    }
                }
                col = col + 1;
            }
            row = row + 1;
        }
        proof {
            assert(self.buffer@ =~= drawn(start, bytes@, x, y, height as int));
            if collides(start, bytes@, x, y, height as int) {
                let (r0, c0) = choose|r0: int, c0: int|
                    0 <= r0 < height && 0 <= c0 < 8 && hits_lit(start, bytes@, x, y, r0, c0);
                assert(r0 * 8 + c0 < height * 8);
            }
            if hit_so_far(start, bytes@, x, y, height * 8) {
                let (r0, c0) = choose|r0: int, c0: int|
                    0 <= r0 && 0 <= c0 < 8 && r0 * 8 + c0 < height * 8
                        && hits_lit(start, bytes@, x, y, r0, c0);
                assert(r0 < height);
            }
        }
        collision
    }

    /// The pixel at column `x`, row `y`.
    pub fn get_pixel(&self, x: u8, y: u8) -> (r: bool)
        requires
            x < 64,
            y < 32,
        ensures
            r == pixel_at(self.buffer@, x as int, y as int),
    {
        self.buffer[y as usize * 64 + x as usize]
    }
}

} // verus!
