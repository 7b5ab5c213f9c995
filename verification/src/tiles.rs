//! Tile scheduling.
//!
//! An image is partitioned into rectangular tiles, each rendered as one
//! independent unit of work. Workers claim tile indices from a shared
//! monotonically increasing cursor; this module computes, for each claimed
//! index, the tile it denotes, and proves the partition exact: every pixel
//! of the image belongs to exactly one tile. It also places a completed
//! tile's buffer into the image buffer.

use crate::span::Span;
use vstd::arithmetic::div_mod::{
    lemma_div_is_ordered_by_denominator, lemma_fundamental_div_mod,
    lemma_fundamental_div_mod_converse, lemma_mod_bound, lemma_multiply_divide_lt,
};
use vstd::arithmetic::mul::{
    lemma_mul_inequality, lemma_mul_is_commutative, lemma_mul_is_distributive_add,
    lemma_mul_is_distributive_add_other_way, lemma_mul_upper_bound,
};
use vstd::prelude::*;

verus! {

/// Ceiling division: how many bands of size `b` cover `a`.
pub open spec fn div_up(a: int, b: int) -> int {
    if a == 0 {
        0
    } else {
        (a - 1) / b + 1
    }
}

/// The defining properties of `div_up`: the bands cover `a`, and one band
/// fewer does not.
proof fn lemma_div_up(a: int, b: int)
    requires
        0 <= a,
        1 <= b,
    ensures
        a <= div_up(a, b) * b,
        (div_up(a, b) - 1) * b < a,
        0 <= div_up(a, b) <= a,
        a > 0 ==> 1 <= div_up(a, b),
{
    if a > 0 {
        let q = (a - 1) / b;
        lemma_fundamental_div_mod(a - 1, b);
        lemma_mod_bound(a - 1, b);
        lemma_mul_is_distributive_add(b, q, 1);
        lemma_mul_is_commutative(b, q + 1);
        lemma_mul_is_commutative(b, q);
        lemma_div_is_ordered_by_denominator(a - 1, 1, b);
    }
}

/// One rectangular work unit: a span of pixel rows and a span of pixel
/// columns.
#[derive(Clone, Copy, Debug, PartialEq, Eq, Structural)]
pub struct Tile {
    /// The rows `[start, end)` of the image the tile covers.
    pub rows: Span,
    /// The columns `[start, end)` of the image the tile covers.
    pub cols: Span,
}

impl Tile {
    /// Both spans read as non-empty half-open intervals.
    pub open spec fn wf(&self) -> bool {
        self.rows.start < self.rows.end && self.cols.start < self.cols.end
    }

    /// Whether the pixel in row `r`, column `c` lies in the tile.
    pub open spec fn spec_contains(&self, r: int, c: int) -> bool {
        self.rows.start <= r < self.rows.end && self.cols.start <= c < self.cols.end
    }

    /// The tile's height in pixels.
    pub open spec fn spec_height(&self) -> int {
        self.rows.end - self.rows.start
    }

    /// The tile's width in pixels.
    pub open spec fn spec_width(&self) -> int {
        self.cols.end - self.cols.start
    }

    /// Checks whether the pixel in row `r`, column `c` lies in the tile.
    pub fn contains(&self, r: usize, c: usize) -> (b: bool)
        ensures
            b == self.spec_contains(r as int, c as int),
    {
        self.rows.start <= r && r < self.rows.end && self.cols.start <= c && c < self.cols.end
    }

    /// The tile's height in pixels.
    pub fn height(&self) -> (h: usize)
        requires
            self.rows.start <= self.rows.end,
        ensures
            h == self.spec_height(),
    {
        self.rows.end - self.rows.start
    }

    /// The tile's width in pixels.
    pub fn width(&self) -> (w: usize)
        requires
            self.cols.start <= self.cols.end,
        ensures
            w == self.spec_width(),
    {
        self.cols.end - self.cols.start
    }
}

/// The partition of an image into tiles of a fixed nominal size; tiles at
/// the bottom and right edges are clipped to the image.
#[derive(Clone, Copy, Debug, PartialEq, Eq, Structural)]
pub struct TileGrid {
    /// Image height in pixels.
    pub rows: usize,
    /// Image width in pixels.
    pub cols: usize,
    /// Nominal tile height in pixels.
    pub tile_rows: usize,
    /// Nominal tile width in pixels.
    pub tile_cols: usize,
}

impl TileGrid {
    /// Tiles are non-empty and the image's pixel count is addressable.
    pub open spec fn wf(&self) -> bool {
        1 <= self.tile_rows && 1 <= self.tile_cols && self.rows * self.cols <= usize::MAX
    }

    /// How many bands of tiles cover the image's rows.
    pub open spec fn spec_bands_down(&self) -> int {
        div_up(self.rows as int, self.tile_rows as int)
    }

    /// How many bands of tiles cover the image's columns.
    pub open spec fn spec_bands_across(&self) -> int {
        div_up(self.cols as int, self.tile_cols as int)
    }

    /// The total number of tiles.
    pub open spec fn spec_tile_count(&self) -> int {
        self.spec_bands_down() * self.spec_bands_across()
    }

    /// The first image row of the tile at `index`.
    pub open spec fn tile_top(&self, index: int) -> int {
        (index / self.spec_bands_across()) * self.tile_rows
    }

    /// The first image column of the tile at `index`.
    pub open spec fn tile_left(&self, index: int) -> int {
        (index % self.spec_bands_across()) * self.tile_cols
    }

    /// The height of the tile at `index`: the nominal height, clipped at
    /// the image's bottom edge.
    pub open spec fn tile_height(&self, index: int) -> int {
        if self.tile_rows <= self.rows - self.tile_top(index) {
            self.tile_rows as int
        } else {
            self.rows - self.tile_top(index)
        }
    }

    /// The width of the tile at `index`: the nominal width, clipped at the
    /// image's right edge.
    pub open spec fn tile_width(&self, index: int) -> int {
        if self.tile_cols <= self.cols - self.tile_left(index) {
            self.tile_cols as int
        } else {
            self.cols - self.tile_left(index)
        }
    }

    /// The tile at `index`.
    pub open spec fn spec_tile(&self, index: int) -> Tile {
        Tile {
            rows: Span {
                start: self.tile_top(index) as usize,
                end: (self.tile_top(index) + self.tile_height(index)) as usize,
            },
            cols: Span {
                start: self.tile_left(index) as usize,
                end: (self.tile_left(index) + self.tile_width(index)) as usize,
            },
        }
    }

    /// Whether the pixel in row `r`, column `c` lies in the tile at
    /// `index`.
    pub open spec fn spec_tile_contains(&self, index: int, r: int, c: int) -> bool {
        &&& self.tile_top(index) <= r < self.tile_top(index) + self.tile_height(index)
        &&& self.tile_left(index) <= c < self.tile_left(index) + self.tile_width(index)
    }

    /// The index of the tile holding the pixel in row `r`, column `c`.
    pub open spec fn spec_tile_index_of(&self, r: int, c: int) -> int {
        (r / self.tile_rows as int) * self.spec_bands_across() + c / self.tile_cols as int
    }

    /// The number of tiles the image is partitioned into.
    pub fn tile_count(&self) -> (n: usize)
        requires
            self.wf(),
        ensures
            n == self.spec_tile_count(),
    {
        proof {
            lemma_div_up(self.rows as int, self.tile_rows as int);
            lemma_div_up(self.cols as int, self.tile_cols as int);
            lemma_mul_upper_bound(
                self.spec_bands_down(),
                self.rows as int,
                self.spec_bands_across(),
                self.cols as int,
            );
        }
        let down = div_up_exec(self.rows, self.tile_rows);
        let across = div_up_exec(self.cols, self.tile_cols);
        down * across
    }
}

impl TileGrid {
    /// Every tile of the partition sits inside the image and is non-empty.
    pub proof fn lemma_tile_in_bounds(&self, index: int)
        requires
            self.wf(),
            0 <= index < self.spec_tile_count(),
        ensures
            0 <= self.tile_top(index),
            self.tile_top(index) + self.tile_height(index) <= self.rows,
            0 <= self.tile_left(index),
            self.tile_left(index) + self.tile_width(index) <= self.cols,
            1 <= self.tile_height(index) <= self.tile_rows,
            1 <= self.tile_width(index) <= self.tile_cols,
            self.spec_tile(index).wf(),
            self.spec_tile(index).rows.end <= self.rows,
            self.spec_tile(index).cols.end <= self.cols,
    {
        let down = self.spec_bands_down();
        let across = self.spec_bands_across();
        lemma_div_up(self.rows as int, self.tile_rows as int);
        lemma_div_up(self.cols as int, self.tile_cols as int);
        assert(1 <= across && 1 <= down) by (nonlinear_arith)
            requires
                0 <= down,
                0 <= across,
                0 <= index < down * across,
        ;
        let band = index / across;
        let cross = index % across;
        lemma_multiply_divide_lt(index, across, down);
        lemma_mod_bound(index, across);
        lemma_mul_inequality(band, down - 1, self.tile_rows as int);
        lemma_mul_inequality(cross, across - 1, self.tile_cols as int);
    }

    /// The tile a claimed index denotes, clipped to the image.
    pub fn tile_at(&self, index: usize) -> (t: Tile)
        requires
            self.wf(),
            index < self.spec_tile_count(),
        ensures
            t == self.spec_tile(index as int),
            t.wf(),
    {
        proof {
            lemma_div_up(self.rows as int, self.tile_rows as int);
            lemma_div_up(self.cols as int, self.tile_cols as int);
            self.lemma_tile_in_bounds(index as int);
        }
        let across = div_up_exec(self.cols, self.tile_cols);
        let band = index / across;
        let cross = index % across;
        let top = band * self.tile_rows;
        let left = cross * self.tile_cols;
        let height = if self.tile_rows <= self.rows - top {
            self.tile_rows
        } else {
            self.rows - top
        };
        let width = if self.tile_cols <= self.cols - left {
            self.tile_cols
        } else {
            self.cols - left
        };
        Tile {
            rows: Span { start: top, end: top + height },
            cols: Span { start: left, end: left + width },
        }
    }

    /// What a worker does with a claimed index: render the tile it denotes,
    /// or stop once the cursor has run past the partition.
    pub fn next_task(&self, index: usize) -> (s: WorkerStep)
        requires
            self.wf(),
        ensures
            index < self.spec_tile_count() ==> s == WorkerStep::Render(
                self.spec_tile(index as int),
            ),
            index >= self.spec_tile_count() ==> s == WorkerStep::Finished,
    {
        let count = self.tile_count();
        if index < count {
            WorkerStep::Render(self.tile_at(index))
        } else {
            WorkerStep::Finished
        }
    }
}

impl TileGrid {
    /// Completeness of the partition, first half: every pixel of the image
    /// lies in the tile whose index `spec_tile_index_of` names, and that
    /// index is one the claim loop hands out.
    pub proof fn lemma_cover_exists(&self, r: int, c: int)
        requires
            self.wf(),
            0 <= r < self.rows,
            0 <= c < self.cols,
        ensures
            0 <= self.spec_tile_index_of(r, c) < self.spec_tile_count(),
            self.spec_tile_contains(self.spec_tile_index_of(r, c), r, c),
    {
        let down = self.spec_bands_down();
        let across = self.spec_bands_across();
        let tr = self.tile_rows as int;
        let tc = self.tile_cols as int;
        lemma_div_up(self.rows as int, tr);
        lemma_div_up(self.cols as int, tc);
        let band = r / tr;
        let cross = c / tc;
        lemma_multiply_divide_lt(r, tr, down);
        lemma_multiply_divide_lt(c, tc, across);
        lemma_fundamental_div_mod(r, tr);
        lemma_fundamental_div_mod(c, tc);
        lemma_mod_bound(r, tr);
        lemma_mod_bound(c, tc);
        let index = band * across + cross;
        lemma_mul_inequality(band, down - 1, across);
        lemma_mul_is_distributive_add(across, down - 1, 1);
        lemma_mul_is_commutative(across, down - 1);
        lemma_mul_is_commutative(across, down);
        lemma_fundamental_div_mod_converse(index, across, band, cross);
        assert(self.tile_top(index) == band * tr) by {
            lemma_mul_is_commutative(band, tr);
        }
        assert(band * tr <= r < band * tr + tr) by {
            lemma_mul_is_commutative(band, tr);
        }
        assert(self.tile_left(index) == cross * tc) by {
            lemma_mul_is_commutative(cross, tc);
        }
        assert(cross * tc <= c < cross * tc + tc) by {
            lemma_mul_is_commutative(cross, tc);
        }
    }

    /// Completeness of the partition, second half: no pixel lies in two
    /// tiles — a tile containing a pixel is the one `spec_tile_index_of`
    /// names.
    pub proof fn lemma_cover_unique(&self, index: int, r: int, c: int)
        requires
            self.wf(),
            0 <= index < self.spec_tile_count(),
            self.spec_tile_contains(index, r, c),
        ensures
            index == self.spec_tile_index_of(r, c),
    {
        let across = self.spec_bands_across();
        let tr = self.tile_rows as int;
        let tc = self.tile_cols as int;
        let band = index / across;
        let cross = index % across;
        self.lemma_tile_in_bounds(index);
        lemma_div_up(self.rows as int, tr);
        lemma_div_up(self.cols as int, tc);
        lemma_mod_bound(index, across);
        lemma_fundamental_div_mod(index, across);
        assert(band * tr <= r < band * tr + tr) by {
            lemma_mul_is_commutative(band, tr);
        }
        lemma_fundamental_div_mod_converse(r, tr, band, r - band * tr);
        assert(cross * tc <= c < cross * tc + tc) by {
            lemma_mul_is_commutative(cross, tc);
        }
        lemma_fundamental_div_mod_converse(c, tc, cross, c - cross * tc);
        assert(index == band * across + cross) by {
            lemma_mul_is_commutative(band, across);
        }
    }
}

/// A worker's next move after claiming a tile index from the shared
/// cursor.
#[derive(Clone, Copy, Debug, PartialEq, Eq, Structural)]
pub enum WorkerStep {
    /// Render this tile and deliver its buffer.
    Render(Tile),
    /// The cursor has run past the partition: exit the claim loop.
    Finished,
}

/// The value the image buffer holds at flat index `k` once a tile has
/// been placed: the tile buffer's entry for positions the tile covers, the
/// original entry elsewhere. The image buffer is row-major with `cols`
/// pixels per row.
pub open spec fn placed_value<T>(tile: Tile, pixels: Seq<T>, orig: Seq<T>, cols: int, k: int) -> T {
    if tile.spec_contains(k / cols, k % cols) {
        pixels[(k / cols - tile.rows.start) * tile.spec_width() + (k % cols - tile.cols.start)]
    } else {
        orig[k]
    }
}

/// The placement loop's progress: entries of rows before `row_limit`, and
/// of the row `row_limit` itself before column `col_limit`, are placed;
/// all others still hold their original value.
spec fn placed_up_to<T>(
    tile: Tile,
    pixels: Seq<T>,
    orig: Seq<T>,
    buf: Seq<T>,
    cols: int,
    row_limit: int,
    col_limit: int,
) -> bool {
    forall|k: int|
        0 <= k < orig.len() ==> buf[k] == (if k / cols < row_limit || (k / cols == row_limit && k
            % cols < col_limit) {
            placed_value(tile, pixels, orig, cols, k)
        } else {
            orig[k]
        })
}

/// Copies a completed tile's row-major pixel buffer into the image buffer.
/// The image buffer is flat and row-major with `cols` pixels per row;
/// exactly the pixels the tile covers are replaced, each by the tile
/// buffer's entry for that position, and every other pixel is untouched.
pub fn place_tile<T: Copy>(buffer: &mut Vec<T>, cols: usize, tile: &Tile, pixels: &Vec<T>)
    requires
        tile.wf(),
        tile.cols.end <= cols,
        tile.rows.end * cols <= old(buffer)@.len(),
        pixels@.len() == tile.spec_height() * tile.spec_width(),
    ensures
        final(buffer)@.len() == old(buffer)@.len(),
        forall|k: int|
            0 <= k < old(buffer)@.len() ==> final(buffer)@[k] == placed_value(
                *tile,
                pixels@,
                old(buffer)@,
                cols as int,
                k,
            ),
{
    let top = tile.rows.start;
    let left = tile.cols.start;
    let height = tile.height();
    let width = tile.width();
    let buffer_len = buffer.len();
    let pixels_len = pixels.len();

    let mut dr: usize = 0;
    while dr < height
        invariant
            tile.wf(),
            tile.cols.end <= cols,
            tile.rows.end * cols <= old(buffer)@.len(),
            pixels@.len() == tile.spec_height() * tile.spec_width(),
            top == tile.rows.start,
            left == tile.cols.start,
            height == tile.spec_height(),
            width == tile.spec_width(),
            dr <= height,
            buffer_len == old(buffer)@.len(),
            pixels_len == pixels@.len(),
            buffer@.len() == old(buffer)@.len(),
            placed_up_to(*tile, pixels@, old(buffer)@, buffer@, cols as int, top + dr, left as int),
        decreases height - dr,
    {
        let mut dc: usize = 0;
        while dc < width
            invariant
                tile.wf(),
                tile.cols.end <= cols,
                tile.rows.end * cols <= old(buffer)@.len(),
                pixels@.len() == tile.spec_height() * tile.spec_width(),
                top == tile.rows.start,
                left == tile.cols.start,
                height == tile.spec_height(),
                width == tile.spec_width(),
                dr < height,
                dc <= width,
                buffer_len == old(buffer)@.len(),
                pixels_len == pixels@.len(),
                buffer@.len() == old(buffer)@.len(),
                placed_up_to(
                    *tile,
                    pixels@,
                    old(buffer)@,
                    buffer@,
                    cols as int,
                    top + dr,
                    left + dc,
                ),
            decreases width - dc,
        {
            proof {
                lemma_mul_inequality(top + dr + 1, tile.rows.end as int, cols as int);
                lemma_mul_is_distributive_add_other_way(cols as int, top + dr, 1);
                lemma_mul_inequality(dr + 1, height as int, width as int);
                lemma_mul_is_distributive_add_other_way(width as int, dr as int, 1);
            }
            let row = top + dr;
            let col = left + dc;
            let idx = row * cols + col;
            let ghost before = buffer@;
            let value = pixels[dr * width + dc];
            buffer[idx] = value;
            proof {
                lemma_fundamental_div_mod_converse(idx as int, cols as int, row as int, col as int);
                assert forall|k: int| 0 <= k < old(buffer)@.len() implies buffer@[k] == (if k
                    / (cols as int) < top + dr || (k / (cols as int) == top + dr && k % (
                cols as int) < left + dc + 1) {
                    placed_value(*tile, pixels@, old(buffer)@, cols as int, k)
                } else {
                    old(buffer)@[k]
                }) by {
                    lemma_fundamental_div_mod(k, cols as int);
                    lemma_mul_is_commutative(cols as int, row as int);
                    if k == idx {
                        assert(k / (cols as int) == row && k % (cols as int) == col);
                        assert(tile.spec_contains(k / (cols as int), k % (cols as int)));
                        assert((k / (cols as int) - tile.rows.start) * tile.spec_width() + (k
                            % (cols as int) - tile.cols.start) == dr * width + dc);
                        assert(buffer@[k] == value);
                    } else {
                        assert(buffer@[k] == before[k]);
                    }
                }
            }
            dc = dc + 1;
        }
        dr = dr + 1;
    }
}

/// Ceiling division: how many bands of size `b` cover `a`.
fn div_up_exec(a: usize, b: usize) -> (r: usize)
    requires
        1 <= b,
    ensures
        r == div_up(a as int, b as int),
{
    if a == 0 {
        0
    } else {
        proof {
            lemma_div_is_ordered_by_denominator(a as int - 1, 1, b as int);
        }
        (a - 1) / b + 1
    }
}

} // verus!
