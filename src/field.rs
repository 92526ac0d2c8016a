use crate::piece::{color_of, covers, Color, Piece};
use crate::shape::{Shape, ShapeModel};
use vstd::prelude::*;

verus! {

/// Field width in cells.
pub const FIELD_WIDTH: usize = 10;

/// Field height in cells.
pub const FIELD_HEIGHT: usize = 20;

/// Side of one cell on screen, in pixels.
pub const PIXEL_SIZE: i64 = 16;

/// Direction of a collision test.
#[derive(Clone, Copy, Debug, PartialEq, Eq, Structural)]
pub enum Direction {
    Left,
    Right,
    Bottom,
}

/// Model of the field: 20 rows of 10 cells, each empty or holding a color.
pub type Grid = Seq<Seq<Option<Color>>>;

/// The grid held by an array of rows.
pub open spec fn grid_of_rows(cells: [[Option<Color>; 10]; 20]) -> Grid {
    Seq::new(20, |r: int| Seq::new(10, |c: int| cells[r][c]))
}

/// The grid with every cell empty.
pub open spec fn empty_grid() -> Grid {
    Seq::new(20, |r: int| Seq::new(10, |c: int| None::<Color>))
}

/// The collision verdict for a shape whose window has its top-left cell at
/// (`x`, `y`). Only the shape's lowest occupied row is checked: above the field
/// there is no collision, at or past the floor there is one, and otherwise
/// there is one exactly when an occupied cell of that row lies over a settled
/// block of the field.
pub open spec fn collides(grid: Grid, shape: ShapeModel, x: int, y: int) -> bool {
    let line = y + shape.max_row();
    if line < 0 {
        false
    } else if line >= FIELD_HEIGHT {
        true
    } else {
        exists|c: int|
            0 <= c < 4 && #[trigger] shape.occupied(shape.max_row(), c) && 0 <= x + c < FIELD_WIDTH
                && grid[line][x + c] is Some
    }
}

/// The grid after locking `p` in: each field cell that the piece covers takes
/// the piece's color; every other cell, and every part of the piece outside
/// the field, is left as it was.
pub open spec fn placed(grid: Grid, p: &Piece) -> Grid {
    Seq::new(
        20,
        |r: int|
            Seq::new(
                10,
                |c: int|
                    if covers(p, c, r) {
                        Some(color_of(p.kind))
                    } else {
                        grid[r][c]
                    },
            ),
    )
}

/// The fixed 10×20 playing field, and the screen position of its top-left cell.
pub struct PlayingField {
    base_x: i32,
    base_y: i32,
    cells: [[Option<Color>; 10]; 20],
}

impl View for PlayingField {
    type V = Grid;

    closed spec fn view(&self) -> Grid {
        grid_of_rows(self.cells)
    }
}

impl PlayingField {
    /// An empty field drawn with its top-left cell at screen position (`x`, `y`).
    pub fn new(x: i32, y: i32) -> (r: PlayingField)
        ensures
            r@ == empty_grid(),
            r.base() == (x, y),
    {
        let r = PlayingField { base_x: x, base_y: y, cells: [[None; 10]; 20] };
        proof {
            assert(r@ =~~= empty_grid());
        }
        r
    }

    /// Screen position of the field's top-left cell.
    pub closed spec fn base(&self) -> (i32, i32) {
        (self.base_x, self.base_y)
    }

    /// The content of the cell at `row`, `col`.
    pub fn cell(&self, row: usize, col: usize) -> (r: Option<Color>)
        requires
            row < FIELD_HEIGHT,
            col < FIELD_WIDTH,
        ensures
            r == self@[row as int][col as int],
    {
        self.cells[row][col]
    }

    /// Screen position of the top-left pixel of field cell (`col`, `row`);
    /// cells outside the field (such as the border) are placed on the same grid.
    pub fn block_origin(&self, col: i32, row: i32) -> (r: (i64, i64))
        ensures
            r.0 == self.base().0 + col * PIXEL_SIZE,
            r.1 == self.base().1 + row * PIXEL_SIZE,
    {
        (self.base_x as i64 + col as i64 * PIXEL_SIZE, self.base_y as i64 + row as i64 * PIXEL_SIZE)
    }

    /// The collision verdict for `shape` with its window at (`x`, `y`).
    pub(crate) fn collides_at(&self, shape: &Shape, x: i64, y: i64) -> (r: bool)
        requires
            i32::MIN <= x <= i32::MAX + 1,
            i32::MIN <= y <= i32::MAX + 1,
        ensures
            r == collides(self@, shape@, x as int, y as int),
    {
        let bounds = shape.bounds();
        let line = y + bounds.3 as i64;
        if line < 0 {
            return false;
        }
        if line >= FIELD_HEIGHT as i64 {
            return true;
        }
        let bottom = bounds.3 as usize;
        for c in 0..4usize
            invariant
                0 <= line < FIELD_HEIGHT,
                line == y + shape@.max_row(),
                bottom == shape@.max_row(),
                0 <= bottom < 4,
                i32::MIN <= x <= i32::MAX + 1,
                forall|k: int|
                    0 <= k < c && #[trigger] shape@.occupied(shape@.max_row(), k) && 0 <= x + k < FIELD_WIDTH
                        ==> self@[line as int][x + k] is None,
        {
            let col = x + c as i64;
            if shape.is_occupied(bottom, c) && 0 <= col && col < FIELD_WIDTH as i64 {
                if self.cells[line as usize][col as usize].is_some() {
                    return true;
                }
            }
        }
        false
    }

    /// Whether `piece` may not advance in direction `dir` from where it stands.
    /// Only the downward test is defined; it is applied for every direction.
    pub fn test_collision(&self, piece: &Piece, _dir: Direction) -> (r: bool)
        ensures
            r == collides(self@, piece.shape@, piece.x as int, piece.y as int),
    {
        self.collides_at(&piece.shape, piece.x as i64, piece.y as i64)
    }

    /// Locks `piece` into the field: every occupied cell of the piece that falls
    /// inside the field takes the piece's color; the rest is clipped.
    pub fn place_piece(&mut self, piece: Piece)
        ensures
            final(self)@ == placed(old(self)@, &piece),
            final(self).base() == old(self).base(),
    {
        let color = piece.get_color();
        let ghost before = self.cells;
        for j in 0..4usize
            invariant
                color == color_of(piece.kind),
                self.base() == old(self).base(),
                before == old(self).cells,
                forall|r: int, c: int|
                    0 <= r < 20 && 0 <= c < 10 ==> #[trigger] self.cells[r][c] == if covers(&piece, c, r)
                        && r - piece.y < j {
                        Some(color_of(piece.kind))
                    } else {
                        before[r][c]
                    },
        {
            for i in 0..4usize
                invariant
                    0 <= j < 4,
                    color == color_of(piece.kind),
                    self.base() == old(self).base(),
                    before == old(self).cells,
                    forall|r: int, c: int|
                        0 <= r < 20 && 0 <= c < 10 ==> #[trigger] self.cells[r][c] == if covers(&piece, c, r)
                            && (r - piece.y < j || (r - piece.y == j && c - piece.x < i)) {
                            Some(color_of(piece.kind))
                        } else {
                            before[r][c]
                        },
            {
                let row = piece.y as i64 + j as i64;
                let col = piece.x as i64 + i as i64;
                if piece.shape.is_occupied(j, i) && 0 <= row && row < FIELD_HEIGHT as i64 && 0 <= col
                    && col < FIELD_WIDTH as i64 {
                    self.cells[row as usize][col as usize] = Some(color);
                }
            }
        }
        proof {
            assert(self@ =~~= placed(grid_of_rows(before), &piece));
        }
    }
}

/// The `k`-th cell of the frame drawn round the field: for each row from the
/// top, the cell left of the field then the cell right of it; then the row
/// under the field from column -1 to column 10.
pub open spec fn border_cell(k: int) -> (int, int) {
    if k < 2 * FIELD_HEIGHT {
        if k % 2 == 0 {
            (-1, k / 2)
        } else {
            (FIELD_WIDTH as int, k / 2)
        }
    } else {
        (k - 2 * FIELD_HEIGHT - 1, FIELD_HEIGHT as int)
    }
}

/// Number of cells in the frame round the field.
pub open spec fn border_len() -> int {
    2 * FIELD_HEIGHT + FIELD_WIDTH + 2
}

/// The cells (column, row) of the frame round the field, in drawing order.
pub fn border_cells() -> (r: Vec<(i32, i32)>)
    ensures
        r@.len() == border_len(),
        forall|k: int| 0 <= k < border_len() ==> (#[trigger] r@[k]).0 == border_cell(k).0 && r@[k].1 == border_cell(k).1,
{
    let mut out: Vec<(i32, i32)> = Vec::new();
    let width = FIELD_WIDTH as i32;
    let height = FIELD_HEIGHT as i32;
    for j in 0..height
        invariant
            width == FIELD_WIDTH,
            height == FIELD_HEIGHT,
            out@.len() == 2 * j,
            forall|k: int| 0 <= k < 2 * j ==> (#[trigger] out@[k]).0 == border_cell(k).0 && out@[k].1 == border_cell(k).1,
    {
        out.push((-1, j));
        out.push((width, j));
    }
    for i in -1..width + 1
        invariant
            width == FIELD_WIDTH,
            height == FIELD_HEIGHT,
            out@.len() == 2 * FIELD_HEIGHT + i + 1,
            forall|k: int| 0 <= k < out@.len() ==> (#[trigger] out@[k]).0 == border_cell(k).0 && out@[k].1 == border_cell(k).1,
    {
        out.push((i, height));
    }
    out
}

/// A piece whose lowest occupied row has reached the last row of the field
/// (or passed it) collides one row lower, whatever the field holds.
pub proof fn lemma_floor_collision(grid: Grid, shape: ShapeModel, x: int, y: int)
    requires
        shape.well_formed(),
        y + shape.max_row() >= FIELD_HEIGHT - 1,
    ensures
        collides(grid, shape, x, y + 1),
{
}

/// Inside the field, the collision test finds a collision exactly when a
/// field cell under an occupied cell of the piece's lowest row (same column,
/// same row) is occupied.
pub proof fn lemma_collision_below(grid: Grid, shape: ShapeModel, x: int, y: int)
    requires
        shape.well_formed(),
        0 <= y + shape.max_row() < FIELD_HEIGHT,
    ensures
        collides(grid, shape, x, y) <==> exists|c: int|
            0 <= c < 4 && #[trigger] shape.occupied(shape.max_row(), c) && 0 <= x + c < FIELD_WIDTH
                && grid[y + shape.max_row()][x + c] is Some,
{
}

/// Once a piece that lies across the field's columns and is not wholly above
/// the field is locked in, the collision test for that same piece where it
/// stands finds a collision: the field holds the piece's cells.
pub proof fn lemma_placed_piece_collides(grid: Grid, p: Piece)
    requires
        p.shape@.well_formed(),
        p.shape@.nonempty(),
        p.y + p.shape@.max_row() >= 0,
        p.x + p.shape@.min_col() >= 0,
        p.x + p.shape@.max_col() < FIELD_WIDTH,
    ensures
        collides(placed(grid, &p), p.shape@, p.x as int, p.y as int),
{
    let m = p.shape@;
    let r = m.max_row();
    let line = p.y + r;
    if line < FIELD_HEIGHT {
        let c = if m.occupied(r, 0) {
            0
        } else if m.occupied(r, 1) {
            1
        } else if m.occupied(r, 2) {
            2
        } else {
            3
        };
        assert(m.occupied(r, c));
        assert(m.col_occupied(c));
        assert(covers(&p, p.x + c, line));
        assert(placed(grid, &p)[line][p.x + c] is Some);
    }
}

} // verus!
