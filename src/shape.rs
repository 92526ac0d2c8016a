use vstd::prelude::*;

verus! {

/// Side length of the square window that holds a shape.
pub const SHAPE_SIDE: usize = 4;

/// Inclusive bounding box of the occupied cells of a shape:
/// (leftmost column, top row, rightmost column, bottom row).
#[derive(Clone, Copy, Debug, PartialEq, Eq, Structural)]
pub struct Bounds(pub u32, pub u32, pub u32, pub u32);

/// Mathematical model of a shape: its 4×4 occupancy grid, indexed by row then
/// column, and the number of quarter turns applied so far, modulo 4.
pub ghost struct ShapeModel {
    pub grid: Seq<Seq<bool>>,
    pub alignment: int,
}

impl ShapeModel {
    /// The grid is 4×4 and the alignment lies in 0..4.
    pub open spec fn well_formed(self) -> bool {
        &&& self.grid.len() == 4
        &&& forall|r: int| 0 <= r < 4 ==> #[trigger] self.grid[r].len() == 4
        &&& 0 <= self.alignment < 4
    }

    pub open spec fn occupied(self, r: int, c: int) -> bool {
        self.grid[r][c]
    }

    pub open spec fn row_occupied(self, r: int) -> bool {
        self.occupied(r, 0) || self.occupied(r, 1) || self.occupied(r, 2) || self.occupied(r, 3)
    }

    pub open spec fn col_occupied(self, c: int) -> bool {
        self.occupied(0, c) || self.occupied(1, c) || self.occupied(2, c) || self.occupied(3, c)
    }

    /// At least one cell is occupied.
    pub open spec fn nonempty(self) -> bool {
        self.row_occupied(0) || self.row_occupied(1) || self.row_occupied(2) || self.row_occupied(3)
    }

    /// Topmost row holding an occupied cell.
    pub open spec fn min_row(self) -> int {
        if self.row_occupied(0) { 0 }
        else if self.row_occupied(1) { 1 }
        else if self.row_occupied(2) { 2 }
        else { 3 }
    }

    /// Bottom-most row holding an occupied cell.
    pub open spec fn max_row(self) -> int {
        if self.row_occupied(3) { 3 }
        else if self.row_occupied(2) { 2 }
        else if self.row_occupied(1) { 1 }
        else { 0 }
    }

    /// Leftmost column holding an occupied cell.
    pub open spec fn min_col(self) -> int {
        if self.col_occupied(0) { 0 }
        else if self.col_occupied(1) { 1 }
        else if self.col_occupied(2) { 2 }
        else { 3 }
    }

    /// Rightmost column holding an occupied cell.
    pub open spec fn max_col(self) -> int {
        if self.col_occupied(3) { 3 }
        else if self.col_occupied(2) { 2 }
        else if self.col_occupied(1) { 1 }
        else { 0 }
    }

    /// The bounding box of the occupied cells.
    pub open spec fn bounds(self) -> Bounds {
        Bounds(
            self.min_col() as u32,
            self.min_row() as u32,
            self.max_col() as u32,
            self.max_row() as u32,
        )
    }

    /// The shape after one more turn. The alignment advances modulo 4; at an
    /// even new alignment cell (i, j) takes the old cell (j, i), at an odd one
    /// it takes the old cell (3 - j, 3 - i).
    pub open spec fn rotated(self) -> ShapeModel {
        let a = (self.alignment + 1) % 4;
        ShapeModel {
            grid: Seq::new(
                4,
                |i: int|
                    Seq::new(
                        4,
                        |j: int|
                            if a % 2 == 0 {
                                self.grid[j][i]
                            } else {
                                self.grid[3 - j][3 - i]
                            },
                    ),
            ),
            alignment: a,
        }
    }

    /// The shape after `n` turns.
    pub open spec fn turned(self, n: nat) -> ShapeModel
        decreases n,
    {
        if n == 0 {
            self
        } else {
            self.turned((n - 1) as nat).rotated()
        }
    }
}

/// Four turns in a row give back the same shape: the grid and the alignment
/// both return to where they started.
pub proof fn lemma_four_turns_identity(m: ShapeModel)
    requires
        m.well_formed(),
    ensures
        m.rotated().rotated().rotated().rotated() == m,
        m.turned(4) == m,
{
    let m4 = m.rotated().rotated().rotated().rotated();
    assert(m4.grid =~~= m.grid);
    assert(m.turned(4) == m4) by {
        reveal_with_fuel(ShapeModel::turned, 5);
    }
}

/// A 4×4 occupancy matrix together with the number of turns applied to it.
/// At least one cell is always occupied.
pub struct Shape {
    cells: [[bool; 4]; 4],
    alignment: usize,
}

/// The grid held by a 4×4 array of rows.
pub open spec fn grid_of(cells: [[bool; 4]; 4]) -> Seq<Seq<bool>> {
    Seq::new(4, |r: int| Seq::new(4, |c: int| cells[r][c]))
}

impl View for Shape {
    type V = ShapeModel;

    closed spec fn view(&self) -> ShapeModel {
        ShapeModel { grid: grid_of(self.cells), alignment: self.alignment as int }
    }
}

impl Shape {
    #[verifier::type_invariant]
    spec fn inv(self) -> bool {
        &&& self@.nonempty()
        &&& self.alignment < 4
    }

    /// A shape with the given layout (rows top to bottom) and no turns applied.
    pub(crate) fn from_cells(cells: [[bool; 4]; 4]) -> (r: Shape)
        requires
            (ShapeModel { grid: grid_of(cells), alignment: 0 }).nonempty(),
        ensures
            r@ == (ShapeModel { grid: grid_of(cells), alignment: 0 }),
    {
        Shape { cells, alignment: 0 }
    }

    /// Whether the cell at `row`, `col` of the 4×4 window is occupied.
    pub fn is_occupied(&self, row: usize, col: usize) -> (r: bool)
        requires
            row < 4,
            col < 4,
        ensures
            r == self@.occupied(row as int, col as int),
            self@.well_formed(),
            self@.nonempty(),
    {
        proof { use_type_invariant(self); }
        self.cells[row][col]
    }

    /// Number of quarter turns applied, modulo 4.
    pub fn alignment(&self) -> (r: usize)
        ensures
            r == self@.alignment,
    {
        proof { use_type_invariant(self); }
        self.alignment
    }

    fn row_has_block(&self, row: usize) -> (r: bool)
        requires
            row < 4,
        ensures
            r == self@.row_occupied(row as int),
    {
        self.cells[row][0] || self.cells[row][1] || self.cells[row][2] || self.cells[row][3]
    }

    fn col_has_block(&self, col: usize) -> (r: bool)
        requires
            col < 4,
        ensures
            r == self@.col_occupied(col as int),
    {
        self.cells[0][col] || self.cells[1][col] || self.cells[2][col] || self.cells[3][col]
    }

    /// Turns the shape once: the alignment advances modulo 4 and the grid is
    /// transposed (new alignment even) or reflected through the anti-diagonal
    /// (new alignment odd). Four turns in a row give back the starting grid.
    pub fn rotate(&mut self)
        ensures
            final(self)@ == old(self)@.rotated(),
    {
        proof { use_type_invariant(&*self); }
        let ghost before = self@;
        let turned: usize = (self.alignment + 1) % 4;
        let mut new_cells: [[bool; 4]; 4] = [[false; 4]; 4];
        for i in 0..SHAPE_SIDE
            invariant
                before == self@,
                turned == before.rotated().alignment,
                forall|k: int, j: int|
                    0 <= k < i && 0 <= j < 4 ==> #[trigger] new_cells[k][j]
                        == before.rotated().grid[k][j],
        {
            let mut row: [bool; 4] = [false; 4];
            for j in 0..SHAPE_SIDE
                invariant
                    0 <= i < 4,
                    before == self@,
                    turned == before.rotated().alignment,
                    forall|j2: int| 0 <= j2 < j ==> #[trigger] row[j2]
                        == before.rotated().grid[i as int][j2],
            {
                let v = if turned % 2 == 0 {
                    self.cells[j][i]
                } else {
                    self.cells[3 - j][3 - i]
                };
                row[j] = v;
            }
            new_cells[i] = row;
        }
        proof {
            assert(grid_of(new_cells) =~~= before.rotated().grid);
        }
        *self = Shape { cells: new_cells, alignment: turned };
    }

    /// The inclusive bounding box of the occupied cells.
    pub fn bounds(&self) -> (r: Bounds)
        ensures
            r == self@.bounds(),
            self@.well_formed(),
            self@.nonempty(),
    {
        proof { use_type_invariant(self); }
        let mut top: usize = 0;
        while top < 3 && !self.row_has_block(top)
            invariant
                top <= 3,
                forall|k: int| 0 <= k < top ==> !#[trigger] self@.row_occupied(k),
            decreases 3 - top,
        {
            top += 1;
        }
        let mut bottom: usize = 3;
        while bottom > 0 && !self.row_has_block(bottom)
            invariant
                bottom <= 3,
                forall|k: int| bottom < k < 4 ==> !#[trigger] self@.row_occupied(k),
            decreases bottom,
        {
            bottom -= 1;
        }
        let mut left: usize = 0;
        while left < 3 && !self.col_has_block(left)
            invariant
                left <= 3,
                forall|k: int| 0 <= k < left ==> !#[trigger] self@.col_occupied(k),
            decreases 3 - left,
        {
            left += 1;
        }
        let mut right: usize = 3;
        while right > 0 && !self.col_has_block(right)
            invariant
                right <= 3,
                forall|k: int| right < k < 4 ==> !#[trigger] self@.col_occupied(k),
            decreases right,
        {
            right -= 1;
        }
        Bounds(left as u32, top as u32, right as u32, bottom as u32)
    }
}

} // verus!
