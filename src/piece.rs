use crate::shape::{grid_of, Bounds, Shape, ShapeModel};
use rand::distributions::Distribution;
use vstd::prelude::*;

verus! {

/// The seven tetromino variants.
#[derive(Clone, Copy, Debug, PartialEq, Eq, Structural)]
pub enum PieceKind {
    Long,
    Square,
    Tee,
    Zee,
    InverseZee,
    Jay,
    El,
}

/// A display color as red, green and blue intensities.
#[derive(Clone, Copy, Debug, PartialEq, Eq, Structural)]
pub struct Color {
    pub r: u8,
    pub g: u8,
    pub b: u8,
}

/// Number of piece variants.
pub const KIND_COUNT: u32 = 7;

/// The variant at a position of the fixed order Long, Square, Tee, Zee,
/// InverseZee, Jay, El.
pub open spec fn kind_at(index: int) -> PieceKind {
    if index == 0 {
        PieceKind::Long
    } else if index == 1 {
        PieceKind::Square
    } else if index == 2 {
        PieceKind::Tee
    } else if index == 3 {
        PieceKind::Zee
    } else if index == 4 {
        PieceKind::InverseZee
    } else if index == 5 {
        PieceKind::Jay
    } else {
        PieceKind::El
    }
}

/// The display color of each variant.
pub open spec fn color_of(kind: PieceKind) -> Color {
    match kind {
        PieceKind::Long => Color { r: 0, g: 255, b: 255 },
        PieceKind::Square => Color { r: 255, g: 255, b: 0 },
        PieceKind::Tee => Color { r: 255, g: 0, b: 255 },
        PieceKind::Zee => Color { r: 255, g: 0, b: 0 },
        PieceKind::InverseZee => Color { r: 0, g: 255, b: 0 },
        PieceKind::Jay => Color { r: 0, g: 0, b: 255 },
        PieceKind::El => Color { r: 255, g: 165, b: 0 },
    }
}

/// The fixed starting layout of each variant, rows top to bottom.
pub open spec fn initial_grid(kind: PieceKind) -> Seq<Seq<bool>> {
    match kind {
        PieceKind::Long => seq![
            seq![false, false, false, false],
            seq![true, true, true, true],
            seq![false, false, false, false],
            seq![false, false, false, false],
        ],
        PieceKind::Square => seq![
            seq![false, false, false, false],
            seq![false, true, true, false],
            seq![false, true, true, false],
            seq![false, false, false, false],
        ],
        PieceKind::Tee => seq![
            seq![false, false, false, false],
            seq![false, true, true, true],
            seq![false, false, true, false],
            seq![false, false, false, false],
        ],
        PieceKind::Zee => seq![
            seq![false, false, false, false],
            seq![false, true, true, false],
            seq![false, false, true, true],
            seq![false, false, false, false],
        ],
        PieceKind::InverseZee => seq![
            seq![false, false, false, false],
            seq![false, true, true, false],
            seq![true, true, false, false],
            seq![false, false, false, false],
        ],
        PieceKind::Jay => seq![
            seq![false, false, false, false],
            seq![false, false, true, false],
            seq![false, false, true, false],
            seq![false, true, true, false],
        ],
        PieceKind::El => seq![
            seq![false, false, false, false],
            seq![false, true, false, false],
            seq![false, true, false, false],
            seq![false, true, true, false],
        ],
    }
}

/// The shape of a freshly made piece of the given variant: its layout, no turns.
pub open spec fn initial_model(kind: PieceKind) -> ShapeModel {
    ShapeModel { grid: initial_grid(kind), alignment: 0 }
}

/// A piece in play: its variant, its current shape, and the field position
/// (column `x`, row `y`) of the top-left cell of its 4×4 window.
pub struct Piece {
    pub kind: PieceKind,
    pub shape: Shape,
    pub x: i32,
    pub y: i32,
}

impl PieceKind {
    /// The variant at `index` in the order Long, Square, Tee, Zee, InverseZee,
    /// Jay, El.
    pub fn from_index(index: u32) -> (r: PieceKind)
        requires
            index < KIND_COUNT,
        ensures
            r == kind_at(index as int),
    {
        match index {
            0 => PieceKind::Long,
            1 => PieceKind::Square,
            2 => PieceKind::Tee,
            3 => PieceKind::Zee,
            4 => PieceKind::InverseZee,
            5 => PieceKind::Jay,
            _ => PieceKind::El,
        }
    }

    /// The display color of the variant.
    pub fn color(&self) -> (r: Color)
        ensures
            r == color_of(*self),
    {
        match self {
            PieceKind::Long => Color { r: 0, g: 255, b: 255 },
            PieceKind::Square => Color { r: 255, g: 255, b: 0 },
            PieceKind::Tee => Color { r: 255, g: 0, b: 255 },
            PieceKind::Zee => Color { r: 255, g: 0, b: 0 },
            PieceKind::InverseZee => Color { r: 0, g: 255, b: 0 },
            PieceKind::Jay => Color { r: 0, g: 0, b: 255 },
            PieceKind::El => Color { r: 255, g: 165, b: 0 },
        }
    }

    /// The starting layout of the variant.
    fn layout(&self) -> (r: [[bool; 4]; 4])
        ensures
            grid_of(r) == initial_grid(*self),
    {
        let o = true;
        let e = false;
        let cells = match self {
            PieceKind::Long => [[e, e, e, e], [o, o, o, o], [e, e, e, e], [e, e, e, e]],
            PieceKind::Square => [[e, e, e, e], [e, o, o, e], [e, o, o, e], [e, e, e, e]],
            PieceKind::Tee => [[e, e, e, e], [e, o, o, o], [e, e, o, e], [e, e, e, e]],
            PieceKind::Zee => [[e, e, e, e], [e, o, o, e], [e, e, o, o], [e, e, e, e]],
            PieceKind::InverseZee => [[e, e, e, e], [e, o, o, e], [o, o, e, e], [e, e, e, e]],
            PieceKind::Jay => [[e, e, e, e], [e, e, o, e], [e, e, o, e], [e, o, o, e]],
            PieceKind::El => [[e, e, e, e], [e, o, e, e], [e, o, e, e], [e, o, o, e]],
        };
        proof {
            assert(grid_of(cells) =~~= initial_grid(*self));
        }
        cells
    }
}

impl Piece {
    /// A fresh piece of the given variant: its starting layout, no turns, at
    /// the spawn position (0, 0).
    pub fn new(kind: PieceKind) -> (r: Piece)
        ensures
            r.kind == kind,
            r.shape@ == initial_model(kind),
            r.x == 0,
            r.y == 0,
    {
        let cells = kind.layout();
        Piece { kind, shape: Shape::from_cells(cells), x: 0, y: 0 }
    }

    /// The display color, fixed by the variant.
    pub fn get_color(&self) -> (r: Color)
        ensures
            r == color_of(self.kind),
    {
        self.kind.color()
    }

    /// The piece's current shape.
    pub fn get_shape(&self) -> (r: &Shape)
        ensures
            *r == self.shape,
    {
        &self.shape
    }

    /// The piece's shape, to be turned in place.
    pub fn get_shape_mut(&mut self) -> (r: &mut Shape)
        ensures
            *r == old(self).shape,
            *final(self) == (Piece { shape: *final(r), ..*old(self) }),
    {
        &mut self.shape
    }

    /// The field position (column, row) of the top-left cell of the window.
    pub fn get_position(&self) -> (r: (i32, i32))
        ensures
            r == (self.x, self.y),
    {
        (self.x, self.y)
    }

    /// Moves the window's top-left cell to field position (`x`, `y`).
    pub fn set_position(&mut self, x: i32, y: i32)
        ensures
            *final(self) == (Piece { x, y, ..*old(self) }),
    {
        self.x = x;
        self.y = y;
    }

    /// Turns the piece's shape once; the position is kept.
    pub fn rotate(&mut self)
        ensures
            final(self).shape@ == old(self).shape@.rotated(),
            final(self).kind == old(self).kind,
            final(self).x == old(self).x,
            final(self).y == old(self).y,
    {
        self.shape.rotate();
    }

    /// The field cells (column, row) covered by the piece's occupied cells,
    /// row by row from the top of the window, left to right within a row.
    pub fn field_cells(&self) -> (r: Vec<(i64, i64)>)
        ensures
            forall|k: int| 0 <= k < r@.len() ==> covers(self, #[trigger] r@[k].0 as int, r@[k].1 as int),
            forall|row: int, col: int|
                0 <= row < 4 && 0 <= col < 4 && #[trigger] self.shape@.occupied(row, col)
                    ==> r@.contains(((self.x + col) as i64, (self.y + row) as i64)),
            r@.no_duplicates(),
    {
        let mut out: Vec<(i64, i64)> = Vec::new();
        for j in 0..4usize
            invariant
                forall|k: int| 0 <= k < out@.len() ==> covers(self, #[trigger] out@[k].0 as int, out@[k].1 as int)
                    && window_index(self, out@[k]) < 4 * j,
                forall|row: int, col: int|
                    0 <= row < j && 0 <= col < 4 && #[trigger] self.shape@.occupied(row, col)
                        ==> out@.contains(((self.x + col) as i64, (self.y + row) as i64)),
                out@.no_duplicates(),
        {
            for i in 0..4usize
                invariant
                    0 <= j < 4,
                    forall|k: int| 0 <= k < out@.len() ==> covers(self, #[trigger] out@[k].0 as int, out@[k].1 as int)
                        && window_index(self, out@[k]) < 4 * j + i,
                    forall|row: int, col: int|
                        0 <= row < 4 && 0 <= col < 4 && 4 * row + col < 4 * j + i
                            && #[trigger] self.shape@.occupied(row, col)
                            ==> out@.contains(((self.x + col) as i64, (self.y + row) as i64)),
                    out@.no_duplicates(),
            {
                if self.shape.is_occupied(j, i) {
                    let cell = (self.x as i64 + i as i64, self.y as i64 + j as i64);
                    proof {
                        assert(window_index(self, cell) == 4 * j + i);
                        assert forall|k: int| 0 <= k < out@.len() implies out@[k] != cell by {
                            assert(window_index(self, out@[k]) < 4 * j + i);
                        }
                    }
                    let ghost prev = out@;
                    out.push(cell);
                    proof {
                        assert(out@[out@.len() - 1] == cell);
                        assert forall|row: int, col: int|
                            0 <= row < 4 && 0 <= col < 4 && 4 * row + col < 4 * j + i + 1
                                && #[trigger] self.shape@.occupied(row, col) implies out@.contains(
                            ((self.x + col) as i64, (self.y + row) as i64),
                        ) by {
                            if 4 * row + col == 4 * j + i {
                                assert(row == j && col == i);
                            } else {
                                let e = ((self.x + col) as i64, (self.y + row) as i64);
                                let k = choose|k: int| 0 <= k < prev.len() && prev[k] == e;
                                assert(out@[k] == e);
                            }
                        }
                    }
                }
            }
        }
        out
    }
}

/// Position of a field cell inside the piece's window, counted row by row.
spec fn window_index(p: &Piece, cell: (i64, i64)) -> int {
    4 * (cell.1 - p.y) + (cell.0 - p.x)
}

/// Whether the piece covers field cell (`col`, `row`).
pub open spec fn covers(p: &Piece, col: int, row: int) -> bool {
    let i = col - p.x;
    let j = row - p.y;
    0 <= i < 4 && 0 <= j < 4 && p.shape@.occupied(j, i)
}

/// Relies on rand::thread_rng and rand::distributions::Uniform::new_inclusive:
/// a sample of the closed range [lo, hi] lies in that range; the constructor
/// panics only when lo > hi.
#[verifier::external_body]
fn uniform_inclusive(lo: u32, hi: u32) -> (r: u32)
    requires
        lo <= hi,
    ensures
        lo <= r <= hi,
{
    rand::distributions::Uniform::new_inclusive(lo, hi).sample(&mut rand::thread_rng())
}

/// A fresh piece of a variant drawn uniformly at random.
pub fn make_random_piece() -> (r: Piece)
    ensures
        r.shape@ == initial_model(r.kind),
        r.x == 0,
        r.y == 0,
{
    let index = uniform_inclusive(0, KIND_COUNT - 1);
    Piece::new(PieceKind::from_index(index))
}

/// The bounding box of each variant's starting layout.
pub open spec fn initial_bounds(kind: PieceKind) -> Bounds {
    match kind {
        PieceKind::Long => Bounds(0, 1, 3, 1),
        PieceKind::Square => Bounds(1, 1, 2, 2),
        PieceKind::Tee => Bounds(1, 1, 3, 2),
        PieceKind::Zee => Bounds(1, 1, 3, 2),
        PieceKind::InverseZee => Bounds(0, 1, 2, 2),
        PieceKind::Jay => Bounds(1, 1, 2, 3),
        PieceKind::El => Bounds(1, 1, 2, 3),
    }
}

/// For every variant, the bounding box of the starting shape is the extent of
/// the occupied cells of its fixed layout.
pub proof fn lemma_initial_bounds(kind: PieceKind)
    ensures
        initial_model(kind).well_formed(),
        initial_model(kind).nonempty(),
        initial_model(kind).bounds() == initial_bounds(kind),
{
}

/// The Square's bounding box is the same after any number of turns, starting
/// from any alignment: each turn leaves its grid unchanged.
pub proof fn lemma_square_bounds_fixed(m: ShapeModel, n: nat)
    requires
        m.well_formed(),
        m.grid == initial_grid(PieceKind::Square),
    ensures
        m.turned(n).grid == m.grid,
        m.turned(n).well_formed(),
        m.turned(n).bounds() == initial_bounds(PieceKind::Square),
    decreases n,
{
    if n > 0 {
        lemma_square_bounds_fixed(m, (n - 1) as nat);
        let prev = m.turned((n - 1) as nat);
        assert(prev.rotated().grid =~~= m.grid);
    }
}

} // verus!
