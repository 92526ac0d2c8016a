//! Game-state engine of a falling-block puzzle: tetromino shapes and their
//! rotation, the playing field with its collision and lock-in rules, and the
//! fixed-interval gravity driver.

pub mod field;
pub mod game;
pub mod piece;
pub mod shape;

pub use field::{border_cells, Direction, PlayingField, FIELD_HEIGHT, FIELD_WIDTH, PIXEL_SIZE};
pub use game::{Game, DEFAULT_TICK_MS};
pub use piece::{make_random_piece, Color, Piece, PieceKind, KIND_COUNT};
pub use shape::{Bounds, Shape, ShapeModel};
