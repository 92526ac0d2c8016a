use crate::field::{collides, placed, Grid, PlayingField, FIELD_HEIGHT};
use crate::piece::{initial_model, make_random_piece, Piece};
use vstd::prelude::*;

verus! {

/// Default gravity interval, in milliseconds.
pub const DEFAULT_TICK_MS: u64 = 100;

/// Whether a gravity tick locks `p` in instead of moving it down: the piece
/// collides one row lower, or its lowest occupied row would pass the last row.
pub open spec fn lands(grid: Grid, p: &Piece) -> bool {
    collides(grid, p.shape@, p.x as int, p.y + 1) || p.y + 1 + p.shape@.max_row() > FIELD_HEIGHT - 1
}

/// The piece moved one row down.
pub open spec fn moved_down(p: Piece) -> Piece {
    Piece { y: (p.y + 1) as i32, ..p }
}

/// The accumulated time after adding `ms` to `elapsed`, capped at the largest `u64`.
pub open spec fn accumulated(elapsed: u64, ms: u64) -> int {
    if elapsed + ms > u64::MAX {
        u64::MAX as int
    } else {
        elapsed + ms
    }
}

/// The game state: the field, the falling piece, and the time gathered towards
/// the next gravity tick.
pub struct Game {
    pub field: PlayingField,
    pub piece: Piece,
    pub elapsed_ms: u64,
    pub tick_ms: u64,
}

impl Game {
    /// A game on `field` with `first` falling, ticking every `tick_ms` milliseconds.
    pub fn new(field: PlayingField, first: Piece, tick_ms: u64) -> (r: Game)
        ensures
            r == (Game { field, piece: first, elapsed_ms: 0, tick_ms }),
    {
        Game { field, piece: first, elapsed_ms: 0, tick_ms }
    }

    /// Turns the falling piece at once; no collision check is made.
    pub fn rotate_piece(&mut self)
        ensures
            final(self).piece.shape@ == old(self).piece.shape@.rotated(),
            final(self).piece.kind == old(self).piece.kind,
            final(self).piece.x == old(self).piece.x,
            final(self).piece.y == old(self).piece.y,
            final(self).field == old(self).field,
            final(self).elapsed_ms == old(self).elapsed_ms,
            final(self).tick_ms == old(self).tick_ms,
    {
        self.piece.rotate();
    }

    /// Adds `ms` to the gathered time. When the total exceeds the tick
    /// interval it is reset to zero and a tick is due.
    pub fn accumulate(&mut self, ms: u64) -> (due: bool)
        ensures
            due == (accumulated(old(self).elapsed_ms, ms) > old(self).tick_ms),
            final(self).elapsed_ms == if due { 0 } else { accumulated(old(self).elapsed_ms, ms) },
            final(self).field == old(self).field,
            final(self).piece == old(self).piece,
            final(self).tick_ms == old(self).tick_ms,
    {
        let total = self.elapsed_ms.saturating_add(ms);
        if total > self.tick_ms {
            self.elapsed_ms = 0;
            true
        } else {
            self.elapsed_ms = total;
            false
        }
    }

    /// Whether the next gravity tick locks the falling piece in.
    pub fn lands_next_tick(&self) -> (r: bool)
        ensures
            r == lands(self.field@, &self.piece),
    {
        let bounds = self.piece.shape.bounds();
        let below = self.piece.y as i64 + 1;
        self.field.collides_at(&self.piece.shape, self.piece.x as i64, below)
            || below + bounds.3 as i64 > FIELD_HEIGHT as i64 - 1
    }

    /// Locks the falling piece into the field and puts `next` in its place.
    fn lock_in(&mut self, next: Piece)
        ensures
            final(self).field@ == placed(old(self).field@, &old(self).piece),
            final(self).field.base() == old(self).field.base(),
            final(self).piece == next,
            final(self).elapsed_ms == old(self).elapsed_ms,
            final(self).tick_ms == old(self).tick_ms,
    {
        let mut locked = next;
        std::mem::swap(&mut self.piece, &mut locked);
        self.field.place_piece(locked);
    }

    /// One gravity tick: the piece moves one row down, or, where it lands, it
    /// is locked into the field where it stands and `next` becomes the falling
    /// piece. Returns whether the piece was locked in.
    pub fn gravity_tick(&mut self, next: Piece) -> (locked: bool)
        ensures
            locked == lands(old(self).field@, &old(self).piece),
            locked ==> final(self).field@ == placed(old(self).field@, &old(self).piece)
                && final(self).piece == next,
            !locked ==> final(self).field == old(self).field
                && final(self).piece == moved_down(old(self).piece),
            final(self).field.base() == old(self).field.base(),
            final(self).elapsed_ms == old(self).elapsed_ms,
            final(self).tick_ms == old(self).tick_ms,
    {
        if self.lands_next_tick() {
            self.lock_in(next);
            true
        } else {
            self.piece.y = self.piece.y + 1;
            false
        }
    }

    /// One frame: adds `ms` to the gathered time and, when a tick is due, runs
    /// it; a piece that lands is replaced by a fresh random piece at the spawn
    /// position. Returns whether a piece was locked in.
    pub fn update(&mut self, ms: u64) -> (locked: bool)
        ensures
            ({
                let due = accumulated(old(self).elapsed_ms, ms) > old(self).tick_ms;
                &&& final(self).elapsed_ms == if due { 0 } else { accumulated(old(self).elapsed_ms, ms) }
                &&& locked == (due && lands(old(self).field@, &old(self).piece))
                &&& locked ==> final(self).field@ == placed(old(self).field@, &old(self).piece)
                    && final(self).piece.shape@ == initial_model(final(self).piece.kind)
                    && final(self).piece.x == 0 && final(self).piece.y == 0
                &&& (due && !locked) ==> final(self).field == old(self).field
                    && final(self).piece == moved_down(old(self).piece)
                &&& !due ==> final(self).field == old(self).field && final(self).piece == old(self).piece
            }),
            final(self).field.base() == old(self).field.base(),
            final(self).tick_ms == old(self).tick_ms,
    {
        if !self.accumulate(ms) {
            return false;
        }
        if self.lands_next_tick() {
            let next = make_random_piece();
            self.lock_in(next);
            true
        } else {
            self.piece.y = self.piece.y + 1;
            false
        }
    }
}

} // verus!
