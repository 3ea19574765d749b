//! Moves of the game and their reflection across the board's vertical axis.
use vstd::prelude::*;

verus! {

/// Number of wall slots along each side of the board (one fewer than squares).
pub const WALL_SLOTS: i8 = 8;

#[derive(Clone, Copy, Debug, PartialEq, Eq)]
pub enum WallDirection {
    Horizontal,
    Vertical,
}

/// A wall slot: the top-left square of the two-by-two block the wall touches.
#[derive(Clone, Copy, Debug, PartialEq, Eq)]
pub struct Position {
    pub row: i8,
    pub col: i8,
}

/// One step of a pawn, relative to its current square.
#[derive(Clone, Copy, Debug, PartialEq, Eq)]
pub enum PawnMove {
    Up,
    Down,
    Left,
    Right,
}

/// A move: a pawn step (with an optional second step when jumping over the
/// other pawn), or a wall placed in a slot.
#[derive(Clone, Copy, Debug, PartialEq, Eq)]
pub enum Move {
    PawnMove(PawnMove, Option<PawnMove>),
    Wall(WallDirection, Position),
}

/// On which side of the vertical axis a move departs from left/right symmetry.
#[derive(Clone, Copy, Debug, PartialEq, Eq)]
pub enum MirrorMoveType {
    Left,
    Right,
    Neutral,
}

/// Lowest wall column whose reflection still fits in an `i8`.
pub const MIN_REFLECTABLE_COL: i8 = -120;

impl Move {
    /// A wall's column can be reflected without leaving the `i8` range. This
    /// is all the reflection needs: whether a move is legal on the board is
    /// for the engine to judge.
    pub open spec fn wf(self) -> bool {
        match self {
            Move::PawnMove(_, _) => true,
            Move::Wall(_, p) => p.col >= MIN_REFLECTABLE_COL,
        }
    }
}

pub open spec fn mirror_step(s: PawnMove) -> PawnMove {
    match s {
        PawnMove::Left => PawnMove::Right,
        PawnMove::Right => PawnMove::Left,
        other => other,
    }
}

/// The move reflected across the vertical axis: left and right steps swap,
/// and a wall slot in column `c` goes to column `WALL_SLOTS - 1 - c`.
pub open spec fn mirror(m: Move) -> Move {
    match m {
        Move::PawnMove(a, None) => Move::PawnMove(mirror_step(a), None),
        Move::PawnMove(a, Some(b)) => Move::PawnMove(mirror_step(a), Some(mirror_step(b))),
        Move::Wall(d, p) => Move::Wall(d, Position { row: p.row, col: (WALL_SLOTS - 1 - p.col) as i8 }),
    }
}

/// Horizontal displacement of one pawn step (right is positive).
pub open spec fn step_dx(s: PawnMove) -> int {
    match s {
        PawnMove::Left => -1,
        PawnMove::Right => 1,
        _ => 0,
    }
}

/// Pawn moves break symmetry by their net sideways displacement; a wall
/// always does, towards the half of the board its slot lies in.
pub open spec fn mirror_type(m: Move) -> MirrorMoveType {
    match m {
        Move::PawnMove(a, second) => {
            let dx = step_dx(a) + match second {
                Some(b) => step_dx(b),
                None => 0,
            };
            if dx < 0 {
                MirrorMoveType::Left
            } else if dx > 0 {
                MirrorMoveType::Right
            } else {
                MirrorMoveType::Neutral
            }
        },
        Move::Wall(_, p) => if 2 * p.col < WALL_SLOTS {
            MirrorMoveType::Left
        } else {
            MirrorMoveType::Right
        },
    }
}

fn mirror_pawn_step(s: PawnMove) -> (r: PawnMove)
    ensures
        r == mirror_step(s),
{
    match s {
        PawnMove::Left => PawnMove::Right,
        PawnMove::Right => PawnMove::Left,
        PawnMove::Up => PawnMove::Up,
        PawnMove::Down => PawnMove::Down,
    }
}

fn pawn_step_dx(s: PawnMove) -> (r: i8)
    ensures
        r as int == step_dx(s),
{
    match s {
        PawnMove::Left => -1,
        PawnMove::Right => 1,
        _ => 0,
    }
}

impl Move {
    /// Whether the move can be reflected (see `wf`).
    pub fn is_well_formed(&self) -> (r: bool)
        ensures
            r == self.wf(),
    {
        match *self {
            Move::PawnMove(_, _) => true,
            Move::Wall(_, p) => p.col >= MIN_REFLECTABLE_COL,
        }
    }

    /// The move as seen from the other side of the board.
    pub fn mirror_move(&self) -> (r: Move)
        requires
            self.wf(),
        ensures
            r == mirror(*self),
            r.wf(),
    {
        match *self {
            Move::PawnMove(a, None) => Move::PawnMove(mirror_pawn_step(a), None),
            Move::PawnMove(a, Some(b)) => Move::PawnMove(mirror_pawn_step(a), Some(mirror_pawn_step(b))),
            Move::Wall(d, p) => Move::Wall(d, Position { row: p.row, col: WALL_SLOTS - 1 - p.col }),
        }
    }

    /// Which way, if any, this move departs from left/right symmetry.
    pub fn mirror_move_type(&self) -> (r: MirrorMoveType)
        ensures
            r == mirror_type(*self),
    {
        match *self {
            Move::PawnMove(a, second) => {
                let dx: i8 = pawn_step_dx(a) + match second {
                    Some(b) => pawn_step_dx(b),
                    None => 0,
                };
                if dx < 0 {
                    MirrorMoveType::Left
                } else if dx > 0 {
                    MirrorMoveType::Right
                } else {
                    MirrorMoveType::Neutral
                }
            },
            Move::Wall(_, p) => if p.col < 4 {
                MirrorMoveType::Left
            } else {
                MirrorMoveType::Right
            },
        }
    }
}

/// Reflecting a move twice gives the move back.
pub proof fn lemma_mirror_involutive(m: Move)
    requires
        m.wf(),
    ensures
        mirror(mirror(m)) == m,
{
}

/// Reflection swaps the side on which a move breaks symmetry.
pub proof fn lemma_mirror_swaps_type(m: Move)
    requires
        m.wf(),
    ensures
        mirror_type(mirror(m)) == match mirror_type(m) {
            MirrorMoveType::Left => MirrorMoveType::Right,
            MirrorMoveType::Right => MirrorMoveType::Left,
            MirrorMoveType::Neutral => MirrorMoveType::Neutral,
        },
{
}

} // verus!
