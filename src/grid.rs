//! The board as drawn: a grid of squares with borders and corners between
//! them, and which walls each cell of that grid belongs to.
use vstd::prelude::*;

use crate::moves::{Position, WallDirection};

verus! {

/// Number of squares along each side of the board.
pub const DIMENSION: usize = 9;

/// Cells along each side of the drawn grid: squares with borders between them.
pub const GRID_CELLS: usize = 17;

/// What a cell of the drawn grid is: a cell at an even row and column is a
/// square, one at an even row only a border between two squares of a row, one
/// at an even column only a border between two rows, the others corners.
#[derive(PartialEq, Eq, Debug, Clone, Copy, Structural)]
pub enum SquareType {
    Square,
    VerticalBorder,
    HorizontalBorder,
    Corner,
}

/// What the pointer rests on, by the grid cell where it entered.
#[derive(Clone, Copy, Debug, PartialEq, Eq, Structural)]
pub enum HoverState {
    VerticalWall(usize, usize),
    HorizontalWall(usize, usize),
    Pawn(usize, usize),
}

/// Whether the highlighted item covers grid cell (`row`, `col`): a wall
/// covers three cells (two borders and the corner between them), a pawn one.
pub open spec fn covers(h: HoverState, row: usize, col: usize) -> bool {
    match h {
        HoverState::VerticalWall(r, c) => c == col && r <= row <= r + 2,
        HoverState::HorizontalWall(r, c) => r == row && c <= col <= c + 2,
        HoverState::Pawn(r, c) => r == row && c == col,
    }
}

impl HoverState {
    pub fn is_hover(&self, row: usize, col: usize) -> (r: bool)
        ensures
            r == covers(*self, row, col),
    {
        match *self {
            HoverState::VerticalWall(r, c) => c == col && row >= r && row - r <= 2,
            HoverState::HorizontalWall(r, c) => r == row && col >= c && col - c <= 2,
            HoverState::Pawn(r, c) => r == row && c == col,
        }
    }
}

pub open spec fn wall(d: WallDirection, row: int, col: int) -> (WallDirection, Position) {
    (d, Position { row: row as i8, col: col as i8 })
}

/// The wall slots that grid cell (`row`, `col`) of the given type is part of:
/// a border lies under the wall slots on both of its sides (those that exist),
/// a corner under the horizontal and the vertical wall crossing there.
pub open spec fn walls_at(square_type: SquareType, row: usize, col: usize) -> Seq<
    (WallDirection, Position),
> {
    let r = row as int / 2;
    let c = col as int / 2;
    match square_type {
        SquareType::VerticalBorder => if c >= 8 {
            Seq::empty()
        } else {
            (if r >= 1 {
                seq![wall(WallDirection::Vertical, r - 1, c)]
            } else {
                Seq::empty()
            }) + (if r < 8 {
                seq![wall(WallDirection::Vertical, r, c)]
            } else {
                Seq::empty()
            })
        },
        SquareType::HorizontalBorder => if r >= 8 {
            Seq::empty()
        } else {
            (if c >= 1 {
                seq![wall(WallDirection::Horizontal, r, c - 1)]
            } else {
                Seq::empty()
            }) + (if c < 8 {
                seq![wall(WallDirection::Horizontal, r, c)]
            } else {
                Seq::empty()
            })
        },
        SquareType::Corner => seq![
            wall(WallDirection::Horizontal, r, c),
            wall(WallDirection::Vertical, r, c),
        ],
        SquareType::Square => Seq::empty(),
    }
}

/// The wall slots that a grid cell is part of.
pub fn part_of_walls(square_type: SquareType, row: usize, col: usize) -> (walls: Vec<
    (WallDirection, Position),
>)
    requires
        row < GRID_CELLS,
        col < GRID_CELLS,
    ensures
        walls@ == walls_at(square_type, row, col),
{
    let row = row as i8;
    let col = col as i8;
    let mut walls: Vec<(WallDirection, Position)> = Vec::new();
    match square_type {
        SquareType::VerticalBorder => {
            if col / 2 >= 8 {
                return Vec::new();
            }
            if row / 2 >= 1 {
                walls.push((WallDirection::Vertical, Position { row: row / 2 - 1, col: col / 2 }));
            }
            if row / 2 < 8 {
                walls.push((WallDirection::Vertical, Position { row: row / 2, col: col / 2 }));
            }
        },
        SquareType::HorizontalBorder => {
            if row / 2 >= 8 {
                return Vec::new();
            }
            if col / 2 >= 1 {
                walls.push((WallDirection::Horizontal, Position { row: row / 2, col: col / 2 - 1 }));
            }
            if col / 2 < 8 {
                walls.push((WallDirection::Horizontal, Position { row: row / 2, col: col / 2 }));
            }
        },
        SquareType::Corner => {
            walls.push((WallDirection::Horizontal, Position { row: row / 2, col: col / 2 }));
            walls.push((WallDirection::Vertical, Position { row: row / 2, col: col / 2 }));
        },
        SquareType::Square => {},
    }
    proof {
        assert(walls@ =~= walls_at(square_type, row as usize, col as usize));
    }
    walls
}

/// What the pointer highlights when it enters a grid cell: a square its pawn
/// square, a border the wall slot starting there (none along the last row or
/// column, where no wall fits), a corner nothing.
pub open spec fn hover_at(square_type: SquareType, row: usize, col: usize) -> Option<HoverState> {
    match square_type {
        SquareType::Square => Some(HoverState::Pawn(row, col)),
        SquareType::VerticalBorder => if row / 2 >= DIMENSION - 1 {
            None
        } else {
            Some(HoverState::VerticalWall(row, col))
        },
        SquareType::HorizontalBorder => if col / 2 >= DIMENSION - 1 {
            None
        } else {
            Some(HoverState::HorizontalWall(row, col))
        },
        SquareType::Corner => None,
    }
}

impl SquareType {
    /// The cell's width class: wide for squares and the borders between rows.
    pub fn width(&self) -> (r: &'static str)
        ensures
            r@ == (match *self {
                SquareType::Square | SquareType::HorizontalBorder => "w-16"@,
                _ => "w-4"@,
            }),
    {
        match self {
            SquareType::Square => "w-16",
            SquareType::HorizontalBorder => "w-16",
            _ => "w-4",
        }
    }

    /// The cell's height class: tall for squares and the borders within a row.
    pub fn height(&self) -> (r: &'static str)
        ensures
            r@ == (match *self {
                SquareType::Square | SquareType::VerticalBorder => "h-16"@,
                _ => "h-4"@,
            }),
    {
        match self {
            SquareType::Square => "h-16",
            SquareType::VerticalBorder => "h-16",
            _ => "h-4",
        }
    }

    pub fn hover_state(&self, row: usize, col: usize) -> (r: Option<HoverState>)
        ensures
            r == hover_at(*self, row, col),
    {
        if *self == SquareType::VerticalBorder && (row / 2 >= DIMENSION - 1) {
            return None;
        }
        if *self == SquareType::HorizontalBorder && (col / 2 >= DIMENSION - 1) {
            return None;
        }
        match self {
            SquareType::Square => Some(HoverState::Pawn(row, col)),
            SquareType::VerticalBorder => Some(HoverState::VerticalWall(row, col)),
            SquareType::HorizontalBorder => Some(HoverState::HorizontalWall(row, col)),
            _ => None,
        }
    }
}

} // verus!
