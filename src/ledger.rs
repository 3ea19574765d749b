//! The foreground's record of a game: its board and the moves played, in
//! portable notation.
use vstd::prelude::*;

verus! {

/// Separator between moves in the joined history.
pub const MOVE_SEPARATOR: &'static str = ";";

/// The parts joined into one text, `sep` between consecutive parts.
pub open spec fn joined(parts: Seq<Seq<char>>, sep: Seq<char>) -> Seq<char>
    decreases parts.len(),
{
    if parts.len() == 0 {
        Seq::empty()
    } else if parts.len() == 1 {
        parts[0]
    } else {
        joined(parts.drop_last(), sep) + sep + parts.last()
    }
}

/// A board together with the notation of every move played on it, in order.
pub struct BoardWithHistory<B> {
    pub board: B,
    pub historic_moves: Vec<String>,
}

impl<B> BoardWithHistory<B> {
    /// The notations of the moves played so far.
    pub open spec fn notations(&self) -> Seq<Seq<char>> {
        self.historic_moves@.map_values(|s: String| s@)
    }

    /// A game on `board` with no move played yet.
    pub fn new(board: B) -> (r: Self)
        ensures
            r.board == board,
            r.notations().len() == 0,
    {
        BoardWithHistory { board, historic_moves: Vec::new() }
    }

    /// Records a move by its notation, written against the board before the
    /// move; the caller then applies the move to `board`. The history only
    /// grows: earlier entries are never rewritten.
    pub fn game_move(&mut self, notation: String)
        ensures
            final(self).notations() == old(self).notations().push(notation@),
            final(self).board == old(self).board,
    {
        self.historic_moves.push(notation);
        proof {
            assert(final(self).notations() =~= old(self).notations().push(notation@));
        }
    }

    /// The history as one text, moves separated by `MOVE_SEPARATOR`.
    pub fn historic_moves(&self) -> (r: String)
        ensures
            r@ == joined(self.notations(), MOVE_SEPARATOR@),
    {
        let mut r = String::new();
        let n = self.historic_moves.len();
        let mut i: usize = 0;
        while i < n
            invariant
                n == self.historic_moves@.len(),
                i <= n,
                r@ == joined(self.notations().take(i as int), MOVE_SEPARATOR@),
            decreases n - i,
        {
            proof {
                assert(self.notations().take(i as int + 1).drop_last() =~= self.notations().take(
                    i as int,
                ));
            }
            if i > 0 {
                r.append(MOVE_SEPARATOR);
            }
            r.append(self.historic_moves[i].as_str());
            i = i + 1;
        }
        proof {
            assert(self.notations().take(n as int) =~= self.notations());
        }
        r
    }
}

} // verus!
