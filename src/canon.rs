//! Canonical orientation: the first move that breaks left/right symmetry fixes
//! on which side the search engine and the table cache look at the game.
use vstd::prelude::*;

use crate::moves::{mirror, mirror_type, MirrorMoveType, Move};

verus! {

/// Whether the engine sees the game as played or reflected.
#[derive(Clone, Copy, Debug, PartialEq, Eq, Structural)]
pub enum MirrorFlag {
    /// No move has broken the symmetry of the opening yet.
    Unknown,
    /// The engine sees moves as played.
    Normal,
    /// The engine sees every move reflected.
    Mirrored,
}

/// The flag after a move has been played: an unset flag is fixed by the first
/// move that breaks symmetry, a set flag stays as it is.
pub open spec fn observed(f: MirrorFlag, m: Move) -> MirrorFlag {
    match f {
        MirrorFlag::Unknown => match mirror_type(m) {
            MirrorMoveType::Right => MirrorFlag::Mirrored,
            MirrorMoveType::Left => MirrorFlag::Normal,
            MirrorMoveType::Neutral => MirrorFlag::Unknown,
        },
        _ => f,
    }
}

/// The move in the engine's frame when `m` is what was played.
pub open spec fn to_engine(f: MirrorFlag, m: Move) -> Move {
    if f == MirrorFlag::Mirrored {
        mirror(m)
    } else {
        m
    }
}

/// The flag after the board was replaced by a precomputed table stored in the
/// other orientation: a set flag flips, an unset one stays unset.
pub open spec fn after_table(f: MirrorFlag, table_mirrored: bool) -> MirrorFlag {
    if !table_mirrored {
        f
    } else {
        match f {
            MirrorFlag::Normal => MirrorFlag::Mirrored,
            MirrorFlag::Mirrored => MirrorFlag::Normal,
            MirrorFlag::Unknown => MirrorFlag::Unknown,
        }
    }
}

impl MirrorFlag {
    pub fn observe(self, m: &Move) -> (r: MirrorFlag)
        ensures
            r == observed(self, *m),
    {
        match self {
            MirrorFlag::Unknown => match m.mirror_move_type() {
                MirrorMoveType::Right => MirrorFlag::Mirrored,
                MirrorMoveType::Left => MirrorFlag::Normal,
                MirrorMoveType::Neutral => MirrorFlag::Unknown,
            },
            _ => self,
        }
    }

    /// Translates a move between the played frame and the engine's frame;
    /// reflection is its own inverse, so the same call serves both ways.
    pub fn orient(self, m: &Move) -> (r: Move)
        requires
            m.wf(),
        ensures
            r == to_engine(self, *m),
            r.wf(),
    {
        match self {
            MirrorFlag::Mirrored => m.mirror_move(),
            _ => *m,
        }
    }

    pub fn after_table_hit(self, table_mirrored: bool) -> (r: MirrorFlag)
        ensures
            r == after_table(self, table_mirrored),
    {
        if !table_mirrored {
            self
        } else {
            match self {
                MirrorFlag::Normal => MirrorFlag::Mirrored,
                MirrorFlag::Mirrored => MirrorFlag::Normal,
                MirrorFlag::Unknown => MirrorFlag::Unknown,
            }
        }
    }
}

/// The flag in force when each move of `ms` is played, starting from `f`.
pub open spec fn flags_before(f: MirrorFlag, ms: Seq<Move>) -> Seq<MirrorFlag>
    decreases ms.len(),
{
    if ms.len() == 0 {
        Seq::empty()
    } else {
        seq![f].add(flags_before(observed(f, ms[0]), ms.drop_first()))
    }
}

/// The flag once every move of `ms` has been played, starting from `f`.
pub open spec fn flag_after(f: MirrorFlag, ms: Seq<Move>) -> MirrorFlag
    decreases ms.len(),
{
    if ms.len() == 0 {
        f
    } else {
        flag_after(observed(f, ms[0]), ms.drop_first())
    }
}

/// The moves of `ms` as the engine sees them, each in the frame fixed by the
/// moves before it (the move itself included).
pub open spec fn canonicalized(f: MirrorFlag, ms: Seq<Move>) -> Seq<Move>
    decreases ms.len(),
{
    if ms.len() == 0 {
        Seq::empty()
    } else {
        let g = observed(f, ms[0]);
        seq![to_engine(g, ms[0])].add(canonicalized(g, ms.drop_first()))
    }
}

/// Engine-frame moves taken back to the played frame, one flag per move.
pub open spec fn uncanonicalized(flags: Seq<MirrorFlag>, es: Seq<Move>) -> Seq<Move> {
    Seq::new(es.len(), |i: int| to_engine(flags[i], es[i]))
}

/// The flags used by `canonicalized`: each is the flag after its own move.
pub open spec fn frames(f: MirrorFlag, ms: Seq<Move>) -> Seq<MirrorFlag>
    decreases ms.len(),
{
    if ms.len() == 0 {
        Seq::empty()
    } else {
        let g = observed(f, ms[0]);
        seq![g].add(frames(g, ms.drop_first()))
    }
}

/// Replaying well-formed moves through canonicalization and then reflecting
/// each back with the frame it was canonicalized in yields the moves played.
pub proof fn lemma_canonical_round_trip(f: MirrorFlag, ms: Seq<Move>)
    requires
        forall|i: int| 0 <= i < ms.len() ==> (#[trigger] ms[i]).wf(),
    ensures
        canonicalized(f, ms).len() == ms.len(),
        frames(f, ms).len() == ms.len(),
        uncanonicalized(frames(f, ms), canonicalized(f, ms)) =~= ms,
    decreases ms.len(),
{
    if ms.len() > 0 {
        let g = observed(f, ms[0]);
        let rest = ms.drop_first();
        assert forall|i: int| 0 <= i < rest.len() implies (#[trigger] rest[i]).wf() by {
            assert(rest[i] == ms[i + 1]);
        }
        lemma_canonical_round_trip(g, rest);
        crate::moves::lemma_mirror_involutive(ms[0]);
        let c = canonicalized(f, ms);
        let fr = frames(f, ms);
        assert forall|i: int| 0 <= i < ms.len() implies #[trigger] to_engine(fr[i], c[i]) == ms[i] by {
            if i > 0 {
                assert(fr[i] == frames(g, rest)[i - 1]);
                assert(c[i] == canonicalized(g, rest)[i - 1]);
                assert(uncanonicalized(frames(g, rest), canonicalized(g, rest))[i - 1] == rest[i - 1]);
                crate::moves::lemma_mirror_involutive(ms[i]);
            }
        }
    }
}

/// A flag set to Normal or Mirrored is never changed by further moves,
/// symmetry-preserving or not.
pub proof fn lemma_flag_settled(f: MirrorFlag, ms: Seq<Move>)
    requires
        f != MirrorFlag::Unknown,
    ensures
        flag_after(f, ms) == f,
        flags_before(f, ms).len() == ms.len(),
        forall|i: int| 0 <= i < ms.len() ==> #[trigger] flags_before(f, ms)[i] == f,
    decreases ms.len(),
{
    if ms.len() > 0 {
        let rest = ms.drop_first();
        lemma_flag_settled(f, rest);
        assert forall|i: int| 0 <= i < ms.len() implies #[trigger] flags_before(f, ms)[i] == f by {
            if i > 0 {
                assert(flags_before(f, ms)[i] == flags_before(f, rest)[i - 1]);
            }
        }
    }
}

/// Once set, the flag also survives every table hit stored in the orientation
/// already assumed; only a table in the other orientation flips it.
pub proof fn lemma_flag_settled_across_tables(f: MirrorFlag, m: Move)
    requires
        f != MirrorFlag::Unknown,
    ensures
        after_table(observed(f, m), false) == f,
        observed(after_table(f, false), m) == f,
{
}

/// From the symmetric opening, symmetry-preserving moves leave the flag unset;
/// the first move that breaks symmetry to the right sets it to Mirrored, and
/// from that move on the engine sees every move reflected (barring a table hit
/// in the other orientation, which `after_table` flips).
pub proof fn lemma_right_break_mirrors_the_rest(neutral: Seq<Move>, m: Move, rest: Seq<Move>)
    requires
        forall|i: int|
            0 <= i < neutral.len() ==> mirror_type(#[trigger] neutral[i]) == MirrorMoveType::Neutral,
        mirror_type(m) == MirrorMoveType::Right,
    ensures
        flag_after(MirrorFlag::Unknown, neutral) == MirrorFlag::Unknown,
        flag_after(MirrorFlag::Unknown, neutral.push(m)) == MirrorFlag::Mirrored,
        flag_after(MirrorFlag::Unknown, neutral.push(m) + rest) == MirrorFlag::Mirrored,
        canonicalized(MirrorFlag::Unknown, neutral.push(m) + rest) =~= neutral + seq![mirror(m)]
            + rest.map_values(|x: Move| mirror(x)),
    decreases neutral.len(),
{
    if neutral.len() == 0 {
        assert(neutral.push(m) + rest =~= seq![m] + rest);
        assert((seq![m] + rest).drop_first() =~= rest);
        assert(seq![m].drop_first() =~= Seq::<Move>::empty());
        assert(neutral.push(m) =~= seq![m]);
        assert(flag_after(MirrorFlag::Mirrored, seq![m].drop_first()) == MirrorFlag::Mirrored);
        lemma_flag_settled(MirrorFlag::Mirrored, rest);
        lemma_canonical_mirrored(rest);
    } else {
        let tail = neutral.drop_first();
        assert forall|i: int| 0 <= i < tail.len() implies mirror_type(#[trigger] tail[i])
            == MirrorMoveType::Neutral by {
            assert(tail[i] == neutral[i + 1]);
        }
        assert(mirror_type(neutral[0]) == MirrorMoveType::Neutral);
        lemma_right_break_mirrors_the_rest(tail, m, rest);
        assert(neutral.push(m).drop_first() =~= tail.push(m));
        assert((neutral.push(m) + rest).drop_first() =~= tail.push(m) + rest);
        assert((neutral.push(m) + rest)[0] == neutral[0]);
        assert(neutral.push(m)[0] == neutral[0]);
        assert(neutral + seq![mirror(m)] + rest.map_values(|x: Move| mirror(x)) =~= seq![neutral[0]]
            + (tail + seq![mirror(m)] + rest.map_values(|x: Move| mirror(x))));
    }
}

/// Under a Mirrored flag the engine sees every move reflected.
pub proof fn lemma_canonical_mirrored(ms: Seq<Move>)
    ensures
        canonicalized(MirrorFlag::Mirrored, ms) =~= ms.map_values(|x: Move| mirror(x)),
    decreases ms.len(),
{
    if ms.len() > 0 {
        lemma_canonical_mirrored(ms.drop_first());
        assert(ms.map_values(|x: Move| mirror(x)) =~= seq![mirror(ms[0])] + ms.drop_first().map_values(
            |x: Move| mirror(x),
        ));
    }
}

} // verus!
