//! The incremental search scheduler, as a state machine driven tick by tick.
//!
//! Each tick goes through a fixed order of steps: take at most one command
//! (and, for a move, update the engine and the table cache), decide whether to
//! search, run one batch of search steps, then decide whether to commit a move
//! or report progress. The caller performs the engine, transport and network
//! work in between and hands the results back.
use vstd::prelude::*;

use crate::canon::{observed, to_engine, MirrorFlag, after_table};
use crate::moves::Move;

verus! {

/// Pause at the start of every tick, in milliseconds.
pub const TICK_PAUSE_MS: u32 = 10;

/// Pause instead of searching when the position is decided or exhausted.
pub const IDLE_PAUSE_MS: u32 = 100;

/// Visit count past which the best move is trusted enough to be committed.
pub const CONFIDENCE_VISITS: u64 = 600_000;

/// Visit count from which searching further is not worth the time.
pub const VISIT_CAP: u64 = 20_000_000;

/// Simulations in one batch from which the best move is committed.
pub const SIMULATION_CAP: u64 = 300_000;

/// Search steps in the batch that follows a command.
pub const STEPS_AFTER_COMMAND: u64 = 100;

/// Search steps in a batch while no command arrived.
pub const STEPS_IDLE: u64 = 10_000;

/// Visit count that a losing position needs before it is reported.
pub const REPORT_MIN_VISITS: u64 = 300_000;

/// A message from the foreground to the worker.
#[derive(Clone, Copy, Debug, PartialEq, Eq)]
pub enum UserCommand {
    DecodeBoard,
    GameMove(Move),
    SetAIPlayer(usize),
}

/// A message from the worker to the foreground.
#[derive(Clone, Copy, Debug, PartialEq, Eq)]
pub enum CalculateUpdate {
    /// The worker committed this move (in the played frame) for the AI seat.
    Finish(Move),
    /// Search progress: this many visits out of `CONFIDENCE_VISITS`.
    Progress(u64),
}

/// Where the scheduler stands within a tick.
#[derive(Clone, Copy, Debug, PartialEq, Eq, Structural)]
pub enum Phase {
    /// At the start of a tick, waiting for at most one command.
    AwaitCommand,
    /// A move is being applied by the engine and looked up in the table cache;
    /// `committed` tells whether the scheduler committed it itself.
    TakingMove { committed: bool },
    /// The command of this tick, if any, has been fully handled.
    CommandDone,
    /// A search batch is running; `visits` is the count taken before it.
    Searching { visits: u64 },
}

/// What to do after the command of a tick was handled.
#[derive(Clone, Copy, Debug, PartialEq, Eq, Structural)]
pub enum Plan {
    /// Pause for `IDLE_PAUSE_MS` and start the next tick.
    Idle,
    /// Run this many search steps.
    Search(u64),
}

/// What the commit decision of a tick asks for.
#[derive(Clone, Copy, Debug, PartialEq, Eq)]
pub struct TickOutcome {
    /// The update to send to the foreground, if any.
    pub update: Option<CalculateUpdate>,
    /// The move to apply to the engine (in its frame), if one was committed.
    pub engine_move: Option<Move>,
}

/// A losing position worth precomputing: the AI won `ai_wins` of `visits`.
#[derive(Clone, Copy, Debug, PartialEq, Eq, Structural)]
pub struct OutcomeReport {
    pub ai_wins: u64,
    pub visits: u64,
    pub ai_player_zero: bool,
}

/// The state the worker owns besides the engine's board and tree.
pub struct Scheduler {
    /// The seat the worker plays for, if any.
    pub ai_player: Option<usize>,
    pub mirror: MirrorFlag,
    /// A command arrived since the last search batch.
    pub new_command: bool,
    /// The moves of the game, as played.
    pub historic_moves: Vec<Move>,
    pub phase: Phase,
}

/// Wins of the AI seat given the wins of the player who moved last; none
/// should the engine count more wins than visits.
pub open spec fn ai_wins_of(ai: usize, turn: usize, wins: u64, total: u64) -> u64 {
    if ai == turn % 2 {
        if wins <= total {
            (total - wins) as u64
        } else {
            0
        }
    } else {
        wins
    }
}

/// The report due for a position whose tree won `wins` of `total` for the
/// player who moved last: one when the AI's win rate is below two in five
/// over more than `REPORT_MIN_VISITS` visits.
pub open spec fn report_for(ai: Option<usize>, turn: usize, wins: u64, total: u64) -> Option<
    OutcomeReport,
> {
    match ai {
        None => None,
        Some(a) => {
            let w = ai_wins_of(a, turn, wins, total);
            if 5 * w < 2 * total && total > REPORT_MIN_VISITS {
                Some(OutcomeReport { ai_wins: w, visits: total, ai_player_zero: a == 0 })
            } else {
                None
            }
        },
    }
}

/// Whether a tick pauses instead of searching.
pub open spec fn idles(new_command: bool, visits: u64, played_out: bool) -> bool {
    (played_out || visits >= VISIT_CAP) && !new_command
}

/// Batch size: small right after a command, to answer quickly; large otherwise.
pub open spec fn batch_size(new_command: bool) -> u64 {
    if new_command {
        STEPS_AFTER_COMMAND
    } else {
        STEPS_IDLE
    }
}

/// Whether the search is confident enough, or done, to commit its best move.
pub open spec fn confident(visits: u64, played_out: bool, simulations: u64) -> bool {
    visits > CONFIDENCE_VISITS || played_out || simulations >= SIMULATION_CAP
}

/// Whether the AI seat is the side to move.
pub open spec fn ai_to_move(ai: Option<usize>, turn: usize) -> bool {
    ai == Some(turn % 2)
}

/// Reports the current position when no table existed for it and the AI is
/// losing there.
pub fn report_decision(ai_player: Option<usize>, turn: usize, wins: u64, total: u64) -> (r: Option<
    OutcomeReport,
>)
    ensures
        r == report_for(ai_player, turn, wins, total),
{
    match ai_player {
        None => None,
        Some(a) => {
            let w: u64 = if a == turn % 2 {
                if wins <= total {
                    total - wins
                } else {
                    0
                }
            } else {
                wins
            };
            if (w as u128) * 5 < (total as u128) * 2 && total > REPORT_MIN_VISITS {
                Some(OutcomeReport { ai_wins: w, visits: total, ai_player_zero: a == 0 })
            } else {
                None
            }
        },
    }
}

impl Scheduler {
    /// Bounds the scheduler keeps between ticks.
    pub open spec fn wf(&self) -> bool {
        &&& forall|i: int|
            0 <= i < self.historic_moves@.len() ==> (#[trigger] self.historic_moves@[i]).wf()
    }

    /// The state at the start of a game: no AI seat, no orientation, no moves.
    pub fn new() -> (r: Scheduler)
        ensures
            r.wf(),
            r.ai_player is None,
            r.mirror == MirrorFlag::Unknown,
            !r.new_command,
            r.historic_moves@.len() == 0,
            r.phase == Phase::AwaitCommand,
    {
        Scheduler {
            ai_player: None,
            mirror: MirrorFlag::Unknown,
            new_command: false,
            historic_moves: Vec::new(),
            phase: Phase::AwaitCommand,
        }
    }

    /// Takes the command of this tick, if any. For a move it returns the move
    /// in the engine's frame, which the caller applies and looks up in the
    /// table cache before calling `move_taken`.
    pub fn receive(&mut self, command: Option<UserCommand>) -> (engine_move: Option<Move>)
        requires
            old(self).wf(),
            old(self).phase == Phase::AwaitCommand,
            command matches Some(UserCommand::GameMove(m)) ==> m.wf(),
        ensures
            final(self).wf(),
            match command {
                None => {
                    &&& *final(self) == (Scheduler { phase: Phase::CommandDone, ..*old(self) })
                    &&& engine_move is None
                },
                Some(UserCommand::DecodeBoard) => {
                    &&& *final(self) == (Scheduler {
                        phase: Phase::CommandDone,
                        new_command: true,
                        ..*old(self)
                    })
                    &&& engine_move is None
                },
                Some(UserCommand::SetAIPlayer(seat)) => {
                    &&& *final(self) == (Scheduler {
                        phase: Phase::CommandDone,
                        new_command: true,
                        ai_player: Some(seat),
                        ..*old(self)
                    })
                    &&& engine_move is None
                },
                Some(UserCommand::GameMove(m)) => {
                    let f = observed(old(self).mirror, m);
                    &&& final(self).mirror == f
                    &&& final(self).historic_moves@ == old(self).historic_moves@.push(m)
                    &&& final(self).ai_player == old(self).ai_player
                    &&& final(self).new_command
                    &&& final(self).phase == (Phase::TakingMove { committed: false })
                    &&& engine_move == Some(to_engine(f, m))
                },
            },
    {
        match command {
            None => {
                self.phase = Phase::CommandDone;
                None
            },
            Some(UserCommand::DecodeBoard) => {
                self.new_command = true;
                self.phase = Phase::CommandDone;
                None
            },
            Some(UserCommand::SetAIPlayer(seat)) => {
                self.new_command = true;
                self.ai_player = Some(seat);
                self.phase = Phase::CommandDone;
                None
            },
            Some(UserCommand::GameMove(m)) => {
                self.new_command = true;
                self.mirror = self.mirror.observe(&m);
                self.historic_moves.push(m);
                self.phase = Phase::TakingMove { committed: false };
                Some(self.mirror.orient(&m))
            },
        }
    }

    /// Ends the taking of a move. `table_hit` is `Some(mirrored)` when a
    /// precomputed tree replaced the working one (`mirrored`: it was stored in
    /// the other orientation, and the board was replaced by its reflection),
    /// `None` when no tree was found. `wins` of `total` and `turn` describe the
    /// working tree and board after the move; on a miss they decide whether
    /// the position is reported as one the AI loses.
    pub fn move_taken(&mut self, table_hit: Option<bool>, turn: usize, wins: u64, total: u64) -> (r:
        Option<OutcomeReport>)
        requires
            old(self).wf(),
            old(self).phase is TakingMove,
        ensures
            final(self).wf(),
            final(self).mirror == match table_hit {
                Some(mirrored) => after_table(old(self).mirror, mirrored),
                None => old(self).mirror,
            },
            final(self).phase == if old(self).phase == (Phase::TakingMove { committed: true }) {
                Phase::AwaitCommand
            } else {
                Phase::CommandDone
            },
            final(self).ai_player == old(self).ai_player,
            final(self).new_command == old(self).new_command,
            final(self).historic_moves@ == old(self).historic_moves@,
            r == match table_hit {
                Some(_) => None,
                None => report_for(old(self).ai_player, turn, wins, total),
            },
    {
        self.phase = match self.phase {
            Phase::TakingMove { committed: true } => Phase::AwaitCommand,
            _ => Phase::CommandDone,
        };
        match table_hit {
            Some(mirrored) => {
                self.mirror = self.mirror.after_table_hit(mirrored);
                None
            },
            None => report_decision(self.ai_player, turn, wins, total),
        }
    }

    /// Decides, once the command of the tick was handled, whether to search.
    /// `visits` is the working tree's visit count; `played_out` whether the
    /// outcome of the position is already decided.
    pub fn plan(&mut self, visits: u64, played_out: bool) -> (r: Plan)
        requires
            old(self).wf(),
            old(self).phase == Phase::CommandDone,
        ensures
            final(self).wf(),
            r == if idles(old(self).new_command, visits, played_out) {
                Plan::Idle
            } else {
                Plan::Search(batch_size(old(self).new_command))
            },
            final(self).phase == if idles(old(self).new_command, visits, played_out) {
                Phase::AwaitCommand
            } else {
                Phase::Searching { visits }
            },
            *final(self) == (Scheduler { phase: final(self).phase, ..*old(self) }),
    {
        if (played_out || visits >= VISIT_CAP) && !self.new_command {
            self.phase = Phase::AwaitCommand;
            Plan::Idle
        } else {
            self.phase = Phase::Searching { visits };
            Plan::Search(if self.new_command { STEPS_AFTER_COMMAND } else { STEPS_IDLE })
        }
    }

    /// Decides, after a search batch, whether to commit the engine's suggested
    /// move for the AI seat or to report progress. `simulations` is what the
    /// batch ran, `turn` the turn counter of the working board and `suggested`
    /// the engine's best move, in its frame.
    pub fn decide(&mut self, played_out: bool, simulations: u64, turn: usize, suggested: Move) -> (r:
        TickOutcome)
        requires
            old(self).wf(),
            old(self).phase is Searching,
            suggested.wf(),
        ensures
            final(self).wf(),
            !final(self).new_command,
            r.update matches Some(CalculateUpdate::Progress(p)) ==> p
                == old(self).phase->Searching_visits && p <= CONFIDENCE_VISITS,
            final(self).ai_player == old(self).ai_player,
            ({
                let visits = old(self).phase->Searching_visits;
                if confident(visits, played_out, simulations) {
                    if ai_to_move(old(self).ai_player, turn) {
                        let f = observed(old(self).mirror, suggested);
                        let played = to_engine(f, suggested);
                        &&& final(self).mirror == f
                        &&& final(self).historic_moves@ == old(self).historic_moves@.push(played)
                        &&& final(self).phase == (Phase::TakingMove { committed: true })
                        &&& r == (TickOutcome {
                            update: Some(CalculateUpdate::Finish(played)),
                            engine_move: Some(suggested),
                        })
                    } else {
                        &&& final(self).mirror == old(self).mirror
                        &&& final(self).historic_moves@ == old(self).historic_moves@
                        &&& final(self).phase == Phase::AwaitCommand
                        &&& r == (TickOutcome { update: None, engine_move: None })
                    }
                } else {
                    &&& final(self).mirror == old(self).mirror
                    &&& final(self).historic_moves@ == old(self).historic_moves@
                    &&& final(self).phase == Phase::AwaitCommand
                    &&& r == (TickOutcome {
                        update: Some(CalculateUpdate::Progress(visits)),
                        engine_move: None,
                    })
                }
            }),
    {
        let visits = match self.phase {
            Phase::Searching { visits } => visits,
            _ => 0,
        };
        self.new_command = false;
        if visits > CONFIDENCE_VISITS || played_out || simulations >= SIMULATION_CAP {
            if self.ai_player == Some(turn % 2) {
                self.mirror = self.mirror.observe(&suggested);
                let played = self.mirror.orient(&suggested);
                self.historic_moves.push(played);
                self.phase = Phase::TakingMove { committed: true };
                TickOutcome {
                    update: Some(CalculateUpdate::Finish(played)),
                    engine_move: Some(suggested),
                }
            } else {
                self.phase = Phase::AwaitCommand;
                TickOutcome { update: None, engine_move: None }
            }
        } else {
            self.phase = Phase::AwaitCommand;
            TickOutcome { update: Some(CalculateUpdate::Progress(visits)), engine_move: None }
        }
    }
}

/// The progress values reported by the ticks of one decision cycle that stayed
/// short of confidence, given the visit count each measured before its batch:
/// each tick reports its own count.
pub open spec fn progress_trace(visits: Seq<u64>) -> Seq<u64> {
    Seq::new(visits.len(), |i: int| visits[i])
}

/// Reported progress is a fraction within [0, 1] of the confidence threshold:
/// a tick reports only while its count is not above `CONFIDENCE_VISITS`. A
/// decision cycle starts whenever a move is applied to the working tree (one
/// played or one committed); within it the engine's search only adds visits,
/// and then the reported progress never decreases.
pub proof fn lemma_progress_monotone(visits: Seq<u64>)
    requires
        forall|i: int| 0 <= i < visits.len() ==> !confident(#[trigger] visits[i], false, 0),
        forall|i: int, j: int| 0 <= i <= j < visits.len() ==> visits[i] <= visits[j],
    ensures
        progress_trace(visits).len() == visits.len(),
        forall|i: int|
            0 <= i < visits.len() ==> 0 <= #[trigger] progress_trace(visits)[i]
                <= CONFIDENCE_VISITS,
        forall|i: int, j: int|
            0 <= i <= j < visits.len() ==> progress_trace(visits)[i] <= progress_trace(
                visits,
            )[j],
{
}

} // verus!
