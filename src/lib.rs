//! Decision core of a background move-computation worker for Quoridor.
//!
//! The worker grows a game-tree search, answers moves played on the board,
//! reports its progress and commits a move for the AI seat once the search is
//! confident enough. The search engine, the transport and the remote table
//! store live outside this library; what is decided here is verified.
pub mod cache;
pub mod canon;
pub mod channel;
pub mod grid;
pub mod ledger;
pub mod moves;
pub mod scheduler;

pub use cache::{adopt_fetched, Fetch};
pub use canon::MirrorFlag;
pub use channel::CommandQueue;
pub use grid::{part_of_walls, HoverState, SquareType};
pub use ledger::BoardWithHistory;
pub use moves::{MirrorMoveType, Move, PawnMove, Position, WallDirection};
pub use scheduler::{
    report_decision, CalculateUpdate, OutcomeReport, Phase, Plan, Scheduler, TickOutcome,
    UserCommand,
};
