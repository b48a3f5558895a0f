//! Turn-taking and the game lifecycle: which player moves next, the
//! phase state machine, and the strict alternation law.

use vstd::prelude::*;

use crate::board::Board;
use crate::board::CellMark;
use crate::board::GameError;
use crate::board::board_empty;

verus! {

/// One of the two players.
#[derive(Clone, Copy, Debug, PartialEq, Eq, Structural)]
pub enum Player {
    X,
    O,
}

/// The game's overall lifecycle stage.
#[derive(Clone, Copy, Debug, PartialEq, Eq, Structural)]
pub enum Phase {
    WaitingToStart,
    Playing,
    GameOver,
    Restarting,
}

/// The opponent of `p`.
pub open spec fn flip(p: Player) -> Player {
    if p == Player::X {
        Player::O
    } else {
        Player::X
    }
}

/// The committed mark that player `p` places.
pub open spec fn mark_of(p: Player) -> CellMark {
    if p == Player::X {
        CellMark::CommittedX
    } else {
        CellMark::CommittedO
    }
}

/// The transient hover mark of player `p`.
pub open spec fn preview_of(p: Player) -> CellMark {
    if p == Player::X {
        CellMark::PreviewX
    } else {
        CellMark::PreviewO
    }
}

impl Player {
    /// Runtime counterpart of [`flip`].
    pub fn other(self) -> (r: Player)
        ensures
            r == flip(self),
    {
        match self {
            Player::X => Player::O,
            Player::O => Player::X,
        }
    }

    /// Runtime counterpart of [`mark_of`].
    pub fn committed_mark(self) -> (m: CellMark)
        ensures
            m == mark_of(self),
    {
        match self {
            Player::X => CellMark::CommittedX,
            Player::O => CellMark::CommittedO,
        }
    }

    /// Runtime counterpart of [`preview_of`].
    pub fn preview_mark(self) -> (m: CellMark)
        ensures
            m == preview_of(self),
    {
        match self {
            Player::X => CellMark::PreviewX,
            Player::O => CellMark::PreviewO,
        }
    }
}

/// Whose turn it is after `n` successful commits of a game that began
/// with X to move.
pub open spec fn turn_after(n: nat) -> Player
    decreases n,
{
    if n == 0 {
        Player::X
    } else {
        flip(turn_after((n - 1) as nat))
    }
}

/// Each successful commit flips the turn, exactly as
/// [`TurnController::commit_move`] promises of one call.
pub proof fn lemma_turn_after_step(n: nat)
    ensures
        turn_after(n + 1) == flip(turn_after(n)),
{
}

/// Turn strictly alternates: after `n` successful commits it is X's
/// move iff `n` is even.
pub proof fn lemma_turn_alternates(n: nat)
    ensures
        turn_after(n) == Player::X <==> n % 2 == 0,
    decreases n,
{
    if n > 0 {
        lemma_turn_alternates((n - 1) as nat);
    }
}

/// Tracks whose turn it is and the game phase. Owned by the engine;
/// mutated only through the operations below.
pub struct TurnController {
    /// The player entitled to commit the next move.
    pub turn: Player,
    /// The current lifecycle stage.
    pub phase: Phase,
}

impl TurnController {
    /// A controller waiting for an explicit start, with X to move first.
    pub fn new() -> (c: TurnController)
        ensures
            c.turn == Player::X,
            c.phase == Phase::WaitingToStart,
    {
        TurnController { turn: Player::X, phase: Phase::WaitingToStart }
    }

    /// Explicit start action: `WaitingToStart` becomes `Playing`; a
    /// no-op in every other phase.
    pub fn start(&mut self)
        ensures
            final(self).turn == old(self).turn,
            final(self).phase == (if old(self).phase == Phase::WaitingToStart {
                Phase::Playing
            } else {
                old(self).phase
            }),
    {
        if self.phase == Phase::WaitingToStart {
            self.phase = Phase::Playing;
        }
    }

    /// Records one committed move by `mark`. Rejected as `IllegalMove`
    /// unless `mark` is the player whose turn it is; on success the
    /// turn flips. The phase never changes here: the caller drives the
    /// phase from the win detector's verdict after the commit.
    pub fn commit_move(&mut self, mark: Player) -> (r: Result<(), GameError>)
        ensures
            final(self).phase == old(self).phase,
            mark == old(self).turn ==> r == Ok::<(), GameError>(())
                && final(self).turn == flip(old(self).turn),
            mark != old(self).turn ==> r == Err::<(), GameError>(GameError::IllegalMove)
                && final(self).turn == old(self).turn,
    {
        if mark == self.turn {
            self.turn = self.turn.other();
            Ok(())
        } else {
            Err(GameError::IllegalMove)
        }
    }

    /// `Playing` becomes `GameOver`; idempotent when already over; a
    /// no-op in every other phase.
    pub fn enter_game_over(&mut self)
        ensures
            final(self).turn == old(self).turn,
            final(self).phase == (if old(self).phase == Phase::Playing
                || old(self).phase == Phase::GameOver {
                Phase::GameOver
            } else {
                old(self).phase
            }),
    {
        if self.phase == Phase::Playing {
            self.phase = Phase::GameOver;
        }
    }

    /// Explicit restart request: a finished game enters the transient
    /// `Restarting` stage; a no-op in every other phase.
    pub fn request_restart(&mut self)
        ensures
            final(self).turn == old(self).turn,
            final(self).phase == (if old(self).phase == Phase::GameOver {
                Phase::Restarting
            } else {
                old(self).phase
            }),
    {
        if self.phase == Phase::GameOver {
            self.phase = Phase::Restarting;
        }
    }

    /// Restart: clears the whole board, resets the turn to X-to-move
    /// and returns the phase to `Playing`.
    pub fn restart(&mut self, board: &mut Board)
        requires
            old(board).wf(),
        ensures
            final(self).turn == Player::X,
            final(self).phase == Phase::Playing,
            final(board).wf(),
            board_empty(final(board)@),
    {
        board.reset();
        self.turn = Player::X;
        self.phase = Phase::Playing;
    }
}

} // verus!
