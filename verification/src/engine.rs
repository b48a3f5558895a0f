//! The engine instance: owns the board and the turn controller, runs
//! one frame of the fixed control flow (move resolution, win
//! detection, phase advance), and derives the render snapshot and the
//! status banner for external display.

use vstd::prelude::*;

use crate::board::Board;
use crate::board::CellMark;
use crate::board::GameError;
use crate::board::board_empty;
use crate::board::board_full;
use crate::board::is_committed;
use crate::resolver::PointerState;
use crate::resolver::resolve_frame;
use crate::resolver::resolve_spec;
use crate::turn::Phase;
use crate::turn::Player;
use crate::turn::TurnController;
use crate::turn::flip;
use crate::turn::mark_of;
use crate::win::Line;
use crate::win::Verdict;
use crate::win::evaluate;
use crate::win::spec_evaluate;

verus! {

/// What an external renderer reads of one cell: its current mark and
/// whether it belongs to a detected winning line.
#[derive(Clone, Copy, Debug, PartialEq, Eq, Structural)]
pub struct CellView {
    pub mark: CellMark,
    pub highlighted: bool,
}

/// Cell `j` belongs to line `l`.
pub open spec fn in_line(l: Line, j: int) -> bool {
    l.a == j || l.b == j || l.c == j
}

/// Whether cell `j` deserves the winning-line visual treatment under
/// verdict `v`.
pub open spec fn highlight_of(v: Verdict, j: int) -> bool {
    match v {
        Verdict::Winner { line, .. } => in_line(line, j),
        _ => false,
    }
}

/// The status banner for external display.
pub open spec fn spec_status(phase: Phase, t: Player, v: Verdict) -> Seq<char> {
    if phase == Phase::WaitingToStart || phase == Phase::Restarting {
        "waiting"@
    } else if phase == Phase::GameOver {
        match v {
            Verdict::Winner { player, .. } => if player == Player::X {
                "X wins"@
            } else {
                "O wins"@
            },
            _ => "draw"@,
        }
    } else if t == Player::X {
        "X to move"@
    } else {
        "O to move"@
    }
}

/// The whole in-memory game state: the board, whose turn it is, and
/// the lifecycle phase. External collaborators only read derived
/// snapshots and hand in per-frame pointer input.
pub struct GameEngine {
    board: Board,
    ctrl: TurnController,
}

impl GameEngine {
    /// The 9 cells of the owned board.
    pub closed spec fn cells(&self) -> Seq<CellMark> {
        self.board@
    }

    /// The player entitled to commit the next move.
    pub closed spec fn turn(&self) -> Player {
        self.ctrl.turn
    }

    /// The current lifecycle stage.
    pub closed spec fn phase(&self) -> Phase {
        self.ctrl.phase
    }

    /// The engine always holds exactly 9 cells.
    pub open spec fn wf(&self) -> bool {
        self.cells().len() == 9
    }

    /// A fresh engine: empty board, X to move, waiting for the start
    /// action.
    pub fn new() -> (e: GameEngine)
        ensures
            e.wf(),
            board_empty(e.cells()),
            e.turn() == Player::X,
            e.phase() == Phase::WaitingToStart,
    {
        GameEngine { board: Board::new(), ctrl: TurnController::new() }
    }

    /// Explicit start action; see [`TurnController::start`].
    pub fn start(&mut self)
        requires
            old(self).wf(),
        ensures
            final(self).wf(),
            final(self).cells() == old(self).cells(),
            final(self).turn() == old(self).turn(),
            final(self).phase() == (if old(self).phase() == Phase::WaitingToStart {
                Phase::Playing
            } else {
                old(self).phase()
            }),
    {
        self.ctrl.start();
    }

    /// The mark at `index`, or `OutOfRange` outside 0..=8.
    pub fn cell(&self, index: usize) -> (r: Result<CellMark, GameError>)
        requires
            self.wf(),
        ensures
            index < 9 ==> r == Ok::<CellMark, GameError>(self.cells()[index as int]),
            index >= 9 ==> r == Err::<CellMark, GameError>(GameError::OutOfRange),
    {
        self.board.get(index)
    }

    /// Runtime read of [`GameEngine::turn`].
    pub fn current_turn(&self) -> (p: Player)
        ensures
            p == self.turn(),
    {
        self.ctrl.turn
    }

    /// Runtime read of [`GameEngine::phase`].
    pub fn current_phase(&self) -> (p: Phase)
        ensures
            p == self.phase(),
    {
        self.ctrl.phase
    }

    /// True iff every cell holds a committed mark.
    pub fn board_is_full(&self) -> (r: bool)
        requires
            self.wf(),
        ensures
            r == board_full(self.cells()),
    {
        self.board.is_full()
    }

    /// The win detector's verdict on the current board. Pure: the
    /// engine is untouched, so repeated calls agree.
    pub fn verdict(&self) -> (v: Verdict)
        requires
            self.wf(),
        ensures
            v == spec_evaluate(self.cells()),
    {
        evaluate(&self.board)
    }

    /// Commits the active player's mark at `index` directly, outside
    /// the pointer path: `OutOfRange` outside 0..=8, `IllegalMove` on
    /// an already-committed cell (silent acceptance would corrupt the
    /// at-most-one-committed-mark invariant); otherwise the cell takes
    /// the mover's committed mark and the turn flips. The phase is
    /// never changed here: the caller drives it from the verdict.
    pub fn commit(&mut self, index: usize) -> (r: Result<(), GameError>)
        requires
            old(self).wf(),
        ensures
            final(self).wf(),
            final(self).phase() == old(self).phase(),
            index >= 9 ==> r == Err::<(), GameError>(GameError::OutOfRange) && final(self).cells()
                == old(self).cells() && final(self).turn() == old(self).turn(),
            index < 9 && is_committed(old(self).cells()[index as int]) ==> r == Err::<(), GameError>(
                GameError::IllegalMove,
            ) && final(self).cells() == old(self).cells() && final(self).turn() == old(self).turn(),
            index < 9 && !is_committed(old(self).cells()[index as int]) ==> r == Ok::<(), GameError>(
                (),
            ) && final(self).cells() == old(self).cells().update(
                index as int,
                mark_of(old(self).turn()),
            ) && final(self).turn() == flip(old(self).turn()),
    {
        if index >= 9 {
            return Err(GameError::OutOfRange);
        }
        if self.board.mark_at(index).committed() {
            return Err(GameError::IllegalMove);
        }
        let mover = self.ctrl.turn;
        self.board.set(index, mover.committed_mark());
        let r = self.ctrl.commit_move(mover);
        assert(r is Ok);
        Ok(())
    }

    /// One frame of the fixed control flow: pointer input drives move
    /// resolution, the win detector evaluates the updated board, and
    /// on a `Winner` or `Draw` the phase enters `GameOver`. Outside
    /// `Playing` the frame changes nothing and only reports the
    /// current verdict.
    pub fn frame(&mut self, ptr: PointerState, click: bool) -> (v: Verdict)
        requires
            old(self).wf(),
        ensures
            final(self).wf(),
            old(self).phase() != Phase::Playing ==> final(self).cells() == old(self).cells()
                && final(self).turn() == old(self).turn() && final(self).phase() == old(
                self,
            ).phase() && v == spec_evaluate(old(self).cells()),
            old(self).phase() == Phase::Playing ==> final(self).cells() == resolve_spec(
                old(self).cells(),
                ptr,
                click,
                old(self).turn(),
            ).0 && v == spec_evaluate(final(self).cells()) && final(self).turn() == (if resolve_spec(
                old(self).cells(),
                ptr,
                click,
                old(self).turn(),
            ).1 is Some {
                flip(old(self).turn())
            } else {
                old(self).turn()
            }) && final(self).phase() == (if v is NoWinner {
                Phase::Playing
            } else {
                Phase::GameOver
            }),
    {
        if self.ctrl.phase != Phase::Playing {
            return evaluate(&self.board);
        }
        let _committed = resolve_frame(&mut self.board, &mut self.ctrl, ptr, click);
        let v = evaluate(&self.board);
        match v {
            Verdict::NoWinner => {},
            _ => {
                self.ctrl.enter_game_over();
            },
        }
        v
    }

    /// Explicit restart request; see [`TurnController::request_restart`].
    pub fn request_restart(&mut self)
        requires
            old(self).wf(),
        ensures
            final(self).wf(),
            final(self).cells() == old(self).cells(),
            final(self).turn() == old(self).turn(),
            final(self).phase() == (if old(self).phase() == Phase::GameOver {
                Phase::Restarting
            } else {
                old(self).phase()
            }),
    {
        self.ctrl.request_restart();
    }

    /// Restart: clears the whole board, resets the turn to X-to-move
    /// and returns the phase to `Playing`.
    pub fn restart(&mut self)
        requires
            old(self).wf(),
        ensures
            final(self).wf(),
            board_empty(final(self).cells()),
            final(self).turn() == Player::X,
            final(self).phase() == Phase::Playing,
    {
        self.ctrl.restart(&mut self.board);
    }

    /// The per-cell render snapshot: each cell's mark, and whether it
    /// belongs to the detected winning line.
    pub fn snapshot(&self) -> (s: Vec<CellView>)
        requires
            self.wf(),
        ensures
            s@.len() == 9,
            forall|j: int|
                0 <= j < 9 ==> s@[j] == (CellView {
                    mark: self.cells()[j],
                    highlighted: highlight_of(spec_evaluate(self.cells()), j),
                }),
    {
        let v = evaluate(&self.board);
        let mut s: Vec<CellView> = Vec::new();
        let mut i: usize = 0;
        while i < 9
            invariant
                self.wf(),
                i <= 9,
                s@.len() == i,
                v == spec_evaluate(self.cells()),
                forall|j: int|
                    0 <= j < i ==> s@[j] == (CellView {
                        mark: self.cells()[j],
                        highlighted: highlight_of(v, j),
                    }),
            decreases 9 - i,
        {
            let highlighted = match v {
                Verdict::Winner { line, .. } => line.a == i || line.b == i || line.c == i,
                _ => false,
            };
            s.push(CellView { mark: self.board.mark_at(i), highlighted });
            i = i + 1;
        }
        s
    }

    /// The status banner: `waiting` before the start and while
    /// restarting, whose move it is during play, and the outcome once
    /// the game is over.
    pub fn status(&self) -> (s: String)
        requires
            self.wf(),
        ensures
            s@ == spec_status(self.phase(), self.turn(), spec_evaluate(self.cells())),
    {
        match self.ctrl.phase {
            Phase::WaitingToStart | Phase::Restarting => "waiting".to_owned(),
            Phase::GameOver => {
                let v = evaluate(&self.board);
                match v {
                    Verdict::Winner { player, .. } => if player == Player::X {
                        "X wins".to_owned()
                    } else {
                        "O wins".to_owned()
                    },
                    _ => "draw".to_owned(),
                }
            },
            Phase::Playing => if self.ctrl.turn == Player::X {
                "X to move".to_owned()
            } else {
                "O to move".to_owned()
            },
        }
    }
}

} // verus!
