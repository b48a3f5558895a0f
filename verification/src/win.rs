//! Win and draw detection: the eight fixed winning lines, the verdict,
//! and the pure evaluation scanning the lines in a fixed order.

use vstd::prelude::*;

use crate::board::Board;
use crate::board::CellMark;
use crate::board::board_empty;
use crate::board::board_full;
use crate::board::is_committed;
use crate::turn::Player;
use crate::turn::mark_of;

verus! {

/// The outcome of evaluating a board.
#[derive(Clone, Copy, Debug, PartialEq, Eq, Structural)]
pub enum Verdict {
    /// No line is complete and the board still has room.
    NoWinner,
    /// No line is complete and the board is full.
    Draw,
    /// `player` holds all three cells of `line`, the first such line in
    /// row/column/diagonal enumeration order.
    Winner { player: Player, line: Line },
}

/// One of the eight fixed winning index triples.
#[derive(Clone, Copy, Debug, PartialEq, Eq, Structural)]
pub struct Line {
    pub a: usize,
    pub b: usize,
    pub c: usize,
}

/// The `k`-th winning line, for `k` in 0..8: rows, then columns, then
/// diagonals.
pub open spec fn line_cells(k: int) -> Line {
    if k == 0 {
        Line { a: 0, b: 1, c: 2 }
    } else if k == 1 {
        Line { a: 3, b: 4, c: 5 }
    } else if k == 2 {
        Line { a: 6, b: 7, c: 8 }
    } else if k == 3 {
        Line { a: 0, b: 3, c: 6 }
    } else if k == 4 {
        Line { a: 1, b: 4, c: 7 }
    } else if k == 5 {
        Line { a: 2, b: 5, c: 8 }
    } else if k == 6 {
        Line { a: 0, b: 4, c: 8 }
    } else {
        Line { a: 2, b: 4, c: 6 }
    }
}

/// All three cells of line `k` hold the committed mark of player `p`.
pub open spec fn line_won_by(b: Seq<CellMark>, k: int, p: Player) -> bool {
    &&& b[line_cells(k).a as int] == mark_of(p)
    &&& b[line_cells(k).b as int] == mark_of(p)
    &&& b[line_cells(k).c as int] == mark_of(p)
}

/// Some player holds all three cells of line `k`.
pub open spec fn line_wins(b: Seq<CellMark>, k: int) -> bool {
    line_won_by(b, k, Player::X) || line_won_by(b, k, Player::O)
}

/// The verdict reached by scanning lines `k`, `k + 1`, ... in order and
/// stopping at the first complete one.
pub open spec fn winner_from(b: Seq<CellMark>, k: int) -> Verdict
    decreases 8 - k,
{
    if k < 0 || k >= 8 {
        if board_full(b) {
            Verdict::Draw
        } else {
            Verdict::NoWinner
        }
    } else if line_won_by(b, k, Player::X) {
        Verdict::Winner { player: Player::X, line: line_cells(k) }
    } else if line_won_by(b, k, Player::O) {
        Verdict::Winner { player: Player::O, line: line_cells(k) }
    } else {
        winner_from(b, k + 1)
    }
}

/// What `evaluate` returns: the first complete line in enumeration
/// order, else `Draw` on a full board, else `NoWinner`.
pub open spec fn spec_evaluate(b: Seq<CellMark>) -> Verdict {
    winner_from(b, 0)
}

/// Runtime counterpart of [`line_cells`].
pub fn line_indices(k: usize) -> (t: Line)
    requires
        k < 8,
    ensures
        t == line_cells(k as int),
        t.a < 9 && t.b < 9 && t.c < 9,
{
    if k == 0 {
        Line { a: 0, b: 1, c: 2 }
    } else if k == 1 {
        Line { a: 3, b: 4, c: 5 }
    } else if k == 2 {
        Line { a: 6, b: 7, c: 8 }
    } else if k == 3 {
        Line { a: 0, b: 3, c: 6 }
    } else if k == 4 {
        Line { a: 1, b: 4, c: 7 }
    } else if k == 5 {
        Line { a: 2, b: 5, c: 8 }
    } else if k == 6 {
        Line { a: 0, b: 4, c: 8 }
    } else {
        Line { a: 2, b: 4, c: 6 }
    }
}

/// Characterizes the scan of lines `k`, `k + 1`, ...: a `Winner`
/// verdict comes exactly from the first complete line at or after `k`,
/// and any other verdict is `Draw` or `NoWinner` by fullness.
proof fn lemma_scan(b: Seq<CellMark>, k: int)
    requires
        0 <= k <= 8,
        b.len() == 9,
    ensures
        (winner_from(b, k) is Winner) <==> (exists|j: int| k <= j < 8 && #[trigger] line_wins(b, j)),
        winner_from(b, k) matches Verdict::Winner { player, line } ==> (exists|j: int| #![auto]
            k <= j < 8 && line == line_cells(j) && line_won_by(b, j, player) && (forall|m: int|
                k <= m < j ==> !line_wins(b, m))),
        !(winner_from(b, k) is Winner) ==> winner_from(b, k) == (if board_full(b) {
            Verdict::Draw
        } else {
            Verdict::NoWinner
        }),
    decreases 8 - k,
{
    if k < 8 {
        lemma_scan(b, k + 1);
        let v = winner_from(b, k);
        if line_wins(b, k) {
            assert(v is Winner && v->line == line_cells(k) && line_won_by(b, k, v->player));
            assert(k <= k < 8 && v->line == line_cells(k) && line_won_by(b, k, v->player) && (
            forall|m: int| k <= m < k ==> !line_wins(b, m)));
        } else {
            assert(v == winner_from(b, k + 1));
            if v is Winner {
                let p = v->player;
                let l = v->line;
                let j = choose|j: int| #![auto]
                    k + 1 <= j < 8 && l == line_cells(j) && line_won_by(b, j, p) && (forall|m: int|
                        k + 1 <= m < j ==> !line_wins(b, m));
                assert(forall|m: int| k <= m < j ==> !line_wins(b, m));
                assert(k <= j < 8 && l == line_cells(j) && line_won_by(b, j, p) && (forall|m: int|
                    k <= m < j ==> !line_wins(b, m)));
            }
        }
    }
}

/// `evaluate` returns `Winner` only for a line whose three cells hold
/// the same committed mark, and then for the first such line in the
/// row/column/diagonal enumeration order.
pub proof fn lemma_winner_is_first_winning_line(b: Seq<CellMark>, p: Player, l: Line)
    requires
        b.len() == 9,
        spec_evaluate(b) == (Verdict::Winner { player: p, line: l }),
    ensures
        exists|k: int| #![auto]
            0 <= k < 8 && l == line_cells(k) && line_won_by(b, k, p) && (forall|j: int|
                0 <= j < k ==> !line_wins(b, j)),
{
    lemma_scan(b, 0);
}

/// Conversely, wherever some line is complete, `evaluate` does report a
/// winner.
pub proof fn lemma_winning_line_gives_winner(b: Seq<CellMark>, k: int)
    requires
        b.len() == 9,
        0 <= k < 8,
        line_wins(b, k),
    ensures
        spec_evaluate(b) is Winner,
{
    lemma_scan(b, 0);
}

/// With no complete line anywhere, the verdict is decided by fullness
/// alone.
pub proof fn lemma_no_winning_line_verdict(b: Seq<CellMark>)
    requires
        b.len() == 9,
        forall|k: int| 0 <= k < 8 ==> !#[trigger] line_wins(b, k),
    ensures
        spec_evaluate(b) == (if board_full(b) {
            Verdict::Draw
        } else {
            Verdict::NoWinner
        }),
{
    lemma_scan(b, 0);
}

/// An all-empty board, as left by a restart, evaluates to `NoWinner`
/// and is not full.
pub proof fn lemma_empty_board_verdict(b: Seq<CellMark>)
    requires
        b.len() == 9,
        board_empty(b),
    ensures
        spec_evaluate(b) == Verdict::NoWinner,
        !board_full(b),
{
    assert(!is_committed(b[0]));
    assert(forall|k: int| 0 <= k < 8 ==> !#[trigger] line_wins(b, k)) by {
        assert(forall|k: int| 0 <= k < 8 ==> #[trigger] line_cells(k).a < 9);
    }
    lemma_no_winning_line_verdict(b);
}

/// Evaluation is a pure function of the cells alone: evaluating the
/// same board twice, with no mutation in between, yields the same
/// verdict both times.
pub proof fn lemma_evaluate_deterministic(b1: Seq<CellMark>, b2: Seq<CellMark>)
    requires
        b1 == b2,
    ensures
        spec_evaluate(b1) == spec_evaluate(b2),
{
}

/// Scans the eight winning lines in the fixed order and returns the
/// verdict. A pure function of the cells: it never mutates anything, so
/// repeated calls agree.
pub fn evaluate(board: &Board) -> (v: Verdict)
    requires
        board.wf(),
    ensures
        v == spec_evaluate(board@),
{
    let mut k: usize = 0;
    while k < 8
        invariant
            board.wf(),
            k <= 8,
            winner_from(board@, k as int) == spec_evaluate(board@),
        decreases 8 - k,
    {
        let line = line_indices(k);
        let ma = board.mark_at(line.a);
        let mb = board.mark_at(line.b);
        let mc = board.mark_at(line.c);
        if ma == CellMark::CommittedX && mb == CellMark::CommittedX && mc == CellMark::CommittedX {
            return Verdict::Winner { player: Player::X, line };
        }
        if ma == CellMark::CommittedO && mb == CellMark::CommittedO && mc == CellMark::CommittedO {
            return Verdict::Winner { player: Player::O, line };
        }
        k = k + 1;
    }
    if board.is_full() {
        Verdict::Draw
    } else {
        Verdict::NoWinner
    }
}

} // verus!
