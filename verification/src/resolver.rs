//! Pointer-driven move resolution: one frame's pointer state and click
//! signal become at most one committed move plus hover-preview
//! bookkeeping on every still-open cell.

use vstd::prelude::*;

use crate::board::Board;
use crate::board::CellMark;
use crate::board::is_committed;
use crate::board::is_eligible;
use crate::turn::Player;
use crate::turn::TurnController;
use crate::turn::flip;
use crate::turn::mark_of;
use crate::turn::preview_of;

verus! {

/// The side length of one cell's bounding box, in board-local units.
pub const CELL_SIZE: i32 = 100;

/// Per-frame pointer input in board-local coordinates. `moved` says
/// whether the cursor has moved at least once this session: a cursor
/// that never moved must not trigger any hover or preview behavior.
#[derive(Clone, Copy, Debug, PartialEq, Eq, Structural)]
pub struct PointerState {
    pub x: i32,
    pub y: i32,
    pub moved: bool,
}

/// Axis-aligned containment of the point in cell `i`'s bounding box.
/// Cell `i` sits at row `i / 3`, column `i % 3` of the grid.
pub open spec fn cell_contains(i: int, x: int, y: int) -> bool {
    let left = (i % 3) * CELL_SIZE;
    let top = (i / 3) * CELL_SIZE;
    left <= x < left + CELL_SIZE && top <= y < top + CELL_SIZE
}

/// Runtime counterpart of [`cell_contains`].
pub fn pointer_over_cell(index: usize, x: i32, y: i32) -> (r: bool)
    requires
        index < 9,
    ensures
        r == cell_contains(index as int, x as int, y as int),
{
    let left = (index as i32 % 3) * CELL_SIZE;
    let top = (index as i32 / 3) * CELL_SIZE;
    left <= x && x < left + CELL_SIZE && top <= y && y < top + CELL_SIZE
}

/// One frame of move resolution over cells `i`, `i + 1`, ..., `8` of
/// board `b`, with `t` to move: the resulting cells, paired with the
/// index of the committed cell, if any. Committed cells and, while the
/// pointer has never moved, all cells are left untouched; an open cell
/// under the pointer takes `t`'s committed mark on a click, ending the
/// frame at once, or `t`'s preview mark without one; an open cell away
/// from the pointer is cleared of any stale preview.
pub open spec fn resolve_from(
    b: Seq<CellMark>,
    i: int,
    ptr: PointerState,
    click: bool,
    t: Player,
) -> (Seq<CellMark>, Option<int>)
    decreases 9 - i,
{
    if i < 0 || i >= 9 {
        (b, None::<int>)
    } else if is_eligible(b[i]) && ptr.moved {
        if cell_contains(i, ptr.x as int, ptr.y as int) {
            if click {
                (b.update(i, mark_of(t)), Some(i))
            } else {
                resolve_from(b.update(i, preview_of(t)), i + 1, ptr, click, t)
            }
        } else {
            resolve_from(b.update(i, CellMark::Empty), i + 1, ptr, click, t)
        }
    } else {
        resolve_from(b, i + 1, ptr, click, t)
    }
}

/// One whole frame of move resolution, over all 9 cells.
pub open spec fn resolve_spec(b: Seq<CellMark>, ptr: PointerState, click: bool, t: Player) -> (
    Seq<CellMark>,
    Option<int>,
) {
    resolve_from(b, 0, ptr, click, t)
}

/// What one frame without a click leaves in a cell that held `m`:
/// hover bookkeeping only. An untouched cell keeps `m`; an open cell
/// under a moved pointer takes `t`'s preview mark, and one away from
/// it is cleared.
pub open spec fn hover_mark(m: CellMark, hovered: bool, moved: bool, t: Player) -> CellMark {
    if is_eligible(m) && moved {
        if hovered {
            preview_of(t)
        } else {
            CellMark::Empty
        }
    } else {
        m
    }
}

proof fn lemma_preserves_committed_from(
    b: Seq<CellMark>,
    i: int,
    ptr: PointerState,
    click: bool,
    t: Player,
)
    requires
        0 <= i <= 9,
        b.len() == 9,
    ensures
        resolve_from(b, i, ptr, click, t).0.len() == 9,
        forall|j: int|
            0 <= j < 9 && is_committed(b[j]) ==> resolve_from(b, i, ptr, click, t).0[j] == b[j],
    decreases 9 - i,
{
    if i < 9 {
        if is_eligible(b[i]) && ptr.moved {
            if cell_contains(i, ptr.x as int, ptr.y as int) {
                if !click {
                    let bp = b.update(i, preview_of(t));
                    lemma_preserves_committed_from(bp, i + 1, ptr, click, t);
                    assert forall|j: int| 0 <= j < 9 && is_committed(b[j]) implies resolve_from(
                        b,
                        i,
                        ptr,
                        click,
                        t,
                    ).0[j] == b[j] by {
                        assert(bp[j] == b[j]);
                    }
                }
            } else {
                let bp = b.update(i, CellMark::Empty);
                lemma_preserves_committed_from(bp, i + 1, ptr, click, t);
                assert forall|j: int| 0 <= j < 9 && is_committed(b[j]) implies resolve_from(
                    b,
                    i,
                    ptr,
                    click,
                    t,
                ).0[j] == b[j] by {
                    assert(bp[j] == b[j]);
                }
            }
        } else {
            lemma_preserves_committed_from(b, i + 1, ptr, click, t);
        }
    }
}

/// A cell, once committed, is never altered by a frame of move
/// resolution: only a restart clears committed marks.
pub proof fn lemma_frame_preserves_committed(
    b: Seq<CellMark>,
    ptr: PointerState,
    click: bool,
    t: Player,
)
    requires
        b.len() == 9,
    ensures
        resolve_spec(b, ptr, click, t).0.len() == 9,
        forall|j: int|
            0 <= j < 9 && is_committed(b[j]) ==> resolve_spec(b, ptr, click, t).0[j] == b[j],
{
    lemma_preserves_committed_from(b, 0, ptr, click, t);
}

/// One frame's input: the pointer state, the click signal, and the
/// player to move.
pub struct FrameInput {
    pub ptr: PointerState,
    pub click: bool,
    pub turn: Player,
}

/// The cells left after running one frame of move resolution for each
/// input in turn.
pub open spec fn frames_from(b: Seq<CellMark>, inputs: Seq<FrameInput>) -> Seq<CellMark>
    decreases inputs.len(),
{
    if inputs.len() == 0 {
        b
    } else {
        frames_from(
            resolve_spec(b, inputs[0].ptr, inputs[0].click, inputs[0].turn).0,
            inputs.drop_first(),
        )
    }
}

/// A cell, once committed, is never altered by any number of later
/// move-resolution passes, whatever pointer input and click signals
/// they carry: only a restart clears committed marks.
pub proof fn lemma_committed_cells_survive_frames(b: Seq<CellMark>, inputs: Seq<FrameInput>)
    requires
        b.len() == 9,
    ensures
        frames_from(b, inputs).len() == 9,
        forall|j: int| 0 <= j < 9 && is_committed(b[j]) ==> frames_from(b, inputs)[j] == b[j],
    decreases inputs.len(),
{
    if inputs.len() > 0 {
        let b1 = resolve_spec(b, inputs[0].ptr, inputs[0].click, inputs[0].turn).0;
        lemma_frame_preserves_committed(b, inputs[0].ptr, inputs[0].click, inputs[0].turn);
        lemma_committed_cells_survive_frames(b1, inputs.drop_first());
    }
}

proof fn lemma_no_click_from(b: Seq<CellMark>, i: int, ptr: PointerState, t: Player)
    requires
        0 <= i <= 9,
        b.len() == 9,
    ensures
        resolve_from(b, i, ptr, false, t).1 is None,
        resolve_from(b, i, ptr, false, t).0.len() == 9,
        forall|j: int| 0 <= j < i ==> resolve_from(b, i, ptr, false, t).0[j] == b[j],
        forall|j: int|
            i <= j < 9 ==> resolve_from(b, i, ptr, false, t).0[j] == hover_mark(
                b[j],
                cell_contains(j, ptr.x as int, ptr.y as int),
                ptr.moved,
                t,
            ),
    decreases 9 - i,
{
    if i < 9 {
        if is_eligible(b[i]) && ptr.moved {
            if cell_contains(i, ptr.x as int, ptr.y as int) {
                lemma_no_click_from(b.update(i, preview_of(t)), i + 1, ptr, t);
            } else {
                lemma_no_click_from(b.update(i, CellMark::Empty), i + 1, ptr, t);
            }
        } else {
            lemma_no_click_from(b, i + 1, ptr, t);
        }
    }
}

/// A frame without a click commits nothing and does pure hover
/// bookkeeping, cell by cell: an open cell under a moved pointer shows
/// the mover's preview, an open cell away from it is cleared of any
/// stale preview, and every other cell is untouched.
pub proof fn lemma_no_click_frame(b: Seq<CellMark>, ptr: PointerState, t: Player)
    requires
        b.len() == 9,
    ensures
        resolve_spec(b, ptr, false, t).1 is None,
        resolve_spec(b, ptr, false, t).0.len() == 9,
        forall|j: int|
            0 <= j < 9 ==> resolve_spec(b, ptr, false, t).0[j] == hover_mark(
                b[j],
                cell_contains(j, ptr.x as int, ptr.y as int),
                ptr.moved,
                t,
            ),
{
    lemma_no_click_from(b, 0, ptr, t);
}

proof fn lemma_commit_from(b: Seq<CellMark>, i: int, ptr: PointerState, click: bool, t: Player)
    requires
        0 <= i <= 9,
        b.len() == 9,
    ensures
        (resolve_from(b, i, ptr, click, t).1 is Some) <==> (click && ptr.moved && (exists|j: int|
            #![auto]
            i <= j < 9 && is_eligible(b[j]) && cell_contains(j, ptr.x as int, ptr.y as int))),
        resolve_from(b, i, ptr, click, t).1 matches Some(j) ==> i <= j < 9 && is_eligible(b[j])
            && cell_contains(j, ptr.x as int, ptr.y as int) && (forall|m: int|
            #![auto]
            i <= m < j && is_eligible(b[m]) ==> !cell_contains(m, ptr.x as int, ptr.y as int))
            && resolve_from(b, i, ptr, click, t).0[j] == mark_of(t),
    decreases 9 - i,
{
    if i < 9 {
        if is_eligible(b[i]) && ptr.moved {
            if cell_contains(i, ptr.x as int, ptr.y as int) {
                if !click {
                    lemma_commit_from(b.update(i, preview_of(t)), i + 1, ptr, click, t);
                }
            } else {
                lemma_commit_from(b.update(i, CellMark::Empty), i + 1, ptr, click, t);
            }
        } else {
            lemma_commit_from(b, i + 1, ptr, click, t);
        }
    }
}

/// A frame commits exactly when a click is active, the pointer has
/// moved, and some open cell contains the pointer; the committed cell
/// is then the first such cell in index order, and it takes the
/// mover's committed mark.
pub proof fn lemma_frame_commit(b: Seq<CellMark>, ptr: PointerState, click: bool, t: Player)
    requires
        b.len() == 9,
    ensures
        (resolve_spec(b, ptr, click, t).1 is Some) <==> (click && ptr.moved && (exists|j: int|
            #![auto]
            0 <= j < 9 && is_eligible(b[j]) && cell_contains(j, ptr.x as int, ptr.y as int))),
        resolve_spec(b, ptr, click, t).1 matches Some(j) ==> 0 <= j < 9 && is_eligible(b[j])
            && cell_contains(j, ptr.x as int, ptr.y as int) && (forall|m: int|
            #![auto]
            0 <= m < j && is_eligible(b[m]) ==> !cell_contains(m, ptr.x as int, ptr.y as int))
            && resolve_spec(b, ptr, click, t).0[j] == mark_of(t),
{
    lemma_commit_from(b, 0, ptr, click, t);
}

proof fn lemma_one_commit_from(b: Seq<CellMark>, i: int, ptr: PointerState, click: bool, t: Player)
    requires
        0 <= i <= 9,
        b.len() == 9,
    ensures
        forall|j: int|
            0 <= j < 9 && is_committed(resolve_from(b, i, ptr, click, t).0[j]) ==> is_committed(
                b[j],
            ) || resolve_from(b, i, ptr, click, t).1 == Some(j),
    decreases 9 - i,
{
    if i < 9 {
        if is_eligible(b[i]) && ptr.moved {
            if cell_contains(i, ptr.x as int, ptr.y as int) {
                if !click {
                    let bp = b.update(i, preview_of(t));
                    lemma_one_commit_from(bp, i + 1, ptr, click, t);
                    assert forall|j: int|
                        0 <= j < 9 && is_committed(
                            resolve_from(b, i, ptr, click, t).0[j],
                        ) implies is_committed(b[j]) || resolve_from(b, i, ptr, click, t).1 == Some(
                        j,
                    ) by {
                        assert(is_committed(bp[j]) ==> is_committed(b[j]));
                    }
                }
            } else {
                let bp = b.update(i, CellMark::Empty);
                lemma_one_commit_from(bp, i + 1, ptr, click, t);
                assert forall|j: int|
                    0 <= j < 9 && is_committed(
                        resolve_from(b, i, ptr, click, t).0[j],
                    ) implies is_committed(b[j]) || resolve_from(b, i, ptr, click, t).1 == Some(
                    j,
                ) by {
                    assert(is_committed(bp[j]) ==> is_committed(b[j]));
                }
            }
        } else {
            lemma_one_commit_from(b, i + 1, ptr, click, t);
        }
    }
}

/// At most one cell commits per frame, however many cells the pointer
/// overlaps: every cell committed after the frame was either already
/// committed before it or is the single cell the frame reports.
pub proof fn lemma_frame_commits_at_most_one(
    b: Seq<CellMark>,
    ptr: PointerState,
    click: bool,
    t: Player,
)
    requires
        b.len() == 9,
    ensures
        forall|j: int|
            0 <= j < 9 && is_committed(resolve_spec(b, ptr, click, t).0[j]) ==> is_committed(b[j])
                || resolve_spec(b, ptr, click, t).1 == Some(j),
{
    lemma_one_commit_from(b, 0, ptr, click, t);
}

/// Scans the 9 cells in index order, updating each still-open cell
/// from the pointer, and commits at most one move: the first open cell
/// under the pointer when a click is active. On a commit the turn
/// flips through the controller and the scan stops at once; the phase
/// never changes here.
pub fn resolve_frame(
    board: &mut Board,
    ctrl: &mut TurnController,
    ptr: PointerState,
    click: bool,
) -> (committed: Option<usize>)
    requires
        old(board).wf(),
    ensures
        final(board).wf(),
        final(board)@ == resolve_spec(old(board)@, ptr, click, old(ctrl).turn).0,
        resolve_spec(old(board)@, ptr, click, old(ctrl).turn).1 == (match committed {
            Some(i) => Some(i as int),
            None => None::<int>,
        }),
        final(ctrl).turn == (if committed is Some {
            flip(old(ctrl).turn)
        } else {
            old(ctrl).turn
        }),
        final(ctrl).phase == old(ctrl).phase,
{
    let ghost b0 = board@;
    let ghost t0 = ctrl.turn;
    let mut i: usize = 0;
    while i < 9
        invariant
            board.wf(),
            i <= 9,
            ctrl == old(ctrl),
            t0 == old(ctrl).turn,
            resolve_from(board@, i as int, ptr, click, t0) == resolve_spec(b0, ptr, click, t0),
            b0 == old(board)@,
        decreases 9 - i,
    {
        let mark = board.mark_at(i);
        if mark.eligible() && ptr.moved {
            if pointer_over_cell(i, ptr.x, ptr.y) {
                if click {
                    let mover = ctrl.turn;
                    board.set(i, mover.committed_mark());
                    let r = ctrl.commit_move(mover);
                    assert(r is Ok);
                    return Some(i);
                } else {
                    board.set(i, ctrl.turn.preview_mark());
                }
            } else {
                board.set(i, CellMark::Empty);
            }
        }
        i = i + 1;
    }
    None
}

} // verus!
