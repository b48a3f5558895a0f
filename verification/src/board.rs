//! The 9-cell board: cell marks, the error taxonomy, and the board value
//! container with read/write-by-index, fullness test and reset.

use vstd::prelude::*;

verus! {

/// The content of one board cell. Preview marks are transient hover hints;
/// only the two committed marks count toward win and draw detection.
#[derive(Clone, Copy, Debug, PartialEq, Eq, Structural)]
pub enum CellMark {
    Empty,
    PreviewX,
    PreviewO,
    CommittedX,
    CommittedO,
}

/// The whole error taxonomy: an index outside 0..=8, or an attempt to
/// commit that the turn-taking rules reject.
#[derive(Clone, Copy, Debug, PartialEq, Eq, Structural)]
pub enum GameError {
    OutOfRange,
    IllegalMove,
}

/// A mark that counts toward win and draw detection.
pub open spec fn is_committed(m: CellMark) -> bool {
    m == CellMark::CommittedX || m == CellMark::CommittedO
}

/// A cell the move resolver may still touch: empty or holding a
/// transient preview.
pub open spec fn is_eligible(m: CellMark) -> bool {
    !is_committed(m)
}

impl CellMark {
    /// Runtime test for [`is_committed`].
    pub fn committed(&self) -> (r: bool)
        ensures
            r == is_committed(*self),
    {
        *self == CellMark::CommittedX || *self == CellMark::CommittedO
    }

    /// Runtime test for [`is_eligible`].
    pub fn eligible(&self) -> (r: bool)
        ensures
            r == is_eligible(*self),
    {
        !self.committed()
    }
}

/// Every cell of the board is committed: no further move is possible.
pub open spec fn board_full(b: Seq<CellMark>) -> bool {
    forall|i: int| 0 <= i < 9 ==> is_committed(b[i])
}

/// Every cell of the board is empty, as right after a restart.
pub open spec fn board_empty(b: Seq<CellMark>) -> bool {
    forall|i: int| 0 <= i < 9 ==> b[i] == CellMark::Empty
}

/// An ordered sequence of exactly 9 cells, indices 0 to 8, row-major
/// (0, 1, 2 is the top row; 6, 7, 8 the bottom row). Purely a value
/// container plus accessors; callers enforce move legality.
pub struct Board {
    cells: Vec<CellMark>,
}

impl View for Board {
    type V = Seq<CellMark>;

    closed spec fn view(&self) -> Seq<CellMark> {
        self.cells@
    }
}

impl Board {
    /// The board holds exactly its 9 cells.
    pub open spec fn wf(&self) -> bool {
        self@.len() == 9
    }

    /// A fresh, all-empty board.
    pub fn new() -> (b: Board)
        ensures
            b.wf(),
            board_empty(b@),
    {
        let mut cells: Vec<CellMark> = Vec::new();
        let mut i: usize = 0;
        while i < 9
            invariant
                i <= 9,
                cells@.len() == i,
                forall|j: int| 0 <= j < i ==> cells@[j] == CellMark::Empty,
            decreases 9 - i,
        {
            cells.push(CellMark::Empty);
            i = i + 1;
        }
        Board { cells }
    }

    /// The mark at `index`, or `OutOfRange` for an index outside 0..=8.
    pub fn get(&self, index: usize) -> (r: Result<CellMark, GameError>)
        requires
            self.wf(),
        ensures
            index < 9 ==> r == Ok::<CellMark, GameError>(self@[index as int]),
            index >= 9 ==> r == Err::<CellMark, GameError>(GameError::OutOfRange),
    {
        if index < 9 {
            Ok(self.cells[index])
        } else {
            Err(GameError::OutOfRange)
        }
    }

    /// The mark at a known-good index.
    pub fn mark_at(&self, index: usize) -> (m: CellMark)
        requires
            self.wf(),
            index < 9,
        ensures
            m == self@[index as int],
    {
        self.cells[index]
    }

    /// Unconditional write; callers enforce legality.
    pub fn set(&mut self, index: usize, mark: CellMark)
        requires
            old(self).wf(),
            index < 9,
        ensures
            final(self).wf(),
            final(self)@ == old(self)@.update(index as int, mark),
    {
        self.cells[index] = mark;
    }

    /// True iff every cell holds a committed mark.
    pub fn is_full(&self) -> (r: bool)
        requires
            self.wf(),
        ensures
            r == board_full(self@),
    {
        let mut i: usize = 0;
        while i < 9
            invariant
                self.wf(),
                i <= 9,
                forall|j: int| 0 <= j < i ==> is_committed(self@[j]),
            decreases 9 - i,
        {
            if self.cells[i].eligible() {
                return false;
            }
            i = i + 1;
        }
        true
    }

    /// Sets all 9 cells back to `Empty`.
    pub fn reset(&mut self)
        requires
            old(self).wf(),
        ensures
            final(self).wf(),
            board_empty(final(self)@),
    {
        let mut i: usize = 0;
        while i < 9
            invariant
                self.wf(),
                i <= 9,
                forall|j: int| 0 <= j < i ==> self@[j] == CellMark::Empty,
            decreases 9 - i,
        {
            self.set(i, CellMark::Empty);
            i = i + 1;
        }
    }
}

} // verus!
